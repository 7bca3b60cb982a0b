//! The core of a client for the public timelines of a federated social network:
//! a cache of statuses and images with at most one fetch in flight for each
//! key, the timeline that collects what a stream delivers, and the resolver
//! that turns a status into what a renderer shows.

pub mod app;
pub mod model;
pub mod pages;
pub mod store;
pub mod subscriptions;
pub mod utils;
pub mod widgets;
