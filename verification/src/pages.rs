//! The pages of the application.

pub mod public;
