//! What a renderer is handed.

pub mod status;
