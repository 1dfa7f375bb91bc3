//! Row shapes of the local conversation cache.
pub mod models;
