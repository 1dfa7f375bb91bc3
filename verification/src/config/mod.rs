//! Configuration schema (`config.toml`).
pub mod schema;
pub mod watcher;

pub use schema::Config;
