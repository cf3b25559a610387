pub mod cache;
pub mod config;
pub mod engine;
pub mod error;
pub mod format;
pub mod mime;
pub mod original;
pub mod path;
pub mod thumbnail;
