//! Headless client library for bidirectional Obsidian vault sync.

pub mod text;
pub mod hash;
pub mod protocol;
pub mod json;
pub mod clock;
pub mod echo_cache;
pub mod debounce;
pub mod paths;
pub mod error;
pub mod config;
pub mod ws_client;
pub mod state;
pub mod cli;
pub mod sync;
pub mod watcher;
pub mod timefmt;
pub mod http;
