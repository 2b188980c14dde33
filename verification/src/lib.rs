//! Watches one directory for newly created regular files and turns the raw
//! change notifications into a deduplicated, rate-limited stream of
//! "file added" events.
//!
//! Everything in this crate is plain data and decisions: which notifications
//! count, which events pass the engine, how the worker and the session move
//! between their states. Threads, channels and the file system are driven by
//! the caller, which feeds what it observed into these functions.

pub mod error;
pub mod file_watcher;
pub mod api;
pub mod logging;

pub use api::{
    close_file_added_stream, on_file_added, start_watching, stop_watching, FileAddedEvent, Session,
};
