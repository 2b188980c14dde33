//! The watch engine: path resolution, classification, deduplication, rate
//! limiting and the worker's life cycle.

pub mod classifier;
pub mod clock;
pub mod engine;
pub mod events;
pub mod handle;
pub mod paths;
pub mod pipeline;
pub mod worker;

pub use classifier::{is_create_file_event, ChangeKind, CreateKind};
pub use clock::now_ms;
pub use engine::{Engine, Verdict};
pub use events::InternalFileEvent;
pub use handle::{start_watcher, WatcherHandle, WorkerExit};
pub use paths::{ensure_default_watch_dir, resolve_watch_dir, DEFAULT_WATCH_FOLDER_NAME};
pub use pipeline::{make_internal_file_event, observe, Candidate, Outcome};
pub use worker::{Worker, WorkerInput, WorkerPhase};
