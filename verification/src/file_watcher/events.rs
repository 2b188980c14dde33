//! The event that the watch engine produces.

use vstd::prelude::*;

verus! {

/// A regular file appeared in the watched directory.
#[derive(Clone, Debug)]
pub struct InternalFileEvent {
    /// Final component of the path.
    pub file_name: String,
    /// The path as the notification source reported it.
    pub full_path: String,
    /// Wall-clock time of the sighting, in milliseconds since the Unix epoch.
    pub occurred_at_ms: i64,
}

/// A file event as a mathematical value.
pub struct FileEventView {
    pub file_name: Seq<char>,
    pub full_path: Seq<char>,
    pub occurred_at_ms: i64,
}

impl View for InternalFileEvent {
    type V = FileEventView;

    open spec fn view(&self) -> FileEventView {
        FileEventView {
            file_name: self.file_name@,
            full_path: self.full_path@,
            occurred_at_ms: self.occurred_at_ms,
        }
    }
}

} // verus!
