//! Starting a watch session and the handle to stop it again.

use crate::error::{ErrorView, LateraError};
use crate::file_watcher::paths::{resolve_watch_dir, text_view, watch_dir_outcome};
use crate::file_watcher::worker::{Worker, WorkerPhase};
use vstd::prelude::*;

verus! {

/// How the worker's thread ended, as far as the caller could tell when it
/// waited for it.
#[derive(Clone, Copy, Debug, PartialEq, Eq, Structural)]
pub enum WorkerExit {
    /// The thread ran to its end.
    Finished,
    /// The thread panicked.
    Panicked,
    /// There was no thread left to wait for.
    NotJoined,
}

/// The caller's side of a watch session: records the resolved watch
/// directory and is consumed by the one call of `stop`.
#[derive(Debug)]
pub struct WatcherHandle {
    watch_dir: String,
}

impl WatcherHandle {
    /// The resolved watch directory as a mathematical value.
    pub closed spec fn dir(&self) -> Seq<char> {
        self.watch_dir@
    }

    /// The directory this session watches.
    pub fn watch_dir(&self) -> (dir: &str)
        ensures
            dir@ == self.dir(),
    {
        self.watch_dir.as_str()
    }

    /// Concludes the session once the caller has sent the shutdown signal and
    /// waited for the worker's thread. Whether the signal was delivered and
    /// how the thread ended make no difference: a worker that had already
    /// finished, or that panicked, counts as stopped, and the result is `Ok`.
    pub fn stop(self, signal_delivered: bool, exit: WorkerExit) -> (result: Result<(), LateraError>)
        ensures
            result is Ok,
    {
        Ok(())
    }
}

/// What a start attempt amounts to: the directory to watch, or the error.
pub open spec fn start_view(result: Result<(WatcherHandle, Worker), LateraError>) -> Result<
    Seq<char>,
    ErrorView,
> {
    match result {
        Ok((handle, _)) => Ok(handle.dir()),
        Err(error) => Err(error@),
    }
}

/// Prepares a watch session: resolves the directory to watch and hands back
/// the handle for the caller and the worker for the background thread, both
/// bound to that directory. The worker has not subscribed yet.
///
/// `desktop` is the desktop directory that the platform reported to the
/// caller, if any; it is looked at only when there is no override path. The
/// start succeeds exactly when the resolution does, with the directory it
/// gives, and fails with its error otherwise.
pub fn start_watcher(override_path: Option<String>, desktop: Option<String>) -> (result: Result<
    (WatcherHandle, Worker),
    LateraError,
>)
    ensures
        start_view(result) == watch_dir_outcome(text_view(override_path), text_view(desktop)),
        result matches Ok((handle, worker)) ==> worker.wf() && worker@.phase == WorkerPhase::Starting
            && worker@.watch_dir == handle.dir(),
{
    match resolve_watch_dir(override_path, desktop) {
        Ok(watch_dir) => {
            let worker = Worker::new(watch_dir.clone());
            Ok((WatcherHandle { watch_dir }, worker))
        },
        Err(error) => Err(error),
    }
}

} // verus!
