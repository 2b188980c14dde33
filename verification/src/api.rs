//! The operations offered to the layer that bridges to a host process.
//!
//! A [`Session`] has two slots: one for the active watcher and one for the
//! subscriber's sink. At most one of each exists at a time. The caller keeps
//! the session behind its own lock and puts into the slots whatever it needs
//! to stop the watcher and to reach the subscriber.

use crate::error::{ErrorView, LateraError};
use crate::file_watcher::events::{FileEventView, InternalFileEvent};
use crate::file_watcher::handle::{start_view, start_watcher, WatcherHandle};
use crate::file_watcher::paths::{text_view, watch_dir_outcome};
use crate::file_watcher::worker::{Worker, WorkerPhase};
use vstd::prelude::*;
use vstd::std_specs::convert::FromSpecImpl;

verus! {

/// A file was added: the payload that leaves the crate.
#[derive(Clone, Debug)]
pub struct FileAddedEvent {
    pub file_name: String,
    pub full_path: String,
    pub occurred_at_ms: i64,
}

impl View for FileAddedEvent {
    type V = FileEventView;

    open spec fn view(&self) -> FileEventView {
        FileEventView {
            file_name: self.file_name@,
            full_path: self.full_path@,
            occurred_at_ms: self.occurred_at_ms,
        }
    }
}

impl From<InternalFileEvent> for FileAddedEvent {
    fn from(event: InternalFileEvent) -> (payload: FileAddedEvent) {
        FileAddedEvent {
            file_name: event.file_name,
            full_path: event.full_path,
            occurred_at_ms: event.occurred_at_ms,
        }
    }
}

impl FromSpecImpl<InternalFileEvent> for FileAddedEvent {
    open spec fn obeys_from_spec() -> bool {
        true
    }

    open spec fn from_spec(event: InternalFileEvent) -> FileAddedEvent {
        FileAddedEvent {
            file_name: event.file_name,
            full_path: event.full_path,
            occurred_at_ms: event.occurred_at_ms,
        }
    }
}

/// What a start request amounts to: `WatcherAlreadyRunning` while a watcher
/// is active, and otherwise what the watch directory resolves to.
pub open spec fn start_outcome(
    watching: bool,
    override_path: Option<Seq<char>>,
    desktop: Option<Seq<char>>,
) -> Result<Seq<char>, ErrorView> {
    if watching {
        Err(ErrorView::WatcherAlreadyRunning)
    } else {
        watch_dir_outcome(override_path, desktop)
    }
}

/// The two slots of a process: the active watcher and the subscriber's sink.
#[derive(Debug)]
pub struct Session<W, S> {
    watcher: Option<W>,
    sink: Option<S>,
}

impl<W, S> Session<W, S> {
    /// What the watcher slot holds.
    pub closed spec fn watcher_slot(&self) -> Option<W> {
        self.watcher
    }

    /// What the subscriber slot holds.
    pub closed spec fn sink_slot(&self) -> Option<S> {
        self.sink
    }

    /// A session with both slots empty.
    pub fn new() -> (session: Session<W, S>)
        ensures
            session.watcher_slot() is None,
            session.sink_slot() is None,
    {
        Session { watcher: None, sink: None }
    }

    /// Whether a watcher is active.
    pub fn is_watching(&self) -> (yes: bool)
        ensures
            yes == (self.watcher_slot() is Some),
    {
        self.watcher.is_some()
    }

    /// The sink to forward an event to, if anyone has subscribed. With no
    /// subscriber the event is dropped, which is no error.
    pub fn subscriber(&self) -> (sink: Option<&S>)
        ensures
            match sink {
                Some(sink) => self.sink_slot() == Some(*sink),
                None => self.sink_slot() is None,
            },
    {
        self.sink.as_ref()
    }

    /// Puts a started watcher into its slot. A slot that is taken is left as
    /// it is, and the watcher comes back to the caller.
    pub fn watcher_started(&mut self, watcher: W) -> (refused: Option<W>)
        ensures
            final(self).sink_slot() == old(self).sink_slot(),
            match old(self).watcher_slot() {
                Some(_) => refused == Some(watcher) && final(self).watcher_slot() == old(
                    self,
                ).watcher_slot(),
                None => refused is None && final(self).watcher_slot() == Some(watcher),
            },
    {
        if self.watcher.is_some() {
            Some(watcher)
        } else {
            self.watcher = Some(watcher);
            None
        }
    }
}

/// Subscribes `sink` to the stream of added files. It replaces any earlier
/// subscriber, whose sink is handed back for the caller to close.
pub fn on_file_added<W, S>(session: &mut Session<W, S>, sink: S) -> (previous: Option<S>)
    ensures
        final(session).sink_slot() == Some(sink),
        final(session).watcher_slot() == old(session).watcher_slot(),
        previous == old(session).sink_slot(),
{
    let previous = session.sink.take();
    session.sink = Some(sink);
    previous
}

/// Decides a start request. While a watcher is active it fails with
/// `WatcherAlreadyRunning` before anything else is looked at. Otherwise the
/// watch directory is resolved as `start_watcher` does, from the override
/// path and the desktop directory that the platform reported to the caller,
/// and the handle and the worker for it come back. The session itself
/// changes only once the caller reports the started watcher with
/// [`watcher_started`](Session::watcher_started).
pub fn start_watching<W, S>(
    session: &Session<W, S>,
    override_path: Option<String>,
    desktop: Option<String>,
) -> (result: Result<(WatcherHandle, Worker), LateraError>)
    ensures
        start_view(result) == start_outcome(
            session.watcher_slot() is Some,
            text_view(override_path),
            text_view(desktop),
        ),
        result matches Ok((handle, worker)) ==> worker.wf() && worker@.phase == WorkerPhase::Starting
            && worker@.watch_dir == handle.dir(),
{
    if session.watcher.is_some() {
        return Err(LateraError::WatcherAlreadyRunning);
    }
    start_watcher(override_path, desktop)
}

/// Takes the active watcher out of its slot for the caller to stop. Fails
/// with `WatcherNotRunning` when the slot is empty. The subscriber's slot is
/// left alone: it is cleared by [`close_file_added_stream`] once the watcher
/// has stopped and can no longer emit.
pub fn stop_watching<W, S>(session: &mut Session<W, S>) -> (result: Result<W, LateraError>)
    ensures
        final(session).watcher_slot() is None,
        final(session).sink_slot() == old(session).sink_slot(),
        match old(session).watcher_slot() {
            Some(watcher) => result == Ok::<W, LateraError>(watcher),
            None => result matches Err(error) && error@ == ErrorView::WatcherNotRunning,
        },
{
    match session.watcher.take() {
        Some(watcher) => Ok(watcher),
        None => Err(LateraError::WatcherNotRunning),
    }
}

/// Empties the subscriber's slot and hands back the sink, if there was one,
/// for the caller to close.
pub fn close_file_added_stream<W, S>(session: &mut Session<W, S>) -> (closed: Option<S>)
    ensures
        final(session).sink_slot() is None,
        final(session).watcher_slot() == old(session).watcher_slot(),
        closed == old(session).sink_slot(),
{
    session.sink.take()
}

/// Starting again after a clean stop: an idle session decides a start
/// request from the request alone, whatever was started and stopped before.
/// So a request that resolved to a directory once resolves to the same
/// directory when it is made again, and only an active watcher stands in
/// its way.
pub proof fn lemma_idle_session_decides_by_request(
    override_path: Option<Seq<char>>,
    desktop: Option<Seq<char>>,
)
    ensures
        start_outcome(false, override_path, desktop) == watch_dir_outcome(override_path, desktop),
        start_outcome(true, override_path, desktop) == Err::<Seq<char>, ErrorView>(
            ErrorView::WatcherAlreadyRunning,
        ),
{
}

} // verus!
