//! The worker's life cycle as a state machine.
//!
//! The caller owns the thread, the subscription and the channels. It tells
//! the worker what it observed, one input at a time, and the worker answers
//! with the outcomes to act on and moves to its next phase:
//! `Starting -> Running -> Stopping -> Stopped`.

use crate::file_watcher::classifier::{is_create_file_event, ChangeKind};
use crate::file_watcher::engine::{Engine, EngineState};
use crate::file_watcher::pipeline::{
    candidate_views,
    engine_after_batch,
    outcome_at,
    process_paths,
    Candidate,
    CandidateView,
    Outcome,
    OutcomeView,
};
use vstd::prelude::*;

verus! {

/// Where a worker is in its life.
#[derive(Clone, Copy, Debug, PartialEq, Eq, Structural)]
pub enum WorkerPhase {
    /// Not yet subscribed to the notification source.
    Starting,
    /// Subscribed and processing notifications.
    Running,
    /// Told to stop, or cut off from the source; the loop is about to end.
    Stopping,
    /// Done. Nothing is processed any more.
    Stopped,
}

/// What the caller observed since the last step.
#[derive(Debug)]
pub enum WorkerInput {
    /// The subscription to the source succeeded at the monotonic instant `at`.
    Subscribed { at: u64 },
    /// The subscription to the source failed.
    SubscribeFailed,
    /// The shutdown signal arrived.
    StopRequested,
    /// No notification arrived within the polling interval.
    Timeout,
    /// The source reported an error in place of a notification.
    SourceError,
    /// The notification channel is gone.
    Disconnected,
    /// A notification arrived, with its kind and what was observed of its
    /// paths.
    Notification { kind: ChangeKind, candidates: Vec<Candidate> },
    /// The caller has left the worker's loop.
    Exited,
}

/// A worker input as a mathematical value.
pub enum WorkerInputView {
    Subscribed { at: u64 },
    SubscribeFailed,
    StopRequested,
    Timeout,
    SourceError,
    Disconnected,
    Notification { kind: ChangeKind, candidates: Seq<CandidateView> },
    Exited,
}

impl View for WorkerInput {
    type V = WorkerInputView;

    open spec fn view(&self) -> WorkerInputView {
        match *self {
            WorkerInput::Subscribed { at } => WorkerInputView::Subscribed { at },
            WorkerInput::SubscribeFailed => WorkerInputView::SubscribeFailed,
            WorkerInput::StopRequested => WorkerInputView::StopRequested,
            WorkerInput::Timeout => WorkerInputView::Timeout,
            WorkerInput::SourceError => WorkerInputView::SourceError,
            WorkerInput::Disconnected => WorkerInputView::Disconnected,
            WorkerInput::Notification { kind, candidates } => WorkerInputView::Notification {
                kind,
                candidates: candidate_views(candidates@),
            },
            WorkerInput::Exited => WorkerInputView::Exited,
        }
    }
}

/// A worker as a mathematical value.
#[verifier::ext_equal]
pub struct WorkerView {
    pub phase: WorkerPhase,
    pub engine: EngineState,
    pub watch_dir: Seq<char>,
}

/// The engine of a worker that has just subscribed at `at`: it remembers
/// nothing, and its first rate window begins then.
pub open spec fn fresh_engine(at: u64) -> EngineState {
    EngineState { last_seen: Map::empty(), window_started_at: at, window_count: 0, cleanup_counter: 0 }
}

/// The phase that follows `phase` on `input`.
///
/// A failed subscription ends the worker before it ever runs. A running
/// worker goes on until it is told to stop or loses its source; errors of
/// the source and quiet intervals change nothing. Leaving the loop ends the
/// worker in whatever phase it was, and a stopped worker stays stopped.
pub open spec fn phase_after(phase: WorkerPhase, input: WorkerInputView) -> WorkerPhase {
    if input is Exited {
        WorkerPhase::Stopped
    } else {
        match phase {
            WorkerPhase::Starting => if input is Subscribed {
                WorkerPhase::Running
            } else if input is SubscribeFailed {
                WorkerPhase::Stopped
            } else {
                WorkerPhase::Starting
            },
            WorkerPhase::Running => if input is StopRequested || input is Disconnected {
                WorkerPhase::Stopping
            } else {
                WorkerPhase::Running
            },
            WorkerPhase::Stopping => WorkerPhase::Stopping,
            WorkerPhase::Stopped => WorkerPhase::Stopped,
        }
    }
}

/// Only a running worker looks at paths, and only at those of a creation
/// notification.
pub open spec fn takes_paths(phase: WorkerPhase, input: WorkerInputView) -> bool {
    phase is Running && input is Notification && input->kind is Create
}

/// The engine of a worker after `input`.
pub open spec fn engine_after(worker: WorkerView, input: WorkerInputView) -> EngineState {
    if takes_paths(worker.phase, input) {
        engine_after_batch(worker.engine, input->candidates)
    } else if worker.phase is Starting && input is Subscribed {
        fresh_engine(input->at)
    } else {
        worker.engine
    }
}

/// The worker after `input`.
pub open spec fn worker_after(worker: WorkerView, input: WorkerInputView) -> WorkerView {
    WorkerView {
        phase: phase_after(worker.phase, input),
        engine: engine_after(worker, input),
        watch_dir: worker.watch_dir,
    }
}

/// The outcomes that a worker hands back for `input`: one per path of a
/// notification it takes, in order, and none for anything else.
pub open spec fn outcomes_of(worker: WorkerView, input: WorkerInputView) -> Seq<OutcomeView> {
    if takes_paths(worker.phase, input) {
        Seq::new(input->candidates.len(), |i: int| outcome_at(worker.engine, input->candidates, i))
    } else {
        Seq::empty()
    }
}

/// The background worker of one watch session.
#[derive(Debug)]
pub struct Worker {
    phase: WorkerPhase,
    engine: Engine,
    watch_dir: String,
}

impl View for Worker {
    type V = WorkerView;

    closed spec fn view(&self) -> WorkerView {
        WorkerView { phase: self.phase, engine: self.engine@, watch_dir: self.watch_dir@ }
    }
}

impl Worker {
    /// The worker's engine is well formed.
    pub closed spec fn wf(&self) -> bool {
        self.engine.wf()
    }

    /// A worker for `watch_dir` that has not subscribed yet.
    pub fn new(watch_dir: String) -> (worker: Worker)
        ensures
            worker.wf(),
            worker@ == (WorkerView {
                phase: WorkerPhase::Starting,
                engine: fresh_engine(0),
                watch_dir: watch_dir@,
            }),
    {
        Worker { phase: WorkerPhase::Starting, engine: Engine::new(0), watch_dir }
    }

    /// The phase the worker is in.
    pub fn phase(&self) -> (phase: WorkerPhase)
        ensures
            phase == self@.phase,
    {
        self.phase
    }

    /// The directory this worker watches.
    pub fn watch_dir(&self) -> (dir: &str)
        ensures
            dir@ == self@.watch_dir,
    {
        self.watch_dir.as_str()
    }

    /// Whether the worker's loop has to go on.
    pub fn is_running(&self) -> (yes: bool)
        ensures
            yes == (self@.phase is Running),
    {
        match self.phase {
            WorkerPhase::Running => true,
            _ => false,
        }
    }

    /// Whether the worker would look at the paths of a notification of this
    /// kind. Where it would not, the caller need not examine them.
    pub fn wants_paths(&self, kind: &ChangeKind) -> (yes: bool)
        ensures
            yes == (self@.phase is Running && *kind is Create),
    {
        self.is_running() && is_create_file_event(kind)
    }

    /// Takes one input: moves to the next phase and hands back what is to be
    /// done with each path, in the paths' order. Only `Forwarded` outcomes go
    /// to the sink.
    pub fn step(&mut self, input: WorkerInput) -> (outcomes: Vec<Outcome>)
        requires
            old(self).wf(),
        ensures
            final(self).wf(),
            final(self)@ == worker_after(old(self)@, input@),
            outcomes@.len() == outcomes_of(old(self)@, input@).len(),
            forall|i: int|
                0 <= i < outcomes@.len() ==> (#[trigger] outcomes@[i])@ == outcomes_of(
                    old(self)@,
                    input@,
                )[i],
    {
        let mut outcomes: Vec<Outcome> = Vec::new();
        match input {
            WorkerInput::Exited => {
                self.phase = WorkerPhase::Stopped;
            },
            WorkerInput::Subscribed { at } => {
                if let WorkerPhase::Starting = self.phase {
                    self.engine = Engine::new(at);
                    self.phase = WorkerPhase::Running;
                }
            },
            WorkerInput::SubscribeFailed => {
                if let WorkerPhase::Starting = self.phase {
                    self.phase = WorkerPhase::Stopped;
                }
            },
            WorkerInput::StopRequested | WorkerInput::Disconnected => {
                if let WorkerPhase::Running = self.phase {
                    self.phase = WorkerPhase::Stopping;
                }
            },
            WorkerInput::Timeout | WorkerInput::SourceError => {},
            WorkerInput::Notification { kind, candidates } => {
                if self.wants_paths(&kind) {
                    outcomes = process_paths(&mut self.engine, candidates);
                }
            },
        }
        outcomes
    }
}

/// A stop request never reports an error and is harmless to repeat: the
/// first one takes a running worker to `Stopping`, and on a worker that is
/// already stopping or stopped it changes nothing and yields no outcome.
pub proof fn lemma_stop_is_idempotent(worker: WorkerView)
    ensures
        outcomes_of(worker, WorkerInputView::StopRequested).len() == 0,
        worker_after(worker_after(worker, WorkerInputView::StopRequested), WorkerInputView::StopRequested)
            == worker_after(worker, WorkerInputView::StopRequested),
        worker.phase is Stopping || worker.phase is Stopped ==> worker_after(
            worker,
            WorkerInputView::StopRequested,
        ) == worker,
{
}

/// `Stopped` is final: no input leads out of it, changes the engine or yields
/// an outcome, so nothing reaches the sink once the worker has stopped.
pub proof fn lemma_stopped_is_final(worker: WorkerView, input: WorkerInputView)
    requires
        worker.phase is Stopped || worker.phase is Stopping,
    ensures
        outcomes_of(worker, input).len() == 0,
        worker_after(worker, input).engine == worker.engine,
        worker_after(worker, input).phase is Stopped || worker_after(worker, input).phase
            is Stopping,
        worker.phase is Stopped ==> worker_after(worker, input) == worker,
{
}

/// Position of a phase in the worker's life.
pub open spec fn phase_rank(phase: WorkerPhase) -> nat {
    match phase {
        WorkerPhase::Starting => 0,
        WorkerPhase::Running => 1,
        WorkerPhase::Stopping => 2,
        WorkerPhase::Stopped => 3,
    }
}

/// A worker never goes back: whatever the input, the next phase is the same
/// or a later one, and `Running` is entered from `Starting` only.
pub proof fn lemma_phases_move_forward(phase: WorkerPhase, input: WorkerInputView)
    ensures
        phase_rank(phase) <= phase_rank(phase_after(phase, input)),
        phase_after(phase, input) is Running ==> phase is Starting || phase is Running,
{
}

} // verus!
