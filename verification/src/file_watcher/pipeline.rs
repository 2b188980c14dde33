//! The path of one candidate through the watch engine: is it a regular file,
//! does it have a name, does the engine let it pass.

use crate::error::{ErrorView, LateraError};
use crate::file_watcher::clock::now_ms;
use crate::file_watcher::engine::{
    state_after, state_after_all, verdict_of, Engine, EngineState, Offer, Verdict,
};
use crate::file_watcher::events::{FileEventView, InternalFileEvent};
use vstd::prelude::*;

verus! {

/// One path of a creation notification, with what was observed of it.
#[derive(Clone, Debug)]
pub struct Candidate {
    /// The path as the notification source reported it.
    pub path: String,
    /// Whether the path led to a regular file when it was looked at. A path
    /// that has vanished, is a directory or cannot be read is not one.
    pub regular_file: bool,
    /// The final component of the path, if it has one.
    pub file_name: Option<String>,
    /// Wall-clock time of the sighting, in milliseconds since the Unix epoch.
    pub occurred_at_ms: i64,
    /// Monotonic time of the sighting, in milliseconds.
    pub seen_at: u64,
}

/// A candidate as a mathematical value.
pub struct CandidateView {
    pub path: Seq<char>,
    pub regular_file: bool,
    pub file_name: Option<Seq<char>>,
    pub occurred_at_ms: i64,
    pub seen_at: u64,
}

impl View for Candidate {
    type V = CandidateView;

    open spec fn view(&self) -> CandidateView {
        CandidateView {
            path: self.path@,
            regular_file: self.regular_file,
            file_name: match self.file_name {
                Some(name) => Some(name@),
                None => None,
            },
            occurred_at_ms: self.occurred_at_ms,
            seen_at: self.seen_at,
        }
    }
}

/// What became of one candidate.
#[derive(Debug)]
pub enum Outcome {
    /// The path is not a regular file; it is dropped without further notice.
    NotRegularFile,
    /// The path has no file name; the error says so for this path alone.
    Unnamed(LateraError),
    /// The engine suppressed the event as a duplicate.
    Duplicate,
    /// The engine dropped the event because the second's budget is spent.
    RateLimited,
    /// The event goes to the sink.
    Forwarded(InternalFileEvent),
}

/// An outcome as a mathematical value.
pub enum OutcomeView {
    NotRegularFile,
    Unnamed(ErrorView),
    Duplicate,
    RateLimited,
    Forwarded(FileEventView),
}

impl View for Outcome {
    type V = OutcomeView;

    open spec fn view(&self) -> OutcomeView {
        match *self {
            Outcome::NotRegularFile => OutcomeView::NotRegularFile,
            Outcome::Unnamed(error) => OutcomeView::Unnamed(error@),
            Outcome::Duplicate => OutcomeView::Duplicate,
            Outcome::RateLimited => OutcomeView::RateLimited,
            Outcome::Forwarded(event) => OutcomeView::Forwarded(event@),
        }
    }
}

/// The event that a candidate stands for, or the error for a path without a
/// file name.
pub open spec fn event_of(candidate: CandidateView) -> Result<FileEventView, ErrorView> {
    match candidate.file_name {
        Some(name) => Ok(
            FileEventView {
                file_name: name,
                full_path: candidate.path,
                occurred_at_ms: candidate.occurred_at_ms,
            },
        ),
        None => Err(ErrorView::FileNameMissing(candidate.path)),
    }
}

/// A candidate reaches the engine when it is a regular file with a name.
pub open spec fn reaches_engine(candidate: CandidateView) -> bool {
    candidate.regular_file && candidate.file_name is Some
}

/// What becomes of a candidate that meets the engine in `state`. The engine is
/// keyed by the full path and asked at the candidate's monotonic instant.
pub open spec fn outcome_of(state: EngineState, candidate: CandidateView) -> OutcomeView {
    if !candidate.regular_file {
        OutcomeView::NotRegularFile
    } else {
        match event_of(candidate) {
            Err(error) => OutcomeView::Unnamed(error),
            Ok(event) => match verdict_of(state, candidate.path, candidate.seen_at) {
                Verdict::Duplicate => OutcomeView::Duplicate,
                Verdict::RateLimited => OutcomeView::RateLimited,
                Verdict::Forwarded => OutcomeView::Forwarded(event),
            },
        }
    }
}

/// The engine after a candidate: only one that reaches the engine changes it.
pub open spec fn engine_after_candidate(state: EngineState, candidate: CandidateView) -> EngineState {
    if reaches_engine(candidate) {
        state_after(state, candidate.path, candidate.seen_at)
    } else {
        state
    }
}

/// The engine after a batch of candidates, taken in order.
pub open spec fn engine_after_batch(state: EngineState, candidates: Seq<CandidateView>) -> EngineState
    decreases candidates.len(),
{
    if candidates.len() == 0 {
        state
    } else {
        engine_after_candidate(engine_after_batch(state, candidates.drop_last()), candidates.last())
    }
}

/// What becomes of the candidate at position `i` of a batch that meets the
/// engine in `state`.
pub open spec fn outcome_at(state: EngineState, candidates: Seq<CandidateView>, i: int) -> OutcomeView {
    outcome_of(engine_after_batch(state, candidates.take(i)), candidates[i])
}

/// The views of a batch of candidates, in order.
pub open spec fn candidate_views(candidates: Seq<Candidate>) -> Seq<CandidateView> {
    candidates.map_values(|candidate: Candidate| candidate@)
}

/// The final component of `path`, if the platform finds one: none for a
/// root, for an empty path and for a path that ends in `..`. Which
/// separators end a component is the platform's path syntax; the answer
/// depends on nothing but the characters of `path`.
pub uninterp spec fn file_name_text(path: Seq<char>) -> Option<Seq<char>>;

/// Reads the final component of `path` with `std::path::Path::file_name`.
/// The rules of the platform's path syntax are not written out here: the
/// answer only has a name, as a function of the characters of `path`.
#[verifier::external_body]
fn path_file_name(path: &str) -> (name: Option<String>)
    ensures
        match name {
            Some(name) => file_name_text(path@) == Some(name@),
            None => file_name_text(path@) is None,
        },
{
    std::path::Path::new(path).file_name().and_then(|name| name.to_str()).map(|name| name.to_string())
}

/// Records a sighting of `path`: the caller says whether it found a regular
/// file there and when, on its monotonic clock. The file name is the final
/// component of `path`; the wall-clock time is read here and never negative.
pub fn observe(path: String, regular_file: bool, seen_at: u64) -> (candidate: Candidate)
    ensures
        candidate@.path == path@,
        candidate@.regular_file == regular_file,
        candidate@.file_name == file_name_text(path@),
        candidate@.seen_at == seen_at,
        candidate@.occurred_at_ms >= 0,
{
    let file_name = path_file_name(path.as_str());
    Candidate { path, regular_file, file_name, occurred_at_ms: now_ms(), seen_at }
}

/// Builds the outward event for a candidate. A path without a file name
/// yields `FileNameMissing` for that path.
pub fn make_internal_file_event(candidate: Candidate) -> (result: Result<
    InternalFileEvent,
    LateraError,
>)
    ensures
        match result {
            Ok(event) => event_of(candidate@) == Ok::<FileEventView, ErrorView>(event@),
            Err(error) => event_of(candidate@) == Err::<FileEventView, ErrorView>(error@),
        },
{
    match candidate.file_name {
        Some(file_name) => Ok(
            InternalFileEvent {
                file_name,
                full_path: candidate.path,
                occurred_at_ms: candidate.occurred_at_ms,
            },
        ),
        None => Err(LateraError::FileNameMissing(candidate.path)),
    }
}

/// Takes one candidate through the engine.
pub fn process_path(engine: &mut Engine, candidate: Candidate) -> (outcome: Outcome)
    requires
        old(engine).wf(),
    ensures
        final(engine).wf(),
        outcome@ == outcome_of(old(engine)@, candidate@),
        final(engine)@ == engine_after_candidate(old(engine)@, candidate@),
{
    if !candidate.regular_file {
        return Outcome::NotRegularFile;
    }
    let key = candidate.path.clone();
    let seen_at = candidate.seen_at;
    match make_internal_file_event(candidate) {
        Err(error) => Outcome::Unnamed(error),
        Ok(event) => match engine.offer(key, seen_at) {
            Verdict::Duplicate => Outcome::Duplicate,
            Verdict::RateLimited => Outcome::RateLimited,
            Verdict::Forwarded => Outcome::Forwarded(event),
        },
    }
}

/// Takes the paths of one notification through the engine, in order. Each
/// candidate gets its own outcome; one that fails does not stop the rest.
pub fn process_paths(engine: &mut Engine, candidates: Vec<Candidate>) -> (outcomes: Vec<Outcome>)
    requires
        old(engine).wf(),
    ensures
        final(engine).wf(),
        outcomes@.len() == candidates@.len(),
        forall|i: int|
            0 <= i < candidates@.len() ==> (#[trigger] outcomes@[i])@ == outcome_at(
                old(engine)@,
                candidate_views(candidates@),
                i,
            ),
        final(engine)@ == engine_after_batch(old(engine)@, candidate_views(candidates@)),
{
    let ghost views = candidate_views(candidates@);
    let mut outcomes: Vec<Outcome> = Vec::new();
    for candidate in it: candidates
        invariant
            it.seq() == candidates@,
            views == candidate_views(candidates@),
            engine.wf(),
            outcomes@.len() == it.index(),
            forall|i: int|
                0 <= i < it.index() ==> (#[trigger] outcomes@[i])@ == outcome_at(
                    old(engine)@,
                    views,
                    i,
                ),
            engine@ == engine_after_batch(old(engine)@, views.take(it.index() as int)),
    {
        proof {
            let i = it.index();
            assert(views.take(i + 1).drop_last() =~= views.take(i));
            assert(views.take(i + 1).last() == candidate@);
        }
        let outcome = process_path(engine, candidate);
        outcomes.push(outcome);
    }
    proof {
        assert(views.take(views.len() as int) =~= views);
    }
    outcomes
}

/// The offers that a batch makes to the engine: one for each candidate that
/// reaches it, in order, under the candidate's path and monotonic instant.
pub open spec fn offers_of(candidates: Seq<CandidateView>) -> Seq<Offer>
    decreases candidates.len(),
{
    if candidates.len() == 0 {
        Seq::empty()
    } else if reaches_engine(candidates.last()) {
        offers_of(candidates.drop_last()).push(
            Offer { key: candidates.last().path, at: candidates.last().seen_at },
        )
    } else {
        offers_of(candidates.drop_last())
    }
}

/// A batch changes the engine exactly as its offers do, so what holds of
/// sequences of offers holds of batches.
pub proof fn lemma_batch_is_its_offers(state: EngineState, candidates: Seq<CandidateView>)
    ensures
        engine_after_batch(state, candidates) == state_after_all(state, offers_of(candidates)),
    decreases candidates.len(),
{
    if candidates.len() > 0 {
        lemma_batch_is_its_offers(state, candidates.drop_last());
        if reaches_engine(candidates.last()) {
            let offers = offers_of(candidates);
            assert(offers.drop_last() =~= offers_of(candidates.drop_last()));
        }
    }
}

/// Only regular files reach the sink: a path that is not a regular file is
/// never forwarded and leaves the engine untouched, wherever it stands in a
/// batch. A notification whose paths are all directories, vanished or
/// unreadable therefore yields no event.
pub proof fn lemma_only_regular_files_forwarded(
    state: EngineState,
    candidates: Seq<CandidateView>,
    i: int,
)
    requires
        0 <= i < candidates.len(),
    ensures
        outcome_at(state, candidates, i) is Forwarded ==> candidates[i].regular_file,
        !candidates[i].regular_file ==> outcome_at(state, candidates, i) is NotRegularFile,
        !candidates[i].regular_file ==> engine_after_batch(state, candidates.take(i + 1))
            == engine_after_batch(state, candidates.take(i)),
{
    assert(candidates.take(i + 1).drop_last() =~= candidates.take(i));
    assert(candidates.take(i + 1).last() == candidates[i]);
}

} // verus!
