//! The dedup/rate engine that every candidate event has to pass.
//!
//! The engine keeps, per path, the instant at which an event for that path was
//! last accepted, and a counter for the current one-second window. Instants
//! are readings of a monotonic clock in milliseconds; the caller supplies
//! them, so the engine itself never looks at a clock.

use vstd::prelude::*;

verus! {

/// Minimum time, in milliseconds, between two accepted events for one path.
pub const DEDUP_WINDOW_MS: u64 = 300;

/// Age, in milliseconds, at which a sweep drops a dedup entry: ten dedup
/// windows.
pub const DEDUP_RETENTION_MS: u64 = 3000;

/// Length of the rate window in milliseconds.
pub const RATE_WINDOW_MS: u64 = 1000;

/// Most events forwarded within one rate window.
pub const RATE_LIMIT_PER_SECOND: u32 = 200;

/// Entry count above which every insertion triggers a sweep.
pub const DEDUP_MAP_MAX_SIZE: usize = 1000;

/// Number of insertions after which a sweep is due.
pub const CLEANUP_INTERVAL: u32 = 100;

/// What the engine decided for one candidate.
#[derive(Clone, Copy, Debug, PartialEq, Eq, Structural)]
pub enum Verdict {
    /// The event passes and is handed to the sink.
    Forwarded,
    /// The path was accepted less than a dedup window ago.
    Duplicate,
    /// The path is new, but the current second's budget is spent.
    RateLimited,
}

/// The engine as a mathematical value.
#[verifier::ext_equal]
pub struct EngineState {
    /// Path to the instant of its last accepted event.
    pub last_seen: Map<Seq<char>, u64>,
    /// Instant at which the current rate window began.
    pub window_started_at: u64,
    /// Events accepted by the dedup stage within the current rate window.
    pub window_count: u32,
    /// Insertions since the last sweep.
    pub cleanup_counter: u32,
}

/// Time that passed from `then` to `now`; zero when `then` is not in the past.
pub open spec fn elapsed(now: u64, then: u64) -> int {
    if now >= then {
        now - then
    } else {
        0
    }
}

/// `n + 1`, staying at the largest value once it is reached.
pub open spec fn bumped(n: u32) -> u32 {
    if n < u32::MAX {
        (n + 1) as u32
    } else {
        n
    }
}

/// The dedup stage suppresses `key` at `now`.
pub open spec fn is_duplicate(last_seen: Map<Seq<char>, u64>, key: Seq<char>, now: u64) -> bool {
    last_seen.contains_key(key) && elapsed(now, last_seen[key]) < DEDUP_WINDOW_MS
}

/// A sweep is due for a map of this size and this insertion count.
pub open spec fn sweep_due(last_seen: Map<Seq<char>, u64>, counter: u32) -> bool {
    last_seen.len() > DEDUP_MAP_MAX_SIZE || counter >= CLEANUP_INTERVAL
}

/// The entries that a sweep at `now` keeps.
pub open spec fn swept(last_seen: Map<Seq<char>, u64>, now: u64) -> Map<Seq<char>, u64> {
    Map::new(
        |k: Seq<char>| last_seen.contains_key(k) && elapsed(now, last_seen[k]) < DEDUP_RETENTION_MS,
        |k: Seq<char>| last_seen[k],
    )
}

/// The rate window has run out at `now`.
pub open spec fn window_expired(state: EngineState, now: u64) -> bool {
    elapsed(now, state.window_started_at) >= RATE_WINDOW_MS
}

/// The window counter after one more event passed the dedup stage at `now`.
pub open spec fn count_after(state: EngineState, now: u64) -> u32 {
    if window_expired(state, now) {
        1
    } else {
        bumped(state.window_count)
    }
}

/// The engine's decision for `key` at `now`. The dedup stage comes first, so a
/// duplicate never spends rate budget.
pub open spec fn verdict_of(state: EngineState, key: Seq<char>, now: u64) -> Verdict {
    if is_duplicate(state.last_seen, key, now) {
        Verdict::Duplicate
    } else if count_after(state, now) <= RATE_LIMIT_PER_SECOND {
        Verdict::Forwarded
    } else {
        Verdict::RateLimited
    }
}

/// The engine after it has seen `key` at `now`.
pub open spec fn state_after(state: EngineState, key: Seq<char>, now: u64) -> EngineState {
    if is_duplicate(state.last_seen, key, now) {
        state
    } else {
        let recorded = state.last_seen.insert(key, now);
        let counter = bumped(state.cleanup_counter);
        let sweep = sweep_due(recorded, counter);
        EngineState {
            last_seen: if sweep {
                swept(recorded, now)
            } else {
                recorded
            },
            window_started_at: if window_expired(state, now) {
                now
            } else {
                state.window_started_at
            },
            window_count: count_after(state, now),
            cleanup_counter: if sweep {
                0
            } else {
                counter
            },
        }
    }
}

/// One remembered path.
#[derive(Debug)]
struct DedupEntry {
    key: String,
    last_accepted: u64,
}

/// No path occurs in two entries.
spec fn distinct_keys(entries: Seq<DedupEntry>) -> bool {
    forall|i: int, j: int|
        0 <= i < j < entries.len() ==> (#[trigger] entries[i]).key@ != (#[trigger] entries[j]).key@
}

/// The map that a list of entries stands for; a later entry wins.
spec fn entries_map(entries: Seq<DedupEntry>) -> Map<Seq<char>, u64>
    decreases entries.len(),
{
    if entries.len() == 0 {
        Map::empty()
    } else {
        entries_map(entries.drop_last()).insert(entries.last().key@, entries.last().last_accepted)
    }
}

/// The entries of `entries`, in order, that are younger than the retention
/// time at `now`.
spec fn retained(entries: Seq<DedupEntry>, now: u64) -> Seq<DedupEntry>
    decreases entries.len(),
{
    if entries.len() == 0 {
        Seq::empty()
    } else if elapsed(now, entries.last().last_accepted) < DEDUP_RETENTION_MS {
        retained(entries.drop_last(), now).push(entries.last())
    } else {
        retained(entries.drop_last(), now)
    }
}

/// With distinct keys the map has one pair per entry, and nothing else.
proof fn lemma_entries_map(entries: Seq<DedupEntry>)
    requires
        distinct_keys(entries),
    ensures
        entries_map(entries).dom().finite(),
        entries_map(entries).len() == entries.len(),
        forall|i: int|
            0 <= i < entries.len() ==> entries_map(entries).contains_key(
                (#[trigger] entries[i]).key@,
            ) && entries_map(entries)[entries[i].key@] == entries[i].last_accepted,
        forall|k: Seq<char>| #[trigger]
            entries_map(entries).contains_key(k) ==> exists|i: int|
                0 <= i < entries.len() && (#[trigger] entries[i]).key@ == k,
    decreases entries.len(),
{
    if entries.len() > 0 {
        let front = entries.drop_last();
        let last = entries.last();
        lemma_entries_map(front);
        assert forall|i: int| 0 <= i < front.len() implies (#[trigger] front[i]).key@
            != last.key@ by {
            assert(front[i] == entries[i]);
            assert(last == entries[entries.len() - 1]);
        }
        assert(!entries_map(front).contains_key(last.key@)) by {
            if entries_map(front).contains_key(last.key@) {
                let i = choose|i: int| 0 <= i < front.len() && (#[trigger] front[i]).key@ == last.key@;
                assert(front[i].key@ != last.key@);
            }
        }
        assert forall|i: int| 0 <= i < entries.len() implies entries_map(entries).contains_key(
            (#[trigger] entries[i]).key@,
        ) && entries_map(entries)[entries[i].key@] == entries[i].last_accepted by {
            if i < front.len() {
                assert(front[i] == entries[i]);
            }
        }
        assert forall|k: Seq<char>| #[trigger]
            entries_map(entries).contains_key(k) implies exists|i: int|
            0 <= i < entries.len() && (#[trigger] entries[i]).key@ == k by {
            if k == last.key@ {
                assert(entries[entries.len() - 1].key@ == k);
            } else {
                let i = choose|i: int| 0 <= i < front.len() && (#[trigger] front[i]).key@ == k;
                assert(entries[i].key@ == k);
            }
        }
    }
}

/// Writing a new instant into entry `at` is an insertion under that entry's
/// key.
proof fn lemma_entries_map_update(entries: Seq<DedupEntry>, at: int, entry: DedupEntry)
    requires
        distinct_keys(entries),
        0 <= at < entries.len(),
        entry.key@ == entries[at].key@,
    ensures
        distinct_keys(entries.update(at, entry)),
        entries_map(entries.update(at, entry)) == entries_map(entries).insert(
            entry.key@,
            entry.last_accepted,
        ),
{
    let updated = entries.update(at, entry);
    assert forall|i: int, j: int| 0 <= i < j < updated.len() implies (#[trigger] updated[i]).key@
        != (#[trigger] updated[j]).key@ by {
        assert(updated[i].key@ == entries[i].key@);
        assert(updated[j].key@ == entries[j].key@);
    }
    lemma_entries_map(entries);
    lemma_entries_map(updated);
    let lhs = entries_map(updated);
    let rhs = entries_map(entries).insert(entry.key@, entry.last_accepted);
    assert forall|k: Seq<char>| lhs.contains_key(k) <==> rhs.contains_key(k) by {
        if lhs.contains_key(k) {
            let i = choose|i: int| 0 <= i < updated.len() && (#[trigger] updated[i]).key@ == k;
            assert(entries[i].key@ == k);
        }
        if rhs.contains_key(k) && k != entry.key@ {
            let i = choose|i: int| 0 <= i < entries.len() && (#[trigger] entries[i]).key@ == k;
            assert(updated[i].key@ == k);
        }
        if k == entry.key@ {
            assert(updated[at].key@ == k);
        }
    }
    assert forall|k: Seq<char>| lhs.contains_key(k) implies lhs[k] == rhs[k] by {
        let i = choose|i: int| 0 <= i < updated.len() && (#[trigger] updated[i]).key@ == k;
        if i == at {
            assert(updated[at] == entry);
        } else {
            assert(updated[i] == entries[i]);
            assert(entries[i].key@ != entries[at].key@);
        }
    }
    assert(lhs =~= rhs);
}

/// Appending an entry is an insertion under its key.
proof fn lemma_entries_map_push(entries: Seq<DedupEntry>, entry: DedupEntry)
    ensures
        entries_map(entries.push(entry)) == entries_map(entries).insert(
            entry.key@,
            entry.last_accepted,
        ),
{
    assert(entries.push(entry).drop_last() =~= entries);
}

/// Keeping the young entries of a list is sweeping the map it stands for.
proof fn lemma_retained(entries: Seq<DedupEntry>, now: u64)
    requires
        distinct_keys(entries),
    ensures
        distinct_keys(retained(entries, now)),
        entries_map(retained(entries, now)) == swept(entries_map(entries), now),
    decreases entries.len(),
{
    if entries.len() == 0 {
        assert(entries_map(retained(entries, now)) =~= swept(entries_map(entries), now));
    } else {
        let front = entries.drop_last();
        let last = entries.last();
        assert forall|i: int, j: int| 0 <= i < j < front.len() implies (#[trigger] front[i]).key@
            != (#[trigger] front[j]).key@ by {
            assert(front[i] == entries[i]);
            assert(front[j] == entries[j]);
        }
        lemma_retained(front, now);
        lemma_entries_map(front);
        lemma_entries_map(retained(front, now));
        assert(!entries_map(front).contains_key(last.key@)) by {
            if entries_map(front).contains_key(last.key@) {
                let i = choose|i: int| 0 <= i < front.len() && (#[trigger] front[i]).key@ == last.key@;
                assert(front[i] == entries[i]);
                assert(last == entries[entries.len() - 1]);
            }
        }
        let kept = retained(front, now);
        assert(!entries_map(kept).contains_key(last.key@));
        if elapsed(now, last.last_accepted) < DEDUP_RETENTION_MS {
            let all = kept.push(last);
            assert forall|i: int, j: int| 0 <= i < j < all.len() implies (#[trigger] all[i]).key@
                != (#[trigger] all[j]).key@ by {
                if j == kept.len() {
                    assert(all[i] == kept[i]);
                    assert(entries_map(kept).contains_key(kept[i].key@));
                } else {
                    assert(all[i] == kept[i]);
                    assert(all[j] == kept[j]);
                }
            }
            lemma_entries_map_push(kept, last);
        }
        assert(entries_map(retained(entries, now)) =~= swept(entries_map(entries), now));
    }
}

/// The dedup/rate engine.
#[derive(Debug)]
pub struct Engine {
    last_seen: Vec<DedupEntry>,
    window_started_at: u64,
    window_count: u32,
    cleanup_counter: u32,
}

impl View for Engine {
    type V = EngineState;

    closed spec fn view(&self) -> EngineState {
        EngineState {
            last_seen: entries_map(self.last_seen@),
            window_started_at: self.window_started_at,
            window_count: self.window_count,
            cleanup_counter: self.cleanup_counter,
        }
    }
}

impl Engine {
    /// Every remembered path is remembered once.
    pub closed spec fn wf(&self) -> bool {
        distinct_keys(self.last_seen@)
    }

    /// An engine that remembers nothing and whose first rate window begins at
    /// `now`.
    pub fn new(now: u64) -> (engine: Engine)
        ensures
            engine.wf(),
            engine@ == (EngineState {
                last_seen: Map::empty(),
                window_started_at: now,
                window_count: 0,
                cleanup_counter: 0,
            }),
    {
        Engine { last_seen: Vec::new(), window_started_at: now, window_count: 0, cleanup_counter: 0 }
    }

    /// Number of paths the engine remembers.
    pub fn tracked_paths(&self) -> (count: usize)
        requires
            self.wf(),
        ensures
            count == self@.last_seen.len(),
    {
        proof {
            lemma_entries_map(self.last_seen@);
        }
        self.last_seen.len()
    }

    /// The instant at which an event for `key` was last accepted, if the
    /// engine remembers the path.
    pub fn last_accepted(&self, key: &String) -> (at: Option<u64>)
        requires
            self.wf(),
        ensures
            at == if self@.last_seen.contains_key(key@) {
                Some(self@.last_seen[key@])
            } else {
                None
            },
    {
        match self.position(key) {
            Some(i) => {
                proof {
                    lemma_entries_map(self.last_seen@);
                }
                Some(self.last_seen[i].last_accepted)
            },
            None => None,
        }
    }

    /// Events that passed the dedup stage within the current rate window.
    pub fn window_count(&self) -> (count: u32)
        ensures
            count == self@.window_count,
    {
        self.window_count
    }

    /// Instant at which the current rate window began.
    pub fn window_started_at(&self) -> (at: u64)
        ensures
            at == self@.window_started_at,
    {
        self.window_started_at
    }

    /// Index of the entry for `key`, if the path is remembered.
    fn position(&self, key: &String) -> (found: Option<usize>)
        requires
            self.wf(),
        ensures
            match found {
                Some(i) => i < self.last_seen@.len() && self.last_seen@[i as int].key@ == key@,
                None => !self@.last_seen.contains_key(key@),
            },
    {
        let mut i: usize = 0;
        while i < self.last_seen.len()
            invariant
                i <= self.last_seen@.len(),
                forall|j: int| 0 <= j < i ==> (#[trigger] self.last_seen@[j]).key@ != key@,
            decreases self.last_seen@.len() - i,
        {
            if self.last_seen[i].key == *key {
                return Some(i);
            }
            i += 1;
        }
        proof {
            lemma_entries_map(self.last_seen@);
        }
        None
    }

    /// Drops every entry that is at least the retention time old at `now`.
    fn sweep(&mut self, now: u64)
        requires
            old(self).wf(),
        ensures
            final(self).wf(),
            final(self)@ == (EngineState { last_seen: swept(old(self)@.last_seen, now), ..old(self)@ }),
    {
        let mut kept: Vec<DedupEntry> = Vec::new();
        let mut i: usize = 0;
        while i < self.last_seen.len()
            invariant
                i <= self.last_seen@.len(),
                *self == *old(self),
                kept@ == retained(self.last_seen@.take(i as int), now),
            decreases self.last_seen@.len() - i,
        {
            let at: u64 = self.last_seen[i].last_accepted;
            proof {
                let next = self.last_seen@.take(i + 1);
                assert(next.drop_last() =~= self.last_seen@.take(i as int));
                assert(next.last() == self.last_seen@[i as int]);
            }
            if elapsed_ms(now, at) < DEDUP_RETENTION_MS {
                let entry = DedupEntry { key: self.last_seen[i].key.clone(), last_accepted: at };
                kept.push(entry);
            }
            i += 1;
        }
        proof {
            assert(self.last_seen@.take(i as int) =~= self.last_seen@);
            lemma_retained(self.last_seen@, now);
        }
        self.last_seen = kept;
    }

    /// Decides on one candidate event for the path `key`, seen at `now`.
    ///
    /// A path accepted less than a dedup window ago is a duplicate and leaves
    /// the engine unchanged. Any other path is recorded with `now`, which may
    /// trigger a sweep, and then counted against the current second: it is
    /// forwarded while the count is within the ceiling and dropped above it.
    pub fn offer(&mut self, key: String, now: u64) -> (verdict: Verdict)
        requires
            old(self).wf(),
        ensures
            final(self).wf(),
            verdict == verdict_of(old(self)@, key@, now),
            final(self)@ == state_after(old(self)@, key@, now),
    {
        let found = self.position(&key);
        if let Some(i) = found {
            proof {
                lemma_entries_map(self.last_seen@);
            }
            if elapsed_ms(now, self.last_seen[i].last_accepted) < DEDUP_WINDOW_MS {
                return Verdict::Duplicate;
            }
            let entry = DedupEntry { key, last_accepted: now };
            proof {
                lemma_entries_map_update(self.last_seen@, i as int, entry);
            }
            self.last_seen.set(i, entry);
        } else {
            let entry = DedupEntry { key, last_accepted: now };
            proof {
                lemma_entries_map(self.last_seen@);
                lemma_entries_map_push(self.last_seen@, entry);
                let pushed = self.last_seen@.push(entry);
                assert forall|a: int, b: int| 0 <= a < b < pushed.len() implies (
                #[trigger] pushed[a]).key@ != (#[trigger] pushed[b]).key@ by {
                    assert(pushed[a] == self.last_seen@[a]);
                    if b < self.last_seen@.len() {
                        assert(pushed[b] == self.last_seen@[b]);
                    }
                }
            }
            self.last_seen.push(entry);
        }
        proof {
            lemma_entries_map(self.last_seen@);
        }
        self.cleanup_counter = self.cleanup_counter.saturating_add(1);
        if self.last_seen.len() > DEDUP_MAP_MAX_SIZE || self.cleanup_counter >= CLEANUP_INTERVAL {
            self.sweep(now);
            self.cleanup_counter = 0;
        }
        if elapsed_ms(now, self.window_started_at) >= RATE_WINDOW_MS {
            self.window_started_at = now;
            self.window_count = 0;
        }
        self.window_count = self.window_count.saturating_add(1);
        if self.window_count <= RATE_LIMIT_PER_SECOND {
            Verdict::Forwarded
        } else {
            Verdict::RateLimited
        }
    }
}

/// One candidate as the engine sees it: a path and the instant of its sighting.
pub struct Offer {
    pub key: Seq<char>,
    pub at: u64,
}

/// The engine after it has seen `offers` one after the other.
pub open spec fn state_after_all(state: EngineState, offers: Seq<Offer>) -> EngineState
    decreases offers.len(),
{
    if offers.len() == 0 {
        state
    } else {
        state_after(state_after_all(state, offers.drop_last()), offers.last().key, offers.last().at)
    }
}

/// The engine's decision for the candidate at position `i` of `offers`, after
/// it has seen the candidates before it.
pub open spec fn verdict_at(state: EngineState, offers: Seq<Offer>, i: int) -> Verdict {
    verdict_of(state_after_all(state, offers.take(i)), offers[i].key, offers[i].at)
}

/// A path that passes the dedup stage at `at` is remembered with that instant,
/// sweep or no sweep.
pub proof fn lemma_accepted_is_recorded(state: EngineState, key: Seq<char>, at: u64)
    requires
        !is_duplicate(state.last_seen, key, at),
    ensures
        state_after(state, key, at).last_seen.contains_key(key),
        state_after(state, key, at).last_seen[key] == at,
{
}

/// While less than a dedup window has passed since `key` was accepted at
/// `accepted_at`, no candidate, for this path or another, changes what the
/// engine remembers of `key`.
pub proof fn lemma_entry_kept_within_window(
    state: EngineState,
    key: Seq<char>,
    accepted_at: u64,
    offers: Seq<Offer>,
)
    requires
        state.last_seen.contains_key(key),
        state.last_seen[key] == accepted_at,
        forall|i: int|
            0 <= i < offers.len() ==> elapsed((#[trigger] offers[i]).at, accepted_at)
                < DEDUP_WINDOW_MS,
    ensures
        state_after_all(state, offers).last_seen.contains_key(key),
        state_after_all(state, offers).last_seen[key] == accepted_at,
    decreases offers.len(),
{
    if offers.len() > 0 {
        let front = offers.drop_last();
        assert forall|i: int| 0 <= i < front.len() implies elapsed(
            (#[trigger] front[i]).at,
            accepted_at,
        ) < DEDUP_WINDOW_MS by {
            assert(front[i] == offers[i]);
        }
        lemma_entry_kept_within_window(state, key, accepted_at, front);
        assert(offers.last() == offers[offers.len() - 1]);
    }
}

/// Dedup window, first half: after `key` was accepted at `accepted_at`, a
/// further candidate for `key` is suppressed as long as less than a dedup
/// window has passed, whatever candidates the engine saw in between within that
/// window.
pub proof fn lemma_suppressed_within_window(
    state: EngineState,
    key: Seq<char>,
    accepted_at: u64,
    between: Seq<Offer>,
    now: u64,
)
    requires
        !is_duplicate(state.last_seen, key, accepted_at),
        forall|i: int|
            0 <= i < between.len() ==> elapsed((#[trigger] between[i]).at, accepted_at)
                < DEDUP_WINDOW_MS,
        elapsed(now, accepted_at) < DEDUP_WINDOW_MS,
    ensures
        verdict_of(state_after_all(state_after(state, key, accepted_at), between), key, now)
            == Verdict::Duplicate,
        state_after(state_after_all(state_after(state, key, accepted_at), between), key, now)
            == state_after_all(state_after(state, key, accepted_at), between),
{
    lemma_accepted_is_recorded(state, key, accepted_at);
    lemma_entry_kept_within_window(state_after(state, key, accepted_at), key, accepted_at, between);
}

/// Candidates for other paths leave what the engine remembers of `key` alone,
/// or drop it.
pub proof fn lemma_entry_kept_or_dropped(
    state: EngineState,
    key: Seq<char>,
    accepted_at: u64,
    offers: Seq<Offer>,
)
    requires
        state.last_seen.contains_key(key) ==> state.last_seen[key] == accepted_at,
        forall|i: int| 0 <= i < offers.len() ==> (#[trigger] offers[i]).key != key,
    ensures
        state_after_all(state, offers).last_seen.contains_key(key) ==> state_after_all(
            state,
            offers,
        ).last_seen[key] == accepted_at,
    decreases offers.len(),
{
    if offers.len() > 0 {
        let front = offers.drop_last();
        assert forall|i: int| 0 <= i < front.len() implies (#[trigger] front[i]).key != key by {
            assert(front[i] == offers[i]);
        }
        lemma_entry_kept_or_dropped(state, key, accepted_at, front);
        assert(offers.last() == offers[offers.len() - 1]);
    }
}

/// Dedup window, second half: once a dedup window or more has passed since
/// `key` was accepted at `accepted_at`, the next candidate for `key` passes
/// the dedup stage and is recorded anew, whatever candidates for other paths
/// the engine saw in between.
pub proof fn lemma_accepted_after_window(
    state: EngineState,
    key: Seq<char>,
    accepted_at: u64,
    between: Seq<Offer>,
    now: u64,
)
    requires
        !is_duplicate(state.last_seen, key, accepted_at),
        forall|i: int| 0 <= i < between.len() ==> (#[trigger] between[i]).key != key,
        elapsed(now, accepted_at) >= DEDUP_WINDOW_MS,
    ensures
        verdict_of(state_after_all(state_after(state, key, accepted_at), between), key, now)
            != Verdict::Duplicate,
        state_after(
            state_after_all(state_after(state, key, accepted_at), between),
            key,
            now,
        ).last_seen[key] == now,
{
    lemma_accepted_is_recorded(state, key, accepted_at);
    let recorded = state_after(state, key, accepted_at);
    lemma_entry_kept_or_dropped(recorded, key, accepted_at, between);
    lemma_accepted_is_recorded(state_after_all(recorded, between), key, now);
}

/// While candidates that pass the dedup stage arrive within one rate window,
/// the window stays where it is and its counter goes up by one for each.
pub proof fn lemma_window_count(state: EngineState, offers: Seq<Offer>, n: int)
    requires
        0 <= n <= offers.len(),
        forall|i: int|
            0 <= i < offers.len() ==> elapsed((#[trigger] offers[i]).at, state.window_started_at)
                < RATE_WINDOW_MS,
        forall|i: int| 0 <= i < offers.len() ==> verdict_at(state, offers, i) != Verdict::Duplicate,
    ensures
        state_after_all(state, offers.take(n)).window_started_at == state.window_started_at,
        state_after_all(state, offers.take(n)).window_count == if state.window_count + n
            <= u32::MAX {
            state.window_count + n
        } else {
            u32::MAX as int
        },
    decreases n,
{
    if n > 0 {
        lemma_window_count(state, offers, n - 1);
        assert(offers.take(n).drop_last() =~= offers.take(n - 1));
        assert(offers.take(n).last() == offers[n - 1]);
        assert(verdict_at(state, offers, n - 1) != Verdict::Duplicate);
    }
}

/// Rate ceiling: of candidates that pass the dedup stage within one rate
/// window, those that arrive while the window's count is below the ceiling
/// are forwarded and every later one is dropped. In a fresh window these are
/// exactly the first `RATE_LIMIT_PER_SECOND`. A dropped candidate leaves
/// nothing behind but its dedup entry and the count: the engine has no queue.
pub proof fn lemma_rate_ceiling(state: EngineState, offers: Seq<Offer>, i: int)
    requires
        0 <= i < offers.len(),
        forall|j: int|
            0 <= j < offers.len() ==> elapsed((#[trigger] offers[j]).at, state.window_started_at)
                < RATE_WINDOW_MS,
        forall|j: int| 0 <= j < offers.len() ==> verdict_at(state, offers, j) != Verdict::Duplicate,
    ensures
        verdict_at(state, offers, i) == if state.window_count + i < RATE_LIMIT_PER_SECOND {
            Verdict::Forwarded
        } else {
            Verdict::RateLimited
        },
{
    lemma_window_count(state, offers, i);
    assert(verdict_at(state, offers, i) != Verdict::Duplicate);
}

/// How many of `offers` the engine forwards, starting from `state`.
pub open spec fn forwarded_count(state: EngineState, offers: Seq<Offer>) -> nat
    decreases offers.len(),
{
    if offers.len() == 0 {
        0
    } else if verdict_of(
        state_after_all(state, offers.drop_last()),
        offers.last().key,
        offers.last().at,
    ) == Verdict::Forwarded {
        forwarded_count(state, offers.drop_last()) + 1
    } else {
        forwarded_count(state, offers.drop_last())
    }
}

/// The part of the window's budget that is spent at a given count.
pub open spec fn budget_spent(count: u32) -> int {
    if count <= RATE_LIMIT_PER_SECOND {
        count as int
    } else {
        RATE_LIMIT_PER_SECOND as int
    }
}

/// Rate ceiling, for any candidates: whatever arrives within one rate
/// window, duplicates and all, the engine forwards no more than what was left
/// of the window's budget. Counted from the start of a window, that is never
/// more than `RATE_LIMIT_PER_SECOND`.
pub proof fn lemma_forwarded_within_budget(state: EngineState, offers: Seq<Offer>)
    requires
        forall|i: int|
            0 <= i < offers.len() ==> elapsed((#[trigger] offers[i]).at, state.window_started_at)
                < RATE_WINDOW_MS,
    ensures
        state_after_all(state, offers).window_started_at == state.window_started_at,
        forwarded_count(state, offers) == budget_spent(state_after_all(state, offers).window_count)
            - budget_spent(state.window_count),
        forwarded_count(state, offers) <= RATE_LIMIT_PER_SECOND - budget_spent(state.window_count),
    decreases offers.len(),
{
    if offers.len() > 0 {
        let front = offers.drop_last();
        assert forall|i: int| 0 <= i < front.len() implies elapsed(
            (#[trigger] front[i]).at,
            state.window_started_at,
        ) < RATE_WINDOW_MS by {
            assert(front[i] == offers[i]);
        }
        lemma_forwarded_within_budget(state, front);
        assert(offers.last() == offers[offers.len() - 1]);
    }
}

/// A candidate that passes the dedup stage a full rate window or more after
/// the window began opens a new window at its own instant and is forwarded.
pub proof fn lemma_new_window_forwards(state: EngineState, key: Seq<char>, now: u64)
    requires
        !is_duplicate(state.last_seen, key, now),
        window_expired(state, now),
    ensures
        verdict_of(state, key, now) == Verdict::Forwarded,
        state_after(state, key, now).window_started_at == now,
        state_after(state, key, now).window_count == 1,
{
}

/// Computes [`elapsed`].
pub fn elapsed_ms(now: u64, then: u64) -> (d: u64)
    ensures
        d == elapsed(now, then),
{
    if now >= then {
        now - then
    } else {
        0
    }
}

} // verus!
