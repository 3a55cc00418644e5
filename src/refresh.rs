use vstd::prelude::*;
use crate::departure::Departure;
use crate::pipeline::FetchError;
use crate::time::LocalTime;

verus! {

/// Time between the publication of one refresh result and the next fetch.
pub const REFRESH_INTERVAL_MS: u64 = 5000;

/// Time between two readings of the clock.
pub const CLOCK_INTERVAL_MS: u64 = 1000;

/// The outcome of one run of the fetch-and-normalize pipeline.
pub type FetchOutcome = Result<Vec<Departure>, FetchError>;

/// The two phases of the refresh cycle.
#[derive(Clone, Copy, Debug, PartialEq, Eq, Structural)]
pub enum RefreshPhase {
    Idle,
    Fetching,
}

/// What the refresh cycle learns from outside.
#[derive(Debug)]
pub enum RefreshEvent {
    /// The wait after the last publication is over, or the board has just started.
    IntervalElapsed,
    /// The fetch that was started has finished with this outcome.
    FetchFinished(FetchOutcome),
}

/// What the refresh cycle asks to be done next.
#[derive(Clone, Copy, Debug, PartialEq, Eq, Structural)]
pub enum RefreshAction {
    /// Run the fetch-and-normalize pipeline once and report its outcome.
    StartFetch,
    /// Wait this many milliseconds, then report that the interval elapsed.
    Wait(u64),
    /// Nothing to do for this event.
    Nothing,
}

/// The state the presentation reads: the latest refresh outcome (none before
/// the first cycle completes), whether a fetch is in flight, and the clock.
/// Only the refresh cycle writes the first two; only the clock writes the third.
#[derive(Debug)]
pub struct ResultStore {
    pub latest_result: Option<FetchOutcome>,
    pub in_flight: bool,
    pub current_time: LocalTime,
}

/// The refresh cycle's reaction to `e` in store `s`: the next store and the
/// action to perform. A tick starts a fetch only when none is in flight; a
/// finished fetch clears the flag, replaces the latest result with its outcome
/// and asks for the fixed wait before the next tick.
pub open spec fn next_state(s: ResultStore, e: RefreshEvent) -> (ResultStore, RefreshAction) {
    match e {
        RefreshEvent::IntervalElapsed => if s.in_flight {
            (s, RefreshAction::Nothing)
        } else {
            (ResultStore { in_flight: true, ..s }, RefreshAction::StartFetch)
        },
        RefreshEvent::FetchFinished(outcome) => if s.in_flight {
            (
                ResultStore { in_flight: false, latest_result: Some(outcome), ..s },
                RefreshAction::Wait(REFRESH_INTERVAL_MS),
            )
        } else {
            (s, RefreshAction::Nothing)
        },
    }
}

/// The store and the actions after the events `es`, in order, starting from `s`.
pub open spec fn run(s: ResultStore, es: Seq<RefreshEvent>) -> (ResultStore, Seq<RefreshAction>)
    decreases es.len(),
{
    if es.len() == 0 {
        (s, Seq::empty())
    } else {
        let (s1, a) = next_state(s, es[0]);
        let (s2, rest) = run(s1, es.drop_first());
        (s2, seq![a] + rest)
    }
}

/// How many of `acts` start a fetch.
pub open spec fn fetches_started(acts: Seq<RefreshAction>) -> int
    decreases acts.len(),
{
    if acts.len() == 0 {
        0
    } else {
        (if acts[0] == RefreshAction::StartFetch { 1int } else { 0int }) + fetches_started(
            acts.drop_first(),
        )
    }
}

/// How many of `acts` follow the publication of a result.
pub open spec fn results_published(acts: Seq<RefreshAction>) -> int
    decreases acts.len(),
{
    if acts.len() == 0 {
        0
    } else {
        (if acts[0] is Wait { 1int } else { 0int }) + results_published(acts.drop_first())
    }
}

/// 1 while a fetch is in flight, 0 otherwise.
pub open spec fn in_flight_count(s: ResultStore) -> int {
    if s.in_flight { 1 } else { 0 }
}

impl ResultStore {
    pub open spec fn wf(self) -> bool {
        self.current_time.wf()
    }

    pub open spec fn phase_of(self) -> RefreshPhase {
        if self.in_flight {
            RefreshPhase::Fetching
        } else {
            RefreshPhase::Idle
        }
    }

    /// An idle store with no result yet.
    pub fn new(now: LocalTime) -> (s: ResultStore)
        requires
            now.wf(),
        ensures
            s.wf(),
            s.latest_result.is_none(),
            !s.in_flight,
            s.current_time == now,
    {
        ResultStore { latest_result: None, in_flight: false, current_time: now }
    }

    pub fn phase(&self) -> (p: RefreshPhase)
        ensures
            p == self.phase_of(),
    {
        if self.in_flight {
            RefreshPhase::Fetching
        } else {
            RefreshPhase::Idle
        }
    }

    /// The clock's write: the current time, and nothing else, changes.
    pub fn set_current_time(&mut self, now: LocalTime)
        requires
            now.wf(),
        ensures
            final(self).current_time == now,
            final(self).latest_result == old(self).latest_result,
            final(self).in_flight == old(self).in_flight,
    {
        self.current_time = now;
    }

    /// The refresh cycle's write: reacts to one event.
    pub fn refresh_step(&mut self, event: RefreshEvent) -> (a: RefreshAction)
        ensures
            (*final(self), a) == next_state(*old(self), event),
            old(self).wf() ==> final(self).wf(),
    {
        match event {
            RefreshEvent::IntervalElapsed => {
                if self.in_flight {
                    RefreshAction::Nothing
                } else {
                    self.in_flight = true;
                    RefreshAction::StartFetch
                }
            },
            RefreshEvent::FetchFinished(outcome) => {
                if self.in_flight {
                    self.in_flight = false;
                    self.latest_result = Some(outcome);
                    RefreshAction::Wait(REFRESH_INTERVAL_MS)
                } else {
                    RefreshAction::Nothing
                }
            },
        }
    }
}

/// While a fetch is in flight, no sequence of events without its completion
/// starts another fetch, and the in-flight flag stays set throughout.
pub proof fn lemma_no_overlapping_fetch(s: ResultStore, es: Seq<RefreshEvent>)
    requires
        s.in_flight,
        forall|i: int| 0 <= i < es.len() ==> !(#[trigger] es[i] is FetchFinished),
    ensures
        run(s, es).0.in_flight,
        run(s, es).0.latest_result == s.latest_result,
        forall|i: int| 0 <= i < run(s, es).1.len() ==> #[trigger] run(s, es).1[i]
            != RefreshAction::StartFetch,
    decreases es.len(),
{
    if es.len() > 0 {
        let (s1, a) = next_state(s, es[0]);
        assert(!(es[0] is FetchFinished));
        assert(s1 == s);
        let rest = es.drop_first();
        assert forall|i: int| 0 <= i < rest.len() implies !(#[trigger] rest[i] is FetchFinished) by {
            assert(rest[i] == es[i + 1]);
        }
        lemma_no_overlapping_fetch(s1, rest);
        let acts = run(s, es).1;
        assert forall|i: int| 0 <= i < acts.len() implies #[trigger] acts[i]
            != RefreshAction::StartFetch by {
            if i > 0 {
                assert(acts[i] == run(s1, rest).1[i - 1]);
            }
        }
    }
}

/// A finished fetch, failed or not, replaces the latest result with its
/// outcome: a failure is published as a failure, never dropped.
pub proof fn lemma_outcome_replaces_result(s: ResultStore, outcome: FetchOutcome)
    requires
        s.in_flight,
    ensures
        next_state(s, RefreshEvent::FetchFinished(outcome)).0.latest_result == Some(outcome),
        !next_state(s, RefreshEvent::FetchFinished(outcome)).0.in_flight,
{
}

/// A fetch starts only from the idle phase, and starting it raises the flag
/// before the pipeline runs.
pub proof fn lemma_fetch_starts_only_when_idle(s: ResultStore, e: RefreshEvent)
    ensures
        next_state(s, e).1 == RefreshAction::StartFetch ==> !s.in_flight && next_state(
            s,
            e,
        ).0.in_flight,
{
}

/// Fetches and publications alternate, whatever events arrive: every fetch
/// started is matched by the publication of its result before the next one
/// starts. Counted from `s`, the fetches started plus the one in flight at the
/// start equal the results published plus the one in flight at the end; as this
/// holds of every prefix of `es`, no two fetches ever overlap.
pub proof fn lemma_fetches_alternate(s: ResultStore, es: Seq<RefreshEvent>)
    ensures
        fetches_started(run(s, es).1) + in_flight_count(s) == results_published(run(s, es).1)
            + in_flight_count(run(s, es).0),
    decreases es.len(),
{
    if es.len() > 0 {
        let (s1, a) = next_state(s, es[0]);
        let rest = es.drop_first();
        lemma_fetches_alternate(s1, rest);
        let acts = run(s, es).1;
        assert(acts.drop_first() == run(s1, rest).1);
        assert(acts[0] == a);
    }
}

} // verus!
