//! The refresh schedule: fetch at once, then sleep for the interval after every attempt.
//!
//! The schedule is a machine that is told what happened and answers what to do next.
//! Whoever drives it performs the fetches and the sleeps; the machine decides their
//! order and is the only writer of the price cache.

use crate::client::FetchError;
use crate::state::MetalState;
use vstd::prelude::*;

verus! {

/// Where the schedule stands.
#[derive(Clone, Copy, Debug, PartialEq, Eq, Structural)]
pub enum RefreshPhase {
    /// A fetch has been asked for and its outcome is awaited.
    Fetching,
    /// A sleep has been asked for and its end is awaited.
    Sleeping,
    /// The schedule was cancelled; nothing more will be asked for.
    Stopped,
}

/// What the driver reports to the schedule.
#[derive(Clone, Copy, Debug, PartialEq, Eq)]
pub enum RefreshEvent {
    /// The fetch ended, with a pair of prices or with the reason why there is none.
    Fetched(Result<(u64, u64), FetchError>),
    /// The sleep ran its full length.
    SleepElapsed,
    /// The process is shutting down.
    Cancelled,
}

/// What the schedule asks of the driver.
#[derive(Clone, Copy, Debug, PartialEq, Eq, Structural)]
pub enum RefreshAction {
    /// Fetch the prices once and report `Fetched`.
    Fetch,
    /// Sleep for `secs` seconds and report `SleepElapsed`.
    Sleep { secs: u64 },
    /// The report did not belong to what is awaited; go on waiting for that.
    Continue,
    /// Stop driving the schedule.
    Stop,
}

/// The phase that follows `phase` when `event` is reported.
pub open spec fn next_phase(phase: RefreshPhase, event: RefreshEvent) -> RefreshPhase {
    match (phase, event) {
        (RefreshPhase::Stopped, _) => RefreshPhase::Stopped,
        (_, RefreshEvent::Cancelled) => RefreshPhase::Stopped,
        (RefreshPhase::Fetching, RefreshEvent::Fetched(_)) => RefreshPhase::Sleeping,
        (RefreshPhase::Sleeping, RefreshEvent::SleepElapsed) => RefreshPhase::Fetching,
        (RefreshPhase::Fetching, RefreshEvent::SleepElapsed) => RefreshPhase::Fetching,
        (RefreshPhase::Sleeping, RefreshEvent::Fetched(_)) => RefreshPhase::Sleeping,
    }
}

/// The answer to `event` when it is reported in `phase`, with `interval_secs` between
/// the end of one attempt and the start of the next.
pub open spec fn next_action(
    phase: RefreshPhase,
    interval_secs: u64,
    event: RefreshEvent,
) -> RefreshAction {
    match (phase, event) {
        (RefreshPhase::Stopped, _) => RefreshAction::Stop,
        (_, RefreshEvent::Cancelled) => RefreshAction::Stop,
        (RefreshPhase::Fetching, RefreshEvent::Fetched(_)) => RefreshAction::Sleep {
            secs: interval_secs,
        },
        (RefreshPhase::Sleeping, RefreshEvent::SleepElapsed) => RefreshAction::Fetch,
        (RefreshPhase::Fetching, RefreshEvent::SleepElapsed) => RefreshAction::Continue,
        (RefreshPhase::Sleeping, RefreshEvent::Fetched(_)) => RefreshAction::Continue,
    }
}

/// The cached pair after `event` is reported in `phase`: the fetched pair when an
/// awaited fetch succeeded, and the pair from before in every other case.
pub open spec fn next_prices(
    phase: RefreshPhase,
    prices: (u64, u64),
    event: RefreshEvent,
) -> (u64, u64) {
    match (phase, event) {
        (RefreshPhase::Fetching, RefreshEvent::Fetched(Ok(fetched))) => fetched,
        _ => prices,
    }
}

/// The refresh schedule of one price cache.
pub struct Refresher {
    pub phase: RefreshPhase,
    pub interval_secs: u64,
}

impl Refresher {
    /// A schedule that sleeps `interval_secs` seconds between attempts, together with
    /// its first request: a fetch, with no sleep before it.
    pub fn start(interval_secs: u64) -> (started: (Self, RefreshAction))
        ensures
            started.0.phase == RefreshPhase::Fetching,
            started.0.interval_secs == interval_secs,
            started.1 == RefreshAction::Fetch,
    {
        (Refresher { phase: RefreshPhase::Fetching, interval_secs }, RefreshAction::Fetch)
    }

    /// Takes one report, brings the cache up to date and answers what to do next.
    ///
    /// Only the success of an awaited fetch writes the cache. A failed fetch leaves
    /// the cache as it was and is followed by the same sleep as a success.
    pub fn step(&mut self, cache: &mut MetalState, event: RefreshEvent) -> (action: RefreshAction)
        ensures
            final(self).interval_secs == old(self).interval_secs,
            final(self).phase == next_phase(old(self).phase, event),
            action == next_action(old(self).phase, old(self).interval_secs, event),
            final(cache)@ == next_prices(old(self).phase, old(cache)@, event),
            event matches RefreshEvent::Fetched(Err(_)) ==> final(cache)@ == old(cache)@,
    {
        match self.phase {
            RefreshPhase::Stopped => RefreshAction::Stop,
            RefreshPhase::Fetching => match event {
                RefreshEvent::Cancelled => {
                    self.phase = RefreshPhase::Stopped;
                    RefreshAction::Stop
                },
                RefreshEvent::Fetched(outcome) => {
                    match outcome {
                        Ok(fetched) => cache.update_prices(fetched.0, fetched.1),
                        Err(_) => {},
                    }
                    self.phase = RefreshPhase::Sleeping;
                    RefreshAction::Sleep { secs: self.interval_secs }
                },
                RefreshEvent::SleepElapsed => RefreshAction::Continue,
            },
            RefreshPhase::Sleeping => match event {
                RefreshEvent::Cancelled => {
                    self.phase = RefreshPhase::Stopped;
                    RefreshAction::Stop
                },
                RefreshEvent::SleepElapsed => {
                    self.phase = RefreshPhase::Fetching;
                    RefreshAction::Fetch
                },
                RefreshEvent::Fetched(_) => RefreshAction::Continue,
            },
        }
    }
}

/// The phase of a schedule that was started and then given `events` in order.
pub open spec fn phase_after(events: Seq<RefreshEvent>) -> RefreshPhase
    decreases events.len(),
{
    if events.len() == 0 {
        RefreshPhase::Fetching
    } else {
        next_phase(phase_after(events.drop_last()), events.last())
    }
}

/// The pair in a cache that was new when the schedule started, after `events`.
pub open spec fn prices_after(events: Seq<RefreshEvent>) -> (u64, u64)
    decreases events.len(),
{
    if events.len() == 0 {
        (0u64, 0u64)
    } else {
        next_prices(
            phase_after(events.drop_last()),
            prices_after(events.drop_last()),
            events.last(),
        )
    }
}

/// The answer of the schedule to `events[k]`, the reports before it having been given.
pub open spec fn action_for(interval_secs: u64, events: Seq<RefreshEvent>, k: int) -> RefreshAction
    recommends
        0 <= k < events.len(),
{
    next_action(phase_after(events.take(k)), interval_secs, events[k])
}

/// The schedule sleeps only after an attempt has ended: whenever it stands in the
/// sleeping phase, some earlier report was the outcome of an awaited fetch, the answer
/// to it was a sleep of the full interval, and every report since was set aside.
pub proof fn lemma_sleep_follows_attempt(interval_secs: u64, events: Seq<RefreshEvent>) -> (j: int)
    requires
        phase_after(events) == RefreshPhase::Sleeping,
    ensures
        0 <= j < events.len(),
        events[j] is Fetched,
        action_for(interval_secs, events, j) == (RefreshAction::Sleep { secs: interval_secs }),
        forall|m: int|
            j < m < events.len() ==> #[trigger] action_for(interval_secs, events, m)
                == RefreshAction::Continue,
    decreases events.len(),
{
    let earlier = events.drop_last();
    assert(events.take(events.len() - 1) == earlier);
    if phase_after(earlier) == RefreshPhase::Fetching {
        events.len() - 1
    } else {
        let j = lemma_sleep_follows_attempt(interval_secs, earlier);
        assert forall|m: int| j < m < events.len() implies #[trigger] action_for(
            interval_secs,
            events,
            m,
        ) == RefreshAction::Continue by {
            if m < events.len() - 1 {
                assert(events.take(m) == earlier.take(m));
                assert(action_for(interval_secs, earlier, m) == RefreshAction::Continue);
            }
        }
        assert(events.take(j) == earlier.take(j));
        j
    }
}

/// Fixed-delay scheduling. A fetch is asked for in answer to a report only when that
/// report is the end of a sleep; that sleep had the full interval and was asked for
/// when an earlier attempt ended, and nothing else was asked for in between.
pub proof fn lemma_fetches_are_spaced(
    interval_secs: u64,
    events: Seq<RefreshEvent>,
    k: int,
) -> (j: int)
    requires
        0 <= k < events.len(),
        action_for(interval_secs, events, k) == RefreshAction::Fetch,
    ensures
        events[k] == RefreshEvent::SleepElapsed,
        0 <= j < k,
        events[j] is Fetched,
        action_for(interval_secs, events, j) == (RefreshAction::Sleep { secs: interval_secs }),
        forall|m: int|
            j < m < k ==> #[trigger] action_for(interval_secs, events, m)
                == RefreshAction::Continue,
{
    let before = events.take(k);
    let j = lemma_sleep_follows_attempt(interval_secs, before);
    assert(before.take(j) == events.take(j));
    assert forall|m: int| j < m < k implies #[trigger] action_for(interval_secs, events, m)
        == RefreshAction::Continue by {
        assert(before.take(m) == events.take(m));
        assert(action_for(interval_secs, before, m) == RefreshAction::Continue);
    }
    j
}

/// Staleness on failure: a report of a failed fetch leaves the cached pair as it was.
pub proof fn lemma_failed_fetch_keeps_prices(events: Seq<RefreshEvent>, k: int)
    requires
        0 <= k < events.len(),
        events[k] matches RefreshEvent::Fetched(Err(_)),
    ensures
        prices_after(events.take(k + 1)) == prices_after(events.take(k)),
{
    assert(events.take(k + 1).drop_last() == events.take(k));
}

/// Initial state: as long as no fetch has succeeded, the cache holds the price zero
/// for both metals.
pub proof fn lemma_prices_zero_before_first_success(events: Seq<RefreshEvent>)
    requires
        forall|k: int|
            0 <= k < events.len() ==> !(#[trigger] events[k] matches RefreshEvent::Fetched(Ok(_))),
    ensures
        prices_after(events) == (0u64, 0u64),
    decreases events.len(),
{
    if events.len() > 0 {
        lemma_prices_zero_before_first_success(events.drop_last());
    }
}

/// The cached pair is never a mix: it is the pair that a new cache holds, or the whole
/// pair that one successful fetch delivered.
pub proof fn lemma_prices_are_one_fetched_pair(events: Seq<RefreshEvent>)
    ensures
        prices_after(events) == (0u64, 0u64) || exists|k: int|
            0 <= k < events.len() && #[trigger] events[k] == RefreshEvent::Fetched(
                Ok(prices_after(events)),
            ),
    decreases events.len(),
{
    if events.len() > 0 {
        let earlier = events.drop_last();
        lemma_prices_are_one_fetched_pair(earlier);
        if prices_after(events) == prices_after(earlier) {
            if prices_after(earlier) != (0u64, 0u64) {
                let k = choose|k: int|
                    0 <= k < earlier.len() && #[trigger] earlier[k] == RefreshEvent::Fetched(
                        Ok(prices_after(earlier)),
                    );
                assert(events[k] == earlier[k]);
            }
        } else {
            assert(events[events.len() - 1] == RefreshEvent::Fetched(Ok(prices_after(events))));
        }
    }
}

/// Nothing but a cancellation stops the schedule.
pub proof fn lemma_runs_until_cancelled(events: Seq<RefreshEvent>)
    requires
        forall|k: int| 0 <= k < events.len() ==> #[trigger] events[k] != RefreshEvent::Cancelled,
    ensures
        phase_after(events) != RefreshPhase::Stopped,
    decreases events.len(),
{
    if events.len() > 0 {
        lemma_runs_until_cancelled(events.drop_last());
    }
}

/// After a cancellation the schedule asks for nothing more and the cache is not
/// written again.
pub proof fn lemma_cancelled_stays_stopped(interval_secs: u64, events: Seq<RefreshEvent>, k: int)
    requires
        0 <= k < events.len(),
        events[k] == RefreshEvent::Cancelled,
    ensures
        phase_after(events) == RefreshPhase::Stopped,
        prices_after(events) == prices_after(events.take(k)),
        forall|m: int|
            k <= m < events.len() ==> #[trigger] action_for(interval_secs, events, m)
                == RefreshAction::Stop,
    decreases events.len(),
{
    let earlier = events.drop_last();
    assert(events.take(events.len() - 1) == earlier);
    if k < events.len() - 1 {
        lemma_cancelled_stays_stopped(interval_secs, earlier, k);
        assert(earlier.take(k) == events.take(k));
        assert forall|m: int| k <= m < events.len() implies #[trigger] action_for(
            interval_secs,
            events,
            m,
        ) == RefreshAction::Stop by {
            if m < events.len() - 1 {
                assert(events.take(m) == earlier.take(m));
                assert(action_for(interval_secs, earlier, m) == RefreshAction::Stop);
            }
        }
    }
}

} // verus!
