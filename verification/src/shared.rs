//! The price cache behind a reader-writer lock, for one writer and many readers.

use crate::refresher::{next_action, next_phase, RefreshAction, RefreshEvent, Refresher};
use crate::state::MetalState;
use vstd::prelude::*;
use vstd::rwlock::RwLock;

verus! {

/// A price cache that a writing task and any number of reading tasks share.
///
/// The cache sits behind one reader-writer lock. Readers enter together and do not
/// wait for each other; the writer enters alone; nobody sees the cache while a pair
/// is being replaced. What a read returns depends on what other tasks have written,
/// so no contract here can name the pair. What holds of every read is stated through
/// a guard: a predicate on pairs, fixed when the cache is made. Every pair that is
/// written has to meet the guard, and every pair that is read then meets it. A cache
/// that replaced its two prices one after the other could not promise this, since a
/// mix of two admitted pairs need not be admitted.
///
/// `new` makes a cache whose guard admits every pair; writing to it has no condition.
/// What a write and a read do to the cache while they hold the lock is stated on
/// [`MetalState`].
pub struct SharedMetalState {
    lock: RwLock<MetalState, spec_fn(MetalState) -> bool>,
    guard: Ghost<spec_fn((u64, u64)) -> bool>,
}

impl SharedMetalState {
    #[verifier::type_invariant]
    spec fn lock_keeps_guard(self) -> bool {
        forall|state: MetalState| #[trigger] self.lock.inv(state) <==> (self.guard@)(state@)
    }

    /// Whether this cache may hold `prices`.
    pub closed spec fn admits(&self, prices: (u64, u64)) -> bool {
        (self.guard@)(prices)
    }

    /// A shared cache that holds the price zero for both metals and admits every pair.
    pub fn new() -> (shared: Self)
        ensures
            forall|prices: (u64, u64)| shared.admits(prices),
    {
        Self::guarded(Ghost(|prices: (u64, u64)| true))
    }

    /// A shared cache that holds the price zero for both metals and admits the pairs
    /// that meet `allowed`.
    pub fn guarded(Ghost(allowed): Ghost<spec_fn((u64, u64)) -> bool>) -> (shared: Self)
        requires
            allowed((0u64, 0u64)),
        ensures
            forall|prices: (u64, u64)| shared.admits(prices) == allowed(prices),
    {
        let ghost kept = |state: MetalState| allowed(state@);
        SharedMetalState {
            lock: RwLock::new(MetalState::new(), Ghost(kept)),
            guard: Ghost(allowed),
        }
    }

    /// Replaces both prices at once, alone in the cache.
    pub fn update_prices(&self, gold_price: u64, silver_price: u64)
        requires
            self.admits((gold_price, silver_price)),
    {
        proof {
            use_type_invariant(self);
        }
        let (mut state, writing) = self.lock.acquire_write();
        state.update_prices(gold_price, silver_price);
        writing.release_write(state);
    }

    /// A copy of the pair that the cache held at some moment of the call: a pair that
    /// was written whole, or the pair of a new cache.
    pub fn get_prices(&self) -> (prices: (u64, u64))
        ensures
            self.admits(prices),
    {
        proof {
            use_type_invariant(self);
        }
        let reading = self.lock.acquire_read();
        let prices = reading.borrow().get_prices();
        reading.release_read();
        prices
    }

    /// Gives one report to `refresher`, alone in the cache, and returns its answer.
    /// The schedule moves as [`Refresher::step`] says; the cache is written only with
    /// the pair of an awaited fetch that succeeded.
    pub fn step(&self, refresher: &mut Refresher, event: RefreshEvent) -> (action: RefreshAction)
        requires
            event matches RefreshEvent::Fetched(Ok(fetched)) ==> self.admits(fetched),
        ensures
            final(refresher).interval_secs == old(refresher).interval_secs,
            final(refresher).phase == next_phase(old(refresher).phase, event),
            action == next_action(old(refresher).phase, old(refresher).interval_secs, event),
    {
        proof {
            use_type_invariant(self);
        }
        let (mut state, writing) = self.lock.acquire_write();
        let action = refresher.step(&mut state, event);
        writing.release_write(state);
        action
    }
}

} // verus!
