//! The price cache: the pair of prices that was stored last, replaced as a whole.

use vstd::prelude::*;

verus! {

/// The last-known gold and silver prices per troy ounce.
///
/// A price is carried as the 64-bit pattern of a double-precision number, so that
/// what was stored comes back bit for bit and the cache never rounds or compares it.
/// The all-zero pattern is the price zero, which is what a new cache holds; a cache
/// that was never written and one that was written with zero read alike.
///
/// The view is the pair `(gold, silver)`. Writing takes `&mut self`: no reader can
/// hold the cache while a pair is being replaced, so a reader sees either the pair
/// from before a write or the pair from after it. Tasks that share one cache hold it
/// as a [`SharedMetalState`](crate::shared::SharedMetalState).
pub struct MetalState {
    gold_price_oz: u64,
    silver_price_oz: u64,
}

impl View for MetalState {
    type V = (u64, u64);

    closed spec fn view(&self) -> (u64, u64) {
        (self.gold_price_oz, self.silver_price_oz)
    }
}

impl MetalState {
    /// A cache that holds the price zero for both metals.
    pub fn new() -> (state: Self)
        ensures
            state@ == (0u64, 0u64),
    {
        MetalState { gold_price_oz: 0, silver_price_oz: 0 }
    }

    /// Replaces both prices at once.
    pub fn update_prices(&mut self, gold_price: u64, silver_price: u64)
        ensures
            final(self)@ == (gold_price, silver_price),
    {
        self.gold_price_oz = gold_price;
        self.silver_price_oz = silver_price;
    }

    /// The pair that was stored last, gold first.
    pub fn get_prices(&self) -> (prices: (u64, u64))
        ensures
            prices == self@,
    {
        (self.gold_price_oz, self.silver_price_oz)
    }
}

/// One use of a cache, as it appears in a history.
pub ghost enum CacheOp {
    /// A call of `update_prices` with this pair.
    Update { gold: u64, silver: u64 },
    /// A call of `get_prices`.
    Read,
}

/// The pair in a cache that was new before `ops` were applied to it one after another.
pub open spec fn prices_after_ops(ops: Seq<CacheOp>) -> (u64, u64)
    decreases ops.len(),
{
    if ops.len() == 0 {
        (0u64, 0u64)
    } else {
        match ops.last() {
            CacheOp::Update { gold, silver } => (gold, silver),
            CacheOp::Read => prices_after_ops(ops.drop_last()),
        }
    }
}

/// Pair atomicity. In every order in which updates and reads of one cache may take
/// their turns, the read at position `i` returns the pair of the latest update before
/// it, both prices from that one call, or the pair of a new cache if no update came
/// before it. It never returns the gold price of one update with the silver price of
/// another.
pub proof fn lemma_read_returns_latest_update(ops: Seq<CacheOp>, i: int)
    requires
        0 <= i < ops.len(),
        ops[i] is Read,
    ensures
        ({
            let read = prices_after_ops(ops.take(i));
            ||| read == (0u64, 0u64) && forall|m: int| 0 <= m < i ==> #[trigger] ops[m] is Read
            ||| exists|j: int|
                {
                    &&& 0 <= j < i
                    &&& #[trigger] ops[j] == (CacheOp::Update { gold: read.0, silver: read.1 })
                    &&& forall|m: int| j < m < i ==> #[trigger] ops[m] is Read
                }
        }),
    decreases i,
{
    let before = ops.take(i);
    if i > 0 {
        let last = before.last();
        assert(last == ops[i - 1]);
        match last {
            CacheOp::Update { gold, silver } => {
                assert(ops[i - 1] == (CacheOp::Update { gold, silver }));
            },
            CacheOp::Read => {
                assert(before.drop_last() == ops.take(i - 1));
                lemma_read_returns_latest_update(ops, i - 1);
                let read = prices_after_ops(ops.take(i - 1));
                if !(read == (0u64, 0u64) && forall|m: int|
                    0 <= m < i - 1 ==> #[trigger] ops[m] is Read) {
                    let j = choose|j: int|
                        {
                            &&& 0 <= j < i - 1
                            &&& #[trigger] ops[j] == (CacheOp::Update {
                                gold: read.0,
                                silver: read.1,
                            })
                            &&& forall|m: int| j < m < i - 1 ==> #[trigger] ops[m] is Read
                        };
                    assert(forall|m: int| j < m < i ==> #[trigger] ops[m] is Read);
                }
            },
        }
    }
}

} // verus!
