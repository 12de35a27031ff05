use vstd::prelude::*;

verus! {

/// Seconds in one day.
pub const SECONDS_PER_DAY: u64 = 86_400;

/// Options of the indexing run: how many pools are indexed at once and for
/// how many days each is indexed.
#[derive(Clone, Copy, Debug)]
pub struct IndexSubcommand {
    pub max_indexers: u8,
    pub indexing_times: u8,
}

impl IndexSubcommand {
    /// How long, in seconds, each pool is indexed.
    pub fn indexing_window_secs(&self) -> (r: u64)
        ensures
            r == self.indexing_times * SECONDS_PER_DAY,
    {
        self.indexing_times as u64 * SECONDS_PER_DAY
    }
}

/// Whether a pool whose indexing started at `started_at` has been indexed for
/// the whole window at time `now` (all in seconds).
pub open spec fn indexing_complete(started_at: u64, now: u64, window: u64) -> bool {
    now >= started_at + window
}

/// Whether a pool has been indexed for the whole window.
pub fn done_indexing(started_at: u64, now: u64, window: u64) -> (r: bool)
    ensures
        r == indexing_complete(started_at, now, window),
{
    now >= started_at && now - started_at >= window
}

/// Whether a sequence of positions is strictly increasing.
pub open spec fn increasing(s: Seq<usize>) -> bool {
    forall|a: int, b: int| 0 <= a < b < s.len() ==> s[a] < s[b]
}

/// Splits the indexed pools of one cycle, given by their start times, into
/// those whose window is complete and those still to be read, each by
/// position in increasing order.
pub fn plan_indexing_cycle(started: &Vec<u64>, now: u64, window: u64) -> (r: (
    Vec<usize>,
    Vec<usize>,
))
    ensures
        increasing(r.0@),
        increasing(r.1@),
        forall|i: int|
            0 <= i < started@.len() ==> (r.0@.contains(i as usize) <==> indexing_complete(
                #[trigger] started@[i],
                now,
                window,
            )),
        forall|i: int|
            0 <= i < started@.len() ==> (r.1@.contains(i as usize) <==> !indexing_complete(
                #[trigger] started@[i],
                now,
                window,
            )),
        forall|k: int| 0 <= k < r.0@.len() ==> #[trigger] r.0@[k] < started@.len(),
        forall|k: int| 0 <= k < r.1@.len() ==> #[trigger] r.1@[k] < started@.len(),
{
    let mut done: Vec<usize> = Vec::new();
    let mut pending: Vec<usize> = Vec::new();
    let mut i: usize = 0;
    while i < started.len()
        invariant
            i <= started@.len(),
            increasing(done@),
            increasing(pending@),
            forall|k: int| 0 <= k < done@.len() ==> #[trigger] done@[k] < i,
            forall|k: int| 0 <= k < pending@.len() ==> #[trigger] pending@[k] < i,
            forall|j: int|
                0 <= j < i ==> (done@.contains(j as usize) <==> indexing_complete(
                    #[trigger] started@[j],
                    now,
                    window,
                )),
            forall|j: int|
                0 <= j < i ==> (pending@.contains(j as usize) <==> !indexing_complete(
                    #[trigger] started@[j],
                    now,
                    window,
                )),
        decreases started@.len() - i,
    {
        let ghost d0 = done@;
        let ghost t0 = pending@;
        if done_indexing(started[i], now, window) {
            done.push(i);
            proof {
                assert forall|j: int| 0 <= j < i + 1 implies (done@.contains(j as usize)
                    <==> indexing_complete(#[trigger] started@[j], now, window)) by {
                    if j < i {
                        if d0.contains(j as usize) {
                            let k = choose|k: int| 0 <= k < d0.len() && d0[k] == j as usize;
                            assert(done@[k] == j as usize);
                        }
                        if done@.contains(j as usize) {
                            let k = choose|k: int| 0 <= k < done@.len() && done@[k] == j as usize;
                            assert(k < d0.len());
                            assert(d0[k] == j as usize);
                        }
                    } else {
                        assert(done@[done@.len() - 1] == i);
                    }
                }
                assert forall|j: int| 0 <= j < i + 1 implies (pending@.contains(j as usize)
                    <==> !indexing_complete(#[trigger] started@[j], now, window)) by {
                    if j == i {
                        assert(!t0.contains(i));
                    }
                }
            }
        } else {
            pending.push(i);
            proof {
                assert forall|j: int| 0 <= j < i + 1 implies (pending@.contains(j as usize)
                    <==> !indexing_complete(#[trigger] started@[j], now, window)) by {
                    if j < i {
                        if t0.contains(j as usize) {
                            let k = choose|k: int| 0 <= k < t0.len() && t0[k] == j as usize;
                            assert(pending@[k] == j as usize);
                        }
                        if pending@.contains(j as usize) {
                            let k = choose|k: int|
                                0 <= k < pending@.len() && pending@[k] == j as usize;
                            assert(k < t0.len());
                            assert(t0[k] == j as usize);
                        }
                    } else {
                        assert(pending@[pending@.len() - 1] == i);
                    }
                }
                assert forall|j: int| 0 <= j < i + 1 implies (done@.contains(j as usize)
                    <==> indexing_complete(#[trigger] started@[j], now, window)) by {
                    if j == i {
                        assert(!d0.contains(i));
                    }
                }
            }
        }
        i = i + 1;
    }
    (done, pending)
}

/// What one cycle records for a read pool.
#[derive(Clone, Copy, Debug, PartialEq, Eq, Structural)]
pub enum PoolVerdict {
    /// The base-asset side fell to or below the rug floor.
    Rugged,
    /// A liquidity snapshot of both sides.
    Snapshot { target_liquidity: u64, sol_liquidity: u64 },
}

/// The verdict for one pool's target-side and base-side balances.
pub open spec fn verdict_of(target: u64, sol: u64, rug_floor: u64) -> PoolVerdict {
    if sol <= rug_floor {
        PoolVerdict::Rugged
    } else {
        PoolVerdict::Snapshot { target_liquidity: target, sol_liquidity: sol }
    }
}

/// Verdicts for the pools read in one cycle, from the balances read in pairs
/// (target vault, then base-asset vault, per pool); nothing when the count of
/// balances is not two per pool.
pub fn classify_liquidity(amounts: &Vec<u64>, pools: usize, rug_floor: u64) -> (r: Option<
    Vec<PoolVerdict>,
>)
    ensures
        match r {
            Some(v) => amounts@.len() == 2 * pools && v@.len() == pools && forall|i: int|
                0 <= i < pools ==> #[trigger] v@[i] == verdict_of(
                    amounts@[2 * i],
                    amounts@[2 * i + 1],
                    rug_floor,
                ),
            None => amounts@.len() != 2 * pools,
        },
{
    if pools > amounts.len() / 2 || amounts.len() != 2 * pools {
        return None;
    }
    let n = amounts.len();
    let mut out: Vec<PoolVerdict> = Vec::new();
    let mut i: usize = 0;
    while i < pools
        invariant
            i <= pools,
            n == amounts@.len(),
            amounts@.len() == 2 * pools,
            out@.len() == i,
            forall|j: int|
                0 <= j < i ==> #[trigger] out@[j] == verdict_of(
                    amounts@[2 * j],
                    amounts@[2 * j + 1],
                    rug_floor,
                ),
        decreases pools - i,
    {
        assert(2 * i + 1 < n);
        let target = amounts[2 * i];
        let sol = amounts[2 * i + 1];
        if sol <= rug_floor {
            out.push(PoolVerdict::Rugged);
        } else {
            out.push(PoolVerdict::Snapshot { target_liquidity: target, sol_liquidity: sol });
        }
        i = i + 1;
    }
    Some(out)
}

} // verus!
