use crate::address::{address_to_string, base58_text, same_address, Address};
use crate::decoder::PoolInitTxInfos;
use vstd::prelude::*;
use vstd::string::*;

verus! {

/// The name prefix of every trade worker.
pub const WORKER_PREFIX: &'static str = "swapper-";

/// How many leading characters of each address text a worker's name keeps.
pub const LABEL_CHARS: usize = 3;

/// A trade worker's identity: the market and pool it trades.
#[derive(Clone, Copy, Debug)]
pub struct WorkerId {
    pub market_id: Address,
    pub amm_id: Address,
}

impl View for WorkerId {
    type V = (Seq<u8>, Seq<u8>);

    open spec fn view(&self) -> (Seq<u8>, Seq<u8>) {
        (self.market_id@, self.amm_id@)
    }
}

/// Why an event was not turned into a worker.
#[derive(Clone, Copy, Debug, PartialEq, Eq, Structural)]
pub enum SpawnRejection {
    /// The concurrency ceiling is reached.
    AtCapacity,
    /// The listener has stopped; no new work is taken.
    ShuttingDown,
    /// A worker for the same market and pool is live.
    AlreadyRunning,
}

/// The admission decision for one decoded event.
#[derive(Clone, Copy, Debug)]
pub enum SpawnOutcome {
    Spawned(WorkerId),
    Rejected(SpawnRejection),
}

/// The leading characters of an address text that a worker's name keeps.
pub open spec fn label_part(text: Seq<char>) -> Seq<char> {
    if text.len() < LABEL_CHARS {
        text
    } else {
        text.take(LABEL_CHARS as int)
    }
}

/// A worker's name: the prefix, then the leading characters of the market
/// text and of the pool text.
pub open spec fn label_of(market_text: Seq<char>, amm_text: Seq<char>) -> Seq<char> {
    WORKER_PREFIX@ + label_part(market_text) + label_part(amm_text)
}

/// The worker id for a decoded event.
pub fn worker_id(event: &PoolInitTxInfos) -> (id: WorkerId)
    ensures
        id@ == (event.market_id@, event.amm_id@),
{
    WorkerId { market_id: event.market_id, amm_id: event.amm_id }
}

fn leading_chars(text: &str) -> (r: &str)
    ensures
        r@ == label_part(text@),
{
    let n = text.unicode_len();
    if n < LABEL_CHARS {
        text
    } else {
        text.substring_char(0, LABEL_CHARS)
    }
}

/// A worker's name from the base58 texts of its market and pool.
pub fn worker_label_from_texts(market_text: &str, amm_text: &str) -> (r: String)
    ensures
        r@ == label_of(market_text@, amm_text@),
{
    let mut out = String::from_str(WORKER_PREFIX);
    out.append(leading_chars(market_text));
    out.append(leading_chars(amm_text));
    out
}

/// A worker's name, from the base58 texts of its addresses.
pub fn worker_label(id: &WorkerId) -> (r: String)
    ensures
        r@ == label_of(base58_text(id.market_id@), base58_text(id.amm_id@)),
{
    let m = address_to_string(&id.market_id);
    let a = address_to_string(&id.amm_id);
    worker_label_from_texts(m.as_str(), a.as_str())
}

/// Whether two worker ids name the same market and pool.
pub fn same_worker(a: &WorkerId, b: &WorkerId) -> (r: bool)
    ensures
        r == (a@ == b@),
{
    same_address(&a.market_id, &b.market_id) && same_address(&a.amm_id, &b.amm_id)
}

/// The relation between the live set before and after a termination report:
/// `removed` says whether the id was live, and then exactly one entry went.
pub open spec fn terminated_from(
    before: Seq<(Seq<u8>, Seq<u8>)>,
    id: (Seq<u8>, Seq<u8>),
    after: Seq<(Seq<u8>, Seq<u8>)>,
    removed: bool,
) -> bool {
    &&& removed == before.contains(id)
    &&& removed ==> exists|i: int| 0 <= i < before.len() && before[i] == id && after == before.remove(i)
    &&& !removed ==> after == before
}

/// The admission decision: at the ceiling an event is rejected whatever else
/// holds; then once stopped; then while its worker is live. `None` admits it.
pub open spec fn admission(
    max_swappers: u8,
    terminated: bool,
    live: Seq<(Seq<u8>, Seq<u8>)>,
    id: (Seq<u8>, Seq<u8>),
) -> Option<SpawnRejection> {
    if live.len() >= max_swappers {
        Some(SpawnRejection::AtCapacity)
    } else if terminated {
        Some(SpawnRejection::ShuttingDown)
    } else if live.contains(id) {
        Some(SpawnRejection::AlreadyRunning)
    } else {
        None
    }
}

/// The live set after an event: unchanged when it is rejected, else grown by
/// the event's worker.
pub open spec fn live_after_event(
    max_swappers: u8,
    terminated: bool,
    live: Seq<(Seq<u8>, Seq<u8>)>,
    id: (Seq<u8>, Seq<u8>),
) -> Seq<(Seq<u8>, Seq<u8>)> {
    if admission(max_swappers, terminated, live, id) is Some {
        live
    } else {
        live.push(id)
    }
}

/// The supervisor of trade workers: admits decoded events up to a ceiling of
/// live workers and forgets each worker when it reports its outcome.
pub struct Listener {
    max_swappers: u8,
    live: Vec<WorkerId>,
    terminated: bool,
}

impl Listener {
    /// The ids of the live workers.
    pub closed spec fn live_view(&self) -> Seq<(Seq<u8>, Seq<u8>)> {
        self.live@.map_values(|w: WorkerId| w@)
    }

    /// The concurrency ceiling.
    pub closed spec fn spec_max_swappers(&self) -> u8 {
        self.max_swappers
    }

    /// Whether the listener has stopped.
    pub closed spec fn spec_stopped(&self) -> bool {
        self.terminated
    }

    /// The concurrency ceiling.
    pub fn max_swappers(&self) -> (r: u8)
        ensures
            r == self.spec_max_swappers(),
    {
        self.max_swappers
    }

    /// Whether the listener has stopped.
    pub fn is_stopped(&self) -> (r: bool)
        ensures
            r == self.spec_stopped(),
    {
        self.terminated
    }

    /// Live ids are distinct and never more than the ceiling.
    pub closed spec fn wf(&self) -> bool {
        &&& self.live_view().no_duplicates()
        &&& self.live@.len() <= self.max_swappers
    }

    /// A running supervisor with no workers.
    pub fn new(max_swappers: u8) -> (l: Listener)
        ensures
            l.wf(),
            l.spec_max_swappers() == max_swappers,
            l.live_view() == Seq::<(Seq<u8>, Seq<u8>)>::empty(),
            !l.spec_stopped(),
    {
        let l = Listener { max_swappers, live: Vec::new(), terminated: false };
        assert(l.live_view() =~= Seq::<(Seq<u8>, Seq<u8>)>::empty());
        l
    }

    /// The number of live workers.
    pub fn child_count(&self) -> (n: usize)
        ensures
            n == self.live_view().len(),
    {
        self.live.len()
    }

    /// The position of a live worker, if any.
    fn position(&self, id: &WorkerId) -> (r: Option<usize>)
        ensures
            match r {
                Some(i) => i < self.live_view().len() && self.live_view()[i as int] == id@,
                None => !self.live_view().contains(id@),
            },
    {
        let mut i: usize = 0;
        while i < self.live.len()
            invariant
                i <= self.live@.len(),
                forall|j: int| 0 <= j < i ==> self.live_view()[j] != id@,
            decreases self.live@.len() - i,
        {
            if same_worker(&self.live[i], id) {
                return Some(i);
            }
            i = i + 1;
        }
        None
    }

    /// Admits one decoded event: at the ceiling it is rejected, as it is once
    /// the listener has stopped or while a worker for the same pool is live;
    /// otherwise its worker is registered.
    pub fn on_event(&mut self, event: &PoolInitTxInfos) -> (r: SpawnOutcome)
        requires
            old(self).wf(),
        ensures
            final(self).wf(),
            final(self).spec_max_swappers() == old(self).spec_max_swappers(),
            final(self).spec_stopped() == old(self).spec_stopped(),
            final(self).live_view() == live_after_event(
                old(self).spec_max_swappers(),
                old(self).spec_stopped(),
                old(self).live_view(),
                (event.market_id@, event.amm_id@),
            ),
            match admission(
                old(self).spec_max_swappers(),
                old(self).spec_stopped(),
                old(self).live_view(),
                (event.market_id@, event.amm_id@),
            ) {
                Some(why) => r matches SpawnOutcome::Rejected(w) && w == why,
                None => r matches SpawnOutcome::Spawned(w) && w@ == (event.market_id@, event.amm_id@),
            },
    {
        if self.live.len() >= self.max_swappers as usize {
            return SpawnOutcome::Rejected(SpawnRejection::AtCapacity);
        }
        if self.terminated {
            return SpawnOutcome::Rejected(SpawnRejection::ShuttingDown);
        }
        let id = worker_id(event);
        match self.position(&id) {
            Some(_) => SpawnOutcome::Rejected(SpawnRejection::AlreadyRunning),
            None => {
                let ghost before = self.live_view();
                self.live.push(id);
                assert(self.live_view() =~= before.push(id@));
                SpawnOutcome::Spawned(id)
            },
        }
    }

    /// Forgets a worker that reported its outcome; a second report for the
    /// same id changes nothing.
    pub fn on_child_terminated(&mut self, id: &WorkerId) -> (removed: bool)
        requires
            old(self).wf(),
        ensures
            final(self).wf(),
            final(self).spec_max_swappers() == old(self).spec_max_swappers(),
            final(self).spec_stopped() == old(self).spec_stopped(),
            terminated_from(old(self).live_view(), id@, final(self).live_view(), removed),
            !final(self).live_view().contains(id@),
    {
        match self.position(id) {
            Some(i) => {
                let ghost before = self.live_view();
                self.live.remove(i);
                assert(self.live_view() =~= before.remove(i as int));
                proof {
                    lemma_removed_absent(before, i as int, id@);
                    lemma_remove_no_duplicates(before, i as int);
                }
                true
            },
            None => false,
        }
    }

    /// Marks the listener stopped: no event is admitted afterwards.
    pub fn stop(&mut self)
        requires
            old(self).wf(),
        ensures
            final(self).wf(),
            final(self).spec_stopped(),
            final(self).spec_max_swappers() == old(self).spec_max_swappers(),
            final(self).live_view() == old(self).live_view(),
    {
        self.terminated = true;
    }
}

proof fn lemma_removed_absent(s: Seq<(Seq<u8>, Seq<u8>)>, i: int, id: (Seq<u8>, Seq<u8>))
    requires
        s.no_duplicates(),
        0 <= i < s.len(),
        s[i] == id,
    ensures
        !s.remove(i).contains(id),
{
    let r = s.remove(i);
    assert forall|j: int| 0 <= j < r.len() implies r[j] != id by {
        if j < i {
            assert(r[j] == s[j]);
        } else {
            assert(r[j] == s[j + 1]);
        }
    }
}

proof fn lemma_remove_no_duplicates(s: Seq<(Seq<u8>, Seq<u8>)>, i: int)
    requires
        s.no_duplicates(),
        0 <= i < s.len(),
    ensures
        s.remove(i).no_duplicates(),
{
    let r = s.remove(i);
    assert forall|a: int, b: int| 0 <= a < r.len() && 0 <= b < r.len() && a != b implies r[a]
        != r[b] by {
        let sa = if a < i { a } else { a + 1 };
        let sb = if b < i { b } else { b + 1 };
        assert(r[a] == s[sa]);
        assert(r[b] == s[sb]);
    }
}

/// While the live count equals the ceiling, every event is rejected as
/// `AtCapacity` and the live set, hence its count, is left as it is.
pub proof fn law_at_capacity_rejects(
    max_swappers: u8,
    terminated: bool,
    live: Seq<(Seq<u8>, Seq<u8>)>,
    id: (Seq<u8>, Seq<u8>),
)
    requires
        live.len() == max_swappers,
    ensures
        admission(max_swappers, terminated, live, id) == Some(SpawnRejection::AtCapacity),
        live_after_event(max_swappers, terminated, live, id) == live,
        live_after_event(max_swappers, terminated, live, id).len() == live.len(),
{
}

/// Reporting the same worker's termination twice removes it once: the second
/// report finds nothing and leaves the live set, and its count, unchanged.
pub proof fn law_termination_idempotent(
    l0: Seq<(Seq<u8>, Seq<u8>)>,
    id: (Seq<u8>, Seq<u8>),
    l1: Seq<(Seq<u8>, Seq<u8>)>,
    r1: bool,
    l2: Seq<(Seq<u8>, Seq<u8>)>,
    r2: bool,
)
    requires
        l0.no_duplicates(),
        terminated_from(l0, id, l1, r1),
        terminated_from(l1, id, l2, r2),
    ensures
        !r2,
        l2 == l1,
        l1.len() == l0.len() - (if r1 { 1int } else { 0int }),
{
    if r1 {
        let i = choose|i: int| 0 <= i < l0.len() && l0[i] == id && l1 == l0.remove(i);
        lemma_removed_absent(l0, i, id);
    }
}

/// The guard that waits for the listener to stop and wakes shutdown once.
pub struct GuardActor {
    pub notified: bool,
}

impl GuardActor {
    /// A guard that has not fired.
    pub fn new() -> (g: GuardActor)
        ensures
            !g.notified,
    {
        GuardActor { notified: false }
    }

    /// Reports the listener's termination; `true` only on the first report,
    /// when shutdown is to be woken.
    pub fn on_target_terminated(&mut self) -> (wake: bool)
        ensures
            wake == !old(self).notified,
            final(self).notified,
    {
        let wake = !self.notified;
        self.notified = true;
        wake
    }
}

} // verus!
