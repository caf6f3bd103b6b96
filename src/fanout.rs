use vstd::prelude::*;

use crate::model::{ConnectRecord, HostResults, SocketAddress};

verus! {

/// What the driver of a fan-out pass does next.
#[derive(Clone, Copy, Debug, PartialEq, Eq, Structural)]
pub enum FanOutAction {
    /// Start a probe of target `index`, whose address is given.
    Start(usize, SocketAddress),
    /// Wait for one of the probes in flight to finish.
    Wait,
    /// Every destination was probed and every probe finished.
    Done,
}

/// Number of started targets (those below `n`) whose record has not come in.
pub open spec fn pending_below(slots: Seq<Option<ConnectRecord>>, n: int) -> nat
    decreases n,
{
    if n <= 0 {
        0
    } else {
        pending_below(slots, n - 1) + if slots[n - 1] is None { 1nat } else { 0nat }
    }
}

proof fn lemma_pending_positive(slots: Seq<Option<ConnectRecord>>, n: int, i: int)
    requires
        0 <= i < n,
        slots[i] is None,
    ensures
        pending_below(slots, n) >= 1,
    decreases n,
{
    if i < n - 1 {
        lemma_pending_positive(slots, n - 1, i);
    }
}

proof fn lemma_pending_fill(slots: Seq<Option<ConnectRecord>>, n: int, i: int, r: ConnectRecord)
    requires
        0 <= i < n <= slots.len(),
        slots[i] is None,
    ensures
        pending_below(slots.update(i, Some(r)), n) + 1 == pending_below(slots, n),
    decreases n,
{
    if i < n - 1 {
        lemma_pending_fill(slots, n - 1, i, r);
        lemma_pending_positive(slots, n - 1, i);
    } else {
        lemma_pending_same_prefix(slots, slots.update(i, Some(r)), n - 1);
    }
}

proof fn lemma_pending_same_prefix(a: Seq<Option<ConnectRecord>>, b: Seq<Option<ConnectRecord>>, n: int)
    requires
        n <= a.len(),
        n <= b.len(),
        forall|j: int| 0 <= j < n ==> a[j] == b[j],
    ensures
        pending_below(a, n) == pending_below(b, n),
    decreases n,
{
    if n > 0 {
        lemma_pending_same_prefix(a, b, n - 1);
    }
}

proof fn lemma_none_pending_all_filled(slots: Seq<Option<ConnectRecord>>, n: int)
    requires
        pending_below(slots, n) == 0,
    ensures
        forall|j: int| 0 <= j < n ==> (#[trigger] slots[j]) is Some,
    decreases n,
{
    if n > 0 {
        lemma_none_pending_all_filled(slots, n - 1);
    }
}

/// Dispatch state of one fan-out pass: the destinations of a host, started
/// in order, with at most `limit` probes in flight at a time. The record of
/// target `i` is kept in `slots[i]` once its probe finished.
pub struct FanOut {
    pub limit: usize,
    pub targets: Vec<SocketAddress>,
    pub next: usize,
    pub in_flight: usize,
    pub slots: Vec<Option<ConnectRecord>>,
}

impl FanOut {
    pub open spec fn wf(self) -> bool {
        &&& self.limit >= 1
        &&& self.next <= self.targets@.len()
        &&& self.in_flight <= self.limit
        &&& self.slots@.len() == self.targets@.len()
        &&& forall|i: int|
            0 <= i < self.slots@.len() && (#[trigger] self.slots@[i]) is Some ==> i < self.next
                && self.slots@[i]->0.destination == self.targets@[i]
        &&& self.in_flight == pending_below(self.slots@, self.next as int)
    }

    /// Target `i` was started and its record has not come in.
    pub open spec fn is_pending_spec(self, i: int) -> bool {
        0 <= i < self.next && self.slots@[i] is None
    }

    pub open spec fn is_done_spec(self) -> bool {
        self.next == self.targets@.len() && self.in_flight == 0
    }

    /// A pass over `targets` with at most `limit` probes in flight; a limit
    /// of 0 is taken as 1 so that the pass can make progress.
    pub fn new(targets: Vec<SocketAddress>, limit: usize) -> (r: FanOut)
        ensures
            r.wf(),
            r.targets@ == targets@,
            r.limit == if limit == 0 { 1 } else { limit },
            r.next == 0,
            r.in_flight == 0,
    {
        let limit = if limit == 0 { 1 } else { limit };
        let mut slots: Vec<Option<ConnectRecord>> = Vec::new();
        let mut i: usize = 0;
        while i < targets.len()
            invariant
                i <= targets@.len(),
                slots@.len() == i,
                forall|j: int| 0 <= j < i ==> (#[trigger] slots@[j]) is None,
            decreases targets@.len() - i,
        {
            slots.push(None);
            i = i + 1;
        }
        FanOut { limit, targets, next: 0, in_flight: 0, slots }
    }

    /// Starts the next destination when a slot is free, else waits while a
    /// probe is in flight, else reports the pass done.
    pub fn next_action(&mut self) -> (r: FanOutAction)
        requires
            old(self).wf(),
        ensures
            final(self).wf(),
            final(self).limit == old(self).limit,
            final(self).targets@ == old(self).targets@,
            final(self).slots@ == old(self).slots@,
            if old(self).next < old(self).targets@.len() && old(self).in_flight < old(self).limit {
                &&& r == FanOutAction::Start(old(self).next, old(self).targets@[old(self).next as int])
                &&& final(self).next == old(self).next + 1
                &&& final(self).in_flight == old(self).in_flight + 1
            } else {
                &&& final(self).next == old(self).next
                &&& final(self).in_flight == old(self).in_flight
                &&& (r == FanOutAction::Wait <==> old(self).in_flight > 0)
                &&& (r == FanOutAction::Done <==> old(self).is_done_spec())
            },
    {
        if self.next < self.targets.len() && self.in_flight < self.limit {
            let index = self.next;
            let dst = self.targets[index];
            proof {
                assert(self.slots@[index as int] is None);
            }
            self.next = self.next + 1;
            self.in_flight = self.in_flight + 1;
            FanOutAction::Start(index, dst)
        } else if self.in_flight > 0 {
            FanOutAction::Wait
        } else {
            FanOutAction::Done
        }
    }

    /// True when target `index` was started and its record has not come in.
    pub fn is_pending(&self, index: usize) -> (r: bool)
        requires
            self.wf(),
        ensures
            r == self.is_pending_spec(index as int),
    {
        index < self.next && self.slots[index].is_none()
    }

    /// Takes the record of the probe of target `index`, freeing its slot.
    pub fn complete(&mut self, index: usize, record: ConnectRecord)
        requires
            old(self).wf(),
            old(self).is_pending_spec(index as int),
            record.destination == old(self).targets@[index as int],
        ensures
            final(self).wf(),
            final(self).limit == old(self).limit,
            final(self).targets@ == old(self).targets@,
            final(self).next == old(self).next,
            final(self).in_flight == old(self).in_flight - 1,
            final(self).slots@ == old(self).slots@.update(index as int, Some(record)),
    {
        proof {
            lemma_pending_fill(self.slots@, self.next as int, index as int, record);
        }
        self.in_flight = self.in_flight - 1;
        self.slots.set(index, Some(record));
    }

    pub fn is_done(&self) -> (r: bool)
        ensures
            r == self.is_done_spec(),
    {
        self.next == self.targets.len() && self.in_flight == 0
    }

    /// The records of a finished pass: one per target, in target order.
    pub fn finish(self, host: String) -> (r: HostResults)
        requires
            self.wf(),
            self.is_done_spec(),
        ensures
            r.host == host,
            r.results@.len() == self.targets@.len(),
            forall|i: int| 0 <= i < r.results@.len() ==> Some(#[trigger] r.results@[i]) == self.slots@[i],
            r.results@.map_values(|x: ConnectRecord| x.destination) == self.targets@,
            r.results@.map_values(|x: ConnectRecord| x.destination).to_multiset()
                == self.targets@.to_multiset(),
    {
        proof {
            lemma_none_pending_all_filled(self.slots@, self.next as int);
        }
        let ghost orig = self.slots@;
        let mut slots = self.slots;
        let mut results: Vec<ConnectRecord> = Vec::new();
        let mut i: usize = 0;
        while i < slots.len()
            invariant
                slots@.len() == orig.len(),
                i <= orig.len(),
                results@.len() == i,
                forall|j: int| i <= j < orig.len() ==> #[trigger] slots@[j] == orig[j],
                forall|j: int| 0 <= j < i ==> Some(#[trigger] results@[j]) == orig[j],
                forall|j: int| 0 <= j < orig.len() ==> (#[trigger] orig[j]) is Some,
            decreases orig.len() - i,
        {
            let mut taken: Option<ConnectRecord> = None;
            std::mem::swap(&mut taken, &mut slots[i]);
            match taken {
                Some(rec) => results.push(rec),
                None => {
                    assert(false);
                },
            }
            i = i + 1;
        }
        let ghost dests = results@.map_values(|x: ConnectRecord| x.destination);
        assert(dests =~= self.targets@);
        HostResults { host, results }
    }
}

/// However the driver interleaves starts and completions, a pass never has
/// more probes in flight than its limit, nor more started than targets.
pub proof fn lemma_in_flight_bounded(f: FanOut)
    requires
        f.wf(),
    ensures
        f.in_flight <= f.limit,
        f.in_flight <= f.next <= f.targets@.len(),
{
    lemma_pending_le(f.slots@, f.next as int);
}

proof fn lemma_pending_le(slots: Seq<Option<ConnectRecord>>, n: int)
    requires
        n >= 0,
    ensures
        pending_below(slots, n) <= n,
    decreases n,
{
    if n > 0 {
        lemma_pending_le(slots, n - 1);
    }
}

} // verus!
