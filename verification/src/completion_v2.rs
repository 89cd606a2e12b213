//! Completion events registered per queue pair and released by PSN.
use std::collections::VecDeque;

use vstd::prelude::*;

use crate::completion::{IBV_WC_RDMA_WRITE, IBV_WC_RECV_RDMA_WITH_IMM};
use crate::constants::{MAX_MSN_WINDOW, MAX_QP_CNT};
use crate::qp::QpAttr;
use crate::qp_table::{qpn_index, spec_qpn_index, QpTable};
use crate::seq_num::{msn_dist, msn_gt, psn_lt, spec_msn_lt, spec_psn_lt};

verus! {

/// A completion event of a message.
#[derive(Debug, Clone, Copy, PartialEq, Eq, Structural)]
pub enum CompletionEventV2 {
    /// An RDMA write of the local side
    RdmaWrite { qpn: u32, msn: u16, end_psn: u32, wr_id: u64 },
    /// An RDMA write with immediate data from the peer
    RecvRdmaWithImm { qpn: u32, msn: u16, end_psn: u32, imm: u32 },
}

impl CompletionEventV2 {
    /// The queue pair of the event.
    pub open spec fn spec_qpn(self) -> u32 {
        match self {
            CompletionEventV2::RdmaWrite { qpn, .. } => qpn,
            CompletionEventV2::RecvRdmaWithImm { qpn, .. } => qpn,
        }
    }

    /// The MSN of the event.
    pub open spec fn spec_msn(self) -> u16 {
        match self {
            CompletionEventV2::RdmaWrite { msn, .. } => msn,
            CompletionEventV2::RecvRdmaWithImm { msn, .. } => msn,
        }
    }

    /// The end PSN of the event.
    pub open spec fn spec_end_psn(self) -> u32 {
        match self {
            CompletionEventV2::RdmaWrite { end_psn, .. } => end_psn,
            CompletionEventV2::RecvRdmaWithImm { end_psn, .. } => end_psn,
        }
    }

    /// An RDMA write completion.
    pub fn new_rdma_write(qpn: u32, msn: u16, end_psn: u32, wr_id: u64) -> (r: Self)
        ensures
            r == (CompletionEventV2::RdmaWrite { qpn, msn, end_psn, wr_id }),
    {
        Self::RdmaWrite { qpn, msn, end_psn, wr_id }
    }

    /// A completion of an RDMA write with immediate data.
    pub fn new_recv_rdma_with_imm(qpn: u32, msn: u16, end_psn: u32, imm: u32) -> (r: Self)
        ensures
            r == (CompletionEventV2::RecvRdmaWithImm { qpn, msn, end_psn, imm }),
    {
        Self::RecvRdmaWithImm { qpn, msn, end_psn, imm }
    }

    /// The queue pair of the event.
    pub fn qpn(&self) -> (r: u32)
        ensures
            r == self.spec_qpn(),
    {
        match *self {
            CompletionEventV2::RdmaWrite { qpn, .. }
            | CompletionEventV2::RecvRdmaWithImm { qpn, .. } => qpn,
        }
    }

    /// The MSN of the event.
    pub fn msn(&self) -> (r: u16)
        ensures
            r == self.spec_msn(),
    {
        match *self {
            CompletionEventV2::RdmaWrite { msn, .. }
            | CompletionEventV2::RecvRdmaWithImm { msn, .. } => msn,
        }
    }

    /// The end PSN of the event.
    pub fn end_psn(&self) -> (r: u32)
        ensures
            r == self.spec_end_psn(),
    {
        match *self {
            CompletionEventV2::RdmaWrite { end_psn, .. }
            | CompletionEventV2::RecvRdmaWithImm { end_psn, .. } => end_psn,
        }
    }

    /// The work completion opcode.
    pub fn opcode(&self) -> (r: u32)
        ensures
            r == (match *self {
                CompletionEventV2::RdmaWrite { .. } => IBV_WC_RDMA_WRITE,
                CompletionEventV2::RecvRdmaWithImm { .. } => IBV_WC_RECV_RDMA_WITH_IMM,
            }),
    {
        match *self {
            CompletionEventV2::RdmaWrite { .. } => IBV_WC_RDMA_WRITE,
            CompletionEventV2::RecvRdmaWithImm { .. } => IBV_WC_RECV_RDMA_WITH_IMM,
        }
    }
}

/// The index of the first event in `q[i..]` whose MSN comes after `m`, or `q.len()`.
pub open spec fn first_after(q: Seq<CompletionEventV2>, m: u16, i: int) -> int
    decreases q.len() - i,
{
    if i >= q.len() {
        q.len() as int
    } else if spec_msn_lt(m, q[i].spec_msn()) {
        i
    } else {
        first_after(q, m, i + 1)
    }
}

/// `q` after registering `e`: appended, unless the last event's MSN comes after `e`'s; then
/// inserted before the first event whose MSN comes after `e`'s.
pub open spec fn spec_register(q: Seq<CompletionEventV2>, e: CompletionEventV2) -> Seq<
    CompletionEventV2,
> {
    if q.len() > 0 && spec_msn_lt(e.spec_msn(), q.last().spec_msn()) {
        q.insert(first_after(q, e.spec_msn(), 0), e)
    } else {
        q.push(e)
    }
}

/// `first_after` lies within `[i, q.len()]`.
proof fn lemma_first_after_bounds(q: Seq<CompletionEventV2>, m: u16, i: int)
    requires
        0 <= i,
    ensures
        i <= q.len() ==> i <= first_after(q, m, i) <= q.len(),
        i > q.len() ==> first_after(q, m, i) == q.len(),
    decreases q.len() - i,
{
    if i < q.len() {
        lemma_first_after_bounds(q, m, i + 1);
    }
}

/// The MSNs of `q` lie in the window that starts at `r` and do not decrease along `q`.
pub open spec fn msn_ordered_from(q: Seq<CompletionEventV2>, r: u16) -> bool {
    &&& forall|i: int| 0 <= i < q.len() ==> msn_dist(r, #[trigger] q[i].spec_msn()) < MAX_MSN_WINDOW
    &&& forall|i: int, j: int|
        0 <= i < j < q.len() ==> msn_dist(r, #[trigger] q[i].spec_msn()) <= msn_dist(
            r,
            #[trigger] q[j].spec_msn(),
        )
}

/// Inside one window, MSN order is the order of the distances from the window's start.
proof fn lemma_msn_order_in_window(r: u16, x: u16, y: u16)
    requires
        msn_dist(r, x) < MAX_MSN_WINDOW,
        msn_dist(r, y) < MAX_MSN_WINDOW,
    ensures
        spec_msn_lt(x, y) <==> msn_dist(r, x) < msn_dist(r, y),
{
}

/// `first_after` passes over events whose MSN does not come after `m` and stops at one
/// whose MSN does.
proof fn lemma_first_after_stops(q: Seq<CompletionEventV2>, m: u16, i: int)
    requires
        0 <= i <= q.len(),
    ensures
        i <= first_after(q, m, i) <= q.len(),
        forall|j: int| i <= j < first_after(q, m, i) ==> !spec_msn_lt(m, #[trigger] q[j].spec_msn()),
        first_after(q, m, i) < q.len() ==> spec_msn_lt(m, q[first_after(q, m, i)].spec_msn()),
    decreases q.len() - i,
{
    if i < q.len() && !spec_msn_lt(m, q[i].spec_msn()) {
        lemma_first_after_stops(q, m, i + 1);
    }
}

/// Registering an event whose MSN lies in the window of an ordered queue inserts it after
/// every event whose MSN does not come after its own and before every event whose MSN
/// does, and keeps the queue ordered.
pub proof fn lemma_register_ordered(q: Seq<CompletionEventV2>, e: CompletionEventV2, r: u16)
    requires
        msn_ordered_from(q, r),
        msn_dist(r, e.spec_msn()) < MAX_MSN_WINDOW,
    ensures
        exists|k: int|
            0 <= k <= q.len() && spec_register(q, e) == q.insert(k, e) && (forall|i: int|
                0 <= i < k ==> msn_dist(r, #[trigger] q[i].spec_msn()) <= msn_dist(
                    r,
                    e.spec_msn(),
                )) && (forall|i: int|
                k <= i < q.len() ==> msn_dist(r, e.spec_msn()) < msn_dist(
                    r,
                    #[trigger] q[i].spec_msn(),
                )),
        msn_ordered_from(spec_register(q, e), r),
{
    let m = e.spec_msn();
    let dm = msn_dist(r, m);
    let k: int = if q.len() > 0 && spec_msn_lt(m, q.last().spec_msn()) {
        first_after(q, m, 0)
    } else {
        q.len() as int
    };
    if q.len() > 0 && spec_msn_lt(m, q.last().spec_msn()) {
        lemma_first_after_stops(q, m, 0);
        if k == q.len() {
            assert(!spec_msn_lt(m, q[q.len() - 1].spec_msn()));
        }
        assert forall|i: int| 0 <= i < k implies msn_dist(r, #[trigger] q[i].spec_msn()) <= dm by {
            assert(!spec_msn_lt(m, q[i].spec_msn()));
            lemma_msn_order_in_window(r, m, q[i].spec_msn());
        }
        lemma_msn_order_in_window(r, m, q[k].spec_msn());
        assert forall|i: int| k <= i < q.len() implies dm < msn_dist(r, #[trigger] q[i].spec_msn()) by {
            if i > k {
                assert(msn_dist(r, q[k].spec_msn()) <= msn_dist(r, q[i].spec_msn()));
            }
        }
    } else {
        assert(spec_register(q, e) == q.push(e));
        assert(q.push(e) =~= q.insert(q.len() as int, e));
        if q.len() > 0 {
            let l = q.last().spec_msn();
            lemma_msn_order_in_window(r, m, l);
            assert forall|i: int| 0 <= i < k implies msn_dist(r, #[trigger] q[i].spec_msn()) <= dm by {
                if i < q.len() - 1 {
                    assert(msn_dist(r, q[i].spec_msn()) <= msn_dist(r, q[q.len() - 1].spec_msn()));
                }
            }
        }
    }
    let t = q.insert(k, e);
    assert(spec_register(q, e) == t);
    assert(t[k] == e);
    assert forall|i: int| 0 <= i < t.len() implies msn_dist(r, #[trigger] t[i].spec_msn())
        < MAX_MSN_WINDOW by {
        if i < k {
            assert(t[i] == q[i]);
        } else if i > k {
            assert(t[i] == q[i - 1]);
        }
    }
    assert forall|i: int, j: int| 0 <= i < j < t.len() implies msn_dist(
        r,
        #[trigger] t[i].spec_msn(),
    ) <= msn_dist(r, #[trigger] t[j].spec_msn()) by {
        if j < k {
            assert(t[i] == q[i] && t[j] == q[j]);
        } else if j == k {
            assert(t[i] == q[i]);
        } else if i < k {
            assert(t[i] == q[i] && t[j] == q[j - 1]);
        } else if i == k {
            assert(t[j] == q[j - 1]);
        } else {
            assert(t[i] == q[i - 1] && t[j] == q[j - 1]);
        }
    }
}

/// The registered events after registering `e`: its queue pair's events as
/// `spec_register` leaves them; unchanged for an unknown queue pair.
pub open spec fn registered(queues: Seq<Seq<CompletionEventV2>>, e: CompletionEventV2) -> Seq<
    Seq<CompletionEventV2>,
> {
    let idx = spec_qpn_index(e.spec_qpn());
    if idx < queues.len() {
        queues.update(idx, spec_register(queues[idx], e))
    } else {
        queues
    }
}

/// Completion events, per queue pair, in MSN order.
#[derive(Debug)]
pub struct EventRegistry {
    table: QpTable<VecDeque<CompletionEventV2>>,
}

impl EventRegistry {
    /// The registered events, by queue pair index.
    pub closed spec fn queues(&self) -> Seq<Seq<CompletionEventV2>> {
        self.table@.map_values(|q: VecDeque<CompletionEventV2>| q@)
    }

    /// A registry with no event for every queue pair.
    pub fn new() -> (r: Self)
        ensures
            r.queues() == Seq::new(MAX_QP_CNT as nat, |i: int| Seq::<CompletionEventV2>::empty()),
    {
        let mut v: Vec<VecDeque<CompletionEventV2>> = Vec::new();
        let mut i: usize = 0;
        while i < MAX_QP_CNT
            invariant
                i <= MAX_QP_CNT,
                v.len() == i,
                forall|j: int| 0 <= j < i ==> #[trigger] v@[j]@ == Seq::<CompletionEventV2>::empty(),
            decreases MAX_QP_CNT - i,
        {
            v.push(VecDeque::new());
            i = i + 1;
        }
        let r = Self { table: QpTable::from_vec(v) };
        proof {
            assert(r.queues() =~= Seq::new(
                MAX_QP_CNT as nat,
                |i: int| Seq::<CompletionEventV2>::empty(),
            ));
        }
        r
    }

    /// Removes and returns, oldest first, the events of `qpn` whose end PSN comes before
    /// `base_psn`, up to the first one that does not.
    pub fn ack_psn(&mut self, qpn: u32, base_psn: u32) -> (r: Vec<CompletionEventV2>)
        ensures
            ({
                let idx = spec_qpn_index(qpn);
                &&& idx >= old(self).queues().len() ==> r@ == Seq::<CompletionEventV2>::empty()
                    && final(self).queues() == old(self).queues()
                &&& idx < old(self).queues().len() ==> {
                    let q = old(self).queues()[idx];
                    &&& r@ == q.take(r.len() as int)
                    &&& r.len() <= q.len()
                    &&& forall|i: int| 0 <= i < r.len() ==> spec_psn_lt(#[trigger] q[i].spec_end_psn(), base_psn)
                    &&& r.len() < q.len() ==> !spec_psn_lt(q[r.len() as int].spec_end_psn(), base_psn)
                    &&& final(self).queues() == old(self).queues().update(idx, q.skip(r.len() as int))
                }
            }),
    {
        let mut elements: Vec<CompletionEventV2> = Vec::new();
        let idx = qpn_index(qpn);
        if idx >= self.table.len() {
            return elements;
        }
        let ghost q = old(self).queues()[idx as int];
        let ghost old_table = self.table@;
        let queue = self.table.index_mut(idx);
        proof {
            assert(queue@ == q);
        }
        let mut done = false;
        while !done && queue.len() > 0
            invariant
                elements.len() <= q.len(),
                elements@ == q.take(elements.len() as int),
                queue@ == q.skip(elements.len() as int),
                forall|i: int| 0 <= i < elements.len() ==> spec_psn_lt(#[trigger] q[i].spec_end_psn(), base_psn),
                done ==> elements.len() < q.len() && !spec_psn_lt(q[elements.len() as int].spec_end_psn(), base_psn),
            decreases queue.len() + (if done { 0int } else { 1int }),
        {
            let front = queue[0];
            if psn_lt(front.end_psn(), base_psn) {
                let ghost k = elements.len() as int;
                let e = queue.pop_front();
                match e {
                    Some(e) => elements.push(e),
                    None => {},
                }
                proof {
                    assert(elements@ =~= q.take(k + 1));
                    assert(queue@ =~= q.skip(k + 1));
                }
            } else {
                done = true;
            }
        }
        proof {
            assert(self.queues() =~= old(self).queues().update(idx as int, q.skip(elements.len() as int)));
        }
        elements
    }

    /// Registers `event` with its queue pair, in MSN order; events of unknown queue pairs
    /// are dropped.
    pub fn register(&mut self, event: CompletionEventV2)
        ensures
            final(self).queues() == registered(old(self).queues(), event),
    {
        let idx = qpn_index(event.qpn());
        if idx >= self.table.len() {
            return;
        }
        let ghost q = old(self).queues()[idx as int];
        let queue = self.table.index_mut(idx);
        proof {
            assert(queue@ == q);
        }
        let len = queue.len();
        if len > 0 && msn_gt(queue[len - 1].msn(), event.msn()) {
            let mut i: usize = 0;
            while i < len && !msn_gt(queue[i].msn(), event.msn())
                invariant
                    i <= len,
                    len == queue.len(),
                    queue@ == q,
                    first_after(q, event.spec_msn(), i as int) == first_after(q, event.spec_msn(), 0),
                decreases len - i,
            {
                i = i + 1;
            }
            queue.insert(i, event);
        } else {
            queue.push_back(event);
        }
        proof {
            assert(self.queues() =~= registered(old(self).queues(), event));
        }
    }
}

/// A completion queue of completion events.
#[derive(Debug)]
pub struct CompletionQueueV2 {
    inner: VecDeque<CompletionEventV2>,
}

impl CompletionQueueV2 {
    /// The queued events, oldest first.
    pub closed spec fn view(&self) -> Seq<CompletionEventV2> {
        self.inner@
    }

    /// An empty queue.
    pub fn new() -> (r: Self)
        ensures
            r@ == Seq::<CompletionEventV2>::empty(),
    {
        Self { inner: VecDeque::new() }
    }

    /// Appends an event.
    pub fn push_back(&mut self, event: CompletionEventV2)
        ensures
            final(self)@ == old(self)@.push(event),
    {
        self.inner.push_back(event);
    }

    /// Removes the oldest event.
    pub fn pop_front(&mut self) -> (r: Option<CompletionEventV2>)
        ensures
            old(self)@.len() == 0 ==> r is None && final(self)@ == old(self)@,
            old(self)@.len() > 0 ==> r == Some(old(self)@[0]) && final(self)@ == old(self)@.drop_first(),
    {
        let r = self.inner.pop_front();
        proof {
            if old(self)@.len() > 0 {
                assert(self.inner@ =~= old(self)@.drop_first());
            }
        }
        r
    }

    /// The oldest event.
    pub fn front(&self) -> (r: Option<CompletionEventV2>)
        ensures
            self@.len() == 0 ==> r is None,
            self@.len() > 0 ==> r == Some(self@[0]),
    {
        if self.inner.len() == 0 {
            None
        } else {
            Some(self.inner[0])
        }
    }
}

/// The completion count of `ctx` can take all the registered events of `qpn`.
pub open spec fn can_count(ctx: CompletionQueueCtx, qpn: u32) -> bool {
    let idx = spec_qpn_index(qpn);
    idx < ctx.registry.queues().len() ==> ctx.cqe_count + ctx.registry.queues()[idx].len()
        <= usize::MAX
}

/// The registered events of `qpn`; none for an unknown queue pair.
pub open spec fn events_of(queues: Seq<Seq<CompletionEventV2>>, qpn: u32) -> Seq<CompletionEventV2> {
    let idx = spec_qpn_index(qpn);
    if idx < queues.len() {
        queues[idx]
    } else {
        Seq::empty()
    }
}

/// `after` is `before` once `qpn` is acknowledged up to `base_psn`: the registered events of
/// `qpn` whose end PSN comes before `base_psn`, up to the first one that does not, leave the
/// registry, in order, for the end of the completion queue, and are counted.
pub open spec fn acked(
    before: CompletionQueueCtx,
    after: CompletionQueueCtx,
    qpn: u32,
    base_psn: u32,
) -> bool {
    let idx = spec_qpn_index(qpn);
    let q = events_of(before.registry.queues(), qpn);
    let n = after.cqe_count - before.cqe_count;
    &&& 0 <= n <= q.len()
    &&& after.completion_queue@ == before.completion_queue@ + q.take(n)
    &&& after.handle == before.handle
    &&& after.num_cqe == before.num_cqe
    &&& forall|i: int| 0 <= i < n ==> spec_psn_lt(#[trigger] q[i].spec_end_psn(), base_psn)
    &&& n < q.len() ==> !spec_psn_lt(q[n].spec_end_psn(), base_psn)
    &&& idx < before.registry.queues().len() ==> after.registry.queues()
        == before.registry.queues().update(idx, q.skip(n))
    &&& idx >= before.registry.queues().len() ==> after.registry.queues()
        == before.registry.queues()
}

/// A completion queue with its event registrations.
pub struct CompletionQueueCtx {
    /// Number of completions released so far
    pub cqe_count: usize,
    /// Handle of the queue
    pub handle: u32,
    /// Number of completions the queue can hold
    pub num_cqe: usize,
    /// Event registrations
    pub registry: EventRegistry,
    /// The completion queue
    pub completion_queue: CompletionQueueV2,
}

impl CompletionQueueCtx {
    /// A context around `completion_queue`, with no registration.
    pub fn new(completion_queue: CompletionQueueV2) -> (r: Self)
        ensures
            r.cqe_count == 0,
            r.handle == 0,
            r.num_cqe == 0,
            r.registry.queues() == Seq::new(MAX_QP_CNT as nat, |i: int| Seq::<CompletionEventV2>::empty()),
            r.completion_queue@ == completion_queue@,
    {
        Self { cqe_count: 0, handle: 0, num_cqe: 0, registry: EventRegistry::new(), completion_queue }
    }

    /// Releases the events of `qpn` acknowledged before `base_psn` into the completion queue.
    pub fn ack_event(&mut self, qpn: u32, base_psn: u32)
        requires
            can_count(*old(self), qpn),
        ensures
            acked(*old(self), *final(self), qpn, base_psn),
    {
        let events = self.registry.ack_psn(qpn, base_psn);
        let event_count = events.len();
        let ghost start = self.completion_queue@;
        let ghost regs = self.registry.queues();
        let mut i: usize = 0;
        while i < events.len()
            invariant
                i <= events.len(),
                self.completion_queue@ == start + events@.take(i as int),
                self.cqe_count == old(self).cqe_count,
                self.handle == old(self).handle,
                self.num_cqe == old(self).num_cqe,
                self.registry.queues() == regs,
            decreases events.len() - i,
        {
            self.completion_queue.push_back(events[i]);
            i = i + 1;
            proof {
                assert(start + events@.take(i as int) =~= (start + events@.take(i - 1)).push(events@[i - 1]));
            }
        }
        proof {
            assert(events@.take(events.len() as int) =~= events@);
        }
        self.cqe_count = self.cqe_count + event_count;
    }
}


/// A registry with no event for any queue pair.
pub open spec fn empty_registry() -> Seq<Seq<CompletionEventV2>> {
    Seq::new(MAX_QP_CNT as nat, |i: int| Seq::<CompletionEventV2>::empty())
}

/// The completion queue contexts, by completion queue handle.
pub struct CompletionQueueCtxTable {
    inner: Vec<CompletionQueueCtx>,
}

impl CompletionQueueCtxTable {
    /// The contexts, by handle.
    pub closed spec fn view(&self) -> Seq<CompletionQueueCtx> {
        self.inner@
    }

    /// One context without registrations around each of `queues`, in order.
    pub fn new(queues: Vec<CompletionQueueV2>) -> (r: Self)
        ensures
            r@.len() == queues@.len(),
            forall|h: int|
                0 <= h < r@.len() ==> {
                    &&& (#[trigger] r@[h]).cqe_count == 0
                    &&& r@[h].handle == 0
                    &&& r@[h].num_cqe == 0
                    &&& r@[h].registry.queues() == empty_registry()
                    &&& r@[h].completion_queue@ == queues@[h]@
                },
    {
        let ghost given = queues@;
        let mut queues = queues;
        let mut inner: Vec<CompletionQueueCtx> = Vec::new();
        while queues.len() > 0
            invariant
                inner.len() + queues.len() == given.len(),
                queues@ == given.skip(inner.len() as int),
                forall|h: int|
                    0 <= h < inner.len() ==> {
                        &&& (#[trigger] inner@[h]).cqe_count == 0
                        &&& inner@[h].handle == 0
                        &&& inner@[h].num_cqe == 0
                        &&& inner@[h].registry.queues() == empty_registry()
                        &&& inner@[h].completion_queue@ == given[h]@
                    },
            decreases queues.len(),
        {
            let ghost k = inner.len() as int;
            let q = queues.remove(0);
            inner.push(CompletionQueueCtx::new(q));
            proof {
                assert(queues@ =~= given.skip(k + 1));
            }
        }
        Self { inner }
    }

    /// Number of contexts.
    pub fn len(&self) -> (r: usize)
        ensures
            r == self@.len(),
    {
        self.inner.len()
    }

    /// The context of completion queue `handle`.
    pub fn get_cq(&self, handle: u32) -> (r: Option<&CompletionQueueCtx>)
        ensures
            (handle as int) < self@.len() ==> r == Some(&self@[handle as int]),
            (handle as int) >= self@.len() ==> r is None,
    {
        let idx = handle as usize;
        if idx < self.inner.len() {
            Some(&self.inner[idx])
        } else {
            None
        }
    }
}

/// A task for the completion worker.
#[derive(Debug, Clone, Copy, PartialEq, Eq, Structural)]
pub enum CompletionTask {
    /// Register an event with a completion queue
    Register { cq_handle: u32, event: CompletionEventV2 },
    /// One side of a queue pair is acknowledged up to `psn`: the sending side when
    /// `is_send`, the receiving side otherwise
    UpdateBasePsn { qpn: u32, psn: u32, is_send: bool },
}

/// The completion queue that an acknowledgement of one side of `qpn` goes to: the queue
/// pair's send queue for the sending side, its receive queue otherwise; `None` for an
/// unknown queue pair or one without that queue.
pub open spec fn ack_target(attrs: Seq<QpAttr>, qpn: u32, is_send: bool) -> Option<u32> {
    let idx = spec_qpn_index(qpn);
    if idx < attrs.len() {
        if is_send {
            attrs[idx].send_cq
        } else {
            attrs[idx].recv_cq
        }
    } else {
        None
    }
}

/// Dispatches completion tasks to the completion queue contexts.
pub struct CompletionWorker {
    /// Completion queue contexts, by handle
    pub cq_table: CompletionQueueCtxTable,
    /// Queue pair attributes
    pub qp_table: QpTable<QpAttr>,
}

impl CompletionWorker {
    /// A worker over `qp_table` and one fresh context around each of `queues`.
    pub fn new(qp_table: QpTable<QpAttr>, queues: Vec<CompletionQueueV2>) -> (r: Self)
        ensures
            r.qp_table@ == qp_table@,
            r.cq_table@.len() == queues@.len(),
            forall|h: int|
                0 <= h < r.cq_table@.len() ==> {
                    &&& (#[trigger] r.cq_table@[h]).cqe_count == 0
                    &&& r.cq_table@[h].handle == 0
                    &&& r.cq_table@[h].num_cqe == 0
                    &&& r.cq_table@[h].registry.queues() == empty_registry()
                    &&& r.cq_table@[h].completion_queue@ == queues@[h]@
                },
    {
        Self { cq_table: CompletionQueueCtxTable::new(queues), qp_table }
    }

    /// Carries out one task. A registration goes to the registry of its completion queue; an
    /// acknowledgement releases the acknowledged events of the queue pair into the
    /// completion queue of that side. Tasks naming an unknown queue pair or completion queue
    /// change nothing.
    pub fn process(&mut self, task: CompletionTask)
        requires
            task matches CompletionTask::UpdateBasePsn { qpn, .. } ==> forall|h: int|
                0 <= h < old(self).cq_table@.len() ==> can_count(
                    #[trigger] old(self).cq_table@[h],
                    qpn,
                ),
        ensures
            final(self).qp_table@ == old(self).qp_table@,
            final(self).cq_table@.len() == old(self).cq_table@.len(),
            match task {
                CompletionTask::Register { cq_handle, event } => {
                    &&& forall|h: int|
                        0 <= h < old(self).cq_table@.len() && h != cq_handle ==> #[trigger] final(self).cq_table@[h] == old(self).cq_table@[h]
                    &&& (cq_handle as int) < old(self).cq_table@.len() ==> {
                        let a = old(self).cq_table@[cq_handle as int];
                        let b = final(self).cq_table@[cq_handle as int];
                        &&& b.cqe_count == a.cqe_count
                        &&& b.handle == a.handle
                        &&& b.num_cqe == a.num_cqe
                        &&& b.completion_queue@ == a.completion_queue@
                        &&& b.registry.queues() == registered(a.registry.queues(), event)
                    }
                },
                CompletionTask::UpdateBasePsn { qpn, psn, is_send } => match ack_target(
                    old(self).qp_table@,
                    qpn,
                    is_send,
                ) {
                    Some(h) => if (h as int) < old(self).cq_table@.len() {
                        &&& forall|g: int|
                            0 <= g < old(self).cq_table@.len() && g != h ==> #[trigger] final(self).cq_table@[g] == old(self).cq_table@[g]
                        &&& acked(
                            old(self).cq_table@[h as int],
                            final(self).cq_table@[h as int],
                            qpn,
                            psn,
                        )
                    } else {
                        final(self).cq_table@ == old(self).cq_table@
                    },
                    None => final(self).cq_table@ == old(self).cq_table@,
                },
            },
    {
        match task {
            CompletionTask::Register { cq_handle, event } => {
                let idx = cq_handle as usize;
                if idx < self.cq_table.inner.len() {
                    let cq = &mut self.cq_table.inner[idx];
                    cq.registry.register(event);
                }
            },
            CompletionTask::UpdateBasePsn { qpn, psn, is_send } => {
                let attr = match self.qp_table.get_qp(qpn) {
                    Some(a) => a,
                    None => return ,
                };
                let handle = if is_send {
                    attr.send_cq
                } else {
                    attr.recv_cq
                };
                let h = match handle {
                    Some(h) => h,
                    None => return ,
                };
                let idx = h as usize;
                if idx < self.cq_table.inner.len() {
                    proof {
                        assert(can_count(self.cq_table@[idx as int], qpn));
                    }
                    let cq = &mut self.cq_table.inner[idx];
                    cq.ack_event(qpn, psn);
                }
            },
        }
    }
}

} // verus!
