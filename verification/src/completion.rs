//! Message tracking and work completion generation.
use std::collections::VecDeque;

use vstd::prelude::*;

use crate::ack_responder::AckResponse;
use crate::ack_timeout::AckTimeoutTask;
use crate::constants::{MAX_CQ_CNT, MAX_QP_CNT};
use crate::qp::QpAttr;
use crate::qp_table::{qpn_index, spec_qpn_index, QpTable};
use crate::constants::MAX_MSN_WINDOW;
use crate::seq_num::{msn_dist, msn_lt, psn_le, spec_msn_lt, spec_psn_le};

verus! {

/// Work completion opcode of a send.
pub const IBV_WC_SEND: u32 = 0;

/// Work completion opcode of an RDMA write.
pub const IBV_WC_RDMA_WRITE: u32 = 1;

/// Work completion opcode of an RDMA read.
pub const IBV_WC_RDMA_READ: u32 = 2;

/// Work completion opcode of a receive.
pub const IBV_WC_RECV: u32 = 128;

/// Work completion opcode of a received RDMA write with immediate data.
pub const IBV_WC_RECV_RDMA_WITH_IMM: u32 = 129;

/// The sequence numbers of a message: its MSN and the PSN after its last packet.
#[derive(Debug, Clone, Copy, PartialEq, Eq, Structural)]
pub struct MessageMeta {
    /// Message sequence number
    pub msn: u16,
    /// PSN of the end of the message
    pub end_psn: u32,
}

impl MessageMeta {
    /// Creates message metadata.
    pub fn new(msn: u16, end_psn: u32) -> (r: Self)
        ensures
            r == (MessageMeta { msn, end_psn }),
    {
        Self { msn, end_psn }
    }
}

/// An event that belongs to a message.
pub trait EventMeta: Sized {
    /// The message of the event.
    spec fn spec_meta(&self) -> MessageMeta;

    /// The message of the event.
    fn meta(&self) -> (r: MessageMeta)
        ensures
            r == self.spec_meta(),
    ;
}

/// Kinds of send events that complete.
#[derive(Debug, Clone, Copy, PartialEq, Eq, Structural)]
pub enum SendEventOp {
    /// A signaled RDMA write
    WriteSignaled,
    /// A signaled send
    SendSignaled,
    /// A signaled RDMA read
    ReadSignaled,
}

/// A work request on the sending side.
#[derive(Debug, Clone, Copy, PartialEq, Eq, Structural)]
pub struct SendEvent {
    /// Queue pair number
    pub qpn: u32,
    /// Kind of the request
    pub op: SendEventOp,
    /// Message of the request
    pub meta: MessageMeta,
    /// Work request id
    pub wr_id: u64,
}

impl SendEvent {
    /// Creates a send event.
    pub fn new(qpn: u32, op: SendEventOp, meta: MessageMeta, wr_id: u64) -> (r: Self)
        ensures
            r == (SendEvent { qpn, op, meta, wr_id }),
    {
        Self { qpn, op, meta, wr_id }
    }
}

impl EventMeta for SendEvent {
    open spec fn spec_meta(&self) -> MessageMeta {
        self.meta
    }

    fn meta(&self) -> (r: MessageMeta) {
        self.meta
    }
}

/// Kinds of received messages.
#[derive(Debug, Clone, Copy, PartialEq, Eq, Structural)]
pub enum RecvEventOp {
    /// An RDMA write
    Write,
    /// An RDMA write with immediate data
    WriteWithImm { imm: u32 },
    /// A send
    Recv,
    /// A send with immediate data
    RecvWithImm { imm: u32 },
    /// A response to an RDMA read
    ReadResp,
    /// An RDMA read request
    RecvRead,
}

/// A message on the receiving side.
#[derive(Debug, Clone, Copy, PartialEq, Eq, Structural)]
pub struct RecvEvent {
    /// Queue pair number
    pub qpn: u32,
    /// Kind of the message
    pub op: RecvEventOp,
    /// Sequence numbers of the message
    pub meta: MessageMeta,
    /// The message requests an acknowledgement
    pub ack_req: bool,
}

impl RecvEvent {
    /// Creates a receive event.
    pub fn new(qpn: u32, op: RecvEventOp, meta: MessageMeta, ack_req: bool) -> (r: Self)
        ensures
            r == (RecvEvent { qpn, op, meta, ack_req }),
    {
        Self { qpn, op, meta, ack_req }
    }
}

impl EventMeta for RecvEvent {
    open spec fn spec_meta(&self) -> MessageMeta {
        self.meta
    }

    fn meta(&self) -> (r: MessageMeta) {
        self.meta
    }
}

/// A posted receive work request.
#[derive(Debug, Clone, Copy, PartialEq, Eq, Structural)]
pub struct PostRecvEvent {
    /// Queue pair number
    pub qpn: u32,
    /// Work request id
    pub wr_id: u64,
}

impl PostRecvEvent {
    /// Creates a posted receive event.
    pub fn new(qpn: u32, wr_id: u64) -> (r: Self)
        ensures
            r == (PostRecvEvent { qpn, wr_id }),
    {
        Self { qpn, wr_id }
    }
}

/// An event to register with a queue pair.
#[derive(Debug, Clone, Copy, PartialEq, Eq, Structural)]
pub enum Event {
    /// A send work request
    Send(SendEvent),
    /// A received message
    Recv(RecvEvent),
    /// A posted receive work request
    PostRecv(PostRecvEvent),
}

/// An event tagged with its queue pair.
#[derive(Debug, Clone, Copy)]
pub struct EventWithQpn {
    /// Queue pair number
    pub qpn: u32,
    /// The event
    pub event: Event,
}

impl EventWithQpn {
    /// Tags an event with its queue pair.
    pub fn new(qpn: u32, event: Event) -> (r: Self)
        ensures
            r.qpn == qpn,
            r.event == event,
    {
        Self { qpn, event }
    }
}

/// A work completion.
#[allow(inconsistent_fields)]
#[derive(Debug, Clone, Copy, PartialEq, Eq, Structural)]
pub enum Completion {
    /// A send completed
    Send { wr_id: u64 },
    /// An RDMA write completed
    RdmaWrite { wr_id: u64 },
    /// An RDMA read completed
    RdmaRead { wr_id: u64 },
    /// A receive completed
    Recv { wr_id: u64, imm: Option<u32> },
    /// An RDMA write with immediate data arrived
    RecvRdmaWithImm { imm: u32 },
}

impl Completion {
    /// The work completion opcode.
    pub fn opcode(&self) -> (r: u32)
        ensures
            r == (match *self {
                Completion::Send { .. } => IBV_WC_SEND,
                Completion::RdmaWrite { .. } => IBV_WC_RDMA_WRITE,
                Completion::RdmaRead { .. } => IBV_WC_RDMA_READ,
                Completion::Recv { .. } => IBV_WC_RECV,
                Completion::RecvRdmaWithImm { .. } => IBV_WC_RECV_RDMA_WITH_IMM,
            }),
    {
        match *self {
            Completion::Send { .. } => IBV_WC_SEND,
            Completion::RdmaWrite { .. } => IBV_WC_RDMA_WRITE,
            Completion::RdmaRead { .. } => IBV_WC_RDMA_READ,
            Completion::Recv { .. } => IBV_WC_RECV,
            Completion::RecvRdmaWithImm { .. } => IBV_WC_RECV_RDMA_WITH_IMM,
        }
    }
}

/// Index at which an event with MSN `m` goes into `s[..i]`: right after the last event whose
/// MSN comes before `m`, or at the front.
pub open spec fn insert_pos<E: EventMeta>(s: Seq<E>, m: u16, i: int) -> int
    decreases i,
{
    if i <= 0 {
        0
    } else if spec_msn_lt(s[i - 1].spec_meta().msn, m) {
        i
    } else {
        insert_pos(s, m, i - 1)
    }
}

/// `s` after appending `e`: inserted in MSN order unless an event of the same MSN already
/// stands at its place.
pub open spec fn spec_append<E: EventMeta>(s: Seq<E>, e: E) -> Seq<E> {
    let idx = insert_pos(s, e.spec_meta().msn, s.len() as int);
    if idx < s.len() && s[idx].spec_meta().msn == e.spec_meta().msn {
        s
    } else {
        s.insert(idx, e)
    }
}

/// The MSNs of `s` lie less than half the MSN space ahead of `r` and strictly increase.
pub open spec fn msn_sorted_in_window<E: EventMeta>(s: Seq<E>, r: u16) -> bool {
    &&& forall|i: int|
        0 <= i < s.len() ==> msn_dist(r, #[trigger] s[i].spec_meta().msn) < MAX_MSN_WINDOW
    &&& forall|i: int, j: int|
        0 <= i < j < s.len() ==> msn_dist(r, #[trigger] s[i].spec_meta().msn) < msn_dist(
            r,
            #[trigger] s[j].spec_meta().msn,
        )
}

/// Within a window that starts at `r`, the MSN order is the order of distances from `r`.
proof fn lemma_msn_lt_in_window(r: u16, x: u16, y: u16)
    requires
        msn_dist(r, x) < MAX_MSN_WINDOW,
        msn_dist(r, y) < MAX_MSN_WINDOW,
    ensures
        spec_msn_lt(x, y) <==> msn_dist(r, x) < msn_dist(r, y),
        x == y <==> msn_dist(r, x) == msn_dist(r, y),
{
}

/// Where `insert_pos` puts an MSN into a sorted sequence: after every smaller MSN, before
/// every other.
proof fn lemma_insert_pos_sorted<E: EventMeta>(s: Seq<E>, m: u16, r: u16, i: int)
    requires
        msn_sorted_in_window(s, r),
        msn_dist(r, m) < MAX_MSN_WINDOW,
        0 <= i <= s.len(),
    ensures
        0 <= insert_pos(s, m, i) <= i,
        forall|j: int|
            0 <= j < insert_pos(s, m, i) ==> msn_dist(r, #[trigger] s[j].spec_meta().msn)
                < msn_dist(r, m),
        forall|j: int|
            insert_pos(s, m, i) <= j < i ==> msn_dist(r, #[trigger] s[j].spec_meta().msn)
                >= msn_dist(r, m),
    decreases i,
{
    if i > 0 {
        let x = s[i - 1].spec_meta().msn;
        lemma_msn_lt_in_window(r, x, m);
        if spec_msn_lt(x, m) {
            assert forall|j: int| 0 <= j < i implies msn_dist(
                r,
                #[trigger] s[j].spec_meta().msn,
            ) < msn_dist(r, m) by {
                if j < i - 1 {
                    assert(msn_dist(r, s[j].spec_meta().msn) < msn_dist(r, s[i - 1].spec_meta().msn));
                }
            }
        } else {
            lemma_insert_pos_sorted(s, m, r, i - 1);
        }
    }
}

/// Appending an event whose MSN lies in the window of a sorted tracker keeps it sorted, and
/// afterwards the tracker holds an event of that MSN; when none was there before, the event
/// itself is inserted.
pub proof fn lemma_append_sorted<E: EventMeta>(s: Seq<E>, e: E, r: u16)
    requires
        msn_sorted_in_window(s, r),
        msn_dist(r, e.spec_meta().msn) < MAX_MSN_WINDOW,
    ensures
        msn_sorted_in_window(spec_append(s, e), r),
        exists|k: int|
            0 <= k < spec_append(s, e).len() && #[trigger] spec_append(s, e)[k].spec_meta().msn
                == e.spec_meta().msn,
        (forall|j: int| 0 <= j < s.len() ==> #[trigger] s[j].spec_meta().msn != e.spec_meta().msn)
            ==> spec_append(s, e) == s.insert(insert_pos(s, e.spec_meta().msn, s.len() as int), e),
{
    let m = e.spec_meta().msn;
    let k = insert_pos(s, m, s.len() as int);
    lemma_insert_pos_sorted(s, m, r, s.len() as int);
    if k < s.len() && s[k].spec_meta().msn == m {
        assert(spec_append(s, e)[k].spec_meta().msn == m);
    } else {
        let t = s.insert(k, e);
        assert(t[k] == e);
        if k < s.len() {
            lemma_msn_lt_in_window(r, s[k].spec_meta().msn, m);
        }
        assert forall|i: int, j: int| 0 <= i < j < t.len() implies msn_dist(
            r,
            #[trigger] t[i].spec_meta().msn,
        ) < msn_dist(r, #[trigger] t[j].spec_meta().msn) by {
            if j < k {
            } else if j == k {
            } else if i < k {
                assert(t[j] == s[j - 1]);
                if j - 1 > k {
                    assert(msn_dist(r, s[k].spec_meta().msn) < msn_dist(r, s[j - 1].spec_meta().msn));
                }
            } else if i == k {
                assert(t[j] == s[j - 1]);
                if j - 1 > k {
                    assert(msn_dist(r, s[k].spec_meta().msn) < msn_dist(r, s[j - 1].spec_meta().msn));
                }
            } else {
                assert(t[i] == s[i - 1]);
                assert(t[j] == s[j - 1]);
            }
        }
        assert forall|i: int| 0 <= i < t.len() implies msn_dist(
            r,
            #[trigger] t[i].spec_meta().msn,
        ) < MAX_MSN_WINDOW by {
            if i < k {
                assert(t[i] == s[i]);
            } else if i > k {
                assert(t[i] == s[i - 1]);
            }
        }
    }
}

/// Events of one direction of a queue pair, in MSN order, and the PSN acknowledged so far.
#[derive(Debug)]
pub struct MessageTracker<E> {
    inner: VecDeque<E>,
    base_psn: u32,
}

impl<E: EventMeta + Copy> MessageTracker<E> {
    /// The tracked events, oldest message first.
    pub closed spec fn events(&self) -> Seq<E> {
        self.inner@
    }

    /// The acknowledged PSN.
    pub closed spec fn spec_base_psn(&self) -> u32 {
        self.base_psn
    }

    /// Whether the front event is acknowledged.
    pub open spec fn front_acked(&self) -> bool {
        self.events().len() > 0 && spec_psn_le(
            self.events()[0].spec_meta().end_psn,
            self.spec_base_psn(),
        )
    }

    /// An empty tracker.
    pub fn new() -> (r: Self)
        ensures
            r.events() == Seq::<E>::empty(),
            r.spec_base_psn() == 0,
    {
        Self { inner: VecDeque::new(), base_psn: 0 }
    }

    /// Inserts `event` in MSN order; an event whose MSN is already tracked at its place is
    /// dropped.
    pub fn append(&mut self, event: E)
        ensures
            final(self).events() == spec_append(old(self).events(), event),
            final(self).spec_base_psn() == old(self).spec_base_psn(),
    {
        let m = event.meta().msn;
        let len = self.inner.len();
        let mut i = len;
        while i > 0 && !msn_lt(self.inner[i - 1].meta().msn, m)
            invariant
                i <= len,
                len == self.inner.len(),
                self.inner@ == old(self).inner@,
                self.base_psn == old(self).base_psn,
                insert_pos(self.inner@, m, i as int) == insert_pos(self.inner@, m, len as int),
            decreases i,
        {
            i = i - 1;
        }
        if i < len && self.inner[i].meta().msn == m {
            return;
        }
        self.inner.insert(i, event);
    }

    /// Records that every packet before `base_psn` is acknowledged.
    pub fn ack(&mut self, base_psn: u32)
        ensures
            final(self).events() == old(self).events(),
            final(self).spec_base_psn() == base_psn,
    {
        self.base_psn = base_psn;
    }

    /// The front event, if it is acknowledged.
    pub fn peek(&self) -> (r: Option<E>)
        ensures
            self.front_acked() ==> r == Some(self.events()[0]),
            !self.front_acked() ==> r is None,
    {
        if self.inner.len() == 0 {
            return None;
        }
        let front = self.inner[0];
        if psn_le(front.meta().end_psn, self.base_psn) {
            Some(front)
        } else {
            None
        }
    }

    /// Removes and returns the front event, if it is acknowledged.
    pub fn pop(&mut self) -> (r: Option<E>)
        ensures
            final(self).spec_base_psn() == old(self).spec_base_psn(),
            old(self).front_acked() ==> r == Some(old(self).events()[0]) && final(self).events()
                == old(self).events().drop_first(),
            !old(self).front_acked() ==> r is None && final(self).events() == old(self).events(),
    {
        if self.inner.len() == 0 {
            return None;
        }
        let front = self.inner[0];
        if psn_le(front.meta().end_psn, self.base_psn) {
            let r = self.inner.pop_front();
            proof {
                assert(self.inner@ =~= old(self).inner@.drop_first());
            }
            r
        } else {
            None
        }
    }
}

/// A completion queue.
#[derive(Debug)]
pub struct CompletionQueue {
    inner: VecDeque<Completion>,
}

impl CompletionQueue {
    /// The queued completions, oldest first.
    pub closed spec fn view(&self) -> Seq<Completion> {
        self.inner@
    }

    /// An empty completion queue.
    pub fn new() -> (r: Self)
        ensures
            r@ == Seq::<Completion>::empty(),
    {
        Self { inner: VecDeque::new() }
    }

    /// Appends a completion.
    pub fn push_back(&mut self, event: Completion)
        ensures
            final(self)@ == old(self)@.push(event),
    {
        self.inner.push_back(event);
    }

    /// Removes the oldest completion.
    pub fn pop_front(&mut self) -> (r: Option<Completion>)
        ensures
            old(self)@.len() == 0 ==> r is None && final(self)@ == old(self)@,
            old(self)@.len() > 0 ==> r == Some(old(self)@[0]) && final(self)@ == old(
                self,
            )@.drop_first(),
    {
        let r = self.inner.pop_front();
        proof {
            if old(self)@.len() > 0 {
                assert(self.inner@ =~= old(self)@.drop_first());
            }
        }
        r
    }

    /// The oldest completion.
    pub fn front(&self) -> (r: Option<Completion>)
        ensures
            self@.len() == 0 ==> r is None,
            self@.len() > 0 ==> r == Some(self@[0]),
    {
        if self.inner.len() == 0 {
            None
        } else {
            Some(self.inner[0])
        }
    }
}

/// `cqs` with `c` appended to queue `h`.
pub open spec fn push_cq(cqs: Seq<Seq<Completion>>, h: u32, c: Completion) -> Seq<Seq<Completion>> {
    cqs.update(h as int, cqs[h as int].push(c))
}

/// The completion queues, by handle.
pub struct CompletionQueueTable {
    inner: Vec<CompletionQueue>,
}

impl CompletionQueueTable {
    /// The queued completions of every queue.
    pub closed spec fn view(&self) -> Seq<Seq<Completion>> {
        self.inner@.map_values(|q: CompletionQueue| q@)
    }

    /// `MAX_CQ_CNT` empty completion queues.
    pub fn new() -> (r: Self)
        ensures
            r@ == Seq::new(MAX_CQ_CNT as nat, |i: int| Seq::<Completion>::empty()),
    {
        let mut inner: Vec<CompletionQueue> = Vec::new();
        let mut i: usize = 0;
        while i < MAX_CQ_CNT
            invariant
                i <= MAX_CQ_CNT,
                inner.len() == i,
                forall|j: int| 0 <= j < i ==> #[trigger] inner@[j]@ == Seq::<Completion>::empty(),
            decreases MAX_CQ_CNT - i,
        {
            inner.push(CompletionQueue::new());
            i = i + 1;
        }
        proof {
            assert(inner@.map_values(|q: CompletionQueue| q@) =~= Seq::new(
                MAX_CQ_CNT as nat,
                |j: int| Seq::<Completion>::empty(),
            ));
        }
        Self { inner }
    }

    /// Whether `handle` names a queue.
    pub fn has_cq(&self, handle: u32) -> (r: bool)
        ensures
            r == (handle < self@.len()),
    {
        (handle as usize) < self.inner.len()
    }

    /// The queue of `handle`.
    pub fn get_cq(&self, handle: u32) -> (r: Option<&CompletionQueue>)
        ensures
            handle < self@.len() ==> (r matches Some(q) && q@ == self@[handle as int]),
            handle >= self@.len() ==> r is None,
    {
        let idx = handle as usize;
        if idx < self.inner.len() {
            Some(&self.inner[idx])
        } else {
            None
        }
    }

    /// Appends `c` to queue `handle`.
    pub fn push(&mut self, handle: u32, c: Completion)
        requires
            handle < old(self)@.len(),
        ensures
            final(self)@ == push_cq(old(self)@, handle, c),
    {
        self.inner[handle as usize].push_back(c);
        proof {
            assert(self@ =~= push_cq(old(self)@, handle, c));
        }
    }

    /// Removes up to `max_num_entries` completions from queue `handle`, oldest first; none
    /// when `handle` names no queue.
    pub fn poll(&mut self, handle: u32, max_num_entries: usize) -> (r: Vec<Completion>)
        ensures
            handle >= old(self)@.len() ==> r@ == Seq::<Completion>::empty() && final(self)@ == old(
                self,
            )@,
            handle < old(self)@.len() ==> {
                let q = old(self)@[handle as int];
                let n = if q.len() < max_num_entries {
                    q.len() as int
                } else {
                    max_num_entries as int
                };
                &&& r@ == q.take(n)
                &&& final(self)@ == old(self)@.update(handle as int, q.skip(n))
            },
    {
        let mut out: Vec<Completion> = Vec::new();
        let idx = handle as usize;
        if idx >= self.inner.len() {
            return out;
        }
        let ghost q = old(self)@[handle as int];
        proof {
            assert(old(self).inner@[idx as int]@ == q);
            assert(q.skip(0) =~= q);
            assert(old(self)@.update(handle as int, q.skip(0)) =~= old(self)@);
        }
        let mut done = false;
        while !done && out.len() < max_num_entries
            invariant
                idx == handle,
                idx < self.inner.len(),
                self.inner.len() == old(self).inner.len(),
                out.len() <= max_num_entries,
                out.len() <= q.len(),
                done ==> out.len() == q.len(),
                out@ == q.take(out.len() as int),
                self.inner@[idx as int]@ == q.skip(out.len() as int),
                forall|j: int|
                    0 <= j < self.inner.len() && j != idx ==> #[trigger] self.inner@[j] == old(
                        self,
                    ).inner@[j],
            decreases max_num_entries - out.len() + (if done {
                0int
            } else {
                1int
            }),
        {
            let c = self.inner[idx].pop_front();
            match c {
                Some(c) => {
                    let ghost k = out.len() as int;
                    out.push(c);
                    proof {
                        assert(out@ =~= q.take(k + 1));
                        assert(q.skip(k).drop_first() =~= q.skip(k + 1));
                    }
                },
                None => {
                    done = true;
                },
            }
        }
        proof {
            let n = out.len() as int;
            assert(self@ =~= old(self)@.update(handle as int, q.skip(n))) by {
                assert forall|j: int| 0 <= j < self@.len() implies #[trigger] self@[j] == old(
                    self,
                )@.update(handle as int, q.skip(n))[j] by {
                    if j != idx {
                        assert(self.inner@[j] == old(self).inner@[j]);
                    }
                }
            }
        }
        out
    }
}

/// The state of a queue pair tracker.
pub struct TrackerModel {
    /// Send events, oldest message first
    pub send: Seq<SendEvent>,
    /// Acknowledged PSN on the sending side
    pub send_base: u32,
    /// Receive events, oldest message first
    pub recv: Seq<RecvEvent>,
    /// Acknowledged PSN on the receiving side
    pub recv_base: u32,
    /// Read responses waiting for their read request to complete
    pub read_resp: Seq<RecvEvent>,
    /// Posted receive work requests
    pub post_recv: Seq<PostRecvEvent>,
}

/// The state that acknowledging changes: the tracker, the completion queues, and the
/// timeout events and acknowledgements sent out.
pub struct AckState {
    /// The tracker
    pub m: TrackerModel,
    /// Completions of every queue
    pub cqs: Seq<Seq<Completion>>,
    /// Timeout events sent out
    pub timeouts: Seq<AckTimeoutTask>,
    /// Acknowledgements sent out
    pub acks: Seq<AckResponse>,
}

/// Completes acknowledged send events, oldest first, into completion queue `cq`.
///
/// A write or send completes once its last packet is acknowledged and reports an
/// acknowledgement to the timeout tracker; a read completes once its response has arrived.
pub open spec fn send_drain(s: AckState, cq: u32) -> AckState
    decreases s.m.send.len(),
{
    if s.m.send.len() == 0 || !spec_psn_le(s.m.send[0].meta.end_psn, s.m.send_base) {
        s
    } else {
        let e = s.m.send[0];
        let m1 = TrackerModel { send: s.m.send.drop_first(), ..s.m };
        match e.op {
            SendEventOp::WriteSignaled => send_drain(
                AckState {
                    m: m1,
                    cqs: push_cq(s.cqs, cq, Completion::RdmaWrite { wr_id: e.wr_id }),
                    timeouts: s.timeouts.push(AckTimeoutTask::Ack { qpn: e.qpn }),
                    acks: s.acks,
                },
                cq,
            ),
            SendEventOp::SendSignaled => send_drain(
                AckState {
                    m: m1,
                    cqs: push_cq(s.cqs, cq, Completion::Send { wr_id: e.wr_id }),
                    timeouts: s.timeouts.push(AckTimeoutTask::Ack { qpn: e.qpn }),
                    acks: s.acks,
                },
                cq,
            ),
            SendEventOp::ReadSignaled => if s.m.read_resp.len() == 0 {
                s
            } else {
                send_drain(
                    AckState {
                        m: TrackerModel { read_resp: s.m.read_resp.drop_first(), ..m1 },
                        cqs: push_cq(s.cqs, cq, Completion::RdmaRead { wr_id: e.wr_id }),
                        timeouts: s.timeouts,
                        acks: s.acks,
                    },
                    cq,
                )
            },
        }
    }
}

/// Draining send events keeps the receive side, the posted receives, the acknowledgements
/// and the number of completion queues.
pub proof fn lemma_send_drain_keeps(s: AckState, cq: u32)
    ensures
        send_drain(s, cq).m.recv == s.m.recv,
        send_drain(s, cq).m.recv_base == s.m.recv_base,
        send_drain(s, cq).m.send_base == s.m.send_base,
        send_drain(s, cq).m.post_recv == s.m.post_recv,
        send_drain(s, cq).acks == s.acks,
        cq < s.cqs.len() ==> send_drain(s, cq).cqs.len() == s.cqs.len(),
    decreases s.m.send.len(),
{
    if s.m.send.len() == 0 || !spec_psn_le(s.m.send[0].meta.end_psn, s.m.send_base) {
    } else {
        let e = s.m.send[0];
        let m1 = TrackerModel { send: s.m.send.drop_first(), ..s.m };
        match e.op {
            SendEventOp::WriteSignaled => lemma_send_drain_keeps(
                AckState {
                    m: m1,
                    cqs: push_cq(s.cqs, cq, Completion::RdmaWrite { wr_id: e.wr_id }),
                    timeouts: s.timeouts.push(AckTimeoutTask::Ack { qpn: e.qpn }),
                    acks: s.acks,
                },
                cq,
            ),
            SendEventOp::SendSignaled => lemma_send_drain_keeps(
                AckState {
                    m: m1,
                    cqs: push_cq(s.cqs, cq, Completion::Send { wr_id: e.wr_id }),
                    timeouts: s.timeouts.push(AckTimeoutTask::Ack { qpn: e.qpn }),
                    acks: s.acks,
                },
                cq,
            ),
            SendEventOp::ReadSignaled => if s.m.read_resp.len() != 0 {
                lemma_send_drain_keeps(
                    AckState {
                        m: TrackerModel { read_resp: s.m.read_resp.drop_first(), ..m1 },
                        cqs: push_cq(s.cqs, cq, Completion::RdmaRead { wr_id: e.wr_id }),
                        timeouts: s.timeouts,
                        acks: s.acks,
                    },
                    cq,
                )
            },
        }
    }
}

/// Draining send events does not depend on the acknowledgements sent out so far.
pub proof fn lemma_send_drain_acks(s: AckState, cq: u32, acks: Seq<AckResponse>)
    ensures
        send_drain(AckState { acks, ..s }, cq) == (AckState { acks, ..send_drain(s, cq) }),
    decreases s.m.send.len(),
{
    if s.m.send.len() == 0 || !spec_psn_le(s.m.send[0].meta.end_psn, s.m.send_base) {
    } else {
        let e = s.m.send[0];
        let m1 = TrackerModel { send: s.m.send.drop_first(), ..s.m };
        match e.op {
            SendEventOp::WriteSignaled => lemma_send_drain_acks(
                AckState {
                    m: m1,
                    cqs: push_cq(s.cqs, cq, Completion::RdmaWrite { wr_id: e.wr_id }),
                    timeouts: s.timeouts.push(AckTimeoutTask::Ack { qpn: e.qpn }),
                    acks: s.acks,
                },
                cq,
                acks,
            ),
            SendEventOp::SendSignaled => lemma_send_drain_acks(
                AckState {
                    m: m1,
                    cqs: push_cq(s.cqs, cq, Completion::Send { wr_id: e.wr_id }),
                    timeouts: s.timeouts.push(AckTimeoutTask::Ack { qpn: e.qpn }),
                    acks: s.acks,
                },
                cq,
                acks,
            ),
            SendEventOp::ReadSignaled => if s.m.read_resp.len() != 0 {
                lemma_send_drain_acks(
                    AckState {
                        m: TrackerModel { read_resp: s.m.read_resp.drop_first(), ..m1 },
                        cqs: push_cq(s.cqs, cq, Completion::RdmaRead { wr_id: e.wr_id }),
                        timeouts: s.timeouts,
                        acks: s.acks,
                    },
                    cq,
                    acks,
                )
            },
        }
    }
}

/// Whether draining the acknowledged receive events finds a posted receive for every send
/// message.
pub open spec fn recv_drain_ok(recv: Seq<RecvEvent>, base: u32, num_post_recv: nat) -> bool
    decreases recv.len(),
{
    if recv.len() == 0 || !spec_psn_le(recv[0].meta.end_psn, base) {
        true
    } else {
        match recv[0].op {
            RecvEventOp::Recv | RecvEventOp::RecvWithImm { .. } => num_post_recv > 0
                && recv_drain_ok(recv.drop_first(), base, (num_post_recv - 1) as nat),
            _ => recv_drain_ok(recv.drop_first(), base, num_post_recv),
        }
    }
}

/// The state after handling one acknowledged receive event `e`, already removed from the
/// tracker in `s`.
pub open spec fn recv_step(s: AckState, e: RecvEvent, rcq: u32, scq: Option<u32>, qpn: u32) -> AckState {
    let s2 = match e.op {
        RecvEventOp::Write | RecvEventOp::RecvRead => s,
        RecvEventOp::WriteWithImm { imm } => AckState {
            cqs: push_cq(s.cqs, rcq, Completion::RecvRdmaWithImm { imm }),
            ..s
        },
        RecvEventOp::Recv => AckState {
            m: TrackerModel { post_recv: s.m.post_recv.drop_last(), ..s.m },
            cqs: push_cq(s.cqs, rcq, Completion::Recv { wr_id: s.m.post_recv.last().wr_id, imm: None }),
            ..s
        },
        RecvEventOp::RecvWithImm { imm } => AckState {
            m: TrackerModel { post_recv: s.m.post_recv.drop_last(), ..s.m },
            cqs: push_cq(
                s.cqs,
                rcq,
                Completion::Recv { wr_id: s.m.post_recv.last().wr_id, imm: Some(imm) },
            ),
            ..s
        },
        RecvEventOp::ReadResp => {
            let s1 = AckState { m: TrackerModel { read_resp: s.m.read_resp.push(e), ..s.m }, ..s };
            match scq {
                Some(h) => send_drain(s1, h),
                None => s1,
            }
        },
    };
    if e.ack_req {
        AckState {
            acks: s2.acks.push(AckResponse::Ack { qpn, msn: e.meta.msn, last_psn: e.meta.end_psn }),
            ..s2
        }
    } else {
        s2
    }
}

/// Handling a receive event keeps the remaining receive events.
pub proof fn lemma_recv_step_keeps(s: AckState, e: RecvEvent, rcq: u32, scq: Option<u32>, qpn: u32)
    ensures
        recv_step(s, e, rcq, scq, qpn).m.recv == s.m.recv,
        recv_step(s, e, rcq, scq, qpn).m.recv_base == s.m.recv_base,
        rcq < s.cqs.len() && (scq matches Some(h) ==> h < s.cqs.len()) ==> recv_step(
            s,
            e,
            rcq,
            scq,
            qpn,
        ).cqs.len() == s.cqs.len(),
        recv_step(s, e, rcq, scq, qpn).m.post_recv == (match e.op {
            RecvEventOp::Recv | RecvEventOp::RecvWithImm { .. } => s.m.post_recv.drop_last(),
            _ => s.m.post_recv,
        }),
{
    if e.op == RecvEventOp::ReadResp {
        let s1 = AckState { m: TrackerModel { read_resp: s.m.read_resp.push(e), ..s.m }, ..s };
        if let Some(h) = scq {
            lemma_send_drain_keeps(s1, h);
        }
    }
}

/// Completes acknowledged receive events, oldest first: writes with immediate data and
/// sends complete into `rcq` (a send takes the most recently posted receive), read
/// responses let pending reads complete into `scq`, and each message that requests an
/// acknowledgement has one sent.
pub open spec fn recv_drain(s: AckState, rcq: u32, scq: Option<u32>, qpn: u32) -> AckState
    decreases s.m.recv.len(),
{
    if s.m.recv.len() == 0 || !spec_psn_le(s.m.recv[0].meta.end_psn, s.m.recv_base) {
        s
    } else {
        let e = s.m.recv[0];
        let s1 = AckState { m: TrackerModel { recv: s.m.recv.drop_first(), ..s.m }, ..s };
        let s3 = recv_step(s1, e, rcq, scq, qpn);
        proof {
            lemma_recv_step_keeps(s1, e, rcq, scq, qpn);
        }
        recv_drain(s3, rcq, scq, qpn)
    }
}

/// Every completion queue of `b` holds the completions of the same queue of `a`, in the
/// same places, and possibly more after them.
pub open spec fn cqs_extend(a: Seq<Seq<Completion>>, b: Seq<Seq<Completion>>) -> bool {
    &&& a.len() == b.len()
    &&& forall|h: int|
        0 <= h < a.len() ==> a[h].len() <= b[h].len() && forall|i: int|
            0 <= i < a[h].len() ==> #[trigger] b[h][i] == a[h][i]
}

/// Draining send events only appends completions.
pub proof fn lemma_send_drain_extends(s: AckState, cq: u32)
    requires
        cq < s.cqs.len(),
    ensures
        cqs_extend(s.cqs, send_drain(s, cq).cqs),
    decreases s.m.send.len(),
{
    if s.m.send.len() == 0 || !spec_psn_le(s.m.send[0].meta.end_psn, s.m.send_base) {
    } else {
        let e = s.m.send[0];
        let m1 = TrackerModel { send: s.m.send.drop_first(), ..s.m };
        let next = match e.op {
            SendEventOp::WriteSignaled => AckState {
                m: m1,
                cqs: push_cq(s.cqs, cq, Completion::RdmaWrite { wr_id: e.wr_id }),
                timeouts: s.timeouts.push(AckTimeoutTask::Ack { qpn: e.qpn }),
                acks: s.acks,
            },
            SendEventOp::SendSignaled => AckState {
                m: m1,
                cqs: push_cq(s.cqs, cq, Completion::Send { wr_id: e.wr_id }),
                timeouts: s.timeouts.push(AckTimeoutTask::Ack { qpn: e.qpn }),
                acks: s.acks,
            },
            SendEventOp::ReadSignaled => AckState {
                m: TrackerModel { read_resp: s.m.read_resp.drop_first(), ..m1 },
                cqs: push_cq(s.cqs, cq, Completion::RdmaRead { wr_id: e.wr_id }),
                timeouts: s.timeouts,
                acks: s.acks,
            },
        };
        if e.op == SendEventOp::ReadSignaled && s.m.read_resp.len() == 0 {
        } else {
            lemma_send_drain_extends(next, cq);
            assert(cqs_extend(s.cqs, next.cqs));
        }
    }
}

/// Handling one receive event only appends completions.
pub proof fn lemma_recv_step_extends(s: AckState, e: RecvEvent, rcq: u32, scq: Option<u32>, qpn: u32)
    requires
        rcq < s.cqs.len(),
        scq matches Some(h) ==> h < s.cqs.len(),
    ensures
        cqs_extend(s.cqs, recv_step(s, e, rcq, scq, qpn).cqs),
{
    if e.op == RecvEventOp::ReadResp {
        let s1 = AckState { m: TrackerModel { read_resp: s.m.read_resp.push(e), ..s.m }, ..s };
        if let Some(h) = scq {
            lemma_send_drain_extends(s1, h);
        }
    }
}

/// Draining receive events only appends completions.
pub proof fn lemma_recv_drain_extends(s: AckState, rcq: u32, scq: Option<u32>, qpn: u32)
    requires
        rcq < s.cqs.len(),
        scq matches Some(h) ==> h < s.cqs.len(),
    ensures
        cqs_extend(s.cqs, recv_drain(s, rcq, scq, qpn).cqs),
    decreases s.m.recv.len(),
{
    if s.m.recv.len() == 0 || !spec_psn_le(s.m.recv[0].meta.end_psn, s.m.recv_base) {
    } else {
        let e = s.m.recv[0];
        let s1 = AckState { m: TrackerModel { recv: s.m.recv.drop_first(), ..s.m }, ..s };
        let s3 = recv_step(s1, e, rcq, scq, qpn);
        lemma_recv_step_keeps(s1, e, rcq, scq, qpn);
        lemma_recv_step_extends(s1, e, rcq, scq, qpn);
        lemma_recv_drain_extends(s3, rcq, scq, qpn);
    }
}

/// When the oldest send event is acknowledged, the next completion of the send queue is
/// its own: an RDMA write or a send completes with its work request id, and a read does
/// once a read response is waiting, else nothing is completed.
pub proof fn lemma_send_drain_first(s: AckState, cq: u32)
    requires
        cq < s.cqs.len(),
        s.m.send.len() > 0,
        spec_psn_le(s.m.send[0].meta.end_psn, s.m.send_base),
    ensures
        ({
            let e = s.m.send[0];
            let n = s.cqs[cq as int].len() as int;
            let f = send_drain(s, cq).cqs[cq as int];
            &&& e.op == SendEventOp::WriteSignaled ==> f.len() > n && f[n]
                == (Completion::RdmaWrite { wr_id: e.wr_id })
            &&& e.op == SendEventOp::SendSignaled ==> f.len() > n && f[n]
                == (Completion::Send { wr_id: e.wr_id })
            &&& e.op == SendEventOp::ReadSignaled && s.m.read_resp.len() > 0 ==> f.len() > n
                && f[n] == (Completion::RdmaRead { wr_id: e.wr_id })
            &&& e.op == SendEventOp::ReadSignaled && s.m.read_resp.len() == 0 ==> f
                == s.cqs[cq as int]
        }),
{
    let e = s.m.send[0];
    let m1 = TrackerModel { send: s.m.send.drop_first(), ..s.m };
    let n = s.cqs[cq as int].len() as int;
    if e.op == SendEventOp::ReadSignaled && s.m.read_resp.len() == 0 {
    } else {
        let next = match e.op {
            SendEventOp::WriteSignaled => AckState {
                m: m1,
                cqs: push_cq(s.cqs, cq, Completion::RdmaWrite { wr_id: e.wr_id }),
                timeouts: s.timeouts.push(AckTimeoutTask::Ack { qpn: e.qpn }),
                acks: s.acks,
            },
            SendEventOp::SendSignaled => AckState {
                m: m1,
                cqs: push_cq(s.cqs, cq, Completion::Send { wr_id: e.wr_id }),
                timeouts: s.timeouts.push(AckTimeoutTask::Ack { qpn: e.qpn }),
                acks: s.acks,
            },
            SendEventOp::ReadSignaled => AckState {
                m: TrackerModel { read_resp: s.m.read_resp.drop_first(), ..m1 },
                cqs: push_cq(s.cqs, cq, Completion::RdmaRead { wr_id: e.wr_id }),
                timeouts: s.timeouts,
                acks: s.acks,
            },
        };
        assert(send_drain(s, cq) == send_drain(next, cq));
        lemma_send_drain_extends(next, cq);
        let f = send_drain(next, cq).cqs[cq as int];
        assert(f[n] == next.cqs[cq as int][n]);
    }
}

/// When the oldest receive event is acknowledged, the next completion of the receive queue
/// is its own: a write with immediate data completes with that data, and a send, with or
/// without immediate data, completes the most recently posted receive request.
pub proof fn lemma_recv_drain_first(s: AckState, rcq: u32, scq: Option<u32>, qpn: u32)
    requires
        rcq < s.cqs.len(),
        scq matches Some(h) ==> h < s.cqs.len(),
        s.m.recv.len() > 0,
        spec_psn_le(s.m.recv[0].meta.end_psn, s.m.recv_base),
    ensures
        ({
            let n = s.cqs[rcq as int].len() as int;
            let f = recv_drain(s, rcq, scq, qpn).cqs[rcq as int];
            let w = s.m.post_recv.last().wr_id;
            match s.m.recv[0].op {
                RecvEventOp::WriteWithImm { imm } => f.len() > n && f[n]
                    == (Completion::RecvRdmaWithImm { imm }),
                RecvEventOp::Recv => f.len() > n && f[n] == (Completion::Recv {
                    wr_id: w,
                    imm: None,
                }),
                RecvEventOp::RecvWithImm { imm } => f.len() > n && f[n] == (Completion::Recv {
                    wr_id: w,
                    imm: Some(imm),
                }),
                _ => true,
            }
        }),
{
    let e = s.m.recv[0];
    let s1 = AckState { m: TrackerModel { recv: s.m.recv.drop_first(), ..s.m }, ..s };
    let s3 = recv_step(s1, e, rcq, scq, qpn);
    lemma_recv_step_keeps(s1, e, rcq, scq, qpn);
    lemma_recv_drain_extends(s3, rcq, scq, qpn);
    let n = s.cqs[rcq as int].len() as int;
    let f = recv_drain(s3, rcq, scq, qpn);
    assert(f.cqs[rcq as int].len() >= s3.cqs[rcq as int].len());
    match e.op {
        RecvEventOp::WriteWithImm { .. } | RecvEventOp::Recv | RecvEventOp::RecvWithImm {
            ..
        } => {
            assert(s3.cqs[rcq as int].len() == n + 1);
            assert(f.cqs[rcq as int][n] == s3.cqs[rcq as int][n]);
        },
        _ => {},
    }
}

/// When the oldest receive event is acknowledged and is a send with immediate data, the next
/// completion of the receive queue is a receive of the most recently posted receive request
/// that carries that immediate data.
pub proof fn lemma_recv_drain_send_with_imm(
    s: AckState,
    rcq: u32,
    scq: Option<u32>,
    qpn: u32,
    imm: u32,
)
    requires
        rcq < s.cqs.len(),
        scq matches Some(h) ==> h < s.cqs.len(),
        s.m.recv.len() > 0,
        spec_psn_le(s.m.recv[0].meta.end_psn, s.m.recv_base),
        s.m.recv[0].op == (RecvEventOp::RecvWithImm { imm }),
    ensures
        recv_drain(s, rcq, scq, qpn).cqs[rcq as int].len() > s.cqs[rcq as int].len(),
        recv_drain(s, rcq, scq, qpn).cqs[rcq as int][s.cqs[rcq as int].len() as int]
            == (Completion::Recv { wr_id: s.m.post_recv.last().wr_id, imm: Some(imm) }),
{
    let e = s.m.recv[0];
    let s1 = AckState { m: TrackerModel { recv: s.m.recv.drop_first(), ..s.m }, ..s };
    let s3 = recv_step(s1, e, rcq, scq, qpn);
    lemma_recv_step_keeps(s1, e, rcq, scq, qpn);
    lemma_recv_drain_extends(s3, rcq, scq, qpn);
    let n = s.cqs[rcq as int].len() as int;
    assert(s3.cqs[rcq as int][n] == (Completion::Recv {
        wr_id: s.m.post_recv.last().wr_id,
        imm: Some(imm),
    }));
    let f = recv_drain(s3, rcq, scq, qpn);
    assert(f.cqs[rcq as int][n] == s3.cqs[rcq as int][n]);
}

/// The events and queues of one queue pair.
#[derive(Debug)]
pub struct QueuePairMessageTracker {
    send: MessageTracker<SendEvent>,
    recv: MessageTracker<RecvEvent>,
    read_resp_queue: VecDeque<RecvEvent>,
    post_recv_queue: VecDeque<PostRecvEvent>,
}

impl QueuePairMessageTracker {
    /// The state of the tracker.
    pub closed spec fn model(&self) -> TrackerModel {
        TrackerModel {
            send: self.send.events(),
            send_base: self.send.spec_base_psn(),
            recv: self.recv.events(),
            recv_base: self.recv.spec_base_psn(),
            read_resp: self.read_resp_queue@,
            post_recv: self.post_recv_queue@,
        }
    }

    /// A tracker made of the given parts.
    pub fn new(
        send: MessageTracker<SendEvent>,
        recv: MessageTracker<RecvEvent>,
        read_resp_queue: VecDeque<RecvEvent>,
        post_recv_queue: VecDeque<PostRecvEvent>,
    ) -> (r: Self)
        ensures
            r.model() == (TrackerModel {
                send: send.events(),
                send_base: send.spec_base_psn(),
                recv: recv.events(),
                recv_base: recv.spec_base_psn(),
                read_resp: read_resp_queue@,
                post_recv: post_recv_queue@,
            }),
    {
        Self { send, recv, read_resp_queue, post_recv_queue }
    }

    /// An empty tracker.
    pub fn empty() -> (r: Self)
        ensures
            r.model() == (TrackerModel {
                send: Seq::empty(),
                send_base: 0,
                recv: Seq::empty(),
                recv_base: 0,
                read_resp: Seq::empty(),
                post_recv: Seq::empty(),
            }),
    {
        let r = Self {
            send: MessageTracker::new(),
            recv: MessageTracker::new(),
            read_resp_queue: VecDeque::new(),
            post_recv_queue: VecDeque::new(),
        };
        proof {
            assert(r.model().read_resp =~= Seq::empty());
        }
        r
    }

    /// Registers an event: send and receive events go into their tracker in MSN order,
    /// posted receives are queued.
    pub fn append(&mut self, event: Event)
        ensures
            final(self).model() == (match event {
                Event::Send(x) => TrackerModel {
                    send: spec_append(old(self).model().send, x),
                    ..old(self).model()
                },
                Event::Recv(x) => TrackerModel {
                    recv: spec_append(old(self).model().recv, x),
                    ..old(self).model()
                },
                Event::PostRecv(x) => TrackerModel {
                    post_recv: old(self).model().post_recv.push(x),
                    ..old(self).model()
                },
            }),
    {
        match event {
            Event::Send(x) => self.send.append(x),
            Event::Recv(x) => self.recv.append(x),
            Event::PostRecv(x) => {
                self.post_recv_queue.push_back(x);
            },
        }
    }

    /// Acknowledges the sending side up to `psn`, if given, and completes what it can into
    /// completion queue `send_cq`; timeout events go to `ack_timeout_tx`.
    pub fn ack_send(
        &mut self,
        psn: Option<u32>,
        send_cq: u32,
        cq_table: &mut CompletionQueueTable,
        ack_timeout_tx: &mut Vec<AckTimeoutTask>,
    )
        requires
            send_cq < old(cq_table)@.len(),
        ensures
            ({
                let m0 = match psn {
                    Some(p) => TrackerModel { send_base: p, ..old(self).model() },
                    None => old(self).model(),
                };
                let r = send_drain(
                    AckState {
                        m: m0,
                        cqs: old(cq_table)@,
                        timeouts: old(ack_timeout_tx)@,
                        acks: Seq::empty(),
                    },
                    send_cq,
                );
                &&& final(self).model() == r.m
                &&& final(cq_table)@ == r.cqs
                &&& final(ack_timeout_tx)@ == r.timeouts
            }),
            ({
                let base = match psn {
                    Some(p) => p,
                    None => old(self).model().send_base,
                };
                let q = old(self).model().send;
                let n = old(cq_table)@[send_cq as int].len() as int;
                q.len() > 0 && spec_psn_le(q[0].meta.end_psn, base) ==> {
                    &&& q[0].op == SendEventOp::WriteSignaled ==> final(cq_table)@[send_cq as int][n]
                        == (Completion::RdmaWrite { wr_id: q[0].wr_id })
                    &&& q[0].op == SendEventOp::SendSignaled ==> final(cq_table)@[send_cq as int][n]
                        == (Completion::Send { wr_id: q[0].wr_id })
                    &&& q[0].op == SendEventOp::ReadSignaled && old(self).model().read_resp.len()
                        > 0 ==> final(cq_table)@[send_cq as int][n] == (Completion::RdmaRead {
                        wr_id: q[0].wr_id,
                    })
                }
            }),
    {
        if let Some(psn) = psn {
            self.send.ack(psn);
        }
        let ghost init = AckState {
            m: self.model(),
            cqs: cq_table@,
            timeouts: ack_timeout_tx@,
            acks: Seq::empty(),
        };
        let mut done = false;
        while !done
            invariant
                send_cq < cq_table@.len(),
                send_drain(
                    AckState {
                        m: self.model(),
                        cqs: cq_table@,
                        timeouts: ack_timeout_tx@,
                        acks: Seq::empty(),
                    },
                    send_cq,
                ) == send_drain(init, send_cq),
                done ==> send_drain(
                    AckState {
                        m: self.model(),
                        cqs: cq_table@,
                        timeouts: ack_timeout_tx@,
                        acks: Seq::empty(),
                    },
                    send_cq,
                ) == (AckState {
                    m: self.model(),
                    cqs: cq_table@,
                    timeouts: ack_timeout_tx@,
                    acks: Seq::empty(),
                }),
            decreases self.send.events().len() + (if done {
                0int
            } else {
                1int
            }),
        {
            match self.send.peek() {
                None => {
                    done = true;
                },
                Some(event) => {
                    match event.op {
                        SendEventOp::WriteSignaled | SendEventOp::SendSignaled => {
                            let x = self.send.pop();
                            let x = match x {
                                Some(x) => x,
                                None => vstd::pervasive::unreached(),
                            };
                            let completion = match x.op {
                                SendEventOp::WriteSignaled => Completion::RdmaWrite {
                                    wr_id: x.wr_id,
                                },
                                _ => Completion::Send { wr_id: x.wr_id },
                            };
                            ack_timeout_tx.push(AckTimeoutTask::ack(x.qpn));
                            cq_table.push(send_cq, completion);
                        },
                        SendEventOp::ReadSignaled => {
                            if self.read_resp_queue.len() > 0 {
                                let _recv_event = self.read_resp_queue.pop_front();
                                let x = self.send.pop();
                                let x = match x {
                                    Some(x) => x,
                                    None => vstd::pervasive::unreached(),
                                };
                                cq_table.push(send_cq, Completion::RdmaRead { wr_id: x.wr_id });
                            } else {
                                done = true;
                            }
                        },
                    }
                },
            }
        }
        proof {
            let m0 = match psn {
                Some(p) => TrackerModel { send_base: p, ..old(self).model() },
                None => old(self).model(),
            };
            let st = AckState {
                m: m0,
                cqs: old(cq_table)@,
                timeouts: old(ack_timeout_tx)@,
                acks: Seq::empty(),
            };
            if m0.send.len() > 0 && spec_psn_le(m0.send[0].meta.end_psn, m0.send_base) {
                lemma_send_drain_first(st, send_cq);
            }
        }
    }

    /// Acknowledges the receiving side up to `psn` and completes the acknowledged messages
    /// into completion queue `recv_cq` (reads into `send_cq`); acknowledgements go to
    /// `ack_resp_tx` and timeout events to `ack_timeout_tx`.
    pub fn ack_recv(
        &mut self,
        psn: u32,
        recv_cq: u32,
        send_cq: Option<u32>,
        qpn: u32,
        cq_table: &mut CompletionQueueTable,
        ack_resp_tx: &mut Vec<AckResponse>,
        ack_timeout_tx: &mut Vec<AckTimeoutTask>,
    )
        requires
            recv_cq < old(cq_table)@.len(),
            send_cq matches Some(h) ==> h < old(cq_table)@.len(),
            recv_drain_ok(
                old(self).model().recv,
                psn,
                old(self).model().post_recv.len(),
            ),
        ensures
            ({
                let r = recv_drain(
                    AckState {
                        m: TrackerModel { recv_base: psn, ..old(self).model() },
                        cqs: old(cq_table)@,
                        timeouts: old(ack_timeout_tx)@,
                        acks: old(ack_resp_tx)@,
                    },
                    recv_cq,
                    send_cq,
                    qpn,
                );
                &&& final(self).model() == r.m
                &&& final(cq_table)@ == r.cqs
                &&& final(ack_timeout_tx)@ == r.timeouts
                &&& final(ack_resp_tx)@ == r.acks
            }),
            old(self).model().recv.len() > 0 && spec_psn_le(
                old(self).model().recv[0].meta.end_psn,
                psn,
            ) ==> (old(self).model().recv[0].op matches RecvEventOp::RecvWithImm { imm }
                ==> final(cq_table)@[recv_cq as int][old(cq_table)@[recv_cq as int].len() as int]
                == (Completion::Recv { wr_id: old(self).model().post_recv.last().wr_id, imm: Some(imm) })),
            ({
                let q = old(self).model().recv;
                let n = old(cq_table)@[recv_cq as int].len() as int;
                let w = old(self).model().post_recv.last().wr_id;
                q.len() > 0 && spec_psn_le(q[0].meta.end_psn, psn) ==> match q[0].op {
                    RecvEventOp::WriteWithImm { imm } => final(cq_table)@[recv_cq as int][n]
                        == (Completion::RecvRdmaWithImm { imm }),
                    RecvEventOp::Recv => final(cq_table)@[recv_cq as int][n] == (Completion::Recv {
                        wr_id: w,
                        imm: None,
                    }),
                    RecvEventOp::RecvWithImm { imm } => final(cq_table)@[recv_cq as int][n]
                        == (Completion::Recv { wr_id: w, imm: Some(imm) }),
                    _ => true,
                }
            }),
    {
        self.recv.ack(psn);
        let ghost init = AckState {
            m: self.model(),
            cqs: cq_table@,
            timeouts: ack_timeout_tx@,
            acks: ack_resp_tx@,
        };
        let mut done = false;
        while !done
            invariant
                recv_cq < cq_table@.len(),
                send_cq matches Some(h) ==> h < cq_table@.len(),
                self.model().recv_base == psn,
                recv_drain_ok(self.model().recv, psn, self.model().post_recv.len()),
                recv_drain(
                    AckState {
                        m: self.model(),
                        cqs: cq_table@,
                        timeouts: ack_timeout_tx@,
                        acks: ack_resp_tx@,
                    },
                    recv_cq,
                    send_cq,
                    qpn,
                ) == recv_drain(init, recv_cq, send_cq, qpn),
                done ==> recv_drain(
                    AckState {
                        m: self.model(),
                        cqs: cq_table@,
                        timeouts: ack_timeout_tx@,
                        acks: ack_resp_tx@,
                    },
                    recv_cq,
                    send_cq,
                    qpn,
                ) == (AckState {
                    m: self.model(),
                    cqs: cq_table@,
                    timeouts: ack_timeout_tx@,
                    acks: ack_resp_tx@,
                }),
            decreases self.recv.events().len() + (if done {
                0int
            } else {
                1int
            }),
        {
            let ghost before = AckState {
                m: self.model(),
                cqs: cq_table@,
                timeouts: ack_timeout_tx@,
                acks: ack_resp_tx@,
            };
            match self.recv.pop() {
                None => {
                    done = true;
                },
                Some(event) => {
                    let ghost s1 = AckState {
                        m: TrackerModel { recv: before.m.recv.drop_first(), ..before.m },
                        ..before
                    };
                    proof {
                        assert(self.model() == s1.m);
                    }
                    match event.op {
                        RecvEventOp::WriteWithImm { imm } => {
                            cq_table.push(recv_cq, Completion::RecvRdmaWithImm { imm });
                        },
                        RecvEventOp::Recv => {
                            let x = self.post_recv_queue.pop_back();
                            let x = match x {
                                Some(x) => x,
                                None => vstd::pervasive::unreached(),
                            };
                            cq_table.push(recv_cq, Completion::Recv { wr_id: x.wr_id, imm: None });
                        },
                        RecvEventOp::RecvWithImm { imm } => {
                            let x = self.post_recv_queue.pop_back();
                            let x = match x {
                                Some(x) => x,
                                None => vstd::pervasive::unreached(),
                            };
                            cq_table.push(
                                recv_cq,
                                Completion::Recv { wr_id: x.wr_id, imm: Some(imm) },
                            );
                        },
                        RecvEventOp::ReadResp => {
                            self.read_resp_queue.push_back(event);
                            if let Some(cq) = send_cq {
                                let ghost sa = AckState {
                                    m: self.model(),
                                    cqs: cq_table@,
                                    timeouts: ack_timeout_tx@,
                                    acks: Seq::empty(),
                                };
                                self.ack_send(None, cq, cq_table, ack_timeout_tx);
                                proof {
                                    lemma_send_drain_acks(sa, cq, ack_resp_tx@);
                                }
                            }
                        },
                        RecvEventOp::RecvRead | RecvEventOp::Write => {},
                    }
                    if event.ack_req {
                        ack_resp_tx.push(
                            AckResponse::Ack {
                                qpn,
                                msn: event.meta().msn,
                                last_psn: event.meta().end_psn,
                            },
                        );
                    }
                    proof {
                        lemma_recv_step_keeps(s1, event, recv_cq, send_cq, qpn);
                    }
                },
            }
        }
        proof {
            let st = AckState {
                m: TrackerModel { recv_base: psn, ..old(self).model() },
                cqs: old(cq_table)@,
                timeouts: old(ack_timeout_tx)@,
                acks: old(ack_resp_tx)@,
            };
            if old(self).model().recv.len() > 0 && spec_psn_le(
                old(self).model().recv[0].meta.end_psn,
                psn,
            ) {
                if let RecvEventOp::RecvWithImm { imm } = old(self).model().recv[0].op {
                    lemma_recv_drain_send_with_imm(st, recv_cq, send_cq, qpn, imm);
                }
                lemma_recv_drain_first(st, recv_cq, send_cq, qpn);
            }
        }
    }
}


/// Identifies a message: its queue pair, MSN and direction.
#[derive(Debug, Clone, Copy, PartialEq, Eq, Structural)]
pub struct MessageIdentifier {
    /// Queue pair number
    pub qpn: u32,
    /// Message sequence number
    pub msn: u16,
    /// The message is sent, not received
    pub is_send: bool,
}

/// A message and its sequence numbers.
#[derive(Debug, Clone, Copy)]
pub struct Message {
    /// The message
    pub id: MessageIdentifier,
    /// Its sequence numbers
    pub meta: MessageMeta,
}

/// An event registration for a message.
#[derive(Debug, Clone, Copy)]
pub struct EventRegister {
    /// The message
    pub message_id: MessageIdentifier,
    /// The event
    pub event: Event,
}

/// Event registrations of a completion queue, in arrival order.
pub struct CompletionQueueRegistry {
    inner: VecDeque<EventRegister>,
}

impl CompletionQueueRegistry {
    /// The registrations, oldest first.
    pub closed spec fn view(&self) -> Seq<EventRegister> {
        self.inner@
    }

    /// An empty registry.
    pub fn new() -> (r: Self)
        ensures
            r@ == Seq::<EventRegister>::empty(),
    {
        Self { inner: VecDeque::new() }
    }

    /// Appends a registration.
    pub fn push(&mut self, register: EventRegister)
        ensures
            final(self)@ == old(self)@.push(register),
    {
        self.inner.push_back(register);
    }

    /// Never yields a registration.
    pub fn pop() -> (r: Option<EventRegister>)
        ensures
            r is None,
    {
        None
    }
}

/// A task for the completion worker.
#[derive(Debug, Clone, Copy)]
pub enum CompletionTask {
    /// Register an event with a queue pair
    Register { qpn: u32, event: Event },
    /// The sending side of a queue pair is acknowledged up to `base_psn`
    AckSend { qpn: u32, base_psn: u32 },
    /// The receiving side of a queue pair is acknowledged up to `base_psn`
    AckRecv { qpn: u32, base_psn: u32 },
}

impl CompletionTask {
    /// The queue pair of the task.
    pub open spec fn spec_qpn(self) -> u32 {
        match self {
            CompletionTask::Register { qpn, .. } => qpn,
            CompletionTask::AckSend { qpn, .. } => qpn,
            CompletionTask::AckRecv { qpn, .. } => qpn,
        }
    }
}

/// The completion queue of `handle`, when it names one of `num_cqs` queues.
pub open spec fn valid_cq(handle: Option<u32>, num_cqs: nat) -> Option<u32> {
    match handle {
        Some(h) => if h < num_cqs {
            Some(h)
        } else {
            None
        },
        None => None,
    }
}

/// Turns acknowledgements of queue pairs into work completions.
pub struct CompletionWorker {
    tracker_table: QpTable<QueuePairMessageTracker>,
    cq_table: CompletionQueueTable,
}

impl CompletionWorker {
    /// The trackers, by queue pair index.
    pub closed spec fn trackers(&self) -> Seq<TrackerModel> {
        self.tracker_table@.map_values(|t: QueuePairMessageTracker| t.model())
    }

    /// The completion queues.
    pub closed spec fn cqs(&self) -> Seq<Seq<Completion>> {
        self.cq_table@
    }

    /// Creates a worker with empty trackers for every queue pair, over `cq_table`.
    pub fn new(cq_table: CompletionQueueTable) -> (r: Self)
        ensures
            r.cqs() == cq_table@,
            r.trackers().len() == MAX_QP_CNT,
            forall|i: int|
                0 <= i < MAX_QP_CNT ==> #[trigger] r.trackers()[i] == (TrackerModel {
                    send: Seq::empty(),
                    send_base: 0,
                    recv: Seq::empty(),
                    recv_base: 0,
                    read_resp: Seq::empty(),
                    post_recv: Seq::empty(),
                }),
    {
        let mut v: Vec<QueuePairMessageTracker> = Vec::new();
        let mut i: usize = 0;
        while i < MAX_QP_CNT
            invariant
                i <= MAX_QP_CNT,
                v.len() == i,
                forall|j: int|
                    0 <= j < i ==> #[trigger] v@[j].model() == (TrackerModel {
                        send: Seq::empty(),
                        send_base: 0,
                        recv: Seq::empty(),
                        recv_base: 0,
                        read_resp: Seq::empty(),
                        post_recv: Seq::empty(),
                    }),
            decreases MAX_QP_CNT - i,
        {
            v.push(QueuePairMessageTracker::empty());
            i = i + 1;
        }
        Self { tracker_table: QpTable::from_vec(v), cq_table }
    }

    /// Polls up to `max_num_entries` completions of queue `handle`.
    pub fn poll_cq(&mut self, handle: u32, max_num_entries: usize) -> (r: Vec<Completion>)
        ensures
            final(self).trackers() == old(self).trackers(),
            handle >= old(self).cqs().len() ==> r@ == Seq::<Completion>::empty() && final(self).cqs() == old(self).cqs(),
            handle < old(self).cqs().len() ==> {
                let q = old(self).cqs()[handle as int];
                let n = if q.len() < max_num_entries {
                    q.len() as int
                } else {
                    max_num_entries as int
                };
                &&& r@ == q.take(n)
                &&& final(self).cqs() == old(self).cqs().update(handle as int, q.skip(n))
            },
    {
        self.cq_table.poll(handle, max_num_entries)
    }

    /// Handles a task for the queue pair it names, with the completion queues that
    /// `qp_attrs` assigns to that queue pair; tasks of unknown queue pairs are ignored.
    ///
    /// A registration appends the event to the queue pair's tracker; an acknowledgement of
    /// the sending side completes into its send queue, one of the receiving side into its
    /// receive queue, and is ignored when that queue does not exist.
    pub fn process(
        &mut self,
        task: CompletionTask,
        qp_attrs: &QpTable<QpAttr>,
        ack_resp_tx: &mut Vec<AckResponse>,
        ack_timeout_tx: &mut Vec<AckTimeoutTask>,
    )
        requires
            ({
                let idx = spec_qpn_index(task.spec_qpn());
                match task {
                    CompletionTask::AckRecv { base_psn, .. } => idx < old(self).trackers().len()
                        ==> recv_drain_ok(
                        old(self).trackers()[idx].recv,
                        base_psn,
                        old(self).trackers()[idx].post_recv.len(),
                    ),
                    _ => true,
                }
            }),
        ensures
            ({
                let qpn = task.spec_qpn();
                let idx = spec_qpn_index(qpn);
                let known = idx < old(self).trackers().len() && idx < qp_attrs@.len();
                let t0 = old(self).trackers()[idx];
                let unchanged = final(self).trackers() == old(self).trackers() && final(self).cqs()
                    == old(self).cqs() && final(ack_resp_tx)@ == old(ack_resp_tx)@ && final(ack_timeout_tx)@ == old(ack_timeout_tx)@;
                &&& !known ==> unchanged
                &&& known ==> {
                    let attr = qp_attrs@[idx];
                    let n = old(self).cqs().len();
                    match task {
                        CompletionTask::Register { event, .. } => {
                            &&& final(self).trackers() == old(self).trackers().update(
                                idx,
                                match event {
                                    Event::Send(x) => TrackerModel {
                                        send: spec_append(t0.send, x),
                                        ..t0
                                    },
                                    Event::Recv(x) => TrackerModel {
                                        recv: spec_append(t0.recv, x),
                                        ..t0
                                    },
                                    Event::PostRecv(x) => TrackerModel {
                                        post_recv: t0.post_recv.push(x),
                                        ..t0
                                    },
                                },
                            )
                            &&& final(self).cqs() == old(self).cqs()
                            &&& final(ack_resp_tx)@ == old(ack_resp_tx)@
                            &&& final(ack_timeout_tx)@ == old(ack_timeout_tx)@
                        },
                        CompletionTask::AckSend { base_psn, .. } => match valid_cq(
                            attr.send_cq,
                            n,
                        ) {
                            Some(h) => {
                                let r = send_drain(
                                    AckState {
                                        m: TrackerModel { send_base: base_psn, ..t0 },
                                        cqs: old(self).cqs(),
                                        timeouts: old(ack_timeout_tx)@,
                                        acks: Seq::empty(),
                                    },
                                    h,
                                );
                                &&& final(self).trackers() == old(self).trackers().update(idx, r.m)
                                &&& final(self).cqs() == r.cqs
                                &&& final(ack_timeout_tx)@ == r.timeouts
                                &&& final(ack_resp_tx)@ == old(ack_resp_tx)@
                            },
                            None => unchanged,
                        },
                        CompletionTask::AckRecv { base_psn, .. } => match valid_cq(
                            attr.recv_cq,
                            n,
                        ) {
                            Some(h) => {
                                let r = recv_drain(
                                    AckState {
                                        m: TrackerModel { recv_base: base_psn, ..t0 },
                                        cqs: old(self).cqs(),
                                        timeouts: old(ack_timeout_tx)@,
                                        acks: old(ack_resp_tx)@,
                                    },
                                    h,
                                    valid_cq(attr.send_cq, n),
                                    qpn,
                                );
                                &&& final(self).trackers() == old(self).trackers().update(idx, r.m)
                                &&& final(self).cqs() == r.cqs
                                &&& final(ack_timeout_tx)@ == r.timeouts
                                &&& final(ack_resp_tx)@ == r.acks
                            },
                            None => unchanged,
                        },
                    }
                }
            }),
    {
        let qpn = match task {
            CompletionTask::Register { qpn, .. }
            | CompletionTask::AckSend { qpn, .. }
            | CompletionTask::AckRecv { qpn, .. } => qpn,
        };
        let idx = qpn_index(qpn);
        if idx >= self.tracker_table.len() {
            return;
        }
        let qp_attr = match qp_attrs.get_qp(qpn) {
            Some(a) => *a,
            None => return,
        };
        let ghost old_table = self.tracker_table@;
        match task {
            CompletionTask::Register { event, .. } => {
                let tracker = self.tracker_table.index_mut(idx);
                tracker.append(event);
            },
            CompletionTask::AckSend { base_psn, .. } => {
                if let Some(h) = qp_attr.send_cq {
                    if self.cq_table.has_cq(h) {
                        let tracker = self.tracker_table.index_mut(idx);
                        tracker.ack_send(Some(base_psn), h, &mut self.cq_table, ack_timeout_tx);
                    }
                }
            },
            CompletionTask::AckRecv { base_psn, .. } => {
                let send_cq = match qp_attr.send_cq {
                    Some(h) => if self.cq_table.has_cq(h) {
                        Some(h)
                    } else {
                        None
                    },
                    None => None,
                };
                if let Some(h) = qp_attr.recv_cq {
                    if self.cq_table.has_cq(h) {
                        proof {
                            assert(old_table[idx as int].model() == old(self).trackers()[idx as int]);
                        }
                        let tracker = self.tracker_table.index_mut(idx);
                        tracker.ack_recv(
                            base_psn,
                            h,
                            send_cq,
                            qpn,
                            &mut self.cq_table,
                            ack_resp_tx,
                            ack_timeout_tx,
                        );
                    }
                }
            },
        }
        proof {
            assert(self.trackers() =~= old(self).trackers().update(
                idx as int,
                self.tracker_table@[idx as int].model(),
            ));
        }
    }
}

} // verus!
