//! Decisions on the reports of the meta report queue: which events a received header
//! registers, which acknowledgements move the trackers, and what goes to the peer and to
//! retransmission.
//!
//! The packet trackers of the queue pairs answer `ack_one` and `ack_range` requests; the
//! functions here take those answers as arguments and return the actions to carry out, in
//! the order in which they are sent.
use vstd::prelude::*;

use crate::ack_responder::AckResponse;
use crate::completion::MessageMeta;
use crate::completion_v3::{CompletionTask, Event, RecvEvent, RecvEventOp};
use crate::constants::PSN_MASK;
use crate::device_protocol::{AckMeta, HeaderType, HeaderWriteMeta, NakMeta, PacketPos};

verus! {

/// Distance from a reported PSN back to the base PSN of its bitmap.
pub const BASE_PSN_OFFSET: u32 = 0x70;

/// Width of a bitmap of received packets.
pub const BITMAP_WIDTH: u32 = 128;

/// An action that follows from a meta report.
#[derive(Debug, Clone, Copy, PartialEq, Eq, Structural)]
pub enum MetaAction {
    /// A task for the completion worker
    Completion(CompletionTask),
    /// An answer to the peer
    Respond(AckResponse),
    /// Packets of `qpn` before `psn` need no retransmission
    RetransmitAck { qpn: u32, psn: u32 },
    /// Retransmit the packets of `qpn` from `psn_low` to `psn_high`
    RetransmitRange { qpn: u32, psn_low: u32, psn_high: u32 },
    /// The peer of `qpn` acknowledged: restart its retransmission timer
    AckReceived { qpn: u32 },
}

/// The packet ends its message.
pub open spec fn ends_message(pos: PacketPos) -> bool {
    pos == PacketPos::Last || pos == PacketPos::Only
}

/// The receive event that the last packet of a message of kind `t` registers; none for a
/// plain write.
pub open spec fn recv_op_of(t: HeaderType, imm: u32) -> Option<RecvEventOp> {
    match t {
        HeaderType::Write => None,
        HeaderType::WriteWithImm => Some(RecvEventOp::WriteWithImm { imm }),
        HeaderType::Send => Some(RecvEventOp::Recv),
        HeaderType::SendWithImm => Some(RecvEventOp::RecvWithImm { imm }),
        HeaderType::ReadResp => Some(RecvEventOp::ReadResp),
    }
}

/// Registering a receive event `op` of message `meta` with queue pair `qpn`.
pub open spec fn register_recv(qpn: u32, op: RecvEventOp, meta: MessageMeta) -> MetaAction {
    MetaAction::Completion(
        CompletionTask::Register { qpn, event: Event::Recv(RecvEvent { op, meta }) },
    )
}

/// The PSN after `psn`, wrapping at `PSN_MASK`.
pub open spec fn next_psn(psn: u32) -> u32 {
    ((psn + 1) % (PSN_MASK as int)) as u32
}

/// The PSN before `psn`, wrapping at `PSN_MASK`.
pub open spec fn prev_psn(psn: u32) -> u32 {
    (vstd::wrapping::u32_specs::wrapping_sub(psn, 1) % PSN_MASK) as u32
}

/// The actions of a header write report.
///
/// When the packet ends its message, the message is registered with the receiving side of
/// `dqpn`: one event chosen by the header type (none for a plain write) and, when the
/// sender asked for an acknowledgement, one acknowledgement-request event, both ending at
/// the PSN after the packet. `acked` is the receive tracker's answer to acknowledging the
/// packet's PSN: a new base PSN is forwarded to the completion worker. A retransmitted last
/// packet that asks for an acknowledgement is answered with a NAK carrying the tracker's
/// base PSN, `tracker_base_psn`, once the packet is acknowledged.
pub open spec fn spec_header_write_actions(
    meta: HeaderWriteMeta,
    acked: Option<u32>,
    tracker_base_psn: u32,
) -> Seq<MetaAction> {
    let end = ends_message(meta.pos);
    let mm = MessageMeta { msn: meta.msn, end_psn: next_psn(meta.psn) };
    let typed = if end {
        match recv_op_of(meta.header_type, meta.imm) {
            Some(op) => seq![register_recv(meta.dqpn, op, mm)],
            None => Seq::<MetaAction>::empty(),
        }
    } else {
        Seq::<MetaAction>::empty()
    };
    let ack_req = if end && meta.ack_req {
        seq![register_recv(meta.dqpn, RecvEventOp::WriteAckReq, mm)]
    } else {
        Seq::<MetaAction>::empty()
    };
    let base = match acked {
        Some(b) => seq![
            MetaAction::Completion(CompletionTask::Ack { qpn: meta.dqpn, base_psn: b, is_send: false }),
        ],
        None => Seq::<MetaAction>::empty(),
    };
    let nak = if end && meta.is_retry && meta.ack_req {
        seq![
            MetaAction::Respond(
                AckResponse::Nak {
                    qpn: meta.dqpn,
                    base_psn: tracker_base_psn,
                    ack_req_packet_psn: prev_psn(meta.psn),
                },
            ),
        ]
    } else {
        Seq::<MetaAction>::empty()
    };
    typed + ack_req + base + nak
}

/// What a header write report produces, in order: when the packet ends its message, the
/// message event of its kind (none for a plain write) and, when an acknowledgement is
/// requested, an acknowledgement-request event, both for the destination queue pair with
/// the packet's MSN and the PSN after the packet; then the tracker's new base PSN for the
/// receiving side, if any; then, for a retried last packet that requests an
/// acknowledgement, a NAK of the packet before it with the tracker's base PSN.
pub proof fn lemma_header_write_actions_shape(
    meta: HeaderWriteMeta,
    acked: Option<u32>,
    tracker_base_psn: u32,
)
    ensures
        ({
            let r = spec_header_write_actions(meta, acked, tracker_base_psn);
            let end = meta.pos == PacketPos::Last || meta.pos == PacketPos::Only;
            let mm = MessageMeta { msn: meta.msn, end_psn: ((meta.psn + 1) % 0xff_ffff) as u32 };
            let t: int = if end && meta.header_type != HeaderType::Write { 1 } else { 0 };
            let q: int = if end && meta.ack_req { 1 } else { 0 };
            let k: int = if acked is Some { 1 } else { 0 };
            let n: int = if end && meta.is_retry && meta.ack_req { 1 } else { 0 };
            &&& r.len() == t + q + k + n
            &&& t == 1 ==> r[0] == MetaAction::Completion(
                CompletionTask::Register {
                    qpn: meta.dqpn,
                    event: Event::Recv(
                        RecvEvent {
                            op: match meta.header_type {
                                HeaderType::WriteWithImm => RecvEventOp::WriteWithImm {
                                    imm: meta.imm,
                                },
                                HeaderType::Send => RecvEventOp::Recv,
                                HeaderType::SendWithImm => RecvEventOp::RecvWithImm {
                                    imm: meta.imm,
                                },
                                _ => RecvEventOp::ReadResp,
                            },
                            meta: mm,
                        },
                    ),
                },
            )
            &&& q == 1 ==> r[t] == MetaAction::Completion(
                CompletionTask::Register {
                    qpn: meta.dqpn,
                    event: Event::Recv(RecvEvent { op: RecvEventOp::WriteAckReq, meta: mm }),
                },
            )
            &&& k == 1 ==> r[t + q] == MetaAction::Completion(
                CompletionTask::Ack { qpn: meta.dqpn, base_psn: acked->0, is_send: false },
            )
            &&& n == 1 ==> r[t + q + k] == MetaAction::Respond(
                AckResponse::Nak {
                    qpn: meta.dqpn,
                    base_psn: tracker_base_psn,
                    ack_req_packet_psn: (vstd::wrapping::u32_specs::wrapping_sub(meta.psn, 1)
                        % 0xff_ffff) as u32,
                },
            )
        }),
{
}

/// The actions of a header write report; see `spec_header_write_actions`.
pub fn header_write_actions(meta: HeaderWriteMeta, acked: Option<u32>, tracker_base_psn: u32) -> (r:
    Vec<MetaAction>)
    requires
        meta.psn < u32::MAX,
    ensures
        r@ == spec_header_write_actions(meta, acked, tracker_base_psn),
{
    let mut out: Vec<MetaAction> = Vec::new();
    let end = match meta.pos {
        PacketPos::Last | PacketPos::Only => true,
        PacketPos::First | PacketPos::Middle => false,
    };
    let mm = MessageMeta::new(meta.msn, (meta.psn + 1) % PSN_MASK);
    if end {
        let op = match meta.header_type {
            HeaderType::Write => None,
            HeaderType::WriteWithImm => Some(RecvEventOp::WriteWithImm { imm: meta.imm }),
            HeaderType::Send => Some(RecvEventOp::Recv),
            HeaderType::SendWithImm => Some(RecvEventOp::RecvWithImm { imm: meta.imm }),
            HeaderType::ReadResp => Some(RecvEventOp::ReadResp),
        };
        if let Some(op) = op {
            let event = Event::Recv(RecvEvent::new(op, mm));
            out.push(MetaAction::Completion(CompletionTask::Register { qpn: meta.dqpn, event }));
        }
        if meta.ack_req {
            let event = Event::Recv(RecvEvent::new(RecvEventOp::WriteAckReq, mm));
            out.push(MetaAction::Completion(CompletionTask::Register { qpn: meta.dqpn, event }));
        }
    }
    if let Some(base_psn) = acked {
        out.push(
            MetaAction::Completion(CompletionTask::Ack { qpn: meta.dqpn, base_psn, is_send: false }),
        );
    }
    if end && meta.is_retry && meta.ack_req {
        out.push(
            MetaAction::Respond(
                AckResponse::Nak {
                    qpn: meta.dqpn,
                    base_psn: tracker_base_psn,
                    ack_req_packet_psn: meta.psn.wrapping_sub(1) % PSN_MASK,
                },
            ),
        );
    }
    proof {
        assert(out@ =~= spec_header_write_actions(meta, acked, tracker_base_psn));
    }
    out
}

/// The base PSN of a bitmap that a report places at `psn`: `BASE_PSN_OFFSET` before it,
/// modulo 2^24.
pub open spec fn spec_ack_base_psn(psn: u32) -> u32 {
    vstd::wrapping::u32_specs::wrapping_sub(psn, BASE_PSN_OFFSET) & PSN_MASK
}

/// The base PSN of a bitmap that a report places at `psn`.
pub fn ack_base_psn(psn: u32) -> (r: u32)
    ensures
        r == spec_ack_base_psn(psn),
        r <= PSN_MASK,
{
    let r = psn.wrapping_sub(BASE_PSN_OFFSET) & PSN_MASK;
    proof {
        let w = psn.wrapping_sub(BASE_PSN_OFFSET);
        assert(w & 0xff_ffffu32 <= 0xff_ffffu32) by (bit_vector);
    }
    r
}

/// The actions that a new base PSN `psn` of one side of `qpn` causes: the completion
/// worker learns it, and retransmission forgets the packets before it.
pub open spec fn spec_base_update(qpn: u32, psn: u32, is_send: bool) -> Seq<MetaAction> {
    seq![
        MetaAction::Completion(CompletionTask::Ack { qpn, base_psn: psn, is_send }),
        MetaAction::RetransmitAck { qpn, psn },
    ]
}

/// The actions of an acknowledgement report.
///
/// Acknowledgements that the driver sent need nothing. One from the peer restarts the
/// retransmission timer of `qpn`. The tracker of the sending side of `qpn` (of the
/// receiving side, when the local hardware sent the acknowledgement) is asked to
/// acknowledge the bitmap at `spec_ack_base_psn(psn_now)`; `tracker` is its answer, `None`
/// when `qpn` has no tracker. A new base PSN is forwarded.
pub open spec fn spec_ack_actions(meta: AckMeta, tracker: Option<Option<u32>>) -> Seq<MetaAction> {
    if meta.is_send_by_driver {
        Seq::empty()
    } else {
        let timer = if !meta.is_send_by_local_hw {
            seq![MetaAction::AckReceived { qpn: meta.qpn }]
        } else {
            Seq::<MetaAction>::empty()
        };
        match tracker {
            Some(Some(psn)) => timer + spec_base_update(meta.qpn, psn, !meta.is_send_by_local_hw),
            _ => timer,
        }
    }
}

/// What an acknowledgement report produces: nothing when the driver sent it; otherwise, for
/// an acknowledgement from the peer, a restart of the retransmission timer first, then, when
/// the tracker answers a new base PSN, its completion acknowledgement for the side that sent
/// the packets followed by its retransmission acknowledgement.
pub proof fn lemma_ack_actions_shape(meta: AckMeta, tracker: Option<Option<u32>>)
    ensures
        ({
            let r = spec_ack_actions(meta, tracker);
            &&& meta.is_send_by_driver ==> r.len() == 0
            &&& !meta.is_send_by_driver ==> {
                let t: int = if !meta.is_send_by_local_hw { 1 } else { 0 };
                let u: int = if tracker is Some && tracker->0 is Some { 2 } else { 0 };
                &&& r.len() == t + u
                &&& t == 1 ==> r[0] == (MetaAction::AckReceived { qpn: meta.qpn })
                &&& u == 2 ==> r[t] == MetaAction::Completion(
                    CompletionTask::Ack {
                        qpn: meta.qpn,
                        base_psn: tracker->0->0,
                        is_send: !meta.is_send_by_local_hw,
                    },
                ) && r[t + 1] == (MetaAction::RetransmitAck { qpn: meta.qpn, psn: tracker->0->0 })
            }
        }),
{
}

/// The actions of an acknowledgement report; see `spec_ack_actions`.
pub fn ack_actions(meta: AckMeta, tracker: Option<Option<u32>>) -> (r: Vec<MetaAction>)
    ensures
        r@ == spec_ack_actions(meta, tracker),
{
    let mut out: Vec<MetaAction> = Vec::new();
    if meta.is_send_by_driver {
        return out;
    }
    if !meta.is_send_by_local_hw {
        out.push(MetaAction::AckReceived { qpn: meta.qpn });
    }
    if let Some(Some(psn)) = tracker {
        let is_send = !meta.is_send_by_local_hw;
        out.push(
            MetaAction::Completion(CompletionTask::Ack { qpn: meta.qpn, base_psn: psn, is_send }),
        );
        out.push(MetaAction::RetransmitAck { qpn: meta.qpn, psn });
    }
    proof {
        assert(out@ =~= spec_ack_actions(meta, tracker));
    }
    out
}

/// The upper end of the range that a NAK at `psn_now` retransmits: a bitmap's width past
/// the base PSN at `psn_now`, modulo 2^32.
pub open spec fn spec_nak_high(psn_now: u32) -> u32 {
    vstd::wrapping::u32_specs::wrapping_sub(
        vstd::wrapping::u32_specs::wrapping_add(psn_now, BITMAP_WIDTH),
        BASE_PSN_OFFSET,
    )
}

/// The actions of a negative acknowledgement report.
///
/// NAKs that the driver sent need nothing, and neither does one for a queue pair without
/// tracker. Otherwise the tracker of the side (as for acknowledgements) is asked to
/// acknowledge the current bitmap at `spec_ack_base_psn(psn_now)`, then the bitmap before
/// the window moved at `spec_ack_base_psn(psn_before_slide)`; `tracker` holds its two
/// answers. Each new base PSN is forwarded, and the packets from the earlier base PSN to
/// `spec_nak_high(psn_now)` are retransmitted.
pub open spec fn spec_nak_actions(meta: NakMeta, tracker: Option<(Option<u32>, Option<u32>)>) -> Seq<
    MetaAction,
> {
    if meta.is_send_by_driver {
        Seq::empty()
    } else {
        match tracker {
            None => Seq::empty(),
            Some((now, pre)) => {
                let is_send = !meta.is_send_by_local_hw;
                let a = match now {
                    Some(p) => spec_base_update(meta.qpn, p, is_send),
                    None => Seq::<MetaAction>::empty(),
                };
                let b = match pre {
                    Some(p) => spec_base_update(meta.qpn, p, is_send),
                    None => Seq::<MetaAction>::empty(),
                };
                a + b + seq![
                    MetaAction::RetransmitRange {
                        qpn: meta.qpn,
                        psn_low: spec_ack_base_psn(meta.psn_before_slide),
                        psn_high: spec_nak_high(meta.psn_now),
                    },
                ]
            },
        }
    }
}

/// A NAK that the driver did not send, on a queue pair with a tracker, forwards every new
/// base PSN that the tracker answers, the current bitmap's first, each as a completion
/// acknowledgement followed by a retransmission acknowledgement, and ends with the range to
/// retransmit; nothing else is produced.
pub proof fn lemma_nak_actions_forward(meta: NakMeta, tracker: Option<(Option<u32>, Option<u32>)>)
    ensures
        ({
            let r = spec_nak_actions(meta, tracker);
            &&& meta.is_send_by_driver || tracker is None ==> r.len() == 0
            &&& !meta.is_send_by_driver && tracker is Some ==> {
                let answers = tracker->0;
                let now = answers.0;
                let pre = answers.1;
                let is_send = !meta.is_send_by_local_hw;
                let a: int = if now is Some { 2 } else { 0 };
                let b: int = if pre is Some { 2 } else { 0 };
                &&& r.len() == a + b + 1
                &&& now is Some ==> r[0] == MetaAction::Completion(
                    CompletionTask::Ack { qpn: meta.qpn, base_psn: now->0, is_send },
                ) && r[1] == (MetaAction::RetransmitAck { qpn: meta.qpn, psn: now->0 })
                &&& pre is Some ==> r[a] == MetaAction::Completion(
                    CompletionTask::Ack { qpn: meta.qpn, base_psn: pre->0, is_send },
                ) && r[a + 1] == (MetaAction::RetransmitAck { qpn: meta.qpn, psn: pre->0 })
                &&& r[a + b] == (MetaAction::RetransmitRange {
                    qpn: meta.qpn,
                    psn_low: vstd::wrapping::u32_specs::wrapping_sub(meta.psn_before_slide, 0x70)
                        & 0xff_ffff,
                    psn_high: vstd::wrapping::u32_specs::wrapping_sub(
                        vstd::wrapping::u32_specs::wrapping_add(meta.psn_now, 128),
                        0x70,
                    ),
                })
            }
        }),
{
}

/// The actions of a negative acknowledgement report; see `spec_nak_actions`.
pub fn nak_actions(meta: NakMeta, tracker: Option<(Option<u32>, Option<u32>)>) -> (r: Vec<
    MetaAction,
>)
    ensures
        r@ == spec_nak_actions(meta, tracker),
        meta.is_send_by_driver || tracker is None ==> r.len() == 0,
        !meta.is_send_by_driver && tracker is Some ==> {
            let answers = tracker->0;
            let now = answers.0;
            let pre = answers.1;
            let is_send = !meta.is_send_by_local_hw;
            let a: int = if now is Some { 2 } else { 0 };
            let b: int = if pre is Some { 2 } else { 0 };
            &&& r.len() == a + b + 1
            &&& now is Some ==> r[0] == MetaAction::Completion(
                CompletionTask::Ack { qpn: meta.qpn, base_psn: now->0, is_send },
            ) && r[1] == (MetaAction::RetransmitAck { qpn: meta.qpn, psn: now->0 })
            &&& pre is Some ==> r[a] == MetaAction::Completion(
                CompletionTask::Ack { qpn: meta.qpn, base_psn: pre->0, is_send },
            ) && r[a + 1] == (MetaAction::RetransmitAck { qpn: meta.qpn, psn: pre->0 })
            &&& r[a + b] == (MetaAction::RetransmitRange {
                qpn: meta.qpn,
                psn_low: vstd::wrapping::u32_specs::wrapping_sub(meta.psn_before_slide, 0x70)
                    & 0xff_ffff,
                psn_high: vstd::wrapping::u32_specs::wrapping_sub(
                    vstd::wrapping::u32_specs::wrapping_add(meta.psn_now, 128),
                    0x70,
                ),
            })
        },
{
    let mut out: Vec<MetaAction> = Vec::new();
    if meta.is_send_by_driver {
        return out;
    }
    let (now, pre) = match tracker {
        Some(t) => t,
        None => return out,
    };
    let is_send = !meta.is_send_by_local_hw;
    if let Some(p) = now {
        out.push(MetaAction::Completion(CompletionTask::Ack { qpn: meta.qpn, base_psn: p, is_send }));
        out.push(MetaAction::RetransmitAck { qpn: meta.qpn, psn: p });
    }
    if let Some(p) = pre {
        out.push(MetaAction::Completion(CompletionTask::Ack { qpn: meta.qpn, base_psn: p, is_send }));
        out.push(MetaAction::RetransmitAck { qpn: meta.qpn, psn: p });
    }
    let psn_low = ack_base_psn(meta.psn_before_slide);
    let psn_high = meta.psn_now.wrapping_add(BITMAP_WIDTH).wrapping_sub(BASE_PSN_OFFSET);
    out.push(MetaAction::RetransmitRange { qpn: meta.qpn, psn_low, psn_high });
    proof {
        assert(out@ =~= spec_nak_actions(meta, tracker));
    }
    out
}

} // verus!
