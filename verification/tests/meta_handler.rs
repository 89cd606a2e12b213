use blue_rdma_driver::ack_responder::AckResponse;
use blue_rdma_driver::completion::MessageMeta;
use blue_rdma_driver::completion_v3::{CompletionTask, Event, RecvEvent, RecvEventOp};
use blue_rdma_driver::device_protocol::{AckMeta, HeaderType, HeaderWriteMeta, NakMeta, PacketPos};
use blue_rdma_driver::meta_handler::{ack_actions, ack_base_psn, header_write_actions, nak_actions, MetaAction};

fn header(pos: PacketPos, header_type: HeaderType, ack_req: bool, is_retry: bool) -> HeaderWriteMeta {
    HeaderWriteMeta {
        pos,
        msn: 7,
        psn: 100,
        solicited: false,
        ack_req,
        is_retry,
        dqpn: 0x300,
        total_len: 4096,
        raddr: 0x1000,
        rkey: 1,
        imm: 0xabcd,
        header_type,
    }
}

fn reg(op: RecvEventOp) -> MetaAction {
    MetaAction::Completion(CompletionTask::Register {
        qpn: 0x300,
        event: Event::Recv(RecvEvent::new(op, MessageMeta::new(7, 101))),
    })
}

#[test]
fn last_write_with_imm_registers_and_acks() {
    let r = header_write_actions(header(PacketPos::Last, HeaderType::WriteWithImm, true, false), Some(101), 90);
    assert_eq!(
        r,
        vec![
            reg(RecvEventOp::WriteWithImm { imm: 0xabcd }),
            reg(RecvEventOp::WriteAckReq),
            MetaAction::Completion(CompletionTask::Ack { qpn: 0x300, base_psn: 101, is_send: false }),
        ]
    );
}

#[test]
fn middle_packet_only_forwards_the_ack() {
    let r = header_write_actions(header(PacketPos::Middle, HeaderType::Send, true, true), None, 90);
    assert!(r.is_empty());
    let r = header_write_actions(header(PacketPos::First, HeaderType::Send, false, false), Some(5), 0);
    assert_eq!(r, vec![MetaAction::Completion(CompletionTask::Ack { qpn: 0x300, base_psn: 5, is_send: false })]);
}

#[test]
fn plain_write_registers_nothing_and_retry_is_nakked() {
    let r = header_write_actions(header(PacketPos::Only, HeaderType::Write, false, true), None, 90);
    assert!(r.is_empty());
    let r = header_write_actions(header(PacketPos::Only, HeaderType::Write, true, true), None, 90);
    assert_eq!(
        r,
        vec![
            reg(RecvEventOp::WriteAckReq),
            MetaAction::Respond(AckResponse::Nak { qpn: 0x300, base_psn: 90, ack_req_packet_psn: 99 }),
        ]
    );
    let r = header_write_actions(header(PacketPos::Only, HeaderType::Send, false, false), None, 0);
    assert_eq!(r, vec![reg(RecvEventOp::Recv)]);
    let r = header_write_actions(header(PacketPos::Last, HeaderType::SendWithImm, false, false), None, 0);
    assert_eq!(r, vec![reg(RecvEventOp::RecvWithImm { imm: 0xabcd })]);
    let r = header_write_actions(header(PacketPos::Last, HeaderType::ReadResp, false, false), None, 0);
    assert_eq!(r, vec![reg(RecvEventOp::ReadResp)]);
}

#[test]
fn psn_wraps_at_the_mask() {
    let mut h = header(PacketPos::Only, HeaderType::Send, true, true);
    // the PSN before 0 is taken modulo PSN_MASK of 2^32 - 1
    h.psn = 0;
    let r = header_write_actions(h, None, 3);
    assert_eq!(r[2], MetaAction::Respond(AckResponse::Nak { qpn: 0x300, base_psn: 3, ack_req_packet_psn: 0xff }));
    h.psn = 0xff_fffe;
    let r = header_write_actions(h, None, 3);
    assert_eq!(
        r[0],
        MetaAction::Completion(CompletionTask::Register {
            qpn: 0x300,
            event: Event::Recv(RecvEvent::new(RecvEventOp::Recv, MessageMeta::new(7, 0))),
        })
    );
}

fn ack(local_hw: bool, driver: bool) -> AckMeta {
    AckMeta {
        qpn: 0x500,
        msn: 3,
        psn_now: 0x10,
        now_bitmap: 0,
        is_window_slided: false,
        is_send_by_local_hw: local_hw,
        is_send_by_driver: driver,
    }
}

#[test]
fn acknowledgements_route_by_sender() {
    assert_eq!(ack_base_psn(0x10), 0xff_ffa0);
    assert_eq!(ack_base_psn(0x100), 0x90);
    assert!(ack_actions(ack(false, true), Some(Some(4))).is_empty());
    assert_eq!(
        ack_actions(ack(false, false), Some(Some(4))),
        vec![
            MetaAction::AckReceived { qpn: 0x500 },
            MetaAction::Completion(CompletionTask::Ack { qpn: 0x500, base_psn: 4, is_send: true }),
            MetaAction::RetransmitAck { qpn: 0x500, psn: 4 },
        ]
    );
    assert_eq!(ack_actions(ack(false, false), None), vec![MetaAction::AckReceived { qpn: 0x500 }]);
    assert_eq!(
        ack_actions(ack(true, false), Some(Some(9))),
        vec![
            MetaAction::Completion(CompletionTask::Ack { qpn: 0x500, base_psn: 9, is_send: false }),
            MetaAction::RetransmitAck { qpn: 0x500, psn: 9 },
        ]
    );
    assert!(ack_actions(ack(true, false), Some(None)).is_empty());
}

#[test]
fn nak_retransmits_the_window() {
    let m = NakMeta {
        qpn: 0x600,
        msn: 1,
        psn_now: 0x200,
        now_bitmap: 0,
        pre_bitmap: 0,
        psn_before_slide: 0x180,
        is_send_by_local_hw: false,
        is_send_by_driver: false,
    };
    assert_eq!(
        nak_actions(m, Some((None, Some(0x111)))),
        vec![
            MetaAction::Completion(CompletionTask::Ack { qpn: 0x600, base_psn: 0x111, is_send: true }),
            MetaAction::RetransmitAck { qpn: 0x600, psn: 0x111 },
            MetaAction::RetransmitRange { qpn: 0x600, psn_low: 0x110, psn_high: 0x210 },
        ]
    );
    assert!(nak_actions(m, None).is_empty());
    let mut d = m;
    d.is_send_by_driver = true;
    assert!(nak_actions(d, Some((Some(1), Some(2)))).is_empty());
}
