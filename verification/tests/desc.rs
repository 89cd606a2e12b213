use blue_rdma_driver::cmd::{
    set_network_desc, set_raw_packet_recv_buffer_desc, update_mtt_desc, update_pgt_desc,
    update_qp_desc, CmdQueueDesc, MttUpdate, NetworkConfig, PgtUpdate,
};
use blue_rdma_driver::constants::CARD_MAC_ADDRESS;
use blue_rdma_driver::desc::bits::{get_field, set_field};
use blue_rdma_driver::desc::cmd::{
    CmdQueueReqDescHeaderChunk, CmdQueueReqDescQpManagement, CmdQueueReqDescSetNetworkParam,
    CmdQueueReqDescSetRawPacketReceiveMeta, CmdQueueReqDescUpdateMrTable,
    CmdQueueReqDescUpdatePGT, CmdQueueRespDescOnlyCommonHeader,
    RingbufDescCmdQueueCommonHead,
};
use blue_rdma_driver::desc::meta_report::{
    MetaReportQueueDescFirst, MetaReportQueueDescNext, MetaReportQueuePacketBasicInfoDesc,
    RdmaOpCode,
};
use blue_rdma_driver::desc::send::{SendQueueReqDescSeg0, SendQueueReqDescSeg1, WorkReqOpCode};
use blue_rdma_driver::desc::simple_nic::{SimpleNicRxQueueDesc, SimpleNicTxQueueDesc};
use blue_rdma_driver::desc::{
    words_to_bytes, MetaReportQueueDescBthReth, RingBufDescCommonHead, RingBufDescUntyped,
};
use blue_rdma_driver::device_protocol::{PacketPos, RecvBufferMeta, UpdateQp};

#[test]
fn field_write_then_read() {
    let w = set_field(0, 8, 8, 0x1ff);
    assert_eq!(w, 0xff00);
    assert_eq!(get_field(w, 8, 8), 0xff);
    let w2 = set_field(u64::MAX, 4, 4, 0);
    assert_eq!(w2, u64::MAX & !0xf0);
    assert_eq!(get_field(w2, 0, 4), 0xf);
    assert_eq!(get_field(w2, 8, 56), (1 << 56) - 1);
}

#[test]
fn common_head_round_trip() {
    let h = RingBufDescCommonHead::new_send_desc(WorkReqOpCode::RdmaReadResp);
    assert!(h.valid());
    assert!(!h.has_next());
    assert_eq!(h.op_code(), 12);
    let w = h.write(0xffff_ffff_ffff_0000);
    assert_eq!(w & 0xffff, 0x0c01);
    assert_eq!(RingBufDescCommonHead::decode(w), h);
    let mut h2 = h;
    h2.set_has_next(true);
    assert_eq!(h2.write(0) & 0xffff, 0x0c03);
}

#[test]
fn send_seg0_fields() {
    let d = SendQueueReqDescSeg0::new_rdma_write(
        7,
        0x0112_3456,
        0x12,
        0x00ab_cdef,
        0xff,
        0x0a00_0001,
        0xdead_beef_0000,
        0x55,
        4096,
    );
    assert_eq!(d.c0, 0x0000_1000_0007_0003);
    assert_eq!(d.msn(), 7);
    assert_eq!(d.total_len(), 4096);
    assert_eq!(d.psn(), 0x12_3456);
    assert_eq!(d.qp_type(), 0x2);
    assert_eq!(d.dqpn(), 0xab_cdef);
    assert_eq!(d.flags(), 0x1f);
    assert_eq!(d.dqp_ip(), 0x0a00_0001);
    assert_eq!(d.raddr(), 0xdead_beef_0000);
    assert_eq!(d.rkey(), 0x55);
    let mut d = d;
    d.set_msn(9);
    d.set_psn(0x77);
    assert_eq!(d.msn(), 9);
    assert_eq!(d.psn(), 0x77);
    assert_eq!(d.total_len(), 4096);
    assert_eq!(d.dqpn(), 0xab_cdef);
}

#[test]
fn send_seg1_fields() {
    let d = SendQueueReqDescSeg1::new_rdma_write(
        5,
        true,
        false,
        false,
        true,
        0x12_3456,
        0xcafe_babe,
        0xAABB_CCDD_EE0A,
        3,
        100,
        0x1000,
    );
    assert_eq!(d.pmtu(), 5);
    assert!(d.is_first());
    assert!(!d.is_last());
    assert!(!d.is_retry());
    assert!(d.enable_ecn());
    assert_eq!(d.sqpn_low_8bits(), 0x56);
    assert_eq!(d.sqpn_high_16bits(), 0x1234);
    assert_eq!(d.imm(), 0xcafe_babe);
    assert_eq!(d.mac_addr(), 0xAABB_CCDD_EE0A);
    assert_eq!(d.lkey(), 3);
    assert_eq!(d.len(), 100);
    assert_eq!(d.laddr(), 0x1000);
    let head = RingBufDescCommonHead::decode(d.c0);
    assert!(head.valid() && !head.has_next());
    let mut d = d;
    d.set_is_last(true);
    d.set_mac_addr(0x1_0000_0000_0001);
    assert!(d.is_last());
    assert!(d.is_first());
    assert_eq!(d.mac_addr(), 1);
}

#[test]
fn update_mr_table_fields() {
    let mut d = CmdQueueReqDescUpdateMrTable::new(0, 0x7000, 8192, 0x44, 7, 0xf, 0x1_ffff);
    assert_eq!(d.mr_base_va(), 0x7000);
    assert_eq!(d.mr_length(), 8192);
    assert_eq!(d.mr_key(), 0x44);
    assert_eq!(d.acc_flags(), 0xf);
    assert_eq!(d.pgt_offset(), 0x1_ffff);
    assert_eq!(d.c3 & 0xffff_ffff, 7);
    let h = d.headers();
    assert_eq!(h.common_header.op_code, 0);
    assert!(h.common_header.valid);
    assert_eq!(h.cmd_queue_common_header.user_data, 0);
    let new_headers = CmdQueueReqDescHeaderChunk::new(
        RingBufDescCommonHead::decode(0x0101),
        RingbufDescCmdQueueCommonHead::new_with_user_data(9),
    );
    d.set_headers(new_headers);
    assert_eq!(d.headers(), new_headers);
    assert_eq!(d.mr_key(), 0x44);
    d.set_pgt_offset(0x2_0001);
    assert_eq!(d.pgt_offset(), 1);
}

#[test]
fn update_pgt_fields() {
    let d = CmdQueueReqDescUpdatePGT::new(3, 0x8000, 10, 63);
    assert_eq!(d.dma_addr(), 0x8000);
    assert_eq!(d.start_index(), 10);
    assert_eq!(d.zero_based_entry_count(), 63);
    assert_eq!(d.headers().common_header.op_code, 1);
    assert_eq!(d.headers().cmd_queue_common_header.user_data, 3);
    assert_eq!(d.c3, 0);
}

#[test]
fn qp_management_swaps_valid_and_error() {
    let d = CmdQueueReqDescQpManagement::new(
        0,
        0x0a00_0001,
        0x0100_0005,
        false,
        true,
        0x33,
        0x7,
        0x12,
        0xd,
        0x100,
        0xAABB_CCDD_EE0A,
    );
    assert!(!d.is_valid());
    assert!(d.is_error());
    assert_eq!(d.qpn(), 5);
    assert_eq!(d.ip_addr(), 0x0a00_0001);
    assert_eq!(d.peer_qpn(), 0x33);
    assert_eq!(d.rq_access_flags(), 7);
    assert_eq!(d.qp_type(), 2);
    assert_eq!(d.pmtu(), 5);
    assert_eq!(d.local_udp_port(), 0x100);
    assert_eq!(d.peer_mac_addr(), 0xAABB_CCDD_EE0A);
    assert_eq!(d.cmd_queue_common_header().user_data(), 0);
    assert!(!d.cmd_queue_common_header().is_success());
}

#[test]
fn network_and_raw_packet_commands() {
    let d = CmdQueueReqDescSetNetworkParam::new(1, 0x7f00_0001, 0xffff_ff00, 0x7f00_0002, 0x12_3456_789a_bcde);
    assert_eq!(d.gateway(), 0x7f00_0001);
    assert_eq!(d.netmask(), 0xffff_ff00);
    assert_eq!(d.ip_addr(), 0x7f00_0002);
    assert_eq!(d.mac_addr(), 0x3456_789a_bcde);
    let mut r = CmdQueueReqDescSetRawPacketReceiveMeta::new(0, 0x4000);
    assert_eq!(r.write_base_addr(), 0x4000);
    r.set_cmd_queue_common_header(RingbufDescCmdQueueCommonHead::new_with_user_data(5));
    assert_eq!(r.cmd_queue_common_header().user_data(), 5);
    assert_eq!(r.write_base_addr(), 0x4000);
}

#[test]
fn response_headers() {
    let r = CmdQueueRespDescOnlyCommonHeader::new_cmd_queue_resp_desc_update_pgt(3);
    assert_eq!(r.headers().common_header.op_code, 1);
    assert_eq!(r.headers().cmd_queue_common_header.user_data, 3);
    assert!(r.rest.iter().all(|b| *b == 0));
    let r = CmdQueueRespDescOnlyCommonHeader::new_cmd_queue_resp_desc_update_mr_table(4);
    assert_eq!(r.headers().common_header.op_code, 0);
}

#[test]
fn simple_nic_descs() {
    let mut d = SimpleNicTxQueueDesc::new(0x1000, 60);
    assert_eq!(d.addr(), 0x1000);
    assert_eq!(d.len(), 60);
    d.set_len(61);
    assert_eq!(d.len(), 61);
    assert!(RingBufDescCommonHead::decode(d.c0).valid());
    let mut r = SimpleNicRxQueueDesc { c0: 0, c1: 0, c2: 0, c3: 0 };
    r.set_slot_idx(4);
    r.set_len(1500);
    assert_eq!(r.slot_idx(), 4);
    assert_eq!(r.len(), 1500);
}

#[test]
fn rdma_op_codes() {
    assert_eq!(RdmaOpCode::from_u8(0x11), Some(RdmaOpCode::Acknowledge));
    assert_eq!(RdmaOpCode::from_u8(0x0a), Some(RdmaOpCode::RdmaWriteOnly));
    assert_eq!(RdmaOpCode::from_u8(0x18), None);
    assert!(RdmaOpCode::RdmaReadRequest.is_packet());
    assert_eq!(RdmaOpCode::RdmaReadRequest.packet_pos(), None);
    assert_eq!(RdmaOpCode::SendLastWithInvalidate.packet_pos(), Some(PacketPos::Last));
    assert_eq!(RdmaOpCode::RdmaReadResponseOnly.packet_pos(), Some(PacketPos::Only));
    assert!(RdmaOpCode::AtomicAcknowledge.is_ack());
    assert!(!RdmaOpCode::Acknowledge.is_packet());
    assert!(!RdmaOpCode::SendFirst.is_ack());
}

#[test]
fn meta_report_first_and_next() {
    let ack = RingBufDescUntyped { c0: 0x1103, c1: 0, c2: 1, c3: 2 };
    match MetaReportQueueDescFirst::from(ack) {
        MetaReportQueueDescFirst::Ack(d) => {
            assert_eq!(d.now_bitmap(), 1 | (2u128 << 64));
        }
        MetaReportQueueDescFirst::PacketInfo(_) => panic!("expected an acknowledgement"),
    }
    assert!(MetaReportQueueDescFirst::from(ack).has_next());
    let pkt = RingBufDescUntyped { c0: 0x0a01 | (9 << 16) | (0x42 << 32), c1: 0, c2: 0, c3: 0 };
    match MetaReportQueueDescFirst::from(pkt) {
        MetaReportQueueDescFirst::PacketInfo(d) => {
            assert_eq!(d.msn(), 9);
            assert_eq!(d.psn(), 0x42);
            assert_eq!(d.packet_pos(), PacketPos::Only);
        }
        MetaReportQueueDescFirst::Ack(_) => panic!("expected a packet"),
    }
    assert!(!MetaReportQueueDescFirst::from(pkt).has_next());
    match MetaReportQueueDescNext::from(ack) {
        MetaReportQueueDescNext::AckExtra(d) => assert_eq!(d.pre_bitmap(), 1 | (2u128 << 64)),
        MetaReportQueueDescNext::ReadInfo(_) => panic!("expected the extra bitmap"),
    }
    let mut p = MetaReportQueuePacketBasicInfoDesc { c0: 0x0601, c1: 0, c2: 0, c3: 0 };
    p.set_dqpn(0x1ab_cdef);
    p.set_total_len(77);
    assert_eq!(p.dqpn(), 0xab_cdef);
    assert_eq!(p.total_len(), 77);
    assert_eq!(p.packet_pos(), PacketPos::First);
}

#[test]
fn descriptor_bytes_round_trip() {
    let bytes = words_to_bytes(0x0102_0304_0506_0708, 9, 10, u64::MAX);
    assert_eq!(bytes[0], 0x08);
    assert_eq!(bytes[7], 0x01);
    assert_eq!(bytes[8], 9);
    let d = RingBufDescUntyped::from_bytes(bytes);
    assert_eq!((d.c0, d.c1, d.c2, d.c3), (0x0102_0304_0506_0708, 9, 10, u64::MAX));
    let mut raw = [0u8; 32];
    raw[0] = 0x01;
    raw[1] = 0x11;
    let head = RingBufDescUntyped::from_bytes(raw).head();
    assert!(head.valid());
    assert!(!head.has_next());
    assert_eq!(head.op_code(), 0x11);
    let bth = MetaReportQueueDescBthReth::from_bytes(bytes);
    assert_eq!(bth.va(), 10);
}

#[test]
fn bth_reth_fields() {
    let mut d = MetaReportQueueDescBthReth { c0: 0, c1: 0, c2: 0, c3: 0 };
    d.set_expected_psn(0x12_3456);
    d.set_opcode(0x1f);
    d.set_dqpn(0xab_cdef);
    d.set_solicited(true);
    d.set_pad_cnt(3);
    d.set_rkey(0x99);
    d.set_msn(0xff_ffff);
    d.set_can_auto_ack(true);
    assert_eq!(d.expected_psn(), 0x12_3456);
    assert_eq!(d.opcode(), 0x1f);
    assert_eq!(d.dqpn(), 0xab_cdef);
    assert!(d.solicited());
    assert!(!d.ack_req());
    assert_eq!(d.pad_cnt(), 3);
    assert_eq!(d.rkey(), 0x99);
    assert_eq!(d.msn(), 0xff_ffff);
    assert!(d.can_auto_ack());
    assert_eq!(d.dlen(), 0);
}

#[test]
fn send_seg0_partition_key_layout() {
    let mut d = blue_rdma_driver::desc::SendQueueReqDescSeg0 { c0: 0, c1: 0, c2: 0, c3: 0 };
    d.set_pkey(0xffff);
    d.set_reserved1(0x1234);
    d.set_dqp_ip(1);
    d.set_rkey(2);
    assert_eq!(d.pkey(), 0xffff);
    assert_eq!(d.reserved1(), 0x1234);
    assert_eq!(d.c0, 0xffff_0000_0000_1234);
    assert_eq!(d.c1, 0x2_0000_0001);
}

#[test]
fn command_queue_descriptors() {
    let mtt = MttUpdate::new(0x1000, 4096, 5, 0, 0xf, 12);
    match update_mtt_desc(&mtt) {
        CmdQueueDesc::UpdateMrTable(d) => {
            assert_eq!(d.pgt_offset(), 12);
            assert_eq!(d.mr_key(), 5);
        }
        _ => panic!("wrong command"),
    }
    let pgt = PgtUpdate::new(0x2000, 64, 63);
    let desc = update_pgt_desc(&pgt);
    let bytes = desc.to_bytes();
    let back = RingBufDescUntyped::from_bytes(bytes);
    assert_eq!(back.c1, 0x2000);
    assert_eq!(back.head().op_code(), 1);
    let entry = UpdateQp {
        ip_addr: 1,
        qpn: 2,
        peer_qpn: 3,
        rq_access_flags: 4,
        qp_type: 5,
        pmtu: 5,
        local_udp_port: 0x100,
        peer_mac_addr: 6,
    };
    match update_qp_desc(&entry) {
        CmdQueueDesc::ManageQP(d) => {
            assert!(!d.is_valid());
            assert!(d.is_error());
            assert_eq!(d.qpn(), 2);
            assert_eq!(d.peer_qpn(), 3);
        }
        _ => panic!("wrong command"),
    }
    let net = NetworkConfig { ip: 0x7f00_0001, prefix_len: 24, gateway: None };
    assert_eq!(net.mask(), 0xffff_ff00);
    match set_network_desc(&net) {
        CmdQueueDesc::SetNetworkParam(d) => {
            assert_eq!(d.gateway(), 0);
            assert_eq!(d.netmask(), 0xffff_ff00);
            assert_eq!(d.ip_addr(), 0x7f00_0001);
            assert_eq!(d.mac_addr(), CARD_MAC_ADDRESS);
        }
        _ => panic!("wrong command"),
    }
    assert_eq!(NetworkConfig { ip: 0, prefix_len: 0, gateway: None }.mask(), 0);
    assert_eq!(NetworkConfig { ip: 0, prefix_len: 32, gateway: None }.mask(), u32::MAX);
    match set_raw_packet_recv_buffer_desc(&RecvBufferMeta::new(0x5000)) {
        CmdQueueDesc::SetRawPacketReceiveMeta(d) => assert_eq!(d.write_base_addr(), 0x5000),
        _ => panic!("wrong command"),
    }
}
