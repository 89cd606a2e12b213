use blue_rdma_driver::device::{base_addr_writes, queue_base_addr_writes, CsrAccessRpcMessage, QueueRing};
use blue_rdma_driver::device::{ipv4_of_gid, qp_attr_change, IBV_QP_AV, IBV_QP_DEST_QPN, IBV_QP_PATH_MTU};
use blue_rdma_driver::cmd::{CmdQp, MttUpdate, PgtUpdate, QpUpdate};
use blue_rdma_driver::cmd::{update_pgt_desc, CmdQueueDesc};
use blue_rdma_driver::constants::CARD_MAC_ADDRESS;
use blue_rdma_driver::device::{
    create_qp_attr, join_base_addr, modify_qp_entry, needs_post_recv_channel, new_qp_entry,
    pgt_chunks, reg_mr_plan, split_base_addr, update_qp_attr, PgtEntry, QpAttrChange,
    RegMrError, IBV_MTU_4096, LOCAL_UDP_PORT,
};
use blue_rdma_driver::device_protocol::UpdateQp;
use blue_rdma_driver::qp::QpAttr;

#[test]
fn base_address_registers() {
    assert_eq!(split_base_addr(0x1234_5678_9abc_def0), (0x9abc_def0, 0x1234_5678));
    assert_eq!(join_base_addr(0x9abc_def0, 0x1234_5678), 0x1234_5678_9abc_def0);
    let (lo, hi) = split_base_addr(u64::MAX);
    assert_eq!(join_base_addr(lo, hi), u64::MAX);
}

#[test]
fn page_table_runs() {
    let runs = pgt_chunks(PgtEntry { index: 10, count: 34 });
    assert_eq!(
        runs,
        vec![
            PgtEntry { index: 10, count: 16 },
            PgtEntry { index: 26, count: 16 },
            PgtEntry { index: 42, count: 2 },
        ]
    );
    assert_eq!(pgt_chunks(PgtEntry { index: 3, count: 0 }), vec![]);
    assert_eq!(pgt_chunks(PgtEntry { index: 0, count: 16 }), vec![PgtEntry { index: 0, count: 16 }]);
    // a region of 17 pages takes two commands
    assert_eq!(
        pgt_chunks(PgtEntry { index: 0, count: 17 }),
        vec![PgtEntry { index: 0, count: 16 }, PgtEntry { index: 16, count: 1 }]
    );
}

#[test]
fn register_region_plan() {
    let phys = vec![Some(0x1000), Some(0x5000), Some(0x9000)];
    let plan = reg_mr_plan(0x7000, 10000, 9, 1, 0xf, PgtEntry { index: 5, count: 3 }, &phys, 0xa000)
        .unwrap();
    assert_eq!(plan.mtt_update, MttUpdate::new(0x7000, 10000, 9, 1, 0xf, 5));
    assert_eq!(plan.pgt_updates, vec![PgtUpdate::new(0xa000, 5, 2)]);
    assert_eq!(plan.pgt_entries, vec![vec![0x1000, 0x5000, 0x9000]]);
}

#[test]
fn register_region_in_runs() {
    let phys: Vec<Option<u64>> = (0..22u64).map(|i| Some(i * 0x1000)).collect();
    let plan = reg_mr_plan(0, 22 * 4096, 1, 0, 0, PgtEntry { index: 100, count: 22 }, &phys, 0xb000)
        .unwrap();
    assert_eq!(
        plan.pgt_updates,
        vec![PgtUpdate::new(0xb000, 100, 15), PgtUpdate::new(0xb000, 116, 5)]
    );
    assert_eq!(plan.pgt_entries[0].len(), 16);
    assert_eq!(plan.pgt_entries[1], (16..22u64).map(|i| i * 0x1000).collect::<Vec<_>>());
}

#[test]
fn register_region_errors() {
    let phys = vec![Some(0x1000), None];
    let r = reg_mr_plan(0, 8192, 1, 0, 0, PgtEntry { index: 0, count: 2 }, &phys, 0);
    assert_eq!(r.err(), Some(RegMrError::NotFound));
    if usize::BITS > 32 {
        let r = reg_mr_plan(0, (u32::MAX as usize) + 1, 1, 0, 0, PgtEntry { index: 0, count: 2 }, &phys, 0);
        assert_eq!(r.err(), Some(RegMrError::InvalidInput));
    }
}

fn attr() -> QpAttr {
    QpAttr {
        qpn: 0,
        qp_type: 0,
        send_cq: None,
        recv_cq: None,
        mac_addr: 0,
        pmtu: 0,
        dqpn: 0x21,
        access_flags: 3,
        dqp_ip: 0x0a00_0002,
        ip: 0x0a00_0001,
    }
}

#[test]
fn new_queue_pair() {
    let (a, e) = create_qp_attr(attr(), 0x105, 2, Some(1), Some(2));
    assert_eq!(a.qpn, 0x105);
    assert_eq!(a.send_cq, Some(1));
    assert_eq!(a.recv_cq, Some(2));
    assert_eq!(a.mac_addr, CARD_MAC_ADDRESS);
    assert_eq!(a.pmtu, IBV_MTU_4096);
    assert_eq!(a.dqpn, 0x21);
    assert_eq!(e.local_udp_port, LOCAL_UDP_PORT);
    assert_eq!(e.qpn, 0x105);
    assert_eq!(e.qp_type, 2);
    assert_eq!(e.ip_addr, 0);
    let e = new_qp_entry(7, 2);
    assert_eq!(e, UpdateQp { qpn: 7, qp_type: 2, ..UpdateQp::default() });
}

#[test]
fn changed_queue_pair() {
    let none = QpAttrChange { dest_qp_ip: None, dest_qp_num: None, qp_access_flags: None, path_mtu: None };
    let (a, e) = update_qp_attr(attr(), 5, none);
    assert_eq!(e.ip_addr, 0x0a00_0002);
    assert_eq!(e.peer_qpn, 0x21);
    assert_eq!(e.rq_access_flags, 3);
    assert_eq!(e.peer_mac_addr, CARD_MAC_ADDRESS);
    assert_eq!(a, attr());
    let change = QpAttrChange {
        dest_qp_ip: Some(0x0a00_0009),
        dest_qp_num: Some(0x44),
        qp_access_flags: Some(0x10f),
        path_mtu: Some(3),
    };
    let (a, e) = update_qp_attr(attr(), 5, change);
    assert_eq!(e.ip_addr, 0x0a00_0009);
    assert_eq!(e.peer_qpn, 0x44);
    assert_eq!(e.rq_access_flags, 0x0f);
    assert_eq!(e.pmtu, 3);
    assert_eq!(a.dqp_ip, 0x0a00_0009);
    assert_eq!(a.dqpn, 0x44);
    assert!(needs_post_recv_channel(&a, false));
    assert!(!needs_post_recv_channel(&a, true));
    let mut no_ip = attr();
    no_ip.dqp_ip = 0;
    assert!(!needs_post_recv_channel(&no_ip, false));
}

#[test]
fn modified_queue_pair_reads_the_gid() {
    let mut dgid = [0u8; 16];
    dgid[12] = 1;
    dgid[15] = 10;
    let e = modify_qp_entry(3, 0x102, dgid, 9, 0x107, 5, 1);
    assert_eq!(e.ip_addr, 0x0a00_0001);
    assert_eq!(e.qp_type, 2);
    assert_eq!(e.rq_access_flags, 7);
    assert_eq!(e.local_udp_port, 1);
    assert_eq!(e.peer_mac_addr, 0);
}

#[test]
fn command_batches() {
    let mut qp = CmdQp::new(Vec::new());
    let mut update: QpUpdate = qp.update();
    assert!(!update.waiting());
    update.push(&mut qp, update_pgt_desc(&PgtUpdate::new(1, 2, 3)));
    update.push(&mut qp, update_pgt_desc(&PgtUpdate::new(4, 5, 6)));
    assert_eq!(update.num, 2);
    assert_eq!(qp.req_queue.len(), 2);
    assert!(matches!(qp.req_queue[1], CmdQueueDesc::UpdatePGT(_)));
    assert!(update.on_response());
    assert!(!update.on_response());
}

#[test]
fn register_access_messages() {
    let r = CsrAccessRpcMessage::read_request(0x40);
    assert_eq!(r, CsrAccessRpcMessage { is_write: false, addr: 0x40, value: 0 });
    let w = CsrAccessRpcMessage::write_request(0x44, 9);
    assert!(w.is_write);
    assert_eq!(w.value(), 9);
}

#[test]
fn page_table_runs_tile_the_entry() {
    let e = PgtEntry { index: 1000, count: 200 };
    let runs = pgt_chunks(e);
    assert_eq!(runs[0].index, 1000);
    for w in runs.windows(2) {
        assert_eq!(w[0].index + w[0].count, w[1].index);
    }
    let last = runs[runs.len() - 1];
    assert_eq!(last.index + last.count, 1200);
    assert!(runs.iter().all(|r| r.count > 0 && r.count <= 16));
}

#[test]
fn base_address_register_writes() {
    let w = base_addr_writes(0x10, 0x14, 0x1234_5678_9abc_def0);
    assert_eq!(
        w,
        vec![
            CsrAccessRpcMessage { is_write: true, addr: 0x10, value: 0x9abc_def0 },
            CsrAccessRpcMessage { is_write: true, addr: 0x14, value: 0x1234_5678 },
        ]
    );
    assert_eq!(join_base_addr(w[0].value, w[1].value), 0x1234_5678_9abc_def0);
}

#[test]
fn ipv4_mapped_gids() {
    let mut gid = [0u8; 16];
    gid[10] = 0xff;
    gid[11] = 0xff;
    gid[12..].copy_from_slice(&[10, 0, 0, 1]);
    assert_eq!(ipv4_of_gid(gid), Some(0x0a00_0001));
    let mut other = gid;
    other[0] = 0xfe;
    assert_eq!(ipv4_of_gid(other), None);
    let c = qp_attr_change(IBV_QP_AV | IBV_QP_DEST_QPN, gid, 0x33, 7, 5);
    assert_eq!(
        c,
        QpAttrChange { dest_qp_ip: Some(0x0a00_0001), dest_qp_num: Some(0x33), qp_access_flags: None, path_mtu: None }
    );
    let c = qp_attr_change(IBV_QP_PATH_MTU, gid, 0x33, 7, 5);
    assert_eq!(c, QpAttrChange { dest_qp_ip: None, dest_qp_num: None, qp_access_flags: None, path_mtu: Some(5) });
}

#[test]
fn emulated_queue_base_addresses() {
    let sq = vec![0x1000, 0x2000, 0x3000, 0x4000];
    let mrq = vec![0x5000, 0x6000, 0x7000, 0x8000];
    let w = queue_base_addr_writes(&sq, &mrq);
    assert_eq!(
        w,
        vec![
            (QueueRing::Send(0), 0x1000),
            (QueueRing::Send(1), 0x2000),
            (QueueRing::Send(2), 0x3000),
            (QueueRing::Send(3), 0x4000),
            (QueueRing::MetaReport(0), 0x5000),
            (QueueRing::MetaReport(1), 0x6000),
            (QueueRing::MetaReport(2), 0x6000),
            (QueueRing::MetaReport(3), 0x6000),
        ]
    );
}
