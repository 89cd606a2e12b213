use blue_rdma_driver::ack_timeout::{AckTimeoutConfig, AckTimeoutTask, QpAckTimeoutWorker, TimerResult, TransportTimer};
use blue_rdma_driver::bench_wrappers::{
    create_ring_wrapper, virt_to_phy_bench_range_wrapper, virt_to_phy_bench_wrapper, BenchDesc,
    BenchSlotSize, BENCH_SLOT_SIZE,
};
use blue_rdma_driver::completion_v2::{
    CompletionEventV2, CompletionQueueCtx, CompletionQueueV2, EventRegistry,
};
use blue_rdma_driver::completion_worker::{completion_cq, Completion};
use blue_rdma_driver::qp::{convert_ibv_mtu_to_u16, QpAttr};
use blue_rdma_driver::qp_table::{qpn_index, QpTable};
use blue_rdma_driver::seq_num::{msn_gt, msn_lt, psn_le, psn_lt};

#[test]
fn sequence_number_order_wraps() {
    assert!(msn_lt(0, 1));
    assert!(msn_lt(0xffff, 0));
    assert!(!msn_lt(0, 0x8000));
    assert!(msn_gt(1, 0));
    assert!(psn_le(0xff_ffff, 0));
    assert!(psn_le(5, 5));
    assert!(!psn_lt(5, 5));
    assert!(psn_lt(0xff_fffe, 3));
}

#[test]
fn timer_expiry_and_retries() {
    let mut off = TransportTimer::new(0, 3);
    off.restart();
    assert_eq!(off.check_timeout_elapsed(u128::MAX), TimerResult::InTime);
    let mut t = TransportTimer::new(4, 1);
    assert!(!t.is_running());
    assert_eq!(t.check_timeout_elapsed(1 << 40), TimerResult::InTime);
    t.restart();
    assert!(t.is_running());
    assert_eq!(t.check_timeout_elapsed(65535), TimerResult::InTime);
    assert_eq!(t.check_timeout_elapsed(65536), TimerResult::Timeout);
    assert_eq!(t.check_timeout_elapsed(65536), TimerResult::Timeout);
    t.stop();
    assert!(!t.is_running());
    let mut z = TransportTimer::new(4, 0);
    z.restart();
    assert_eq!(z.check_timeout_elapsed(1 << 20), TimerResult::RetryLimitExceeded);
}

#[test]
fn timeout_config_and_tasks() {
    let c = AckTimeoutConfig::default();
    assert_eq!(c.check_period_nanos(), 4096 << 8);
    let c = AckTimeoutConfig::new(1, 2, 3);
    assert_eq!(c.check_period_nanos(), 8192);
    assert_eq!(AckTimeoutTask::new_ack_req(5).qpn(), 5);
    assert_eq!(AckTimeoutTask::recv_meta(6).qpn(), 6);
    assert_eq!(AckTimeoutTask::ack(7).qpn(), 7);
    let mut w = QpAckTimeoutWorker::new(AckTimeoutConfig::new(8, 0, 3));
    w.process(AckTimeoutTask::new_ack_req(0x100));
    w.process(AckTimeoutTask::ack(0x100));
    assert!(w.maintainance().is_empty());
}

#[test]
fn queue_pair_table_index() {
    assert_eq!(qpn_index(0x1234), 0x12);
    let mut t = QpTable::new_filled(0u32);
    assert!(t.set_qp(0x300, 9));
    assert_eq!(t.get_qp(0x3ff), Some(&9));
    assert_eq!(t.get_qp(0xffff_ffff), None);
}

#[test]
fn path_mtu_values() {
    assert_eq!(convert_ibv_mtu_to_u16(1), Some(256));
    assert_eq!(convert_ibv_mtu_to_u16(5), Some(4096));
    assert_eq!(convert_ibv_mtu_to_u16(0), None);
    assert_eq!(convert_ibv_mtu_to_u16(6), None);
}

#[test]
fn completions_route_to_their_queue() {
    let mut t = QpTable::new_filled(QpAttr::default());
    let mut a = QpAttr::default();
    a.send_cq = Some(1);
    t.set_qp(0x500, a);
    assert_eq!(completion_cq(&t, &Completion::new_send(0x500, 1)), Some(1));
    assert_eq!(completion_cq(&t, &Completion::new_recv(0x500, 1)), None);
    assert_eq!(completion_cq(&t, &Completion::new_send(0xffff_ffff, 1)), None);
}

#[test]
fn completion_events_by_psn() {
    let mut r = EventRegistry::new();
    r.register(CompletionEventV2::new_rdma_write(0x100, 1, 10, 1));
    r.register(CompletionEventV2::new_recv_rdma_with_imm(0x100, 0, 5, 7));
    r.register(CompletionEventV2::new_rdma_write(0x100, 2, 20, 2));
    let done = r.ack_psn(0x100, 11);
    assert_eq!(done.iter().map(|e| e.msn()).collect::<Vec<_>>(), vec![0, 1]);
    assert_eq!(done[0].end_psn(), 5);
    assert_eq!(done[0].qpn(), 0x100);
    let mut ctx = CompletionQueueCtx::new(CompletionQueueV2::new());
    ctx.registry.register(CompletionEventV2::new_rdma_write(0x100, 0, 3, 1));
    ctx.ack_event(0x100, 4);
    assert_eq!(ctx.completion_queue.pop_front(), Some(CompletionEventV2::new_rdma_write(0x100, 0, 3, 1)));
    assert_eq!(ctx.cqe_count, 1);
}

#[test]
fn bench_ring_round_trip() {
    assert_eq!(BenchSlotSize::size(), 24 * 128);
    let mut ring = create_ring_wrapper(vec![0u8; BENCH_SLOT_SIZE]);
    ring.produce(vec![BenchDesc::new([1u8; 32]), BenchDesc::new([2u8; 32])]);
    assert!(ring.consume().is_some());
    assert!(ring.consume().is_some());
    ring.force_produce(vec![BenchDesc::new([3u8; 32])]);
    assert!(ring.consume().is_some());
}

#[test]
fn bench_resolution_wrappers() {
    let r = virt_to_phy_bench_wrapper(&vec![0x1234], &vec![(1 << 63) | 2]);
    assert_eq!(r, vec![Some(0x2234)]);
    let r = virt_to_phy_bench_range_wrapper(0x10, &vec![0, (1 << 63) | 1]);
    assert_eq!(r, vec![None, Some(0x1010)]);
}
