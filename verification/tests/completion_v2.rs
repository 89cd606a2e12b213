use blue_rdma_driver::completion_v2::{
    CompletionEventV2, CompletionQueueV2, CompletionTask, CompletionWorker,
};
use blue_rdma_driver::qp::QpAttr;
use blue_rdma_driver::qp_table::QpTable;

fn worker() -> CompletionWorker {
    let mut attrs = QpTable::new_filled(QpAttr::default());
    let mut a = QpAttr::default();
    a.send_cq = Some(0);
    a.recv_cq = Some(1);
    assert!(attrs.set_qp(0x200, a));
    CompletionWorker::new(attrs, vec![CompletionQueueV2::new(), CompletionQueueV2::new()])
}

#[test]
fn v2_worker_releases_acknowledged_events() {
    let mut w = worker();
    let e1 = CompletionEventV2::new_rdma_write(0x200, 1, 10, 7);
    let e2 = CompletionEventV2::new_rdma_write(0x200, 2, 20, 8);
    w.process(CompletionTask::Register { cq_handle: 0, event: e2 });
    w.process(CompletionTask::Register { cq_handle: 0, event: e1 });
    // the sending side is acknowledged up to PSN 15: only the first message completes
    w.process(CompletionTask::UpdateBasePsn { qpn: 0x200, psn: 15, is_send: true });
    let cq = w.cq_table.get_cq(0).unwrap();
    assert_eq!(cq.cqe_count, 1);
    assert_eq!(cq.completion_queue.front(), Some(e1));
    w.process(CompletionTask::UpdateBasePsn { qpn: 0x200, psn: 21, is_send: true });
    assert_eq!(w.cq_table.get_cq(0).unwrap().cqe_count, 2);
}

#[test]
fn v2_worker_ignores_unknown_targets() {
    let mut w = worker();
    let e = CompletionEventV2::new_recv_rdma_with_imm(0x200, 1, 10, 5);
    // unknown completion queue handle
    w.process(CompletionTask::Register { cq_handle: 9, event: e });
    // the receiving side goes to queue 1, which holds nothing yet
    w.process(CompletionTask::UpdateBasePsn { qpn: 0x200, psn: 100, is_send: false });
    assert_eq!(w.cq_table.get_cq(1).unwrap().cqe_count, 0);
    w.process(CompletionTask::Register { cq_handle: 1, event: e });
    // an unknown queue pair changes nothing
    w.process(CompletionTask::UpdateBasePsn { qpn: 0x7fff_ff00, psn: 100, is_send: false });
    assert_eq!(w.cq_table.get_cq(1).unwrap().cqe_count, 0);
    w.process(CompletionTask::UpdateBasePsn { qpn: 0x200, psn: 100, is_send: false });
    let cq = w.cq_table.get_cq(1).unwrap();
    assert_eq!(cq.cqe_count, 1);
    assert_eq!(cq.completion_queue.front(), Some(e));
    assert!(w.cq_table.get_cq(2).is_none());
    assert_eq!(w.cq_table.len(), 2);
}
