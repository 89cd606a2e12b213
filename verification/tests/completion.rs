use blue_rdma_driver::ack_responder::AckResponse;
use blue_rdma_driver::ack_timeout::AckTimeoutTask;
use blue_rdma_driver::completion::{
    Completion, CompletionQueueTable, CompletionTask, CompletionWorker, Event, MessageMeta,
    MessageTracker, PostRecvEvent, QueuePairMessageTracker, RecvEvent, RecvEventOp, SendEvent,
    SendEventOp, IBV_WC_RDMA_WRITE, IBV_WC_RECV,
};
use blue_rdma_driver::qp::QpAttr;
use blue_rdma_driver::qp_table::QpTable;

fn meta(msn: u16, end_psn: u32) -> MessageMeta {
    MessageMeta::new(msn, end_psn)
}

#[test]
fn send_side_completes_in_order() {
    let mut t = QueuePairMessageTracker::empty();
    let mut cqs = CompletionQueueTable::new();
    let mut timeouts = Vec::new();
    t.append(Event::Send(SendEvent::new(4, SendEventOp::WriteSignaled, meta(0, 10), 1)));
    t.append(Event::Send(SendEvent::new(4, SendEventOp::SendSignaled, meta(1, 20), 2)));
    t.ack_send(Some(15), 0, &mut cqs, &mut timeouts);
    assert_eq!(cqs.poll(0, 10), vec![Completion::RdmaWrite { wr_id: 1 }]);
    assert_eq!(timeouts.len(), 1);
    assert_eq!(timeouts[0].qpn(), 4);
    t.ack_send(Some(25), 0, &mut cqs, &mut timeouts);
    assert_eq!(cqs.poll(0, 10), vec![Completion::Send { wr_id: 2 }]);
}

#[test]
fn read_completes_after_its_response() {
    let mut t = QueuePairMessageTracker::empty();
    let mut cqs = CompletionQueueTable::new();
    let mut timeouts = Vec::new();
    let mut acks = Vec::new();
    t.append(Event::Send(SendEvent::new(4, SendEventOp::ReadSignaled, meta(0, 10), 9)));
    t.ack_send(Some(15), 1, &mut cqs, &mut timeouts);
    assert!(cqs.poll(1, 10).is_empty());
    t.append(Event::Recv(RecvEvent::new(4, RecvEventOp::ReadResp, meta(0, 3), false)));
    t.ack_recv(5, 0, Some(1), 4, &mut cqs, &mut acks, &mut timeouts);
    assert_eq!(cqs.poll(1, 10), vec![Completion::RdmaRead { wr_id: 9 }]);
    assert!(acks.is_empty());
}

#[test]
fn receive_side_takes_last_posted_and_acknowledges() {
    let mut t = QueuePairMessageTracker::empty();
    let mut cqs = CompletionQueueTable::new();
    let mut timeouts = Vec::new();
    let mut acks = Vec::new();
    t.append(Event::PostRecv(PostRecvEvent::new(4, 100)));
    t.append(Event::PostRecv(PostRecvEvent::new(4, 200)));
    t.append(Event::Recv(RecvEvent::new(4, RecvEventOp::Recv, meta(0, 2), true)));
    t.append(Event::Recv(RecvEvent::new(4, RecvEventOp::WriteWithImm { imm: 7 }, meta(1, 4), false)));
    t.ack_recv(4, 2, None, 4, &mut cqs, &mut acks, &mut timeouts);
    assert_eq!(
        cqs.poll(2, 10),
        vec![Completion::Recv { wr_id: 200, imm: None }, Completion::RecvRdmaWithImm { imm: 7 }]
    );
    assert_eq!(acks, vec![AckResponse::Ack { qpn: 4, msn: 0, last_psn: 2 }]);
    assert_eq!(Completion::Recv { wr_id: 1, imm: None }.opcode(), IBV_WC_RECV);
    assert_eq!(Completion::RdmaWrite { wr_id: 1 }.opcode(), IBV_WC_RDMA_WRITE);
}

#[test]
fn tracker_orders_by_msn_and_drops_duplicates() {
    let mut m = MessageTracker::new();
    m.append(SendEvent::new(1, SendEventOp::WriteSignaled, meta(5, 50), 5));
    m.append(SendEvent::new(1, SendEventOp::WriteSignaled, meta(3, 30), 3));
    m.append(SendEvent::new(1, SendEventOp::WriteSignaled, meta(3, 31), 33));
    m.ack(100);
    assert_eq!(m.pop().map(|e| e.wr_id), Some(3));
    assert_eq!(m.peek().map(|e| e.wr_id), Some(5));
    assert_eq!(m.pop().map(|e| e.wr_id), Some(5));
    assert!(m.pop().is_none());
}

#[test]
fn unacknowledged_front_is_kept() {
    let mut m = MessageTracker::new();
    m.append(SendEvent::new(1, SendEventOp::WriteSignaled, meta(0, 50), 5));
    m.ack(49);
    assert!(m.peek().is_none());
    assert!(m.pop().is_none());
    m.ack(50);
    assert!(m.pop().is_some());
}

#[test]
fn worker_routes_by_queue_pair() {
    let mut attrs = QpTable::new_filled(QpAttr::default());
    let mut a = QpAttr::default();
    a.send_cq = Some(3);
    a.recv_cq = Some(4);
    assert!(attrs.set_qp(0x100, a));
    let mut w = CompletionWorker::new(CompletionQueueTable::new());
    let mut acks = Vec::new();
    let mut timeouts = Vec::new();
    let ev = Event::Send(SendEvent::new(0x100, SendEventOp::WriteSignaled, meta(0, 1), 77));
    w.process(CompletionTask::Register { qpn: 0x100, event: ev }, &attrs, &mut acks, &mut timeouts);
    w.process(CompletionTask::AckSend { qpn: 0x100, base_psn: 1 }, &attrs, &mut acks, &mut timeouts);
    assert_eq!(w.poll_cq(3, 4), vec![Completion::RdmaWrite { wr_id: 77 }]);
    assert_eq!(timeouts.len(), 1);
    assert!(w.poll_cq(4, 4).is_empty());
}
