use blue_rdma_driver::ack_responder::AckResponse;
use blue_rdma_driver::completion::{MessageMeta, SendEventOp};
use blue_rdma_driver::completion_v3::{
    Completion, CompletionQueueTable, CompletionTask, CompletionWorker, CqManager, Event,
    MessageTracker, PostRecvEvent, QueuePairMessageTracker, RecvEvent, RecvEventOp, SendEvent,
};
use blue_rdma_driver::qp::QpAttr;
use blue_rdma_driver::qp_table::QpTable;

fn meta(msn: u16, end_psn: u32) -> MessageMeta {
    MessageMeta::new(msn, end_psn)
}

#[test]
fn later_message_goes_before_the_first_greater() {
    let mut m = MessageTracker::new();
    m.append(SendEvent::new(SendEventOp::WriteSignaled, meta(2, 20), 2));
    m.append(SendEvent::new(SendEventOp::WriteSignaled, meta(5, 50), 5));
    m.append(SendEvent::new(SendEventOp::WriteSignaled, meta(3, 30), 3));
    m.append(SendEvent::new(SendEventOp::WriteSignaled, meta(5, 51), 55));
    m.ack(100);
    let mut order = Vec::new();
    while let Some(e) = m.pop() {
        order.push(e.wr_id);
    }
    assert_eq!(order, vec![2, 3, 5, 55]);
}

#[test]
fn write_acknowledgement_requests_are_answered() {
    let mut t = QueuePairMessageTracker::empty();
    let mut cqs = CompletionQueueTable::new();
    let mut acks = Vec::new();
    t.append(Event::Recv(RecvEvent::new(RecvEventOp::WriteAckReq, meta(0, 5))));
    t.append(Event::PostRecv(PostRecvEvent::new(10)));
    t.append(Event::PostRecv(PostRecvEvent::new(20)));
    t.append(Event::Recv(RecvEvent::new(RecvEventOp::Recv, meta(1, 6))));
    t.ack_recv(6, 0, None, 7, &mut cqs, &mut acks);
    assert_eq!(acks, vec![AckResponse::Ack { qpn: 7, msn: 0, last_psn: 5 }]);
    assert_eq!(cqs.poll(0, 8), vec![Completion::Recv { wr_id: 20, imm: None }]);
}

#[test]
fn send_side_and_reads() {
    let mut t = QueuePairMessageTracker::empty();
    let mut cqs = CompletionQueueTable::new();
    let mut acks = Vec::new();
    t.append(Event::Send(SendEvent::new(SendEventOp::SendSignaled, meta(0, 1), 1)));
    t.append(Event::Send(SendEvent::new(SendEventOp::ReadSignaled, meta(1, 2), 2)));
    t.ack_send(Some(2), 0, &mut cqs);
    assert_eq!(cqs.poll(0, 8), vec![Completion::Send { wr_id: 1 }]);
    t.append(Event::Recv(RecvEvent::new(RecvEventOp::ReadResp, meta(0, 1))));
    t.ack_recv(1, 1, Some(0), 3, &mut cqs, &mut acks);
    assert_eq!(cqs.poll(0, 8), vec![Completion::RdmaRead { wr_id: 2 }]);
    assert!(acks.is_empty());
}

#[test]
fn worker_acknowledges_either_side() {
    let mut attrs = QpTable::new_filled(QpAttr::default());
    let mut a = QpAttr::default();
    a.send_cq = Some(1);
    a.recv_cq = Some(2);
    assert!(attrs.set_qp(0x200, a));
    let mut w = CompletionWorker::new(CompletionQueueTable::new());
    let mut acks = Vec::new();
    let ev = Event::Recv(RecvEvent::new(RecvEventOp::WriteWithImm { imm: 9 }, meta(0, 1)));
    w.process(CompletionTask::Register { qpn: 0x200, event: ev }, &attrs, &mut acks);
    w.process(CompletionTask::Ack { qpn: 0x200, base_psn: 1, is_send: false }, &attrs, &mut acks);
    assert_eq!(w.poll_cq(2, 4), vec![Completion::RecvRdmaWithImm { imm: 9 }]);
    w.process(CompletionTask::Ack { qpn: 0x200, base_psn: 1, is_send: true }, &attrs, &mut acks);
    assert!(w.poll_cq(1, 4).is_empty());
}

#[test]
fn completion_queue_handles() {
    let mut m = CqManager::new();
    assert_eq!(m.create_cq(), Some(0));
    assert_eq!(m.create_cq(), Some(1));
    m.destroy_cq(0);
    assert_eq!(m.create_cq(), Some(0));
    m.destroy_cq(100_000);
    assert_eq!(m.create_cq(), Some(2));
}

#[test]
fn send_with_immediate_completes_with_its_data() {
    let mut t = QueuePairMessageTracker::empty();
    let mut cqs = CompletionQueueTable::new();
    let mut acks = Vec::new();
    t.append(Event::PostRecv(PostRecvEvent::new(30)));
    t.append(Event::Recv(RecvEvent::new(RecvEventOp::RecvWithImm { imm: 0x77 }, meta(0, 4))));
    t.ack_recv(4, 0, None, 7, &mut cqs, &mut acks);
    assert!(acks.is_empty());
    assert_eq!(cqs.poll(0, 8), vec![Completion::Recv { wr_id: 30, imm: Some(0x77) }]);
}
