//! Routing of message completions to the completion queues of their queue pairs.
use vstd::prelude::*;

use crate::qp::QpAttr;
use crate::qp_table::{spec_qpn_index, QpTable};

verus! {

/// A message of a queue pair completed.
#[derive(Debug, Clone, Copy, PartialEq, Eq, Structural)]
pub struct Completion {
    /// Queue pair number
    pub qpn: u32,
    /// Message sequence number
    pub msn: u16,
    /// The message was sent, not received
    pub is_send: bool,
}

impl Completion {
    /// A sent message completed.
    pub fn new_send(qpn: u32, msn: u16) -> (r: Self)
        ensures
            r == (Completion { qpn, msn, is_send: true }),
    {
        Self { qpn, msn, is_send: true }
    }

    /// A received message completed.
    pub fn new_recv(qpn: u32, msn: u16) -> (r: Self)
        ensures
            r == (Completion { qpn, msn, is_send: false }),
    {
        Self { qpn, msn, is_send: false }
    }
}

/// The completion queue a completion goes to: the queue pair's send queue for a sent
/// message, its receive queue otherwise; `None` for an unknown queue pair or one without
/// that queue.
pub open spec fn spec_completion_cq(attrs: Seq<QpAttr>, c: Completion) -> Option<u32> {
    let idx = spec_qpn_index(c.qpn);
    if idx < attrs.len() {
        if c.is_send {
            attrs[idx].send_cq
        } else {
            attrs[idx].recv_cq
        }
    } else {
        None
    }
}

/// The completion queue a completion goes to.
pub fn completion_cq(qp_table: &QpTable<QpAttr>, c: &Completion) -> (r: Option<u32>)
    ensures
        r == spec_completion_cq(qp_table@, *c),
{
    let attr = match qp_table.get_qp(c.qpn) {
        Some(a) => a,
        None => return None,
    };
    if c.is_send {
        attr.send_cq
    } else {
        attr.recv_cq
    }
}

} // verus!
