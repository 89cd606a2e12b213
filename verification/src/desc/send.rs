//! Descriptors of the send queue.
use vstd::prelude::*;

use super::bits::{
    bit_of, bool_bit, field_get, field_set, get_bool, get_field, get_u16, get_u32, get_u8,
    lemma_field_get_set_other, lemma_field_get_set_same, lemma_field_get_zero,
    lemma_low_mask_values, lemma_mask_small, set_field,
};
use super::RingBufDescCommonHead;

verus! {

/// Operation of a work request, as the send queue encodes it.
#[derive(Debug, PartialEq, Eq, Clone, Copy, Structural)]
pub enum WorkReqOpCode {
    /// RDMA write
    RdmaWrite,
    /// RDMA write with immediate data
    RdmaWriteWithImm,
    /// Send
    Send,
    /// Send with immediate data
    SendWithImm,
    /// RDMA read
    RdmaRead,
    /// Atomic compare and swap
    AtomicCmpAndSwp,
    /// Atomic fetch and add
    AtomicFetchAndAdd,
    /// Local invalidate
    LocalInv,
    /// Bind memory window
    BindMw,
    /// Send with invalidate
    SendWithInv,
    /// TCP segmentation offload
    Tso,
    /// Driver-internal request
    Driver1,
    /// RDMA read response
    RdmaReadResp,
    /// RDMA acknowledgement
    RdmaAck,
    /// Flush
    Flush,
    /// Atomic write
    AtomicWrite,
}

impl WorkReqOpCode {
    /// The code of the operation.
    pub open spec fn spec_value(self) -> u8 {
        match self {
            WorkReqOpCode::RdmaWrite => 0,
            WorkReqOpCode::RdmaWriteWithImm => 1,
            WorkReqOpCode::Send => 2,
            WorkReqOpCode::SendWithImm => 3,
            WorkReqOpCode::RdmaRead => 4,
            WorkReqOpCode::AtomicCmpAndSwp => 5,
            WorkReqOpCode::AtomicFetchAndAdd => 6,
            WorkReqOpCode::LocalInv => 7,
            WorkReqOpCode::BindMw => 8,
            WorkReqOpCode::SendWithInv => 9,
            WorkReqOpCode::Tso => 10,
            WorkReqOpCode::Driver1 => 11,
            WorkReqOpCode::RdmaReadResp => 12,
            WorkReqOpCode::RdmaAck => 13,
            WorkReqOpCode::Flush => 14,
            WorkReqOpCode::AtomicWrite => 15,
        }
    }

    /// The code of the operation.
    pub fn value(self) -> (r: u8)
        ensures
            r == self.spec_value(),
    {
        match self {
            WorkReqOpCode::RdmaWrite => 0,
            WorkReqOpCode::RdmaWriteWithImm => 1,
            WorkReqOpCode::Send => 2,
            WorkReqOpCode::SendWithImm => 3,
            WorkReqOpCode::RdmaRead => 4,
            WorkReqOpCode::AtomicCmpAndSwp => 5,
            WorkReqOpCode::AtomicFetchAndAdd => 6,
            WorkReqOpCode::LocalInv => 7,
            WorkReqOpCode::BindMw => 8,
            WorkReqOpCode::SendWithInv => 9,
            WorkReqOpCode::Tso => 10,
            WorkReqOpCode::Driver1 => 11,
            WorkReqOpCode::RdmaReadResp => 12,
            WorkReqOpCode::RdmaAck => 13,
            WorkReqOpCode::Flush => 14,
            WorkReqOpCode::AtomicWrite => 15,
        }
    }
}

/// First descriptor of a send request: the remote side of the transfer.
#[derive(Clone, Copy, Debug)]
pub struct SendQueueReqDescSeg0 {
    /// Bytes 0 to 7, read little-endian.
    pub c0: u64,
    /// Bytes 8 to 15, read little-endian.
    pub c1: u64,
    /// Bytes 16 to 23, read little-endian.
    pub c2: u64,
    /// Bytes 24 to 31, read little-endian.
    pub c3: u64,
}

impl SendQueueReqDescSeg0 {
    /// Builds the first descriptor of a send request; another descriptor follows it.
    pub fn new_inner(op_code: WorkReqOpCode, msn: u16, psn: u32, qp_type: u8, dqpn: u32, flags: u8, dqp_ip: u32, raddr: u64, rkey: u32, total_len: u32) -> (r: Self)
        ensures
            field_get(r.c0, 0, 1) == 1,
            field_get(r.c0, 1, 1) == 1,
            field_get(r.c0, 2, 6) == 0,
            field_get(r.c0, 8, 8) == op_code.spec_value() as u64,
            field_get(r.c0, 16, 16) == msn as u64,
            field_get(r.c0, 32, 32) == total_len as u64,
            field_get(r.c1, 0, 32) == rkey as u64,
            field_get(r.c1, 32, 32) == dqp_ip as u64,
            r.c2 == raddr,
            field_get(r.c3, 0, 24) == psn as u64 & 0xff_ffff,
            field_get(r.c3, 24, 4) == qp_type as u64 & 0xf,
            field_get(r.c3, 28, 4) == 0,
            field_get(r.c3, 32, 24) == dqpn as u64 & 0xff_ffff,
            field_get(r.c3, 56, 5) == flags as u64 & 0x1f,
            field_get(r.c3, 61, 3) == 0,
    {
        let mut head = RingBufDescCommonHead::new_send_desc(op_code);
        head.set_has_next(true);
        let c0_1: u64 = set_field(0, 0, 1, bit_of(head.valid));
        let c0_2: u64 = set_field(c0_1, 1, 1, bit_of(head.has_next));
        let c0_3: u64 = set_field(c0_2, 8, 8, head.op_code as u64);
        let c0_4: u64 = set_field(c0_3, 16, 16, msn as u64);
        let c0_5: u64 = set_field(c0_4, 32, 32, total_len as u64);
        let c0: u64 = c0_5;
        let c1_1: u64 = set_field(0, 0, 32, rkey as u64);
        let c1_2: u64 = set_field(c1_1, 32, 32, dqp_ip as u64);
        let c1: u64 = c1_2;
        let c2: u64 = raddr;
        let c3_1: u64 = set_field(0, 0, 24, psn as u64);
        let c3_2: u64 = set_field(c3_1, 24, 4, qp_type as u64);
        let c3_3: u64 = set_field(c3_2, 32, 24, dqpn as u64);
        let c3_4: u64 = set_field(c3_3, 56, 5, flags as u64);
        let c3: u64 = c3_4;
        proof {
            lemma_low_mask_values();
            lemma_field_get_set_same(0, 1, 0, 1);
            lemma_mask_small(1, 1);
            lemma_field_get_set_other(c0_1, 1, 1, 1, 0, 1);
            lemma_field_get_set_other(c0_2, op_code.spec_value() as u64, 8, 8, 0, 1);
            lemma_field_get_set_other(c0_3, msn as u64, 16, 16, 0, 1);
            lemma_field_get_set_other(c0_4, total_len as u64, 32, 32, 0, 1);
            lemma_field_get_set_same(c0_1, 1, 1, 1);
            lemma_mask_small(1, 1);
            lemma_field_get_set_other(c0_2, op_code.spec_value() as u64, 8, 8, 1, 1);
            lemma_field_get_set_other(c0_3, msn as u64, 16, 16, 1, 1);
            lemma_field_get_set_other(c0_4, total_len as u64, 32, 32, 1, 1);
            lemma_field_get_zero(2, 6);
            lemma_field_get_set_other(0, 1, 0, 1, 2, 6);
            lemma_field_get_set_other(c0_1, 1, 1, 1, 2, 6);
            lemma_field_get_set_other(c0_2, op_code.spec_value() as u64, 8, 8, 2, 6);
            lemma_field_get_set_other(c0_3, msn as u64, 16, 16, 2, 6);
            lemma_field_get_set_other(c0_4, total_len as u64, 32, 32, 2, 6);
            lemma_field_get_set_same(c0_2, op_code.spec_value() as u64, 8, 8);
            lemma_mask_small(op_code.spec_value() as u64, 8);
            lemma_field_get_set_other(c0_3, msn as u64, 16, 16, 8, 8);
            lemma_field_get_set_other(c0_4, total_len as u64, 32, 32, 8, 8);
            lemma_field_get_set_same(c0_3, msn as u64, 16, 16);
            lemma_mask_small(msn as u64, 16);
            lemma_field_get_set_other(c0_4, total_len as u64, 32, 32, 16, 16);
            lemma_field_get_set_same(c0_4, total_len as u64, 32, 32);
            lemma_mask_small(total_len as u64, 32);
            lemma_field_get_set_same(0, rkey as u64, 0, 32);
            lemma_mask_small(rkey as u64, 32);
            lemma_field_get_set_other(c1_1, dqp_ip as u64, 32, 32, 0, 32);
            lemma_field_get_set_same(c1_1, dqp_ip as u64, 32, 32);
            lemma_mask_small(dqp_ip as u64, 32);
            lemma_field_get_set_same(0, psn as u64, 0, 24);
            lemma_field_get_set_other(c3_1, qp_type as u64, 24, 4, 0, 24);
            lemma_field_get_set_other(c3_2, dqpn as u64, 32, 24, 0, 24);
            lemma_field_get_set_other(c3_3, flags as u64, 56, 5, 0, 24);
            lemma_field_get_set_same(c3_1, qp_type as u64, 24, 4);
            lemma_field_get_set_other(c3_2, dqpn as u64, 32, 24, 24, 4);
            lemma_field_get_set_other(c3_3, flags as u64, 56, 5, 24, 4);
            lemma_field_get_zero(28, 4);
            lemma_field_get_set_other(0, psn as u64, 0, 24, 28, 4);
            lemma_field_get_set_other(c3_1, qp_type as u64, 24, 4, 28, 4);
            lemma_field_get_set_other(c3_2, dqpn as u64, 32, 24, 28, 4);
            lemma_field_get_set_other(c3_3, flags as u64, 56, 5, 28, 4);
            lemma_field_get_set_same(c3_2, dqpn as u64, 32, 24);
            lemma_field_get_set_other(c3_3, flags as u64, 56, 5, 32, 24);
            lemma_field_get_set_same(c3_3, flags as u64, 56, 5);
            lemma_field_get_zero(61, 3);
            lemma_field_get_set_other(0, psn as u64, 0, 24, 61, 3);
            lemma_field_get_set_other(c3_1, qp_type as u64, 24, 4, 61, 3);
            lemma_field_get_set_other(c3_2, dqpn as u64, 32, 24, 61, 3);
            lemma_field_get_set_other(c3_3, flags as u64, 56, 5, 61, 3);
        }
        Self { c0: c0, c1: c1, c2: c2, c3: c3 }
    }

    /// Builds the first descriptor of an RDMA write.
    pub fn new_rdma_write(msn: u16, psn: u32, qp_type: u8, dqpn: u32, flags: u8, dqp_ip: u32, raddr: u64, rkey: u32, total_len: u32) -> (r: Self)
        ensures
            field_get(r.c0, 0, 1) == 1,
            field_get(r.c0, 1, 1) == 1,
            field_get(r.c0, 2, 6) == 0,
            field_get(r.c0, 8, 8) == WorkReqOpCode::RdmaWrite.spec_value() as u64,
            field_get(r.c0, 16, 16) == msn as u64,
            field_get(r.c0, 32, 32) == total_len as u64,
            field_get(r.c1, 0, 32) == rkey as u64,
            field_get(r.c1, 32, 32) == dqp_ip as u64,
            r.c2 == raddr,
            field_get(r.c3, 0, 24) == psn as u64 & 0xff_ffff,
            field_get(r.c3, 24, 4) == qp_type as u64 & 0xf,
            field_get(r.c3, 28, 4) == 0,
            field_get(r.c3, 32, 24) == dqpn as u64 & 0xff_ffff,
            field_get(r.c3, 56, 5) == flags as u64 & 0x1f,
            field_get(r.c3, 61, 3) == 0,
    {
        Self::new_inner(WorkReqOpCode::RdmaWrite, msn, psn, qp_type, dqpn, flags, dqp_ip, raddr, rkey, total_len)
    }

    /// Reads the msn field.
    pub fn msn(&self) -> (r: u16)
        ensures
            r as u64 == field_get(self.c0, 16, 16),
    {
        get_u16(self.c0, 16, 16)
    }

    /// Writes the msn field; the other words stay as they were.
    pub fn set_msn(&mut self, val: u16)
        ensures
            final(self).c0 == field_set(old(self).c0, 16, 16, val as u64),
            final(self).c1 == old(self).c1,
            final(self).c2 == old(self).c2,
            final(self).c3 == old(self).c3,
    {
        self.c0 = set_field(self.c0, 16, 16, val as u64);
    }

    /// Reads the total len field.
    pub fn total_len(&self) -> (r: u32)
        ensures
            r as u64 == field_get(self.c0, 32, 32),
    {
        get_u32(self.c0, 32, 32)
    }

    /// Writes the total len field; the other words stay as they were.
    pub fn set_total_len(&mut self, val: u32)
        ensures
            final(self).c0 == field_set(old(self).c0, 32, 32, val as u64),
            final(self).c1 == old(self).c1,
            final(self).c2 == old(self).c2,
            final(self).c3 == old(self).c3,
    {
        self.c0 = set_field(self.c0, 32, 32, val as u64);
    }

    /// Reads the rkey field.
    pub fn rkey(&self) -> (r: u32)
        ensures
            r as u64 == field_get(self.c1, 0, 32),
    {
        get_u32(self.c1, 0, 32)
    }

    /// Writes the rkey field; the other words stay as they were.
    pub fn set_rkey(&mut self, val: u32)
        ensures
            final(self).c1 == field_set(old(self).c1, 0, 32, val as u64),
            final(self).c0 == old(self).c0,
            final(self).c2 == old(self).c2,
            final(self).c3 == old(self).c3,
    {
        self.c1 = set_field(self.c1, 0, 32, val as u64);
    }

    /// Reads the dqp ip field.
    pub fn dqp_ip(&self) -> (r: u32)
        ensures
            r as u64 == field_get(self.c1, 32, 32),
    {
        get_u32(self.c1, 32, 32)
    }

    /// Writes the dqp ip field; the other words stay as they were.
    pub fn set_dqp_ip(&mut self, val: u32)
        ensures
            final(self).c1 == field_set(old(self).c1, 32, 32, val as u64),
            final(self).c0 == old(self).c0,
            final(self).c2 == old(self).c2,
            final(self).c3 == old(self).c3,
    {
        self.c1 = set_field(self.c1, 32, 32, val as u64);
    }

    /// Reads the raddr field.
    pub fn raddr(&self) -> (r: u64)
        ensures
            r == self.c2,
    {
        self.c2
    }

    /// Writes the raddr field; the other words stay as they were.
    pub fn set_raddr(&mut self, val: u64)
        ensures
            final(self).c2 == val,
            final(self).c0 == old(self).c0,
            final(self).c1 == old(self).c1,
            final(self).c3 == old(self).c3,
    {
        self.c2 = val;
    }

    /// Reads the psn field.
    pub fn psn(&self) -> (r: u32)
        ensures
            r as u64 == field_get(self.c3, 0, 24),
    {
        get_u32(self.c3, 0, 24)
    }

    /// Writes the psn field; the other words stay as they were.
    pub fn set_psn(&mut self, val: u32)
        ensures
            final(self).c3 == field_set(old(self).c3, 0, 24, val as u64),
            final(self).c0 == old(self).c0,
            final(self).c1 == old(self).c1,
            final(self).c2 == old(self).c2,
    {
        self.c3 = set_field(self.c3, 0, 24, val as u64);
    }

    /// Reads the qp type field.
    pub fn qp_type(&self) -> (r: u8)
        ensures
            r as u64 == field_get(self.c3, 24, 4),
    {
        get_u8(self.c3, 24, 4)
    }

    /// Writes the qp type field; the other words stay as they were.
    pub fn set_qp_type(&mut self, val: u8)
        ensures
            final(self).c3 == field_set(old(self).c3, 24, 4, val as u64),
            final(self).c0 == old(self).c0,
            final(self).c1 == old(self).c1,
            final(self).c2 == old(self).c2,
    {
        self.c3 = set_field(self.c3, 24, 4, val as u64);
    }

    /// Reads the dqpn field.
    pub fn dqpn(&self) -> (r: u32)
        ensures
            r as u64 == field_get(self.c3, 32, 24),
    {
        get_u32(self.c3, 32, 24)
    }

    /// Writes the dqpn field; the other words stay as they were.
    pub fn set_dqpn(&mut self, val: u32)
        ensures
            final(self).c3 == field_set(old(self).c3, 32, 24, val as u64),
            final(self).c0 == old(self).c0,
            final(self).c1 == old(self).c1,
            final(self).c2 == old(self).c2,
    {
        self.c3 = set_field(self.c3, 32, 24, val as u64);
    }

    /// Reads the flags field.
    pub fn flags(&self) -> (r: u8)
        ensures
            r as u64 == field_get(self.c3, 56, 5),
    {
        get_u8(self.c3, 56, 5)
    }

    /// Writes the flags field; the other words stay as they were.
    pub fn set_flags(&mut self, val: u8)
        ensures
            final(self).c3 == field_set(old(self).c3, 56, 5, val as u64),
            final(self).c0 == old(self).c0,
            final(self).c1 == old(self).c1,
            final(self).c2 == old(self).c2,
    {
        self.c3 = set_field(self.c3, 56, 5, val as u64);
    }
}

/// Second descriptor of a send request: the local side of the transfer.
#[derive(Clone, Copy, Debug)]
pub struct SendQueueReqDescSeg1 {
    /// Bytes 0 to 7, read little-endian.
    pub c0: u64,
    /// Bytes 8 to 15, read little-endian.
    pub c1: u64,
    /// Bytes 16 to 23, read little-endian.
    pub c2: u64,
    /// Bytes 24 to 31, read little-endian.
    pub c3: u64,
}

impl SendQueueReqDescSeg1 {
    /// Builds the second descriptor of a send request; the queue pair number is split between its low eight bits and the sixteen above them.
    pub fn new_inner(op_code: WorkReqOpCode, pmtu: u8, is_first: bool, is_last: bool, is_retry: bool, enable_ecn: bool, sqpn: u32, imm: u32, mac_addr: u64, lkey: u32, len: u32, laddr: u64) -> (r: Self)
        ensures
            field_get(r.c0, 0, 1) == 1,
            field_get(r.c0, 1, 1) == 0,
            field_get(r.c0, 2, 6) == 0,
            field_get(r.c0, 8, 8) == op_code.spec_value() as u64,
            field_get(r.c0, 16, 3) == pmtu as u64 & 0x7,
            field_get(r.c0, 19, 1) == bool_bit(is_first),
            field_get(r.c0, 20, 1) == bool_bit(is_last),
            field_get(r.c0, 21, 1) == bool_bit(is_retry),
            field_get(r.c0, 22, 1) == bool_bit(enable_ecn),
            field_get(r.c0, 23, 1) == 0,
            field_get(r.c0, 24, 8) == sqpn as u64 & 0xff,
            field_get(r.c0, 32, 32) == imm as u64,
            field_get(r.c1, 0, 48) == mac_addr & 0xffff_ffff_ffff,
            field_get(r.c1, 48, 16) == (sqpn >> 8u32) as u64 & 0xffff,
            field_get(r.c2, 0, 32) == lkey as u64,
            field_get(r.c2, 32, 32) == len as u64,
            r.c3 == laddr,
    {
        let head = RingBufDescCommonHead::new_send_desc(op_code);
        let c0_1: u64 = set_field(0, 0, 1, bit_of(head.valid));
        let c0_2: u64 = set_field(c0_1, 1, 1, bit_of(head.has_next));
        let c0_3: u64 = set_field(c0_2, 8, 8, head.op_code as u64);
        let c0_4: u64 = set_field(c0_3, 16, 3, pmtu as u64);
        let c0_5: u64 = set_field(c0_4, 19, 1, bit_of(is_first));
        let c0_6: u64 = set_field(c0_5, 20, 1, bit_of(is_last));
        let c0_7: u64 = set_field(c0_6, 21, 1, bit_of(is_retry));
        let c0_8: u64 = set_field(c0_7, 22, 1, bit_of(enable_ecn));
        let c0_9: u64 = set_field(c0_8, 24, 8, sqpn as u64);
        let c0_10: u64 = set_field(c0_9, 32, 32, imm as u64);
        let c0: u64 = c0_10;
        let c1_1: u64 = set_field(0, 0, 48, mac_addr);
        let c1_2: u64 = set_field(c1_1, 48, 16, (sqpn >> 8u32) as u64);
        let c1: u64 = c1_2;
        let c2_1: u64 = set_field(0, 0, 32, lkey as u64);
        let c2_2: u64 = set_field(c2_1, 32, 32, len as u64);
        let c2: u64 = c2_2;
        let c3: u64 = laddr;
        proof {
            lemma_low_mask_values();
            lemma_field_get_set_same(0, 1, 0, 1);
            lemma_mask_small(1, 1);
            lemma_field_get_set_other(c0_1, 0, 1, 1, 0, 1);
            lemma_field_get_set_other(c0_2, op_code.spec_value() as u64, 8, 8, 0, 1);
            lemma_field_get_set_other(c0_3, pmtu as u64, 16, 3, 0, 1);
            lemma_field_get_set_other(c0_4, bool_bit(is_first), 19, 1, 0, 1);
            lemma_field_get_set_other(c0_5, bool_bit(is_last), 20, 1, 0, 1);
            lemma_field_get_set_other(c0_6, bool_bit(is_retry), 21, 1, 0, 1);
            lemma_field_get_set_other(c0_7, bool_bit(enable_ecn), 22, 1, 0, 1);
            lemma_field_get_set_other(c0_8, sqpn as u64, 24, 8, 0, 1);
            lemma_field_get_set_other(c0_9, imm as u64, 32, 32, 0, 1);
            lemma_field_get_set_same(c0_1, 0, 1, 1);
            lemma_mask_small(0, 1);
            lemma_field_get_set_other(c0_2, op_code.spec_value() as u64, 8, 8, 1, 1);
            lemma_field_get_set_other(c0_3, pmtu as u64, 16, 3, 1, 1);
            lemma_field_get_set_other(c0_4, bool_bit(is_first), 19, 1, 1, 1);
            lemma_field_get_set_other(c0_5, bool_bit(is_last), 20, 1, 1, 1);
            lemma_field_get_set_other(c0_6, bool_bit(is_retry), 21, 1, 1, 1);
            lemma_field_get_set_other(c0_7, bool_bit(enable_ecn), 22, 1, 1, 1);
            lemma_field_get_set_other(c0_8, sqpn as u64, 24, 8, 1, 1);
            lemma_field_get_set_other(c0_9, imm as u64, 32, 32, 1, 1);
            lemma_field_get_zero(2, 6);
            lemma_field_get_set_other(0, 1, 0, 1, 2, 6);
            lemma_field_get_set_other(c0_1, 0, 1, 1, 2, 6);
            lemma_field_get_set_other(c0_2, op_code.spec_value() as u64, 8, 8, 2, 6);
            lemma_field_get_set_other(c0_3, pmtu as u64, 16, 3, 2, 6);
            lemma_field_get_set_other(c0_4, bool_bit(is_first), 19, 1, 2, 6);
            lemma_field_get_set_other(c0_5, bool_bit(is_last), 20, 1, 2, 6);
            lemma_field_get_set_other(c0_6, bool_bit(is_retry), 21, 1, 2, 6);
            lemma_field_get_set_other(c0_7, bool_bit(enable_ecn), 22, 1, 2, 6);
            lemma_field_get_set_other(c0_8, sqpn as u64, 24, 8, 2, 6);
            lemma_field_get_set_other(c0_9, imm as u64, 32, 32, 2, 6);
            lemma_field_get_set_same(c0_2, op_code.spec_value() as u64, 8, 8);
            lemma_mask_small(op_code.spec_value() as u64, 8);
            lemma_field_get_set_other(c0_3, pmtu as u64, 16, 3, 8, 8);
            lemma_field_get_set_other(c0_4, bool_bit(is_first), 19, 1, 8, 8);
            lemma_field_get_set_other(c0_5, bool_bit(is_last), 20, 1, 8, 8);
            lemma_field_get_set_other(c0_6, bool_bit(is_retry), 21, 1, 8, 8);
            lemma_field_get_set_other(c0_7, bool_bit(enable_ecn), 22, 1, 8, 8);
            lemma_field_get_set_other(c0_8, sqpn as u64, 24, 8, 8, 8);
            lemma_field_get_set_other(c0_9, imm as u64, 32, 32, 8, 8);
            lemma_field_get_set_same(c0_3, pmtu as u64, 16, 3);
            lemma_field_get_set_other(c0_4, bool_bit(is_first), 19, 1, 16, 3);
            lemma_field_get_set_other(c0_5, bool_bit(is_last), 20, 1, 16, 3);
            lemma_field_get_set_other(c0_6, bool_bit(is_retry), 21, 1, 16, 3);
            lemma_field_get_set_other(c0_7, bool_bit(enable_ecn), 22, 1, 16, 3);
            lemma_field_get_set_other(c0_8, sqpn as u64, 24, 8, 16, 3);
            lemma_field_get_set_other(c0_9, imm as u64, 32, 32, 16, 3);
            lemma_field_get_set_same(c0_4, bool_bit(is_first), 19, 1);
            lemma_mask_small(bool_bit(is_first), 1);
            lemma_field_get_set_other(c0_5, bool_bit(is_last), 20, 1, 19, 1);
            lemma_field_get_set_other(c0_6, bool_bit(is_retry), 21, 1, 19, 1);
            lemma_field_get_set_other(c0_7, bool_bit(enable_ecn), 22, 1, 19, 1);
            lemma_field_get_set_other(c0_8, sqpn as u64, 24, 8, 19, 1);
            lemma_field_get_set_other(c0_9, imm as u64, 32, 32, 19, 1);
            lemma_field_get_set_same(c0_5, bool_bit(is_last), 20, 1);
            lemma_mask_small(bool_bit(is_last), 1);
            lemma_field_get_set_other(c0_6, bool_bit(is_retry), 21, 1, 20, 1);
            lemma_field_get_set_other(c0_7, bool_bit(enable_ecn), 22, 1, 20, 1);
            lemma_field_get_set_other(c0_8, sqpn as u64, 24, 8, 20, 1);
            lemma_field_get_set_other(c0_9, imm as u64, 32, 32, 20, 1);
            lemma_field_get_set_same(c0_6, bool_bit(is_retry), 21, 1);
            lemma_mask_small(bool_bit(is_retry), 1);
            lemma_field_get_set_other(c0_7, bool_bit(enable_ecn), 22, 1, 21, 1);
            lemma_field_get_set_other(c0_8, sqpn as u64, 24, 8, 21, 1);
            lemma_field_get_set_other(c0_9, imm as u64, 32, 32, 21, 1);
            lemma_field_get_set_same(c0_7, bool_bit(enable_ecn), 22, 1);
            lemma_mask_small(bool_bit(enable_ecn), 1);
            lemma_field_get_set_other(c0_8, sqpn as u64, 24, 8, 22, 1);
            lemma_field_get_set_other(c0_9, imm as u64, 32, 32, 22, 1);
            lemma_field_get_zero(23, 1);
            lemma_field_get_set_other(0, 1, 0, 1, 23, 1);
            lemma_field_get_set_other(c0_1, 0, 1, 1, 23, 1);
            lemma_field_get_set_other(c0_2, op_code.spec_value() as u64, 8, 8, 23, 1);
            lemma_field_get_set_other(c0_3, pmtu as u64, 16, 3, 23, 1);
            lemma_field_get_set_other(c0_4, bool_bit(is_first), 19, 1, 23, 1);
            lemma_field_get_set_other(c0_5, bool_bit(is_last), 20, 1, 23, 1);
            lemma_field_get_set_other(c0_6, bool_bit(is_retry), 21, 1, 23, 1);
            lemma_field_get_set_other(c0_7, bool_bit(enable_ecn), 22, 1, 23, 1);
            lemma_field_get_set_other(c0_8, sqpn as u64, 24, 8, 23, 1);
            lemma_field_get_set_other(c0_9, imm as u64, 32, 32, 23, 1);
            lemma_field_get_set_same(c0_8, sqpn as u64, 24, 8);
            lemma_field_get_set_other(c0_9, imm as u64, 32, 32, 24, 8);
            lemma_field_get_set_same(c0_9, imm as u64, 32, 32);
            lemma_mask_small(imm as u64, 32);
            lemma_field_get_set_same(0, mac_addr, 0, 48);
            lemma_field_get_set_other(c1_1, (sqpn >> 8u32) as u64, 48, 16, 0, 48);
            lemma_field_get_set_same(c1_1, (sqpn >> 8u32) as u64, 48, 16);
            lemma_field_get_set_same(0, lkey as u64, 0, 32);
            lemma_mask_small(lkey as u64, 32);
            lemma_field_get_set_other(c2_1, len as u64, 32, 32, 0, 32);
            lemma_field_get_set_same(c2_1, len as u64, 32, 32);
            lemma_mask_small(len as u64, 32);
        }
        Self { c0: c0, c1: c1, c2: c2, c3: c3 }
    }

    /// Builds the second descriptor of an RDMA write.
    pub fn new_rdma_write(pmtu: u8, is_first: bool, is_last: bool, is_retry: bool, enable_ecn: bool, sqpn: u32, imm: u32, mac_addr: u64, lkey: u32, len: u32, laddr: u64) -> (r: Self)
        ensures
            field_get(r.c0, 0, 1) == 1,
            field_get(r.c0, 1, 1) == 0,
            field_get(r.c0, 2, 6) == 0,
            field_get(r.c0, 8, 8) == WorkReqOpCode::RdmaWrite.spec_value() as u64,
            field_get(r.c0, 16, 3) == pmtu as u64 & 0x7,
            field_get(r.c0, 19, 1) == bool_bit(is_first),
            field_get(r.c0, 20, 1) == bool_bit(is_last),
            field_get(r.c0, 21, 1) == bool_bit(is_retry),
            field_get(r.c0, 22, 1) == bool_bit(enable_ecn),
            field_get(r.c0, 23, 1) == 0,
            field_get(r.c0, 24, 8) == sqpn as u64 & 0xff,
            field_get(r.c0, 32, 32) == imm as u64,
            field_get(r.c1, 0, 48) == mac_addr & 0xffff_ffff_ffff,
            field_get(r.c1, 48, 16) == (sqpn >> 8u32) as u64 & 0xffff,
            field_get(r.c2, 0, 32) == lkey as u64,
            field_get(r.c2, 32, 32) == len as u64,
            r.c3 == laddr,
    {
        Self::new_inner(WorkReqOpCode::RdmaWrite, pmtu, is_first, is_last, is_retry, enable_ecn, sqpn, imm, mac_addr, lkey, len, laddr)
    }

    /// Reads the pmtu field.
    pub fn pmtu(&self) -> (r: u8)
        ensures
            r as u64 == field_get(self.c0, 16, 3),
    {
        get_u8(self.c0, 16, 3)
    }

    /// Writes the pmtu field; the other words stay as they were.
    pub fn set_pmtu(&mut self, val: u8)
        ensures
            final(self).c0 == field_set(old(self).c0, 16, 3, val as u64),
            final(self).c1 == old(self).c1,
            final(self).c2 == old(self).c2,
            final(self).c3 == old(self).c3,
    {
        self.c0 = set_field(self.c0, 16, 3, val as u64);
    }

    /// Reads the is first field.
    pub fn is_first(&self) -> (r: bool)
        ensures
            r == (field_get(self.c0, 19, 1) == 1),
    {
        get_bool(self.c0, 19)
    }

    /// Writes the is first field; the other words stay as they were.
    pub fn set_is_first(&mut self, val: bool)
        ensures
            final(self).c0 == field_set(old(self).c0, 19, 1, bool_bit(val)),
            final(self).c1 == old(self).c1,
            final(self).c2 == old(self).c2,
            final(self).c3 == old(self).c3,
    {
        self.c0 = set_field(self.c0, 19, 1, bit_of(val));
    }

    /// Reads the is last field.
    pub fn is_last(&self) -> (r: bool)
        ensures
            r == (field_get(self.c0, 20, 1) == 1),
    {
        get_bool(self.c0, 20)
    }

    /// Writes the is last field; the other words stay as they were.
    pub fn set_is_last(&mut self, val: bool)
        ensures
            final(self).c0 == field_set(old(self).c0, 20, 1, bool_bit(val)),
            final(self).c1 == old(self).c1,
            final(self).c2 == old(self).c2,
            final(self).c3 == old(self).c3,
    {
        self.c0 = set_field(self.c0, 20, 1, bit_of(val));
    }

    /// Reads the is retry field.
    pub fn is_retry(&self) -> (r: bool)
        ensures
            r == (field_get(self.c0, 21, 1) == 1),
    {
        get_bool(self.c0, 21)
    }

    /// Writes the is retry field; the other words stay as they were.
    pub fn set_is_retry(&mut self, val: bool)
        ensures
            final(self).c0 == field_set(old(self).c0, 21, 1, bool_bit(val)),
            final(self).c1 == old(self).c1,
            final(self).c2 == old(self).c2,
            final(self).c3 == old(self).c3,
    {
        self.c0 = set_field(self.c0, 21, 1, bit_of(val));
    }

    /// Reads the enable ecn field.
    pub fn enable_ecn(&self) -> (r: bool)
        ensures
            r == (field_get(self.c0, 22, 1) == 1),
    {
        get_bool(self.c0, 22)
    }

    /// Writes the enable ecn field; the other words stay as they were.
    pub fn set_enable_ecn(&mut self, val: bool)
        ensures
            final(self).c0 == field_set(old(self).c0, 22, 1, bool_bit(val)),
            final(self).c1 == old(self).c1,
            final(self).c2 == old(self).c2,
            final(self).c3 == old(self).c3,
    {
        self.c0 = set_field(self.c0, 22, 1, bit_of(val));
    }

    /// Reads the sqpn low 8bits field.
    pub fn sqpn_low_8bits(&self) -> (r: u8)
        ensures
            r as u64 == field_get(self.c0, 24, 8),
    {
        get_u8(self.c0, 24, 8)
    }

    /// Writes the sqpn low 8bits field; the other words stay as they were.
    pub fn set_sqpn_low_8bits(&mut self, val: u8)
        ensures
            final(self).c0 == field_set(old(self).c0, 24, 8, val as u64),
            final(self).c1 == old(self).c1,
            final(self).c2 == old(self).c2,
            final(self).c3 == old(self).c3,
    {
        self.c0 = set_field(self.c0, 24, 8, val as u64);
    }

    /// Reads the imm field.
    pub fn imm(&self) -> (r: u32)
        ensures
            r as u64 == field_get(self.c0, 32, 32),
    {
        get_u32(self.c0, 32, 32)
    }

    /// Writes the imm field; the other words stay as they were.
    pub fn set_imm(&mut self, val: u32)
        ensures
            final(self).c0 == field_set(old(self).c0, 32, 32, val as u64),
            final(self).c1 == old(self).c1,
            final(self).c2 == old(self).c2,
            final(self).c3 == old(self).c3,
    {
        self.c0 = set_field(self.c0, 32, 32, val as u64);
    }

    /// Reads the mac addr field.
    pub fn mac_addr(&self) -> (r: u64)
        ensures
            r == field_get(self.c1, 0, 48),
    {
        get_field(self.c1, 0, 48)
    }

    /// Writes the mac addr field; the other words stay as they were.
    pub fn set_mac_addr(&mut self, val: u64)
        ensures
            final(self).c1 == field_set(old(self).c1, 0, 48, val as u64),
            final(self).c0 == old(self).c0,
            final(self).c2 == old(self).c2,
            final(self).c3 == old(self).c3,
    {
        self.c1 = set_field(self.c1, 0, 48, val as u64);
    }

    /// Reads the sqpn high 16bits field.
    pub fn sqpn_high_16bits(&self) -> (r: u16)
        ensures
            r as u64 == field_get(self.c1, 48, 16),
    {
        get_u16(self.c1, 48, 16)
    }

    /// Writes the sqpn high 16bits field; the other words stay as they were.
    pub fn set_sqpn_high_16bits(&mut self, val: u16)
        ensures
            final(self).c1 == field_set(old(self).c1, 48, 16, val as u64),
            final(self).c0 == old(self).c0,
            final(self).c2 == old(self).c2,
            final(self).c3 == old(self).c3,
    {
        self.c1 = set_field(self.c1, 48, 16, val as u64);
    }

    /// Reads the lkey field.
    pub fn lkey(&self) -> (r: u32)
        ensures
            r as u64 == field_get(self.c2, 0, 32),
    {
        get_u32(self.c2, 0, 32)
    }

    /// Writes the lkey field; the other words stay as they were.
    pub fn set_lkey(&mut self, val: u32)
        ensures
            final(self).c2 == field_set(old(self).c2, 0, 32, val as u64),
            final(self).c0 == old(self).c0,
            final(self).c1 == old(self).c1,
            final(self).c3 == old(self).c3,
    {
        self.c2 = set_field(self.c2, 0, 32, val as u64);
    }

    /// Reads the len field.
    pub fn len(&self) -> (r: u32)
        ensures
            r as u64 == field_get(self.c2, 32, 32),
    {
        get_u32(self.c2, 32, 32)
    }

    /// Writes the len field; the other words stay as they were.
    pub fn set_len(&mut self, val: u32)
        ensures
            final(self).c2 == field_set(old(self).c2, 32, 32, val as u64),
            final(self).c0 == old(self).c0,
            final(self).c1 == old(self).c1,
            final(self).c3 == old(self).c3,
    {
        self.c2 = set_field(self.c2, 32, 32, val as u64);
    }

    /// Reads the laddr field.
    pub fn laddr(&self) -> (r: u64)
        ensures
            r == self.c3,
    {
        self.c3
    }

    /// Writes the laddr field; the other words stay as they were.
    pub fn set_laddr(&mut self, val: u64)
        ensures
            final(self).c3 == val,
            final(self).c0 == old(self).c0,
            final(self).c1 == old(self).c1,
            final(self).c2 == old(self).c2,
    {
        self.c3 = val;
    }
}

} // verus!
