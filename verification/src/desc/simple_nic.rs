//! Descriptors of the simple NIC queues, which carry raw Ethernet frames.
use vstd::prelude::*;

use super::bits::{
    bit_of, bool_bit, field_get, field_set, get_bool, get_field, get_u16, get_u32, get_u8,
    lemma_field_get_set_other, lemma_field_get_set_same, lemma_field_get_zero,
    lemma_low_mask_values, lemma_mask_small, set_field,
};
use super::{RingBufDescCommonHead, SIMPLE_NIC_TX_OP_CODE};

verus! {

/// Descriptor that hands a frame to the device for sending.
#[derive(Clone, Copy, Debug)]
pub struct SimpleNicTxQueueDesc {
    /// Bytes 0 to 7, read little-endian.
    pub c0: u64,
    /// Bytes 8 to 15, read little-endian.
    pub c1: u64,
    /// Bytes 16 to 23, read little-endian.
    pub c2: u64,
    /// Bytes 24 to 31, read little-endian.
    pub c3: u64,
}

impl SimpleNicTxQueueDesc {
    /// Builds the descriptor of the `len`-byte frame at `addr`.
    pub fn new(addr: u64, len: u32) -> (r: Self)
        ensures
            field_get(r.c0, 0, 1) == 1,
            field_get(r.c0, 1, 1) == 0,
            field_get(r.c0, 2, 6) == 0,
            field_get(r.c0, 8, 8) == SIMPLE_NIC_TX_OP_CODE as u64,
            field_get(r.c0, 16, 16) == 0,
            field_get(r.c0, 32, 32) == len as u64,
            r.c1 == addr,
            r.c2 == 0,
            r.c3 == 0,
    {
        let head = RingBufDescCommonHead::new_simple_nic_tx_queue_desc();
        let c0_1: u64 = set_field(0, 0, 1, bit_of(head.valid));
        let c0_2: u64 = set_field(c0_1, 1, 1, bit_of(head.has_next));
        let c0_3: u64 = set_field(c0_2, 8, 8, head.op_code as u64);
        let c0_4: u64 = set_field(c0_3, 32, 32, len as u64);
        let c0: u64 = c0_4;
        let c1: u64 = addr;
        let c2: u64 = 0;
        let c3: u64 = 0;
        proof {
            lemma_low_mask_values();
            lemma_field_get_set_same(0, 1, 0, 1);
            lemma_mask_small(1, 1);
            lemma_field_get_set_other(c0_1, 0, 1, 1, 0, 1);
            lemma_field_get_set_other(c0_2, SIMPLE_NIC_TX_OP_CODE as u64, 8, 8, 0, 1);
            lemma_field_get_set_other(c0_3, len as u64, 32, 32, 0, 1);
            lemma_field_get_set_same(c0_1, 0, 1, 1);
            lemma_mask_small(0, 1);
            lemma_field_get_set_other(c0_2, SIMPLE_NIC_TX_OP_CODE as u64, 8, 8, 1, 1);
            lemma_field_get_set_other(c0_3, len as u64, 32, 32, 1, 1);
            lemma_field_get_zero(2, 6);
            lemma_field_get_set_other(0, 1, 0, 1, 2, 6);
            lemma_field_get_set_other(c0_1, 0, 1, 1, 2, 6);
            lemma_field_get_set_other(c0_2, SIMPLE_NIC_TX_OP_CODE as u64, 8, 8, 2, 6);
            lemma_field_get_set_other(c0_3, len as u64, 32, 32, 2, 6);
            lemma_field_get_set_same(c0_2, SIMPLE_NIC_TX_OP_CODE as u64, 8, 8);
            lemma_mask_small(SIMPLE_NIC_TX_OP_CODE as u64, 8);
            lemma_field_get_set_other(c0_3, len as u64, 32, 32, 8, 8);
            lemma_field_get_zero(16, 16);
            lemma_field_get_set_other(0, 1, 0, 1, 16, 16);
            lemma_field_get_set_other(c0_1, 0, 1, 1, 16, 16);
            lemma_field_get_set_other(c0_2, SIMPLE_NIC_TX_OP_CODE as u64, 8, 8, 16, 16);
            lemma_field_get_set_other(c0_3, len as u64, 32, 32, 16, 16);
            lemma_field_get_set_same(c0_3, len as u64, 32, 32);
            lemma_mask_small(len as u64, 32);
        }
        Self { c0: c0, c1: c1, c2: c2, c3: c3 }
    }

    /// Reads the len field.
    pub fn len(&self) -> (r: u32)
        ensures
            r as u64 == field_get(self.c0, 32, 32),
    {
        get_u32(self.c0, 32, 32)
    }

    /// Writes the len field; the other words stay as they were.
    pub fn set_len(&mut self, val: u32)
        ensures
            final(self).c0 == field_set(old(self).c0, 32, 32, val as u64),
            final(self).c1 == old(self).c1,
            final(self).c2 == old(self).c2,
            final(self).c3 == old(self).c3,
    {
        self.c0 = set_field(self.c0, 32, 32, val as u64);
    }

    /// Reads the addr field.
    pub fn addr(&self) -> (r: u64)
        ensures
            r == self.c1,
    {
        self.c1
    }

    /// Writes the addr field; the other words stay as they were.
    pub fn set_addr(&mut self, val: u64)
        ensures
            final(self).c1 == val,
            final(self).c0 == old(self).c0,
            final(self).c2 == old(self).c2,
            final(self).c3 == old(self).c3,
    {
        self.c1 = val;
    }
}

/// Descriptor by which the device reports a received frame.
#[derive(Clone, Copy, Debug)]
pub struct SimpleNicRxQueueDesc {
    /// Bytes 0 to 7, read little-endian.
    pub c0: u64,
    /// Bytes 8 to 15, read little-endian.
    pub c1: u64,
    /// Bytes 16 to 23, read little-endian.
    pub c2: u64,
    /// Bytes 24 to 31, read little-endian.
    pub c3: u64,
}

impl SimpleNicRxQueueDesc {
    /// Reads the len field.
    pub fn len(&self) -> (r: u32)
        ensures
            r as u64 == field_get(self.c0, 32, 32),
    {
        get_u32(self.c0, 32, 32)
    }

    /// Writes the len field; the other words stay as they were.
    pub fn set_len(&mut self, val: u32)
        ensures
            final(self).c0 == field_set(old(self).c0, 32, 32, val as u64),
            final(self).c1 == old(self).c1,
            final(self).c2 == old(self).c2,
            final(self).c3 == old(self).c3,
    {
        self.c0 = set_field(self.c0, 32, 32, val as u64);
    }

    /// Reads the slot idx field.
    pub fn slot_idx(&self) -> (r: u32)
        ensures
            r as u64 == field_get(self.c1, 0, 32),
    {
        get_u32(self.c1, 0, 32)
    }

    /// Writes the slot idx field; the other words stay as they were.
    pub fn set_slot_idx(&mut self, val: u32)
        ensures
            final(self).c1 == field_set(old(self).c1, 0, 32, val as u64),
            final(self).c0 == old(self).c0,
            final(self).c2 == old(self).c2,
            final(self).c3 == old(self).c3,
    {
        self.c1 = set_field(self.c1, 0, 32, val as u64);
    }
}

} // verus!
