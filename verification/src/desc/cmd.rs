//! Descriptors of the command queue, which configures the device.
use vstd::prelude::*;

use super::bits::{
    bit_of, bool_bit, field_get, field_set, get_bool, get_field, get_u16, get_u32, get_u8,
    lemma_field_get_set_other, lemma_field_get_set_same, lemma_field_get_zero,
    lemma_low_mask_values, lemma_mask_small, set_field,
};
use super::RingBufDescCommonHead;

verus! {

/// Operations of the command queue.
#[derive(Debug, PartialEq, Eq, Clone, Copy, Structural)]
pub enum CmdQueueDescOperators {
    /// Registers a memory region
    UpdateMrTable,
    /// Writes entries of the page table
    UpdatePgt,
    /// Creates, changes or removes a queue pair
    ManageQp,
    /// Sets the address of the card on the network
    SetNetworkParam,
    /// Sets where raw packets are received
    SetRawPacketReceiveMeta,
}

impl CmdQueueDescOperators {
    /// The code of the operation.
    pub open spec fn spec_value(self) -> u8 {
        match self {
            CmdQueueDescOperators::UpdateMrTable => 0x00,
            CmdQueueDescOperators::UpdatePgt => 0x01,
            CmdQueueDescOperators::ManageQp => 0x02,
            CmdQueueDescOperators::SetNetworkParam => 0x03,
            CmdQueueDescOperators::SetRawPacketReceiveMeta => 0x04,
        }
    }

    /// The code of the operation.
    pub fn value(self) -> (r: u8)
        ensures
            r == self.spec_value(),
    {
        match self {
            CmdQueueDescOperators::UpdateMrTable => 0x00,
            CmdQueueDescOperators::UpdatePgt => 0x01,
            CmdQueueDescOperators::ManageQp => 0x02,
            CmdQueueDescOperators::SetNetworkParam => 0x03,
            CmdQueueDescOperators::SetRawPacketReceiveMeta => 0x04,
        }
    }
}

/// The header that command descriptors carry after the common one.
#[derive(Clone, Copy, Debug, PartialEq, Eq, Structural)]
pub struct RingbufDescCmdQueueCommonHead {
    /// Data that the response carries back
    pub user_data: u8,
    /// The device carried the command out
    pub is_success: bool,
}

impl RingbufDescCmdQueueCommonHead {
    /// The header held in bits 16 to 31 of a descriptor's first word.
    pub open spec fn spec_decode(w: u64) -> Self {
        RingbufDescCmdQueueCommonHead {
            user_data: field_get(w, 16, 8) as u8,
            is_success: field_get(w, 24, 1) == 1,
        }
    }

    /// The word `w` with bits 16 to 31 replaced by the header, reserved bits zero.
    pub open spec fn spec_write(self, w: u64) -> u64 {
        field_set(
            field_set(field_set(w, 16, 8, self.user_data as u64), 24, 1, bool_bit(self.is_success)),
            25,
            7,
            0,
        )
    }

    /// Reads the header from a descriptor's first word.
    pub fn decode(w: u64) -> (r: Self)
        ensures
            r == Self::spec_decode(w),
    {
        RingbufDescCmdQueueCommonHead { user_data: get_u8(w, 16, 8), is_success: get_bool(w, 24) }
    }

    /// The word `w` with bits 16 to 31 replaced by the header, reserved bits zero.
    pub fn write(&self, w: u64) -> (r: u64)
        ensures
            r == self.spec_write(w),
    {
        let w1 = set_field(w, 16, 8, self.user_data as u64);
        let w2 = set_field(w1, 24, 1, bit_of(self.is_success));
        set_field(w2, 25, 7, 0)
    }

    /// A header that carries `user_data`, not yet marked successful.
    pub fn new_with_user_data(user_data: u8) -> (r: Self)
        ensures
            r.user_data == user_data,
            !r.is_success,
    {
        RingbufDescCmdQueueCommonHead { user_data, is_success: false }
    }

    /// Data that the response carries back.
    pub fn user_data(&self) -> (r: u8)
        ensures
            r == self.user_data,
    {
        self.user_data
    }

    /// Whether the device carried the command out.
    pub fn is_success(&self) -> (r: bool)
        ensures
            r == self.is_success,
    {
        self.is_success
    }
}

/// Reading back a written command header gives the header.
pub proof fn lemma_cmd_head_decode_write(h: RingbufDescCmdQueueCommonHead, w: u64)
    ensures
        RingbufDescCmdQueueCommonHead::spec_decode(h.spec_write(w)) == h,
{
    let v0 = h.user_data as u64;
    let v1 = bool_bit(h.is_success);
    let w1 = field_set(w, 16, 8, v0);
    let w2 = field_set(w1, 24, 1, v1);
    lemma_low_mask_values();
    lemma_mask_small(v0, 8);
    lemma_mask_small(v1, 1);
    lemma_field_get_set_same(w, v0, 16, 8);
    lemma_field_get_set_other(w1, v1, 24, 1, 16, 8);
    lemma_field_get_set_other(w2, 0, 25, 7, 16, 8);
    lemma_field_get_set_same(w1, v1, 24, 1);
    lemma_field_get_set_other(w2, 0, 25, 7, 24, 1);
}

/// A command header is written above the common header and leaves it as it was.
pub proof fn lemma_cmd_head_write_keeps_common(h: RingbufDescCmdQueueCommonHead, w: u64)
    ensures
        RingBufDescCommonHead::spec_decode(h.spec_write(w)) == RingBufDescCommonHead::spec_decode(w),
{
    let v0 = h.user_data as u64;
    let v1 = bool_bit(h.is_success);
    let w1 = field_set(w, 16, 8, v0);
    let w2 = field_set(w1, 24, 1, v1);
    lemma_field_get_set_other(w, v0, 16, 8, 0, 1);
    lemma_field_get_set_other(w1, v1, 24, 1, 0, 1);
    lemma_field_get_set_other(w2, 0, 25, 7, 0, 1);
    lemma_field_get_set_other(w, v0, 16, 8, 1, 1);
    lemma_field_get_set_other(w1, v1, 24, 1, 1, 1);
    lemma_field_get_set_other(w2, 0, 25, 7, 1, 1);
    lemma_field_get_set_other(w, v0, 16, 8, 8, 8);
    lemma_field_get_set_other(w1, v1, 24, 1, 8, 8);
    lemma_field_get_set_other(w2, 0, 25, 7, 8, 8);
}

/// The two headers that start every command descriptor.
#[derive(Clone, Copy, Debug, PartialEq, Eq, Structural)]
pub struct CmdQueueReqDescHeaderChunk {
    /// The header common to all descriptors
    pub common_header: RingBufDescCommonHead,
    /// The header of command descriptors
    pub cmd_queue_common_header: RingbufDescCmdQueueCommonHead,
}

impl CmdQueueReqDescHeaderChunk {
    /// Joins the two headers.
    pub fn new(
        common_header: RingBufDescCommonHead,
        cmd_queue_common_header: RingbufDescCmdQueueCommonHead,
    ) -> (r: Self)
        ensures
            r.common_header == common_header,
            r.cmd_queue_common_header == cmd_queue_common_header,
    {
        CmdQueueReqDescHeaderChunk { common_header, cmd_queue_common_header }
    }

    /// The headers held in the low 32 bits of a descriptor's first word.
    pub open spec fn spec_decode(w: u64) -> Self {
        CmdQueueReqDescHeaderChunk {
            common_header: RingBufDescCommonHead::spec_decode(w),
            cmd_queue_common_header: RingbufDescCmdQueueCommonHead::spec_decode(w),
        }
    }

    /// The word `w` with its low 32 bits replaced by the headers, reserved bits zero.
    pub open spec fn spec_write(self, w: u64) -> u64 {
        self.cmd_queue_common_header.spec_write(self.common_header.spec_write(w))
    }

    /// Reads the headers of a descriptor's first word.
    pub fn decode(w: u64) -> (r: Self)
        ensures
            r == Self::spec_decode(w),
    {
        CmdQueueReqDescHeaderChunk {
            common_header: RingBufDescCommonHead::decode(w),
            cmd_queue_common_header: RingbufDescCmdQueueCommonHead::decode(w),
        }
    }

    /// The word `w` with its low 32 bits replaced by the headers, reserved bits zero.
    pub fn write(&self, w: u64) -> (r: u64)
        ensures
            r == self.spec_write(w),
    {
        self.cmd_queue_common_header.write(self.common_header.write(w))
    }
}

/// Reading back written headers gives the headers.
pub proof fn lemma_headers_decode_write(h: CmdQueueReqDescHeaderChunk, w: u64)
    ensures
        CmdQueueReqDescHeaderChunk::spec_decode(h.spec_write(w)) == h,
{
    let w1 = h.common_header.spec_write(w);
    super::lemma_head_decode_write(h.common_header, w);
    lemma_cmd_head_write_keeps_common(h.cmd_queue_common_header, w1);
    lemma_cmd_head_decode_write(h.cmd_queue_common_header, w1);
}


/// Command that registers a memory region.
#[derive(Clone, Copy, Debug)]
pub struct CmdQueueReqDescUpdateMrTable {
    /// Bytes 0 to 7, read little-endian.
    pub c0: u64,
    /// Bytes 8 to 15, read little-endian.
    pub c1: u64,
    /// Bytes 16 to 23, read little-endian.
    pub c2: u64,
    /// Bytes 24 to 31, read little-endian.
    pub c3: u64,
}

impl CmdQueueReqDescUpdateMrTable {
    /// Builds the command that registers the region at `mr_base_va` of `mr_length` bytes under `mr_key`, whose page table entries start at `pgt_offset`.
    pub fn new(user_data: u8, mr_base_va: u64, mr_length: u32, mr_key: u32, pd_handler: u32, acc_flags: u8, pgt_offset: u32) -> (r: Self)
        requires
            pgt_offset < 0x2_0000,
        ensures
            field_get(r.c0, 0, 1) == 1,
            field_get(r.c0, 1, 1) == 0,
            field_get(r.c0, 2, 6) == 0,
            field_get(r.c0, 8, 8) == CmdQueueDescOperators::UpdateMrTable.spec_value() as u64,
            field_get(r.c0, 16, 8) == user_data as u64,
            field_get(r.c0, 24, 1) == 0,
            field_get(r.c0, 25, 7) == 0,
            field_get(r.c0, 32, 32) == 0,
            r.c1 == mr_base_va,
            field_get(r.c2, 0, 32) == mr_length as u64,
            field_get(r.c2, 32, 32) == mr_key as u64,
            field_get(r.c3, 0, 32) == pd_handler as u64,
            field_get(r.c3, 32, 8) == acc_flags as u64,
            field_get(r.c3, 40, 17) == pgt_offset as u64,
            field_get(r.c3, 57, 7) == 0,
    {
        let head = RingBufDescCommonHead::new_cmd_desc(CmdQueueDescOperators::UpdateMrTable);
        let c0_1: u64 = set_field(0, 0, 1, bit_of(head.valid));
        let c0_2: u64 = set_field(c0_1, 1, 1, bit_of(head.has_next));
        let c0_3: u64 = set_field(c0_2, 8, 8, head.op_code as u64);
        let c0_4: u64 = set_field(c0_3, 16, 8, user_data as u64);
        let c0: u64 = c0_4;
        let c1: u64 = mr_base_va;
        let c2_1: u64 = set_field(0, 0, 32, mr_length as u64);
        let c2_2: u64 = set_field(c2_1, 32, 32, mr_key as u64);
        let c2: u64 = c2_2;
        let c3_1: u64 = set_field(0, 0, 32, pd_handler as u64);
        let c3_2: u64 = set_field(c3_1, 32, 8, acc_flags as u64);
        let c3_3: u64 = set_field(c3_2, 40, 17, pgt_offset as u64);
        let c3: u64 = c3_3;
        proof {
            lemma_low_mask_values();
            lemma_field_get_set_same(0, 1, 0, 1);
            lemma_mask_small(1, 1);
            lemma_field_get_set_other(c0_1, 0, 1, 1, 0, 1);
            lemma_field_get_set_other(c0_2, CmdQueueDescOperators::UpdateMrTable.spec_value() as u64, 8, 8, 0, 1);
            lemma_field_get_set_other(c0_3, user_data as u64, 16, 8, 0, 1);
            lemma_field_get_set_same(c0_1, 0, 1, 1);
            lemma_mask_small(0, 1);
            lemma_field_get_set_other(c0_2, CmdQueueDescOperators::UpdateMrTable.spec_value() as u64, 8, 8, 1, 1);
            lemma_field_get_set_other(c0_3, user_data as u64, 16, 8, 1, 1);
            lemma_field_get_zero(2, 6);
            lemma_field_get_set_other(0, 1, 0, 1, 2, 6);
            lemma_field_get_set_other(c0_1, 0, 1, 1, 2, 6);
            lemma_field_get_set_other(c0_2, CmdQueueDescOperators::UpdateMrTable.spec_value() as u64, 8, 8, 2, 6);
            lemma_field_get_set_other(c0_3, user_data as u64, 16, 8, 2, 6);
            lemma_field_get_set_same(c0_2, CmdQueueDescOperators::UpdateMrTable.spec_value() as u64, 8, 8);
            lemma_mask_small(CmdQueueDescOperators::UpdateMrTable.spec_value() as u64, 8);
            lemma_field_get_set_other(c0_3, user_data as u64, 16, 8, 8, 8);
            lemma_field_get_set_same(c0_3, user_data as u64, 16, 8);
            lemma_mask_small(user_data as u64, 8);
            lemma_field_get_zero(24, 1);
            lemma_field_get_set_other(0, 1, 0, 1, 24, 1);
            lemma_field_get_set_other(c0_1, 0, 1, 1, 24, 1);
            lemma_field_get_set_other(c0_2, CmdQueueDescOperators::UpdateMrTable.spec_value() as u64, 8, 8, 24, 1);
            lemma_field_get_set_other(c0_3, user_data as u64, 16, 8, 24, 1);
            lemma_field_get_zero(25, 7);
            lemma_field_get_set_other(0, 1, 0, 1, 25, 7);
            lemma_field_get_set_other(c0_1, 0, 1, 1, 25, 7);
            lemma_field_get_set_other(c0_2, CmdQueueDescOperators::UpdateMrTable.spec_value() as u64, 8, 8, 25, 7);
            lemma_field_get_set_other(c0_3, user_data as u64, 16, 8, 25, 7);
            lemma_field_get_zero(32, 32);
            lemma_field_get_set_other(0, 1, 0, 1, 32, 32);
            lemma_field_get_set_other(c0_1, 0, 1, 1, 32, 32);
            lemma_field_get_set_other(c0_2, CmdQueueDescOperators::UpdateMrTable.spec_value() as u64, 8, 8, 32, 32);
            lemma_field_get_set_other(c0_3, user_data as u64, 16, 8, 32, 32);
            lemma_field_get_set_same(0, mr_length as u64, 0, 32);
            lemma_mask_small(mr_length as u64, 32);
            lemma_field_get_set_other(c2_1, mr_key as u64, 32, 32, 0, 32);
            lemma_field_get_set_same(c2_1, mr_key as u64, 32, 32);
            lemma_mask_small(mr_key as u64, 32);
            lemma_field_get_set_same(0, pd_handler as u64, 0, 32);
            lemma_mask_small(pd_handler as u64, 32);
            lemma_field_get_set_other(c3_1, acc_flags as u64, 32, 8, 0, 32);
            lemma_field_get_set_other(c3_2, pgt_offset as u64, 40, 17, 0, 32);
            lemma_field_get_set_same(c3_1, acc_flags as u64, 32, 8);
            lemma_mask_small(acc_flags as u64, 8);
            lemma_field_get_set_other(c3_2, pgt_offset as u64, 40, 17, 32, 8);
            lemma_field_get_set_same(c3_2, pgt_offset as u64, 40, 17);
            lemma_mask_small(pgt_offset as u64, 17);
            lemma_field_get_zero(57, 7);
            lemma_field_get_set_other(0, pd_handler as u64, 0, 32, 57, 7);
            lemma_field_get_set_other(c3_1, acc_flags as u64, 32, 8, 57, 7);
            lemma_field_get_set_other(c3_2, pgt_offset as u64, 40, 17, 57, 7);
        }
        Self { c0: c0, c1: c1, c2: c2, c3: c3 }
    }

    /// Reads the two headers.
    pub fn headers(&self) -> (r: CmdQueueReqDescHeaderChunk)
        ensures
            r == CmdQueueReqDescHeaderChunk::spec_decode(self.c0),
    {
        CmdQueueReqDescHeaderChunk::decode(self.c0)
    }

    /// Writes the two headers; their reserved bits become zero.
    pub fn set_headers(&mut self, headers: CmdQueueReqDescHeaderChunk)
        ensures
            final(self).c0 == headers.spec_write(old(self).c0),
            final(self).c1 == old(self).c1,
            final(self).c2 == old(self).c2,
            final(self).c3 == old(self).c3,
    {
        self.c0 = headers.write(self.c0);
    }

    /// Reads the mr base va field.
    pub fn mr_base_va(&self) -> (r: u64)
        ensures
            r == self.c1,
    {
        self.c1
    }

    /// Writes the mr base va field; the other words stay as they were.
    pub fn set_mr_base_va(&mut self, val: u64)
        ensures
            final(self).c1 == val,
            final(self).c0 == old(self).c0,
            final(self).c2 == old(self).c2,
            final(self).c3 == old(self).c3,
    {
        self.c1 = val;
    }

    /// Reads the mr length field.
    pub fn mr_length(&self) -> (r: u32)
        ensures
            r as u64 == field_get(self.c2, 0, 32),
    {
        get_u32(self.c2, 0, 32)
    }

    /// Writes the mr length field; the other words stay as they were.
    pub fn set_mr_length(&mut self, val: u32)
        ensures
            final(self).c2 == field_set(old(self).c2, 0, 32, val as u64),
            final(self).c0 == old(self).c0,
            final(self).c1 == old(self).c1,
            final(self).c3 == old(self).c3,
    {
        self.c2 = set_field(self.c2, 0, 32, val as u64);
    }

    /// Reads the mr key field.
    pub fn mr_key(&self) -> (r: u32)
        ensures
            r as u64 == field_get(self.c2, 32, 32),
    {
        get_u32(self.c2, 32, 32)
    }

    /// Writes the mr key field; the other words stay as they were.
    pub fn set_mr_key(&mut self, val: u32)
        ensures
            final(self).c2 == field_set(old(self).c2, 32, 32, val as u64),
            final(self).c0 == old(self).c0,
            final(self).c1 == old(self).c1,
            final(self).c3 == old(self).c3,
    {
        self.c2 = set_field(self.c2, 32, 32, val as u64);
    }

    /// Reads the acc flags field.
    pub fn acc_flags(&self) -> (r: u8)
        ensures
            r as u64 == field_get(self.c3, 32, 8),
    {
        get_u8(self.c3, 32, 8)
    }

    /// Writes the acc flags field; the other words stay as they were.
    pub fn set_acc_flags(&mut self, val: u8)
        ensures
            final(self).c3 == field_set(old(self).c3, 32, 8, val as u64),
            final(self).c0 == old(self).c0,
            final(self).c1 == old(self).c1,
            final(self).c2 == old(self).c2,
    {
        self.c3 = set_field(self.c3, 32, 8, val as u64);
    }

    /// Reads the pgt offset field.
    pub fn pgt_offset(&self) -> (r: u32)
        ensures
            r as u64 == field_get(self.c3, 40, 17),
    {
        get_u32(self.c3, 40, 17)
    }

    /// Writes the pgt offset field; the other words stay as they were.
    pub fn set_pgt_offset(&mut self, val: u32)
        ensures
            final(self).c3 == field_set(old(self).c3, 40, 17, val as u64),
            final(self).c0 == old(self).c0,
            final(self).c1 == old(self).c1,
            final(self).c2 == old(self).c2,
    {
        self.c3 = set_field(self.c3, 40, 17, val as u64);
    }
}

/// Command that copies page table entries from host memory into the device.
#[derive(Clone, Copy, Debug)]
pub struct CmdQueueReqDescUpdatePGT {
    /// Bytes 0 to 7, read little-endian.
    pub c0: u64,
    /// Bytes 8 to 15, read little-endian.
    pub c1: u64,
    /// Bytes 16 to 23, read little-endian.
    pub c2: u64,
    /// Bytes 24 to 31, read little-endian.
    pub c3: u64,
}

impl CmdQueueReqDescUpdatePGT {
    /// Builds the command that copies `zero_based_entry_count + 1` entries at `dma_addr` into the page table from `start_index` on.
    pub fn new(user_data: u8, dma_addr: u64, start_index: u32, zero_based_entry_count: u32) -> (r: Self)
        ensures
            field_get(r.c0, 0, 1) == 1,
            field_get(r.c0, 1, 1) == 0,
            field_get(r.c0, 2, 6) == 0,
            field_get(r.c0, 8, 8) == CmdQueueDescOperators::UpdatePgt.spec_value() as u64,
            field_get(r.c0, 16, 8) == user_data as u64,
            field_get(r.c0, 24, 1) == 0,
            field_get(r.c0, 25, 7) == 0,
            field_get(r.c0, 32, 32) == 0,
            r.c1 == dma_addr,
            field_get(r.c2, 0, 32) == start_index as u64,
            field_get(r.c2, 32, 32) == zero_based_entry_count as u64,
            r.c3 == 0,
    {
        let head = RingBufDescCommonHead::new_cmd_desc(CmdQueueDescOperators::UpdatePgt);
        let c0_1: u64 = set_field(0, 0, 1, bit_of(head.valid));
        let c0_2: u64 = set_field(c0_1, 1, 1, bit_of(head.has_next));
        let c0_3: u64 = set_field(c0_2, 8, 8, head.op_code as u64);
        let c0_4: u64 = set_field(c0_3, 16, 8, user_data as u64);
        let c0: u64 = c0_4;
        let c1: u64 = dma_addr;
        let c2_1: u64 = set_field(0, 0, 32, start_index as u64);
        let c2_2: u64 = set_field(c2_1, 32, 32, zero_based_entry_count as u64);
        let c2: u64 = c2_2;
        let c3: u64 = 0;
        proof {
            lemma_low_mask_values();
            lemma_field_get_set_same(0, 1, 0, 1);
            lemma_mask_small(1, 1);
            lemma_field_get_set_other(c0_1, 0, 1, 1, 0, 1);
            lemma_field_get_set_other(c0_2, CmdQueueDescOperators::UpdatePgt.spec_value() as u64, 8, 8, 0, 1);
            lemma_field_get_set_other(c0_3, user_data as u64, 16, 8, 0, 1);
            lemma_field_get_set_same(c0_1, 0, 1, 1);
            lemma_mask_small(0, 1);
            lemma_field_get_set_other(c0_2, CmdQueueDescOperators::UpdatePgt.spec_value() as u64, 8, 8, 1, 1);
            lemma_field_get_set_other(c0_3, user_data as u64, 16, 8, 1, 1);
            lemma_field_get_zero(2, 6);
            lemma_field_get_set_other(0, 1, 0, 1, 2, 6);
            lemma_field_get_set_other(c0_1, 0, 1, 1, 2, 6);
            lemma_field_get_set_other(c0_2, CmdQueueDescOperators::UpdatePgt.spec_value() as u64, 8, 8, 2, 6);
            lemma_field_get_set_other(c0_3, user_data as u64, 16, 8, 2, 6);
            lemma_field_get_set_same(c0_2, CmdQueueDescOperators::UpdatePgt.spec_value() as u64, 8, 8);
            lemma_mask_small(CmdQueueDescOperators::UpdatePgt.spec_value() as u64, 8);
            lemma_field_get_set_other(c0_3, user_data as u64, 16, 8, 8, 8);
            lemma_field_get_set_same(c0_3, user_data as u64, 16, 8);
            lemma_mask_small(user_data as u64, 8);
            lemma_field_get_zero(24, 1);
            lemma_field_get_set_other(0, 1, 0, 1, 24, 1);
            lemma_field_get_set_other(c0_1, 0, 1, 1, 24, 1);
            lemma_field_get_set_other(c0_2, CmdQueueDescOperators::UpdatePgt.spec_value() as u64, 8, 8, 24, 1);
            lemma_field_get_set_other(c0_3, user_data as u64, 16, 8, 24, 1);
            lemma_field_get_zero(25, 7);
            lemma_field_get_set_other(0, 1, 0, 1, 25, 7);
            lemma_field_get_set_other(c0_1, 0, 1, 1, 25, 7);
            lemma_field_get_set_other(c0_2, CmdQueueDescOperators::UpdatePgt.spec_value() as u64, 8, 8, 25, 7);
            lemma_field_get_set_other(c0_3, user_data as u64, 16, 8, 25, 7);
            lemma_field_get_zero(32, 32);
            lemma_field_get_set_other(0, 1, 0, 1, 32, 32);
            lemma_field_get_set_other(c0_1, 0, 1, 1, 32, 32);
            lemma_field_get_set_other(c0_2, CmdQueueDescOperators::UpdatePgt.spec_value() as u64, 8, 8, 32, 32);
            lemma_field_get_set_other(c0_3, user_data as u64, 16, 8, 32, 32);
            lemma_field_get_set_same(0, start_index as u64, 0, 32);
            lemma_mask_small(start_index as u64, 32);
            lemma_field_get_set_other(c2_1, zero_based_entry_count as u64, 32, 32, 0, 32);
            lemma_field_get_set_same(c2_1, zero_based_entry_count as u64, 32, 32);
            lemma_mask_small(zero_based_entry_count as u64, 32);
        }
        Self { c0: c0, c1: c1, c2: c2, c3: c3 }
    }

    /// Reads the two headers.
    pub fn headers(&self) -> (r: CmdQueueReqDescHeaderChunk)
        ensures
            r == CmdQueueReqDescHeaderChunk::spec_decode(self.c0),
    {
        CmdQueueReqDescHeaderChunk::decode(self.c0)
    }

    /// Writes the two headers; their reserved bits become zero.
    pub fn set_headers(&mut self, headers: CmdQueueReqDescHeaderChunk)
        ensures
            final(self).c0 == headers.spec_write(old(self).c0),
            final(self).c1 == old(self).c1,
            final(self).c2 == old(self).c2,
            final(self).c3 == old(self).c3,
    {
        self.c0 = headers.write(self.c0);
    }

    /// Reads the dma addr field.
    pub fn dma_addr(&self) -> (r: u64)
        ensures
            r == self.c1,
    {
        self.c1
    }

    /// Writes the dma addr field; the other words stay as they were.
    pub fn set_dma_addr(&mut self, val: u64)
        ensures
            final(self).c1 == val,
            final(self).c0 == old(self).c0,
            final(self).c2 == old(self).c2,
            final(self).c3 == old(self).c3,
    {
        self.c1 = val;
    }

    /// Reads the start index field.
    pub fn start_index(&self) -> (r: u32)
        ensures
            r as u64 == field_get(self.c2, 0, 32),
    {
        get_u32(self.c2, 0, 32)
    }

    /// Writes the start index field; the other words stay as they were.
    pub fn set_start_index(&mut self, val: u32)
        ensures
            final(self).c2 == field_set(old(self).c2, 0, 32, val as u64),
            final(self).c0 == old(self).c0,
            final(self).c1 == old(self).c1,
            final(self).c3 == old(self).c3,
    {
        self.c2 = set_field(self.c2, 0, 32, val as u64);
    }

    /// Reads the zero based entry count field.
    pub fn zero_based_entry_count(&self) -> (r: u32)
        ensures
            r as u64 == field_get(self.c2, 32, 32),
    {
        get_u32(self.c2, 32, 32)
    }

    /// Writes the zero based entry count field; the other words stay as they were.
    pub fn set_zero_based_entry_count(&mut self, val: u32)
        ensures
            final(self).c2 == field_set(old(self).c2, 32, 32, val as u64),
            final(self).c0 == old(self).c0,
            final(self).c1 == old(self).c1,
            final(self).c3 == old(self).c3,
    {
        self.c2 = set_field(self.c2, 32, 32, val as u64);
    }
}

/// Command that creates, changes or removes a queue pair.
#[derive(Clone, Copy, Debug)]
pub struct CmdQueueReqDescQpManagement {
    /// Bytes 0 to 7, read little-endian.
    pub c0: u64,
    /// Bytes 8 to 15, read little-endian.
    pub c1: u64,
    /// Bytes 16 to 23, read little-endian.
    pub c2: u64,
    /// Bytes 24 to 31, read little-endian.
    pub c3: u64,
}

impl CmdQueueReqDescQpManagement {
    /// Builds the command that writes the entry of queue pair `qpn`. The `is_error` argument lands in the valid bit and `is_valid` in the error bit.
    pub fn new(user_data: u8, ip_addr: u32, qpn: u32, is_error: bool, is_valid: bool, peer_qpn: u32, rq_access_flags: u8, qp_type: u8, pmtu: u8, local_udp_port: u16, peer_mac_addr: u64) -> (r: Self)
        ensures
            field_get(r.c0, 0, 1) == 1,
            field_get(r.c0, 1, 1) == 0,
            field_get(r.c0, 2, 6) == 0,
            field_get(r.c0, 8, 8) == CmdQueueDescOperators::ManageQp.spec_value() as u64,
            field_get(r.c0, 16, 8) == user_data as u64,
            field_get(r.c0, 24, 1) == 0,
            field_get(r.c0, 25, 7) == 0,
            field_get(r.c0, 32, 32) == ip_addr as u64,
            field_get(r.c1, 0, 1) == bool_bit(is_error),
            field_get(r.c1, 1, 1) == bool_bit(is_valid),
            field_get(r.c1, 2, 6) == 0,
            field_get(r.c1, 8, 24) == qpn as u64 & 0xff_ffff,
            field_get(r.c1, 32, 32) == 0,
            field_get(r.c2, 0, 24) == peer_qpn as u64 & 0xff_ffff,
            field_get(r.c2, 24, 8) == rq_access_flags as u64,
            field_get(r.c2, 32, 4) == qp_type as u64 & 0xf,
            field_get(r.c2, 36, 4) == 0,
            field_get(r.c2, 40, 3) == pmtu as u64 & 0x7,
            field_get(r.c2, 43, 5) == 0,
            field_get(r.c2, 48, 16) == 0,
            field_get(r.c3, 0, 16) == local_udp_port as u64,
            field_get(r.c3, 16, 48) == peer_mac_addr & 0xffff_ffff_ffff,
    {
        let head = RingBufDescCommonHead::new_cmd_desc(CmdQueueDescOperators::ManageQp);
        let c0_1: u64 = set_field(0, 0, 1, bit_of(head.valid));
        let c0_2: u64 = set_field(c0_1, 1, 1, bit_of(head.has_next));
        let c0_3: u64 = set_field(c0_2, 8, 8, head.op_code as u64);
        let c0_4: u64 = set_field(c0_3, 16, 8, user_data as u64);
        let c0_5: u64 = set_field(c0_4, 32, 32, ip_addr as u64);
        let c0: u64 = c0_5;
        let c1_1: u64 = set_field(0, 0, 1, bit_of(is_error));
        let c1_2: u64 = set_field(c1_1, 1, 1, bit_of(is_valid));
        let c1_3: u64 = set_field(c1_2, 8, 24, qpn as u64);
        let c1: u64 = c1_3;
        let c2_1: u64 = set_field(0, 0, 24, peer_qpn as u64);
        let c2_2: u64 = set_field(c2_1, 24, 8, rq_access_flags as u64);
        let c2_3: u64 = set_field(c2_2, 32, 4, qp_type as u64);
        let c2_4: u64 = set_field(c2_3, 40, 3, pmtu as u64);
        let c2: u64 = c2_4;
        let c3_1: u64 = set_field(0, 0, 16, local_udp_port as u64);
        let c3_2: u64 = set_field(c3_1, 16, 48, peer_mac_addr);
        let c3: u64 = c3_2;
        proof {
            lemma_low_mask_values();
            lemma_field_get_set_same(0, 1, 0, 1);
            lemma_mask_small(1, 1);
            lemma_field_get_set_other(c0_1, 0, 1, 1, 0, 1);
            lemma_field_get_set_other(c0_2, CmdQueueDescOperators::ManageQp.spec_value() as u64, 8, 8, 0, 1);
            lemma_field_get_set_other(c0_3, user_data as u64, 16, 8, 0, 1);
            lemma_field_get_set_other(c0_4, ip_addr as u64, 32, 32, 0, 1);
            lemma_field_get_set_same(c0_1, 0, 1, 1);
            lemma_mask_small(0, 1);
            lemma_field_get_set_other(c0_2, CmdQueueDescOperators::ManageQp.spec_value() as u64, 8, 8, 1, 1);
            lemma_field_get_set_other(c0_3, user_data as u64, 16, 8, 1, 1);
            lemma_field_get_set_other(c0_4, ip_addr as u64, 32, 32, 1, 1);
            lemma_field_get_zero(2, 6);
            lemma_field_get_set_other(0, 1, 0, 1, 2, 6);
            lemma_field_get_set_other(c0_1, 0, 1, 1, 2, 6);
            lemma_field_get_set_other(c0_2, CmdQueueDescOperators::ManageQp.spec_value() as u64, 8, 8, 2, 6);
            lemma_field_get_set_other(c0_3, user_data as u64, 16, 8, 2, 6);
            lemma_field_get_set_other(c0_4, ip_addr as u64, 32, 32, 2, 6);
            lemma_field_get_set_same(c0_2, CmdQueueDescOperators::ManageQp.spec_value() as u64, 8, 8);
            lemma_mask_small(CmdQueueDescOperators::ManageQp.spec_value() as u64, 8);
            lemma_field_get_set_other(c0_3, user_data as u64, 16, 8, 8, 8);
            lemma_field_get_set_other(c0_4, ip_addr as u64, 32, 32, 8, 8);
            lemma_field_get_set_same(c0_3, user_data as u64, 16, 8);
            lemma_mask_small(user_data as u64, 8);
            lemma_field_get_set_other(c0_4, ip_addr as u64, 32, 32, 16, 8);
            lemma_field_get_zero(24, 1);
            lemma_field_get_set_other(0, 1, 0, 1, 24, 1);
            lemma_field_get_set_other(c0_1, 0, 1, 1, 24, 1);
            lemma_field_get_set_other(c0_2, CmdQueueDescOperators::ManageQp.spec_value() as u64, 8, 8, 24, 1);
            lemma_field_get_set_other(c0_3, user_data as u64, 16, 8, 24, 1);
            lemma_field_get_set_other(c0_4, ip_addr as u64, 32, 32, 24, 1);
            lemma_field_get_zero(25, 7);
            lemma_field_get_set_other(0, 1, 0, 1, 25, 7);
            lemma_field_get_set_other(c0_1, 0, 1, 1, 25, 7);
            lemma_field_get_set_other(c0_2, CmdQueueDescOperators::ManageQp.spec_value() as u64, 8, 8, 25, 7);
            lemma_field_get_set_other(c0_3, user_data as u64, 16, 8, 25, 7);
            lemma_field_get_set_other(c0_4, ip_addr as u64, 32, 32, 25, 7);
            lemma_field_get_set_same(c0_4, ip_addr as u64, 32, 32);
            lemma_mask_small(ip_addr as u64, 32);
            lemma_field_get_set_same(0, bool_bit(is_error), 0, 1);
            lemma_mask_small(bool_bit(is_error), 1);
            lemma_field_get_set_other(c1_1, bool_bit(is_valid), 1, 1, 0, 1);
            lemma_field_get_set_other(c1_2, qpn as u64, 8, 24, 0, 1);
            lemma_field_get_set_same(c1_1, bool_bit(is_valid), 1, 1);
            lemma_mask_small(bool_bit(is_valid), 1);
            lemma_field_get_set_other(c1_2, qpn as u64, 8, 24, 1, 1);
            lemma_field_get_zero(2, 6);
            lemma_field_get_set_other(0, bool_bit(is_error), 0, 1, 2, 6);
            lemma_field_get_set_other(c1_1, bool_bit(is_valid), 1, 1, 2, 6);
            lemma_field_get_set_other(c1_2, qpn as u64, 8, 24, 2, 6);
            lemma_field_get_set_same(c1_2, qpn as u64, 8, 24);
            lemma_field_get_zero(32, 32);
            lemma_field_get_set_other(0, bool_bit(is_error), 0, 1, 32, 32);
            lemma_field_get_set_other(c1_1, bool_bit(is_valid), 1, 1, 32, 32);
            lemma_field_get_set_other(c1_2, qpn as u64, 8, 24, 32, 32);
            lemma_field_get_set_same(0, peer_qpn as u64, 0, 24);
            lemma_field_get_set_other(c2_1, rq_access_flags as u64, 24, 8, 0, 24);
            lemma_field_get_set_other(c2_2, qp_type as u64, 32, 4, 0, 24);
            lemma_field_get_set_other(c2_3, pmtu as u64, 40, 3, 0, 24);
            lemma_field_get_set_same(c2_1, rq_access_flags as u64, 24, 8);
            lemma_mask_small(rq_access_flags as u64, 8);
            lemma_field_get_set_other(c2_2, qp_type as u64, 32, 4, 24, 8);
            lemma_field_get_set_other(c2_3, pmtu as u64, 40, 3, 24, 8);
            lemma_field_get_set_same(c2_2, qp_type as u64, 32, 4);
            lemma_field_get_set_other(c2_3, pmtu as u64, 40, 3, 32, 4);
            lemma_field_get_zero(36, 4);
            lemma_field_get_set_other(0, peer_qpn as u64, 0, 24, 36, 4);
            lemma_field_get_set_other(c2_1, rq_access_flags as u64, 24, 8, 36, 4);
            lemma_field_get_set_other(c2_2, qp_type as u64, 32, 4, 36, 4);
            lemma_field_get_set_other(c2_3, pmtu as u64, 40, 3, 36, 4);
            lemma_field_get_set_same(c2_3, pmtu as u64, 40, 3);
            lemma_field_get_zero(43, 5);
            lemma_field_get_set_other(0, peer_qpn as u64, 0, 24, 43, 5);
            lemma_field_get_set_other(c2_1, rq_access_flags as u64, 24, 8, 43, 5);
            lemma_field_get_set_other(c2_2, qp_type as u64, 32, 4, 43, 5);
            lemma_field_get_set_other(c2_3, pmtu as u64, 40, 3, 43, 5);
            lemma_field_get_zero(48, 16);
            lemma_field_get_set_other(0, peer_qpn as u64, 0, 24, 48, 16);
            lemma_field_get_set_other(c2_1, rq_access_flags as u64, 24, 8, 48, 16);
            lemma_field_get_set_other(c2_2, qp_type as u64, 32, 4, 48, 16);
            lemma_field_get_set_other(c2_3, pmtu as u64, 40, 3, 48, 16);
            lemma_field_get_set_same(0, local_udp_port as u64, 0, 16);
            lemma_mask_small(local_udp_port as u64, 16);
            lemma_field_get_set_other(c3_1, peer_mac_addr, 16, 48, 0, 16);
            lemma_field_get_set_same(c3_1, peer_mac_addr, 16, 48);
        }
        Self { c0: c0, c1: c1, c2: c2, c3: c3 }
    }

    /// Reads the command header.
    pub fn cmd_queue_common_header(&self) -> (r: RingbufDescCmdQueueCommonHead)
        ensures
            r == RingbufDescCmdQueueCommonHead::spec_decode(self.c0),
    {
        RingbufDescCmdQueueCommonHead::decode(self.c0)
    }

    /// Writes the command header; its reserved bits become zero.
    pub fn set_cmd_queue_common_header(&mut self, val: RingbufDescCmdQueueCommonHead)
        ensures
            final(self).c0 == val.spec_write(old(self).c0),
            final(self).c1 == old(self).c1,
            final(self).c2 == old(self).c2,
            final(self).c3 == old(self).c3,
    {
        self.c0 = val.write(self.c0);
    }

    /// Reads the ip addr field.
    pub fn ip_addr(&self) -> (r: u32)
        ensures
            r as u64 == field_get(self.c0, 32, 32),
    {
        get_u32(self.c0, 32, 32)
    }

    /// Writes the ip addr field; the other words stay as they were.
    pub fn set_ip_addr(&mut self, val: u32)
        ensures
            final(self).c0 == field_set(old(self).c0, 32, 32, val as u64),
            final(self).c1 == old(self).c1,
            final(self).c2 == old(self).c2,
            final(self).c3 == old(self).c3,
    {
        self.c0 = set_field(self.c0, 32, 32, val as u64);
    }

    /// Reads the is valid field.
    pub fn is_valid(&self) -> (r: bool)
        ensures
            r == (field_get(self.c1, 0, 1) == 1),
    {
        get_bool(self.c1, 0)
    }

    /// Writes the is valid field; the other words stay as they were.
    pub fn set_is_valid(&mut self, val: bool)
        ensures
            final(self).c1 == field_set(old(self).c1, 0, 1, bool_bit(val)),
            final(self).c0 == old(self).c0,
            final(self).c2 == old(self).c2,
            final(self).c3 == old(self).c3,
    {
        self.c1 = set_field(self.c1, 0, 1, bit_of(val));
    }

    /// Reads the is error field.
    pub fn is_error(&self) -> (r: bool)
        ensures
            r == (field_get(self.c1, 1, 1) == 1),
    {
        get_bool(self.c1, 1)
    }

    /// Writes the is error field; the other words stay as they were.
    pub fn set_is_error(&mut self, val: bool)
        ensures
            final(self).c1 == field_set(old(self).c1, 1, 1, bool_bit(val)),
            final(self).c0 == old(self).c0,
            final(self).c2 == old(self).c2,
            final(self).c3 == old(self).c3,
    {
        self.c1 = set_field(self.c1, 1, 1, bit_of(val));
    }

    /// Reads the qpn field.
    pub fn qpn(&self) -> (r: u32)
        ensures
            r as u64 == field_get(self.c1, 8, 24),
    {
        get_u32(self.c1, 8, 24)
    }

    /// Writes the qpn field; the other words stay as they were.
    pub fn set_qpn(&mut self, val: u32)
        ensures
            final(self).c1 == field_set(old(self).c1, 8, 24, val as u64),
            final(self).c0 == old(self).c0,
            final(self).c2 == old(self).c2,
            final(self).c3 == old(self).c3,
    {
        self.c1 = set_field(self.c1, 8, 24, val as u64);
    }

    /// Reads the peer qpn field.
    pub fn peer_qpn(&self) -> (r: u32)
        ensures
            r as u64 == field_get(self.c2, 0, 24),
    {
        get_u32(self.c2, 0, 24)
    }

    /// Writes the peer qpn field; the other words stay as they were.
    pub fn set_peer_qpn(&mut self, val: u32)
        ensures
            final(self).c2 == field_set(old(self).c2, 0, 24, val as u64),
            final(self).c0 == old(self).c0,
            final(self).c1 == old(self).c1,
            final(self).c3 == old(self).c3,
    {
        self.c2 = set_field(self.c2, 0, 24, val as u64);
    }

    /// Reads the rq access flags field.
    pub fn rq_access_flags(&self) -> (r: u8)
        ensures
            r as u64 == field_get(self.c2, 24, 8),
    {
        get_u8(self.c2, 24, 8)
    }

    /// Writes the rq access flags field; the other words stay as they were.
    pub fn set_rq_access_flags(&mut self, val: u8)
        ensures
            final(self).c2 == field_set(old(self).c2, 24, 8, val as u64),
            final(self).c0 == old(self).c0,
            final(self).c1 == old(self).c1,
            final(self).c3 == old(self).c3,
    {
        self.c2 = set_field(self.c2, 24, 8, val as u64);
    }

    /// Reads the qp type field.
    pub fn qp_type(&self) -> (r: u8)
        ensures
            r as u64 == field_get(self.c2, 32, 4),
    {
        get_u8(self.c2, 32, 4)
    }

    /// Writes the qp type field; the other words stay as they were.
    pub fn set_qp_type(&mut self, val: u8)
        ensures
            final(self).c2 == field_set(old(self).c2, 32, 4, val as u64),
            final(self).c0 == old(self).c0,
            final(self).c1 == old(self).c1,
            final(self).c3 == old(self).c3,
    {
        self.c2 = set_field(self.c2, 32, 4, val as u64);
    }

    /// Reads the pmtu field.
    pub fn pmtu(&self) -> (r: u8)
        ensures
            r as u64 == field_get(self.c2, 40, 3),
    {
        get_u8(self.c2, 40, 3)
    }

    /// Writes the pmtu field; the other words stay as they were.
    pub fn set_pmtu(&mut self, val: u8)
        ensures
            final(self).c2 == field_set(old(self).c2, 40, 3, val as u64),
            final(self).c0 == old(self).c0,
            final(self).c1 == old(self).c1,
            final(self).c3 == old(self).c3,
    {
        self.c2 = set_field(self.c2, 40, 3, val as u64);
    }

    /// Reads the local udp port field.
    pub fn local_udp_port(&self) -> (r: u16)
        ensures
            r as u64 == field_get(self.c3, 0, 16),
    {
        get_u16(self.c3, 0, 16)
    }

    /// Writes the local udp port field; the other words stay as they were.
    pub fn set_local_udp_port(&mut self, val: u16)
        ensures
            final(self).c3 == field_set(old(self).c3, 0, 16, val as u64),
            final(self).c0 == old(self).c0,
            final(self).c1 == old(self).c1,
            final(self).c2 == old(self).c2,
    {
        self.c3 = set_field(self.c3, 0, 16, val as u64);
    }

    /// Reads the peer mac addr field.
    pub fn peer_mac_addr(&self) -> (r: u64)
        ensures
            r == field_get(self.c3, 16, 48),
    {
        get_field(self.c3, 16, 48)
    }

    /// Writes the peer mac addr field; the other words stay as they were.
    pub fn set_peer_mac_addr(&mut self, val: u64)
        ensures
            final(self).c3 == field_set(old(self).c3, 16, 48, val as u64),
            final(self).c0 == old(self).c0,
            final(self).c1 == old(self).c1,
            final(self).c2 == old(self).c2,
    {
        self.c3 = set_field(self.c3, 16, 48, val as u64);
    }
}

/// Command that sets the address of the card on the network.
#[derive(Clone, Copy, Debug)]
pub struct CmdQueueReqDescSetNetworkParam {
    /// Bytes 0 to 7, read little-endian.
    pub c0: u64,
    /// Bytes 8 to 15, read little-endian.
    pub c1: u64,
    /// Bytes 16 to 23, read little-endian.
    pub c2: u64,
    /// Bytes 24 to 31, read little-endian.
    pub c3: u64,
}

impl CmdQueueReqDescSetNetworkParam {
    /// Builds the command that sets the gateway, netmask, address and MAC address of the card.
    pub fn new(user_data: u8, gateway: u32, netmask: u32, ip_addr: u32, mac_addr: u64) -> (r: Self)
        ensures
            field_get(r.c0, 0, 1) == 1,
            field_get(r.c0, 1, 1) == 0,
            field_get(r.c0, 2, 6) == 0,
            field_get(r.c0, 8, 8) == CmdQueueDescOperators::SetNetworkParam.spec_value() as u64,
            field_get(r.c0, 16, 8) == user_data as u64,
            field_get(r.c0, 24, 1) == 0,
            field_get(r.c0, 25, 7) == 0,
            field_get(r.c0, 32, 32) == 0,
            field_get(r.c1, 0, 32) == gateway as u64,
            field_get(r.c1, 32, 32) == netmask as u64,
            field_get(r.c2, 0, 32) == ip_addr as u64,
            field_get(r.c2, 32, 32) == 0,
            field_get(r.c3, 0, 48) == mac_addr & 0xffff_ffff_ffff,
            field_get(r.c3, 48, 16) == 0,
    {
        let head = RingBufDescCommonHead::new_cmd_desc(CmdQueueDescOperators::SetNetworkParam);
        let c0_1: u64 = set_field(0, 0, 1, bit_of(head.valid));
        let c0_2: u64 = set_field(c0_1, 1, 1, bit_of(head.has_next));
        let c0_3: u64 = set_field(c0_2, 8, 8, head.op_code as u64);
        let c0_4: u64 = set_field(c0_3, 16, 8, user_data as u64);
        let c0: u64 = c0_4;
        let c1_1: u64 = set_field(0, 0, 32, gateway as u64);
        let c1_2: u64 = set_field(c1_1, 32, 32, netmask as u64);
        let c1: u64 = c1_2;
        let c2_1: u64 = set_field(0, 0, 32, ip_addr as u64);
        let c2: u64 = c2_1;
        let c3_1: u64 = set_field(0, 0, 48, mac_addr);
        let c3: u64 = c3_1;
        proof {
            lemma_low_mask_values();
            lemma_field_get_set_same(0, 1, 0, 1);
            lemma_mask_small(1, 1);
            lemma_field_get_set_other(c0_1, 0, 1, 1, 0, 1);
            lemma_field_get_set_other(c0_2, CmdQueueDescOperators::SetNetworkParam.spec_value() as u64, 8, 8, 0, 1);
            lemma_field_get_set_other(c0_3, user_data as u64, 16, 8, 0, 1);
            lemma_field_get_set_same(c0_1, 0, 1, 1);
            lemma_mask_small(0, 1);
            lemma_field_get_set_other(c0_2, CmdQueueDescOperators::SetNetworkParam.spec_value() as u64, 8, 8, 1, 1);
            lemma_field_get_set_other(c0_3, user_data as u64, 16, 8, 1, 1);
            lemma_field_get_zero(2, 6);
            lemma_field_get_set_other(0, 1, 0, 1, 2, 6);
            lemma_field_get_set_other(c0_1, 0, 1, 1, 2, 6);
            lemma_field_get_set_other(c0_2, CmdQueueDescOperators::SetNetworkParam.spec_value() as u64, 8, 8, 2, 6);
            lemma_field_get_set_other(c0_3, user_data as u64, 16, 8, 2, 6);
            lemma_field_get_set_same(c0_2, CmdQueueDescOperators::SetNetworkParam.spec_value() as u64, 8, 8);
            lemma_mask_small(CmdQueueDescOperators::SetNetworkParam.spec_value() as u64, 8);
            lemma_field_get_set_other(c0_3, user_data as u64, 16, 8, 8, 8);
            lemma_field_get_set_same(c0_3, user_data as u64, 16, 8);
            lemma_mask_small(user_data as u64, 8);
            lemma_field_get_zero(24, 1);
            lemma_field_get_set_other(0, 1, 0, 1, 24, 1);
            lemma_field_get_set_other(c0_1, 0, 1, 1, 24, 1);
            lemma_field_get_set_other(c0_2, CmdQueueDescOperators::SetNetworkParam.spec_value() as u64, 8, 8, 24, 1);
            lemma_field_get_set_other(c0_3, user_data as u64, 16, 8, 24, 1);
            lemma_field_get_zero(25, 7);
            lemma_field_get_set_other(0, 1, 0, 1, 25, 7);
            lemma_field_get_set_other(c0_1, 0, 1, 1, 25, 7);
            lemma_field_get_set_other(c0_2, CmdQueueDescOperators::SetNetworkParam.spec_value() as u64, 8, 8, 25, 7);
            lemma_field_get_set_other(c0_3, user_data as u64, 16, 8, 25, 7);
            lemma_field_get_zero(32, 32);
            lemma_field_get_set_other(0, 1, 0, 1, 32, 32);
            lemma_field_get_set_other(c0_1, 0, 1, 1, 32, 32);
            lemma_field_get_set_other(c0_2, CmdQueueDescOperators::SetNetworkParam.spec_value() as u64, 8, 8, 32, 32);
            lemma_field_get_set_other(c0_3, user_data as u64, 16, 8, 32, 32);
            lemma_field_get_set_same(0, gateway as u64, 0, 32);
            lemma_mask_small(gateway as u64, 32);
            lemma_field_get_set_other(c1_1, netmask as u64, 32, 32, 0, 32);
            lemma_field_get_set_same(c1_1, netmask as u64, 32, 32);
            lemma_mask_small(netmask as u64, 32);
            lemma_field_get_set_same(0, ip_addr as u64, 0, 32);
            lemma_mask_small(ip_addr as u64, 32);
            lemma_field_get_zero(32, 32);
            lemma_field_get_set_other(0, ip_addr as u64, 0, 32, 32, 32);
            lemma_field_get_set_same(0, mac_addr, 0, 48);
            lemma_field_get_zero(48, 16);
            lemma_field_get_set_other(0, mac_addr, 0, 48, 48, 16);
        }
        Self { c0: c0, c1: c1, c2: c2, c3: c3 }
    }

    /// Reads the command header.
    pub fn cmd_queue_common_header(&self) -> (r: RingbufDescCmdQueueCommonHead)
        ensures
            r == RingbufDescCmdQueueCommonHead::spec_decode(self.c0),
    {
        RingbufDescCmdQueueCommonHead::decode(self.c0)
    }

    /// Writes the command header; its reserved bits become zero.
    pub fn set_cmd_queue_common_header(&mut self, val: RingbufDescCmdQueueCommonHead)
        ensures
            final(self).c0 == val.spec_write(old(self).c0),
            final(self).c1 == old(self).c1,
            final(self).c2 == old(self).c2,
            final(self).c3 == old(self).c3,
    {
        self.c0 = val.write(self.c0);
    }

    /// Reads the gateway field.
    pub fn gateway(&self) -> (r: u32)
        ensures
            r as u64 == field_get(self.c1, 0, 32),
    {
        get_u32(self.c1, 0, 32)
    }

    /// Writes the gateway field; the other words stay as they were.
    pub fn set_gateway(&mut self, val: u32)
        ensures
            final(self).c1 == field_set(old(self).c1, 0, 32, val as u64),
            final(self).c0 == old(self).c0,
            final(self).c2 == old(self).c2,
            final(self).c3 == old(self).c3,
    {
        self.c1 = set_field(self.c1, 0, 32, val as u64);
    }

    /// Reads the netmask field.
    pub fn netmask(&self) -> (r: u32)
        ensures
            r as u64 == field_get(self.c1, 32, 32),
    {
        get_u32(self.c1, 32, 32)
    }

    /// Writes the netmask field; the other words stay as they were.
    pub fn set_netmask(&mut self, val: u32)
        ensures
            final(self).c1 == field_set(old(self).c1, 32, 32, val as u64),
            final(self).c0 == old(self).c0,
            final(self).c2 == old(self).c2,
            final(self).c3 == old(self).c3,
    {
        self.c1 = set_field(self.c1, 32, 32, val as u64);
    }

    /// Reads the ip addr field.
    pub fn ip_addr(&self) -> (r: u32)
        ensures
            r as u64 == field_get(self.c2, 0, 32),
    {
        get_u32(self.c2, 0, 32)
    }

    /// Writes the ip addr field; the other words stay as they were.
    pub fn set_ip_addr(&mut self, val: u32)
        ensures
            final(self).c2 == field_set(old(self).c2, 0, 32, val as u64),
            final(self).c0 == old(self).c0,
            final(self).c1 == old(self).c1,
            final(self).c3 == old(self).c3,
    {
        self.c2 = set_field(self.c2, 0, 32, val as u64);
    }

    /// Reads the mac addr field.
    pub fn mac_addr(&self) -> (r: u64)
        ensures
            r == field_get(self.c3, 0, 48),
    {
        get_field(self.c3, 0, 48)
    }

    /// Writes the mac addr field; the other words stay as they were.
    pub fn set_mac_addr(&mut self, val: u64)
        ensures
            final(self).c3 == field_set(old(self).c3, 0, 48, val as u64),
            final(self).c0 == old(self).c0,
            final(self).c1 == old(self).c1,
            final(self).c2 == old(self).c2,
    {
        self.c3 = set_field(self.c3, 0, 48, val as u64);
    }
}

/// Command that sets where the device writes raw packets it receives.
#[derive(Clone, Copy, Debug)]
pub struct CmdQueueReqDescSetRawPacketReceiveMeta {
    /// Bytes 0 to 7, read little-endian.
    pub c0: u64,
    /// Bytes 8 to 15, read little-endian.
    pub c1: u64,
    /// Bytes 16 to 23, read little-endian.
    pub c2: u64,
    /// Bytes 24 to 31, read little-endian.
    pub c3: u64,
}

impl CmdQueueReqDescSetRawPacketReceiveMeta {
    /// Builds the command that points raw packet reception at `write_base_addr`.
    pub fn new(user_data: u8, write_base_addr: u64) -> (r: Self)
        ensures
            field_get(r.c0, 0, 1) == 1,
            field_get(r.c0, 1, 1) == 0,
            field_get(r.c0, 2, 6) == 0,
            field_get(r.c0, 8, 8) == CmdQueueDescOperators::SetRawPacketReceiveMeta.spec_value() as u64,
            field_get(r.c0, 16, 8) == user_data as u64,
            field_get(r.c0, 24, 1) == 0,
            field_get(r.c0, 25, 7) == 0,
            field_get(r.c0, 32, 32) == 0,
            r.c1 == write_base_addr,
            r.c2 == 0,
            r.c3 == 0,
    {
        let head = RingBufDescCommonHead::new_cmd_desc(CmdQueueDescOperators::SetRawPacketReceiveMeta);
        let c0_1: u64 = set_field(0, 0, 1, bit_of(head.valid));
        let c0_2: u64 = set_field(c0_1, 1, 1, bit_of(head.has_next));
        let c0_3: u64 = set_field(c0_2, 8, 8, head.op_code as u64);
        let c0_4: u64 = set_field(c0_3, 16, 8, user_data as u64);
        let c0: u64 = c0_4;
        let c1: u64 = write_base_addr;
        let c2: u64 = 0;
        let c3: u64 = 0;
        proof {
            lemma_low_mask_values();
            lemma_field_get_set_same(0, 1, 0, 1);
            lemma_mask_small(1, 1);
            lemma_field_get_set_other(c0_1, 0, 1, 1, 0, 1);
            lemma_field_get_set_other(c0_2, CmdQueueDescOperators::SetRawPacketReceiveMeta.spec_value() as u64, 8, 8, 0, 1);
            lemma_field_get_set_other(c0_3, user_data as u64, 16, 8, 0, 1);
            lemma_field_get_set_same(c0_1, 0, 1, 1);
            lemma_mask_small(0, 1);
            lemma_field_get_set_other(c0_2, CmdQueueDescOperators::SetRawPacketReceiveMeta.spec_value() as u64, 8, 8, 1, 1);
            lemma_field_get_set_other(c0_3, user_data as u64, 16, 8, 1, 1);
            lemma_field_get_zero(2, 6);
            lemma_field_get_set_other(0, 1, 0, 1, 2, 6);
            lemma_field_get_set_other(c0_1, 0, 1, 1, 2, 6);
            lemma_field_get_set_other(c0_2, CmdQueueDescOperators::SetRawPacketReceiveMeta.spec_value() as u64, 8, 8, 2, 6);
            lemma_field_get_set_other(c0_3, user_data as u64, 16, 8, 2, 6);
            lemma_field_get_set_same(c0_2, CmdQueueDescOperators::SetRawPacketReceiveMeta.spec_value() as u64, 8, 8);
            lemma_mask_small(CmdQueueDescOperators::SetRawPacketReceiveMeta.spec_value() as u64, 8);
            lemma_field_get_set_other(c0_3, user_data as u64, 16, 8, 8, 8);
            lemma_field_get_set_same(c0_3, user_data as u64, 16, 8);
            lemma_mask_small(user_data as u64, 8);
            lemma_field_get_zero(24, 1);
            lemma_field_get_set_other(0, 1, 0, 1, 24, 1);
            lemma_field_get_set_other(c0_1, 0, 1, 1, 24, 1);
            lemma_field_get_set_other(c0_2, CmdQueueDescOperators::SetRawPacketReceiveMeta.spec_value() as u64, 8, 8, 24, 1);
            lemma_field_get_set_other(c0_3, user_data as u64, 16, 8, 24, 1);
            lemma_field_get_zero(25, 7);
            lemma_field_get_set_other(0, 1, 0, 1, 25, 7);
            lemma_field_get_set_other(c0_1, 0, 1, 1, 25, 7);
            lemma_field_get_set_other(c0_2, CmdQueueDescOperators::SetRawPacketReceiveMeta.spec_value() as u64, 8, 8, 25, 7);
            lemma_field_get_set_other(c0_3, user_data as u64, 16, 8, 25, 7);
            lemma_field_get_zero(32, 32);
            lemma_field_get_set_other(0, 1, 0, 1, 32, 32);
            lemma_field_get_set_other(c0_1, 0, 1, 1, 32, 32);
            lemma_field_get_set_other(c0_2, CmdQueueDescOperators::SetRawPacketReceiveMeta.spec_value() as u64, 8, 8, 32, 32);
            lemma_field_get_set_other(c0_3, user_data as u64, 16, 8, 32, 32);
        }
        Self { c0: c0, c1: c1, c2: c2, c3: c3 }
    }

    /// Reads the command header.
    pub fn cmd_queue_common_header(&self) -> (r: RingbufDescCmdQueueCommonHead)
        ensures
            r == RingbufDescCmdQueueCommonHead::spec_decode(self.c0),
    {
        RingbufDescCmdQueueCommonHead::decode(self.c0)
    }

    /// Writes the command header; its reserved bits become zero.
    pub fn set_cmd_queue_common_header(&mut self, val: RingbufDescCmdQueueCommonHead)
        ensures
            final(self).c0 == val.spec_write(old(self).c0),
            final(self).c1 == old(self).c1,
            final(self).c2 == old(self).c2,
            final(self).c3 == old(self).c3,
    {
        self.c0 = val.write(self.c0);
    }

    /// Reads the write base addr field.
    pub fn write_base_addr(&self) -> (r: u64)
        ensures
            r == self.c1,
    {
        self.c1
    }

    /// Writes the write base addr field; the other words stay as they were.
    pub fn set_write_base_addr(&mut self, val: u64)
        ensures
            final(self).c1 == val,
            final(self).c0 == old(self).c0,
            final(self).c2 == old(self).c2,
            final(self).c3 == old(self).c3,
    {
        self.c1 = val;
    }
}

/// A command response of which only the headers are read.
#[derive(Clone, Copy, Debug)]
pub struct CmdQueueRespDescOnlyCommonHeader {
    /// The two headers
    pub header: CmdQueueReqDescHeaderChunk,
    /// The rest of the descriptor
    pub rest: [u8; 28],
}

impl CmdQueueRespDescOnlyCommonHeader {
    /// A response to a command of operation `op` that carries `user_data`, the rest zero.
    fn new_resp(op: CmdQueueDescOperators, user_data: u8) -> (r: Self)
        ensures
            r.header.common_header == (RingBufDescCommonHead {
                valid: true,
                has_next: false,
                op_code: op.spec_value(),
            }),
            r.header.cmd_queue_common_header == (RingbufDescCmdQueueCommonHead {
                user_data,
                is_success: false,
            }),
            forall|i: int| 0 <= i < 28 ==> r.rest@[i] == 0,
    {
        let common_header = RingBufDescCommonHead::new_cmd_desc(op);
        let cmd_queue_common_header = RingbufDescCmdQueueCommonHead::new_with_user_data(user_data);
        let header = CmdQueueReqDescHeaderChunk::new(common_header, cmd_queue_common_header);
        let rest = [0u8; 28];
        Self { header, rest }
    }

    /// A response to the command that registers a memory region.
    pub fn new_cmd_queue_resp_desc_update_mr_table(user_data: u8) -> (r: Self)
        ensures
            r.header.common_header == (RingBufDescCommonHead {
                valid: true,
                has_next: false,
                op_code: CmdQueueDescOperators::UpdateMrTable.spec_value(),
            }),
            r.header.cmd_queue_common_header == (RingbufDescCmdQueueCommonHead {
                user_data,
                is_success: false,
            }),
            forall|i: int| 0 <= i < 28 ==> r.rest@[i] == 0,
    {
        Self::new_resp(CmdQueueDescOperators::UpdateMrTable, user_data)
    }

    /// A response to the command that writes page table entries.
    pub fn new_cmd_queue_resp_desc_update_pgt(user_data: u8) -> (r: Self)
        ensures
            r.header.common_header == (RingBufDescCommonHead {
                valid: true,
                has_next: false,
                op_code: CmdQueueDescOperators::UpdatePgt.spec_value(),
            }),
            r.header.cmd_queue_common_header == (RingbufDescCmdQueueCommonHead {
                user_data,
                is_success: false,
            }),
            forall|i: int| 0 <= i < 28 ==> r.rest@[i] == 0,
    {
        Self::new_resp(CmdQueueDescOperators::UpdatePgt, user_data)
    }

    /// The two headers.
    pub fn headers(&self) -> (r: CmdQueueReqDescHeaderChunk)
        ensures
            r == self.header,
    {
        self.header
    }
}

} // verus!
