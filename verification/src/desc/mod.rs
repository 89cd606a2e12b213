//! Descriptors exchanged with the device through ring buffers.
//!
//! A descriptor is 32 bytes, read as four little-endian 64-bit words `c0` to `c3`.
//! Its fields are packed from the least significant bit of each word upwards.
use vstd::prelude::*;

use self::bits::{
    bit_of, bool_bit, field_get, field_set, get_bool, get_field, get_u16, get_u32, get_u8,
    lemma_field_get_set_other, lemma_field_get_set_same, lemma_field_get_zero,
    lemma_low_mask_values, lemma_mask_small, set_field,
};
use self::cmd::CmdQueueDescOperators;
use self::send::WorkReqOpCode;

pub mod bits;
pub mod cmd;
pub mod meta_report;
pub mod send;
pub mod simple_nic;

verus! {

/// Size of a descriptor in bytes.
pub const DESC_SIZE: usize = 32;

/// Operation code that simple NIC transmit descriptors carry.
pub const SIMPLE_NIC_TX_OP_CODE: u8 = 0;

/// The little-endian value of the `n` bytes of `b` starting at `start`.
pub open spec fn le_value(b: Seq<u8>, start: int, n: nat) -> nat
    decreases n,
{
    if n == 0 {
        0
    } else {
        (b[start] as nat) + 256 * le_value(b, start + 1, (n - 1) as nat)
    }
}

/// The little-endian word of the eight bytes of `b` starting at `start`.
pub open spec fn le_word(b: Seq<u8>, start: int) -> int {
    le_value(b, start, 8) as int
}

/// Packing eight bytes with shifts gives their little-endian value.
proof fn lemma_pack8(x0: u8, x1: u8, x2: u8, x3: u8, x4: u8, x5: u8, x6: u8, x7: u8)
    ensures
        (x0 as u64) | ((x1 as u64) << 8u64) | ((x2 as u64) << 16u64) | ((x3 as u64) << 24u64) | ((
        x4 as u64) << 32u64) | ((x5 as u64) << 40u64) | ((x6 as u64) << 48u64) | ((x7 as u64)
            << 56u64) == x0 + 0x100 * x1 + 0x1_0000 * x2 + 0x100_0000 * x3 + 0x1_0000_0000 * x4
            + 0x100_0000_0000 * x5 + 0x1_0000_0000_0000 * x6 + 0x100_0000_0000_0000 * x7,
{
    assert((x0 as u64) | ((x1 as u64) << 8u64) | ((x2 as u64) << 16u64) | ((x3 as u64) << 24u64)
        | ((x4 as u64) << 32u64) | ((x5 as u64) << 40u64) | ((x6 as u64) << 48u64) | ((
    x7 as u64) << 56u64) == x0 + 0x100 * x1 + 0x1_0000 * x2 + 0x100_0000 * x3 + 0x1_0000_0000 * x4
        + 0x100_0000_0000 * x5 + 0x1_0000_0000_0000 * x6 + 0x100_0000_0000_0000 * x7)
        by (bit_vector);
}

/// Reads the little-endian word of the eight bytes at `start`.
pub fn read_le_word(bytes: &[u8; 32], start: usize) -> (r: u64)
    requires
        start + 8 <= 32,
    ensures
        r == le_word(bytes@, start as int),
{
    let s = start;
    let x0 = bytes[s];
    let x1 = bytes[s + 1];
    let x2 = bytes[s + 2];
    let x3 = bytes[s + 3];
    let x4 = bytes[s + 4];
    let x5 = bytes[s + 5];
    let x6 = bytes[s + 6];
    let x7 = bytes[s + 7];
    proof {
        lemma_pack8(x0, x1, x2, x3, x4, x5, x6, x7);
        reveal_with_fuel(le_value, 9);
    }
    (x0 as u64) | ((x1 as u64) << 8u64) | ((x2 as u64) << 16u64) | ((x3 as u64) << 24u64) | ((
    x4 as u64) << 32u64) | ((x5 as u64) << 40u64) | ((x6 as u64) << 48u64) | ((x7 as u64)
        << 56u64)
}

/// The eight bytes of a word, least significant first, unpack back to the word.
proof fn lemma_unpack8(w: u64)
    ensures
        ((w & 0xff) as u8) + 0x100 * (((w >> 8u64) & 0xff) as u8) + 0x1_0000 * (((w >> 16u64)
            & 0xff) as u8) + 0x100_0000 * (((w >> 24u64) & 0xff) as u8) + 0x1_0000_0000 * (((w
            >> 32u64) & 0xff) as u8) + 0x100_0000_0000 * (((w >> 40u64) & 0xff) as u8)
            + 0x1_0000_0000_0000 * (((w >> 48u64) & 0xff) as u8) + 0x100_0000_0000_0000 * (((w
            >> 56u64) & 0xff) as u8) == w,
{
    assert(((w & 0xff) as u8) + 0x100 * (((w >> 8u64) & 0xff) as u8) + 0x1_0000 * (((w >> 16u64)
        & 0xff) as u8) + 0x100_0000 * (((w >> 24u64) & 0xff) as u8) + 0x1_0000_0000 * (((w
        >> 32u64) & 0xff) as u8) + 0x100_0000_0000 * (((w >> 40u64) & 0xff) as u8)
        + 0x1_0000_0000_0000 * (((w >> 48u64) & 0xff) as u8) + 0x100_0000_0000_0000 * (((w
        >> 56u64) & 0xff) as u8) == w) by (bit_vector);
}

/// Writes `w` little-endian into the eight bytes of `bytes` at `start`.
fn write_le_word(bytes: &mut [u8; 32], start: usize, w: u64)
    requires
        start + 8 <= 32,
    ensures
        le_word(final(bytes)@, start as int) == w,
        forall|i: int|
            0 <= i < 32 && !(start <= i < start + 8) ==> final(bytes)@[i] == old(bytes)@[i],
{
    bytes[start] = (w & 0xff) as u8;
    bytes[start + 1] = ((w >> 8u64) & 0xff) as u8;
    bytes[start + 2] = ((w >> 16u64) & 0xff) as u8;
    bytes[start + 3] = ((w >> 24u64) & 0xff) as u8;
    bytes[start + 4] = ((w >> 32u64) & 0xff) as u8;
    bytes[start + 5] = ((w >> 40u64) & 0xff) as u8;
    bytes[start + 6] = ((w >> 48u64) & 0xff) as u8;
    bytes[start + 7] = ((w >> 56u64) & 0xff) as u8;
    proof {
        lemma_unpack8(w);
        reveal_with_fuel(le_value, 9);
    }
}

/// The 32 bytes of four words, each little-endian, first word first.
pub fn words_to_bytes(c0: u64, c1: u64, c2: u64, c3: u64) -> (r: [u8; 32])
    ensures
        le_word(r@, 0) == c0,
        le_word(r@, 8) == c1,
        le_word(r@, 16) == c2,
        le_word(r@, 24) == c3,
{
    let mut bytes = [0u8; 32];
    write_le_word(&mut bytes, 0, c0);
    let ghost b0 = bytes@;
    write_le_word(&mut bytes, 8, c1);
    proof {
        lemma_le_word_same(b0, bytes@, 0);
    }
    let ghost b1 = bytes@;
    write_le_word(&mut bytes, 16, c2);
    proof {
        lemma_le_word_same(b1, bytes@, 0);
        lemma_le_word_same(b1, bytes@, 8);
    }
    let ghost b2 = bytes@;
    write_le_word(&mut bytes, 24, c3);
    proof {
        lemma_le_word_same(b2, bytes@, 0);
        lemma_le_word_same(b2, bytes@, 8);
        lemma_le_word_same(b2, bytes@, 16);
    }
    bytes
}

/// The word of eight bytes depends on those bytes only.
proof fn lemma_le_word_same(a: Seq<u8>, b: Seq<u8>, start: int)
    requires
        0 <= start,
        start + 8 <= a.len(),
        start + 8 <= b.len(),
        forall|i: int| start <= i < start + 8 ==> a[i] == b[i],
    ensures
        le_word(a, start) == le_word(b, start),
{
    reveal_with_fuel(le_value, 9);
}

/// The header that every ring descriptor starts with.
#[derive(Clone, Copy, Debug, PartialEq, Eq, Structural)]
pub struct RingBufDescCommonHead {
    /// The descriptor holds data the device has not consumed
    pub valid: bool,
    /// Another descriptor of the same request follows
    pub has_next: bool,
    /// Operation code
    pub op_code: u8,
}

impl RingBufDescCommonHead {
    /// The header held in the low sixteen bits of a descriptor's first word.
    pub open spec fn spec_decode(w: u64) -> Self {
        RingBufDescCommonHead {
            valid: field_get(w, 0, 1) == 1,
            has_next: field_get(w, 1, 1) == 1,
            op_code: field_get(w, 8, 8) as u8,
        }
    }

    /// The word `w` with its low sixteen bits replaced by the header, reserved bits zero.
    pub open spec fn spec_write(self, w: u64) -> u64 {
        field_set(
            field_set(
                field_set(field_set(w, 0, 1, bool_bit(self.valid)), 1, 1, bool_bit(self.has_next)),
                2,
                6,
                0,
            ),
            8,
            8,
            self.op_code as u64,
        )
    }

    /// Reads the header of a descriptor's first word.
    pub fn decode(w: u64) -> (r: Self)
        ensures
            r == Self::spec_decode(w),
    {
        let valid = get_bool(w, 0);
        let has_next = get_bool(w, 1);
        let op_code = get_u8(w, 8, 8);
        RingBufDescCommonHead { valid, has_next, op_code }
    }

    /// The word `w` with its low sixteen bits replaced by the header, reserved bits zero.
    pub fn write(&self, w: u64) -> (r: u64)
        ensures
            r == self.spec_write(w),
    {
        let w1 = set_field(w, 0, 1, bit_of(self.valid));
        let w2 = set_field(w1, 1, 1, bit_of(self.has_next));
        let w3 = set_field(w2, 2, 6, 0);
        set_field(w3, 8, 8, self.op_code as u64)
    }

    /// Header of a descriptor of the send queue.
    pub fn new_send_desc(op_code: WorkReqOpCode) -> (r: Self)
        ensures
            r.valid,
            !r.has_next,
            r.op_code == op_code.spec_value(),
    {
        RingBufDescCommonHead { valid: true, has_next: false, op_code: op_code.value() }
    }

    /// Header of a descriptor of the command queue.
    pub fn new_cmd_desc(op_code: CmdQueueDescOperators) -> (r: Self)
        ensures
            r.valid,
            !r.has_next,
            r.op_code == op_code.spec_value(),
    {
        RingBufDescCommonHead { valid: true, has_next: false, op_code: op_code.value() }
    }

    /// Header of a descriptor of the simple NIC transmit queue.
    pub fn new_simple_nic_tx_queue_desc() -> (r: Self)
        ensures
            r.valid,
            !r.has_next,
            r.op_code == SIMPLE_NIC_TX_OP_CODE,
    {
        RingBufDescCommonHead { valid: true, has_next: false, op_code: SIMPLE_NIC_TX_OP_CODE }
    }

    /// Operation code.
    pub fn op_code(&self) -> (r: u8)
        ensures
            r == self.op_code,
    {
        self.op_code
    }

    /// Whether another descriptor of the same request follows.
    pub fn has_next(&self) -> (r: bool)
        ensures
            r == self.has_next,
    {
        self.has_next
    }

    /// Whether the descriptor holds data the device has not consumed.
    pub fn valid(&self) -> (r: bool)
        ensures
            r == self.valid,
    {
        self.valid
    }

    /// Marks whether another descriptor of the same request follows.
    pub fn set_has_next(&mut self, val: bool)
        ensures
            *final(self) == (RingBufDescCommonHead { has_next: val, ..*old(self) }),
    {
        self.has_next = val;
    }

    /// Marks whether the descriptor holds data the device has not consumed.
    pub fn set_valid(&mut self, val: bool)
        ensures
            *final(self) == (RingBufDescCommonHead { valid: val, ..*old(self) }),
    {
        self.valid = val;
    }
}

/// Reading back a written header gives the header.
pub proof fn lemma_head_decode_write(h: RingBufDescCommonHead, w: u64)
    ensures
        RingBufDescCommonHead::spec_decode(h.spec_write(w)) == h,
{
    let v0 = bool_bit(h.valid);
    let v1 = bool_bit(h.has_next);
    let v3 = h.op_code as u64;
    let w1 = field_set(w, 0, 1, v0);
    let w2 = field_set(w1, 1, 1, v1);
    let w3 = field_set(w2, 2, 6, 0);
    lemma_low_mask_values();
    lemma_mask_small(v0, 1);
    lemma_mask_small(v1, 1);
    lemma_mask_small(v3, 8);
    lemma_field_get_set_same(w, v0, 0, 1);
    lemma_field_get_set_other(w1, v1, 1, 1, 0, 1);
    lemma_field_get_set_other(w2, 0, 2, 6, 0, 1);
    lemma_field_get_set_other(w3, v3, 8, 8, 0, 1);
    lemma_field_get_set_same(w1, v1, 1, 1);
    lemma_field_get_set_other(w2, 0, 2, 6, 1, 1);
    lemma_field_get_set_other(w3, v3, 8, 8, 1, 1);
    lemma_field_get_set_same(w3, v3, 8, 8);
}

/// A descriptor whose kind is known only from its header.
#[derive(Clone, Copy, Debug)]
pub struct RingBufDescUntyped {
    /// Bytes 0 to 7, read little-endian.
    pub c0: u64,
    /// Bytes 8 to 15, read little-endian.
    pub c1: u64,
    /// Bytes 16 to 23, read little-endian.
    pub c2: u64,
    /// Bytes 24 to 31, read little-endian.
    pub c3: u64,
}

impl RingBufDescUntyped {
    /// Reads a descriptor from its 32 bytes.
    pub fn from_bytes(bytes: [u8; DESC_SIZE]) -> (r: Self)
        ensures
            r.c0 == le_word(bytes@, 0),
            r.c1 == le_word(bytes@, 8),
            r.c2 == le_word(bytes@, 16),
            r.c3 == le_word(bytes@, 24),
    {
        RingBufDescUntyped {
            c0: read_le_word(&bytes, 0),
            c1: read_le_word(&bytes, 8),
            c2: read_le_word(&bytes, 16),
            c3: read_le_word(&bytes, 24),
        }
    }

    /// The header of the descriptor.
    pub fn head(&self) -> (r: RingBufDescCommonHead)
        ensures
            r == RingBufDescCommonHead::spec_decode(self.c0),
    {
        RingBufDescCommonHead::decode(self.c0)
    }
}

/// Report of a received RDMA packet: its base transport header and its RDMA extended transport header.
#[derive(Clone, Copy, Debug)]
pub struct MetaReportQueueDescBthReth {
    /// Bytes 0 to 7, read little-endian.
    pub c0: u64,
    /// Bytes 8 to 15, read little-endian.
    pub c1: u64,
    /// Bytes 16 to 23, read little-endian.
    pub c2: u64,
    /// Bytes 24 to 31, read little-endian.
    pub c3: u64,
}

impl MetaReportQueueDescBthReth {
    /// Reads the descriptor from its 32 bytes.
    pub fn from_bytes(bytes: [u8; DESC_SIZE]) -> (r: Self)
        ensures
            r.c0 == le_word(bytes@, 0),
            r.c1 == le_word(bytes@, 8),
            r.c2 == le_word(bytes@, 16),
            r.c3 == le_word(bytes@, 24),
    {
        Self {
            c0: read_le_word(&bytes, 0),
            c1: read_le_word(&bytes, 8),
            c2: read_le_word(&bytes, 16),
            c3: read_le_word(&bytes, 24),
        }
    }

    /// Reads the expected psn field.
    pub fn expected_psn(&self) -> (r: u32)
        ensures
            r as u64 == field_get(self.c0, 0, 24),
    {
        get_u32(self.c0, 0, 24)
    }

    /// Writes the expected psn field; the other words stay as they were.
    pub fn set_expected_psn(&mut self, val: u32)
        ensures
            final(self).c0 == field_set(old(self).c0, 0, 24, val as u64),
            final(self).c1 == old(self).c1,
            final(self).c2 == old(self).c2,
            final(self).c3 == old(self).c3,
    {
        self.c0 = set_field(self.c0, 0, 24, val as u64);
    }

    /// Reads the req status field.
    pub fn req_status(&self) -> (r: u8)
        ensures
            r as u64 == field_get(self.c0, 24, 8),
    {
        get_u8(self.c0, 24, 8)
    }

    /// Writes the req status field; the other words stay as they were.
    pub fn set_req_status(&mut self, val: u8)
        ensures
            final(self).c0 == field_set(old(self).c0, 24, 8, val as u64),
            final(self).c1 == old(self).c1,
            final(self).c2 == old(self).c2,
            final(self).c3 == old(self).c3,
    {
        self.c0 = set_field(self.c0, 24, 8, val as u64);
    }

    /// Reads the trans field.
    pub fn trans(&self) -> (r: u8)
        ensures
            r as u64 == field_get(self.c0, 32, 3),
    {
        get_u8(self.c0, 32, 3)
    }

    /// Writes the trans field; the other words stay as they were.
    pub fn set_trans(&mut self, val: u8)
        ensures
            final(self).c0 == field_set(old(self).c0, 32, 3, val as u64),
            final(self).c1 == old(self).c1,
            final(self).c2 == old(self).c2,
            final(self).c3 == old(self).c3,
    {
        self.c0 = set_field(self.c0, 32, 3, val as u64);
    }

    /// Reads the opcode field.
    pub fn opcode(&self) -> (r: u8)
        ensures
            r as u64 == field_get(self.c0, 35, 5),
    {
        get_u8(self.c0, 35, 5)
    }

    /// Writes the opcode field; the other words stay as they were.
    pub fn set_opcode(&mut self, val: u8)
        ensures
            final(self).c0 == field_set(old(self).c0, 35, 5, val as u64),
            final(self).c1 == old(self).c1,
            final(self).c2 == old(self).c2,
            final(self).c3 == old(self).c3,
    {
        self.c0 = set_field(self.c0, 35, 5, val as u64);
    }

    /// Reads the dqpn field.
    pub fn dqpn(&self) -> (r: u32)
        ensures
            r as u64 == field_get(self.c0, 40, 24),
    {
        get_u32(self.c0, 40, 24)
    }

    /// Writes the dqpn field; the other words stay as they were.
    pub fn set_dqpn(&mut self, val: u32)
        ensures
            final(self).c0 == field_set(old(self).c0, 40, 24, val as u64),
            final(self).c1 == old(self).c1,
            final(self).c2 == old(self).c2,
            final(self).c3 == old(self).c3,
    {
        self.c0 = set_field(self.c0, 40, 24, val as u64);
    }

    /// Reads the psn field.
    pub fn psn(&self) -> (r: u32)
        ensures
            r as u64 == field_get(self.c1, 0, 24),
    {
        get_u32(self.c1, 0, 24)
    }

    /// Writes the psn field; the other words stay as they were.
    pub fn set_psn(&mut self, val: u32)
        ensures
            final(self).c1 == field_set(old(self).c1, 0, 24, val as u64),
            final(self).c0 == old(self).c0,
            final(self).c2 == old(self).c2,
            final(self).c3 == old(self).c3,
    {
        self.c1 = set_field(self.c1, 0, 24, val as u64);
    }

    /// Reads the solicited field.
    pub fn solicited(&self) -> (r: bool)
        ensures
            r == (field_get(self.c1, 24, 1) == 1),
    {
        get_bool(self.c1, 24)
    }

    /// Writes the solicited field; the other words stay as they were.
    pub fn set_solicited(&mut self, val: bool)
        ensures
            final(self).c1 == field_set(old(self).c1, 24, 1, bool_bit(val)),
            final(self).c0 == old(self).c0,
            final(self).c2 == old(self).c2,
            final(self).c3 == old(self).c3,
    {
        self.c1 = set_field(self.c1, 24, 1, bit_of(val));
    }

    /// Reads the ack req field.
    pub fn ack_req(&self) -> (r: bool)
        ensures
            r == (field_get(self.c1, 25, 1) == 1),
    {
        get_bool(self.c1, 25)
    }

    /// Writes the ack req field; the other words stay as they were.
    pub fn set_ack_req(&mut self, val: bool)
        ensures
            final(self).c1 == field_set(old(self).c1, 25, 1, bool_bit(val)),
            final(self).c0 == old(self).c0,
            final(self).c2 == old(self).c2,
            final(self).c3 == old(self).c3,
    {
        self.c1 = set_field(self.c1, 25, 1, bit_of(val));
    }

    /// Reads the pad cnt field.
    pub fn pad_cnt(&self) -> (r: u8)
        ensures
            r as u64 == field_get(self.c1, 26, 2),
    {
        get_u8(self.c1, 26, 2)
    }

    /// Writes the pad cnt field; the other words stay as they were.
    pub fn set_pad_cnt(&mut self, val: u8)
        ensures
            final(self).c1 == field_set(old(self).c1, 26, 2, val as u64),
            final(self).c0 == old(self).c0,
            final(self).c2 == old(self).c2,
            final(self).c3 == old(self).c3,
    {
        self.c1 = set_field(self.c1, 26, 2, val as u64);
    }

    /// Reads the rkey field.
    pub fn rkey(&self) -> (r: u32)
        ensures
            r as u64 == field_get(self.c1, 32, 32),
    {
        get_u32(self.c1, 32, 32)
    }

    /// Writes the rkey field; the other words stay as they were.
    pub fn set_rkey(&mut self, val: u32)
        ensures
            final(self).c1 == field_set(old(self).c1, 32, 32, val as u64),
            final(self).c0 == old(self).c0,
            final(self).c2 == old(self).c2,
            final(self).c3 == old(self).c3,
    {
        self.c1 = set_field(self.c1, 32, 32, val as u64);
    }

    /// Reads the va field.
    pub fn va(&self) -> (r: u64)
        ensures
            r == self.c2,
    {
        self.c2
    }

    /// Writes the va field; the other words stay as they were.
    pub fn set_va(&mut self, val: u64)
        ensures
            final(self).c2 == val,
            final(self).c0 == old(self).c0,
            final(self).c1 == old(self).c1,
            final(self).c3 == old(self).c3,
    {
        self.c2 = val;
    }

    /// Reads the dlen field.
    pub fn dlen(&self) -> (r: u32)
        ensures
            r as u64 == field_get(self.c3, 0, 32),
    {
        get_u32(self.c3, 0, 32)
    }

    /// Writes the dlen field; the other words stay as they were.
    pub fn set_dlen(&mut self, val: u32)
        ensures
            final(self).c3 == field_set(old(self).c3, 0, 32, val as u64),
            final(self).c0 == old(self).c0,
            final(self).c1 == old(self).c1,
            final(self).c2 == old(self).c2,
    {
        self.c3 = set_field(self.c3, 0, 32, val as u64);
    }

    /// Reads the msn field.
    pub fn msn(&self) -> (r: u32)
        ensures
            r as u64 == field_get(self.c3, 32, 24),
    {
        get_u32(self.c3, 32, 24)
    }

    /// Writes the msn field; the other words stay as they were.
    pub fn set_msn(&mut self, val: u32)
        ensures
            final(self).c3 == field_set(old(self).c3, 32, 24, val as u64),
            final(self).c0 == old(self).c0,
            final(self).c1 == old(self).c1,
            final(self).c2 == old(self).c2,
    {
        self.c3 = set_field(self.c3, 32, 24, val as u64);
    }

    /// Reads the can auto ack field.
    pub fn can_auto_ack(&self) -> (r: bool)
        ensures
            r == (field_get(self.c3, 63, 1) == 1),
    {
        get_bool(self.c3, 63)
    }

    /// Writes the can auto ack field; the other words stay as they were.
    pub fn set_can_auto_ack(&mut self, val: bool)
        ensures
            final(self).c3 == field_set(old(self).c3, 63, 1, bool_bit(val)),
            final(self).c0 == old(self).c0,
            final(self).c1 == old(self).c1,
            final(self).c2 == old(self).c2,
    {
        self.c3 = set_field(self.c3, 63, 1, bit_of(val));
    }
}

/// First descriptor of a send request, in the layout that carries the partition key.
#[derive(Clone, Copy, Debug)]
pub struct SendQueueReqDescSeg0 {
    /// Bytes 0 to 7, read little-endian.
    pub c0: u64,
    /// Bytes 8 to 15, read little-endian.
    pub c1: u64,
    /// Bytes 16 to 23, read little-endian.
    pub c2: u64,
    /// Bytes 24 to 31, read little-endian.
    pub c3: u64,
}

impl SendQueueReqDescSeg0 {
    /// Reads the descriptor from its 32 bytes.
    pub fn from_bytes(bytes: [u8; DESC_SIZE]) -> (r: Self)
        ensures
            r.c0 == le_word(bytes@, 0),
            r.c1 == le_word(bytes@, 8),
            r.c2 == le_word(bytes@, 16),
            r.c3 == le_word(bytes@, 24),
    {
        Self {
            c0: read_le_word(&bytes, 0),
            c1: read_le_word(&bytes, 8),
            c2: read_le_word(&bytes, 16),
            c3: read_le_word(&bytes, 24),
        }
    }

    /// Reads the reserved1 field.
    pub fn reserved1(&self) -> (r: u64)
        ensures
            r == field_get(self.c0, 0, 48),
    {
        get_field(self.c0, 0, 48)
    }

    /// Writes the reserved1 field; the other words stay as they were.
    pub fn set_reserved1(&mut self, val: u64)
        ensures
            final(self).c0 == field_set(old(self).c0, 0, 48, val as u64),
            final(self).c1 == old(self).c1,
            final(self).c2 == old(self).c2,
            final(self).c3 == old(self).c3,
    {
        self.c0 = set_field(self.c0, 0, 48, val as u64);
    }

    /// Reads the pkey field.
    pub fn pkey(&self) -> (r: u16)
        ensures
            r as u64 == field_get(self.c0, 48, 16),
    {
        get_u16(self.c0, 48, 16)
    }

    /// Writes the pkey field; the other words stay as they were.
    pub fn set_pkey(&mut self, val: u16)
        ensures
            final(self).c0 == field_set(old(self).c0, 48, 16, val as u64),
            final(self).c1 == old(self).c1,
            final(self).c2 == old(self).c2,
            final(self).c3 == old(self).c3,
    {
        self.c0 = set_field(self.c0, 48, 16, val as u64);
    }

    /// Reads the dqp ip field.
    pub fn dqp_ip(&self) -> (r: u32)
        ensures
            r as u64 == field_get(self.c1, 0, 32),
    {
        get_u32(self.c1, 0, 32)
    }

    /// Writes the dqp ip field; the other words stay as they were.
    pub fn set_dqp_ip(&mut self, val: u32)
        ensures
            final(self).c1 == field_set(old(self).c1, 0, 32, val as u64),
            final(self).c0 == old(self).c0,
            final(self).c2 == old(self).c2,
            final(self).c3 == old(self).c3,
    {
        self.c1 = set_field(self.c1, 0, 32, val as u64);
    }

    /// Reads the rkey field.
    pub fn rkey(&self) -> (r: u32)
        ensures
            r as u64 == field_get(self.c1, 32, 32),
    {
        get_u32(self.c1, 32, 32)
    }

    /// Writes the rkey field; the other words stay as they were.
    pub fn set_rkey(&mut self, val: u32)
        ensures
            final(self).c1 == field_set(old(self).c1, 32, 32, val as u64),
            final(self).c0 == old(self).c0,
            final(self).c2 == old(self).c2,
            final(self).c3 == old(self).c3,
    {
        self.c1 = set_field(self.c1, 32, 32, val as u64);
    }

    /// Reads the raddr field.
    pub fn raddr(&self) -> (r: u64)
        ensures
            r == self.c2,
    {
        self.c2
    }

    /// Writes the raddr field; the other words stay as they were.
    pub fn set_raddr(&mut self, val: u64)
        ensures
            final(self).c2 == val,
            final(self).c0 == old(self).c0,
            final(self).c1 == old(self).c1,
            final(self).c3 == old(self).c3,
    {
        self.c2 = val;
    }

    /// Reads the common header field.
    pub fn common_header(&self) -> (r: u64)
        ensures
            r == self.c3,
    {
        self.c3
    }

    /// Writes the common header field; the other words stay as they were.
    pub fn set_common_header(&mut self, val: u64)
        ensures
            final(self).c3 == val,
            final(self).c0 == old(self).c0,
            final(self).c1 == old(self).c1,
            final(self).c2 == old(self).c2,
    {
        self.c3 = val;
    }
}

} // verus!
