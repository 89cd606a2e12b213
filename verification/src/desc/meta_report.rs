//! Descriptors of the meta report queue, by which the device reports packets it received.
use vstd::prelude::*;

use super::bits::{
    bit_of, bool_bit, field_get, field_set, get_bool, get_field, get_u16, get_u32, get_u8,
    lemma_field_get_set_other, lemma_field_get_set_same, lemma_field_get_zero,
    lemma_low_mask_values, lemma_mask_small, set_field,
};
use super::{RingBufDescCommonHead, RingBufDescUntyped};
use crate::device_protocol::PacketPos;

verus! {

/// Operation code of an RDMA packet, as the base transport header carries it.
#[derive(Debug, Clone, Copy, PartialEq, Eq, Structural)]
pub enum RdmaOpCode {
    /// Send first
    SendFirst,
    /// Send middle
    SendMiddle,
    /// Send last
    SendLast,
    /// Send last with immediate
    SendLastWithImmediate,
    /// Send only
    SendOnly,
    /// Send only with immediate
    SendOnlyWithImmediate,
    /// Rdma write first
    RdmaWriteFirst,
    /// Rdma write middle
    RdmaWriteMiddle,
    /// Rdma write last
    RdmaWriteLast,
    /// Rdma write last with immediate
    RdmaWriteLastWithImmediate,
    /// Rdma write only
    RdmaWriteOnly,
    /// Rdma write only with immediate
    RdmaWriteOnlyWithImmediate,
    /// Rdma read request
    RdmaReadRequest,
    /// Rdma read response first
    RdmaReadResponseFirst,
    /// Rdma read response middle
    RdmaReadResponseMiddle,
    /// Rdma read response last
    RdmaReadResponseLast,
    /// Rdma read response only
    RdmaReadResponseOnly,
    /// Acknowledge
    Acknowledge,
    /// Atomic acknowledge
    AtomicAcknowledge,
    /// Compare swap
    CompareSwap,
    /// Fetch add
    FetchAdd,
    /// Resync
    Resync,
    /// Send last with invalidate
    SendLastWithInvalidate,
    /// Send only with invalidate
    SendOnlyWithInvalidate,
}

impl RdmaOpCode {
    /// The code of the operation.
    pub open spec fn spec_value(self) -> u8 {
        match self {
            RdmaOpCode::SendFirst => 0x00,
            RdmaOpCode::SendMiddle => 0x01,
            RdmaOpCode::SendLast => 0x02,
            RdmaOpCode::SendLastWithImmediate => 0x03,
            RdmaOpCode::SendOnly => 0x04,
            RdmaOpCode::SendOnlyWithImmediate => 0x05,
            RdmaOpCode::RdmaWriteFirst => 0x06,
            RdmaOpCode::RdmaWriteMiddle => 0x07,
            RdmaOpCode::RdmaWriteLast => 0x08,
            RdmaOpCode::RdmaWriteLastWithImmediate => 0x09,
            RdmaOpCode::RdmaWriteOnly => 0x0a,
            RdmaOpCode::RdmaWriteOnlyWithImmediate => 0x0b,
            RdmaOpCode::RdmaReadRequest => 0x0c,
            RdmaOpCode::RdmaReadResponseFirst => 0x0d,
            RdmaOpCode::RdmaReadResponseMiddle => 0x0e,
            RdmaOpCode::RdmaReadResponseLast => 0x0f,
            RdmaOpCode::RdmaReadResponseOnly => 0x10,
            RdmaOpCode::Acknowledge => 0x11,
            RdmaOpCode::AtomicAcknowledge => 0x12,
            RdmaOpCode::CompareSwap => 0x13,
            RdmaOpCode::FetchAdd => 0x14,
            RdmaOpCode::Resync => 0x15,
            RdmaOpCode::SendLastWithInvalidate => 0x16,
            RdmaOpCode::SendOnlyWithInvalidate => 0x17,
        }
    }

    /// The position in its message of a packet of this operation, for operations that
    /// carry a message.
    pub open spec fn spec_packet_pos(self) -> Option<PacketPos> {
        match self {
            RdmaOpCode::SendFirst | RdmaOpCode::RdmaWriteFirst | RdmaOpCode::RdmaReadResponseFirst => Some(PacketPos::First),
            RdmaOpCode::SendMiddle | RdmaOpCode::RdmaWriteMiddle | RdmaOpCode::RdmaReadResponseMiddle => Some(PacketPos::Middle),
            RdmaOpCode::SendLast | RdmaOpCode::SendLastWithImmediate | RdmaOpCode::RdmaWriteLast
            | RdmaOpCode::RdmaWriteLastWithImmediate | RdmaOpCode::RdmaReadResponseLast
            | RdmaOpCode::SendLastWithInvalidate => Some(PacketPos::Last),
            RdmaOpCode::SendOnly | RdmaOpCode::SendOnlyWithImmediate | RdmaOpCode::RdmaWriteOnly
            | RdmaOpCode::RdmaWriteOnlyWithImmediate | RdmaOpCode::RdmaReadResponseOnly
            | RdmaOpCode::SendOnlyWithInvalidate => Some(PacketPos::Only),
            RdmaOpCode::RdmaReadRequest | RdmaOpCode::Acknowledge | RdmaOpCode::AtomicAcknowledge
            | RdmaOpCode::CompareSwap | RdmaOpCode::FetchAdd | RdmaOpCode::Resync => None,
        }
    }

    /// The operation of code `value`, or `None` for a code no operation has.
    pub fn from_u8(value: u8) -> (r: Option<Self>)
        ensures
            r is Some <==> value <= 0x17,
            r matches Some(op) ==> op.spec_value() == value,
    {
        let variant = match value {
            0x00 => RdmaOpCode::SendFirst,
            0x01 => RdmaOpCode::SendMiddle,
            0x02 => RdmaOpCode::SendLast,
            0x03 => RdmaOpCode::SendLastWithImmediate,
            0x04 => RdmaOpCode::SendOnly,
            0x05 => RdmaOpCode::SendOnlyWithImmediate,
            0x06 => RdmaOpCode::RdmaWriteFirst,
            0x07 => RdmaOpCode::RdmaWriteMiddle,
            0x08 => RdmaOpCode::RdmaWriteLast,
            0x09 => RdmaOpCode::RdmaWriteLastWithImmediate,
            0x0a => RdmaOpCode::RdmaWriteOnly,
            0x0b => RdmaOpCode::RdmaWriteOnlyWithImmediate,
            0x0c => RdmaOpCode::RdmaReadRequest,
            0x0d => RdmaOpCode::RdmaReadResponseFirst,
            0x0e => RdmaOpCode::RdmaReadResponseMiddle,
            0x0f => RdmaOpCode::RdmaReadResponseLast,
            0x10 => RdmaOpCode::RdmaReadResponseOnly,
            0x11 => RdmaOpCode::Acknowledge,
            0x12 => RdmaOpCode::AtomicAcknowledge,
            0x13 => RdmaOpCode::CompareSwap,
            0x14 => RdmaOpCode::FetchAdd,
            0x15 => RdmaOpCode::Resync,
            0x16 => RdmaOpCode::SendLastWithInvalidate,
            0x17 => RdmaOpCode::SendOnlyWithInvalidate,
            _ => return None,
        };
        Some(variant)
    }

    /// The code of the operation.
    pub fn value(self) -> (r: u8)
        ensures
            r == self.spec_value(),
    {
        match self {
            RdmaOpCode::SendFirst => 0x00,
            RdmaOpCode::SendMiddle => 0x01,
            RdmaOpCode::SendLast => 0x02,
            RdmaOpCode::SendLastWithImmediate => 0x03,
            RdmaOpCode::SendOnly => 0x04,
            RdmaOpCode::SendOnlyWithImmediate => 0x05,
            RdmaOpCode::RdmaWriteFirst => 0x06,
            RdmaOpCode::RdmaWriteMiddle => 0x07,
            RdmaOpCode::RdmaWriteLast => 0x08,
            RdmaOpCode::RdmaWriteLastWithImmediate => 0x09,
            RdmaOpCode::RdmaWriteOnly => 0x0a,
            RdmaOpCode::RdmaWriteOnlyWithImmediate => 0x0b,
            RdmaOpCode::RdmaReadRequest => 0x0c,
            RdmaOpCode::RdmaReadResponseFirst => 0x0d,
            RdmaOpCode::RdmaReadResponseMiddle => 0x0e,
            RdmaOpCode::RdmaReadResponseLast => 0x0f,
            RdmaOpCode::RdmaReadResponseOnly => 0x10,
            RdmaOpCode::Acknowledge => 0x11,
            RdmaOpCode::AtomicAcknowledge => 0x12,
            RdmaOpCode::CompareSwap => 0x13,
            RdmaOpCode::FetchAdd => 0x14,
            RdmaOpCode::Resync => 0x15,
            RdmaOpCode::SendLastWithInvalidate => 0x16,
            RdmaOpCode::SendOnlyWithInvalidate => 0x17,
        }
    }

    /// Whether packets of the operation carry a message: sends, writes, read requests and
    /// read responses.
    pub fn is_packet(self) -> (r: bool)
        ensures
            r == (self.spec_value() <= 0x10),
    {
        self.value() <= 0x10
    }

    /// The position in its message of a packet of this operation, for operations that
    /// carry a message.
    pub fn packet_pos(self) -> (r: Option<PacketPos>)
        ensures
            r == self.spec_packet_pos(),
    {
        match self {
            RdmaOpCode::SendFirst | RdmaOpCode::RdmaWriteFirst | RdmaOpCode::RdmaReadResponseFirst => Some(PacketPos::First),
            RdmaOpCode::SendMiddle | RdmaOpCode::RdmaWriteMiddle | RdmaOpCode::RdmaReadResponseMiddle => Some(PacketPos::Middle),
            RdmaOpCode::SendLast | RdmaOpCode::SendLastWithImmediate | RdmaOpCode::RdmaWriteLast
            | RdmaOpCode::RdmaWriteLastWithImmediate | RdmaOpCode::RdmaReadResponseLast
            | RdmaOpCode::SendLastWithInvalidate => Some(PacketPos::Last),
            RdmaOpCode::SendOnly | RdmaOpCode::SendOnlyWithImmediate | RdmaOpCode::RdmaWriteOnly
            | RdmaOpCode::RdmaWriteOnlyWithImmediate | RdmaOpCode::RdmaReadResponseOnly
            | RdmaOpCode::SendOnlyWithInvalidate => Some(PacketPos::Only),
            RdmaOpCode::RdmaReadRequest | RdmaOpCode::Acknowledge | RdmaOpCode::AtomicAcknowledge
            | RdmaOpCode::CompareSwap | RdmaOpCode::FetchAdd | RdmaOpCode::Resync => None,
        }
    }

    /// Whether the operation acknowledges.
    pub fn is_ack(self) -> (r: bool)
        ensures
            r == (self == RdmaOpCode::Acknowledge || self == RdmaOpCode::AtomicAcknowledge),
    {
        match self {
            RdmaOpCode::Acknowledge | RdmaOpCode::AtomicAcknowledge => true,
            _ => false,
        }
    }
}


/// Report of a received packet that carries a message.
#[derive(Clone, Copy, Debug)]
pub struct MetaReportQueuePacketBasicInfoDesc {
    /// Bytes 0 to 7, read little-endian.
    pub c0: u64,
    /// Bytes 8 to 15, read little-endian.
    pub c1: u64,
    /// Bytes 16 to 23, read little-endian.
    pub c2: u64,
    /// Bytes 24 to 31, read little-endian.
    pub c3: u64,
}

impl MetaReportQueuePacketBasicInfoDesc {
    /// Position of the packet in its message. Only operations that carry a message have one.
    pub fn packet_pos(&self) -> (r: PacketPos)
        requires
            field_get(self.c0, 8, 8) <= 0x10,
            field_get(self.c0, 8, 8) != 0x0c,
        ensures
            exists|op: RdmaOpCode| op.spec_value() == field_get(self.c0, 8, 8) && op.spec_packet_pos() == Some(r),
    {
        let code = self.common_header().op_code();
        match RdmaOpCode::from_u8(code) {
            Some(op) => match op.packet_pos() {
                Some(pos) => pos,
                None => vstd::pervasive::unreached(),
            },
            None => vstd::pervasive::unreached(),
        }
    }

    /// Reads the common header.
    pub fn common_header(&self) -> (r: RingBufDescCommonHead)
        ensures
            r == RingBufDescCommonHead::spec_decode(self.c0),
    {
        RingBufDescCommonHead::decode(self.c0)
    }

    /// Reads the msn field.
    pub fn msn(&self) -> (r: u16)
        ensures
            r as u64 == field_get(self.c0, 16, 16),
    {
        get_u16(self.c0, 16, 16)
    }

    /// Writes the msn field; the other words stay as they were.
    pub fn set_msn(&mut self, val: u16)
        ensures
            final(self).c0 == field_set(old(self).c0, 16, 16, val as u64),
            final(self).c1 == old(self).c1,
            final(self).c2 == old(self).c2,
            final(self).c3 == old(self).c3,
    {
        self.c0 = set_field(self.c0, 16, 16, val as u64);
    }

    /// Reads the psn field.
    pub fn psn(&self) -> (r: u32)
        ensures
            r as u64 == field_get(self.c0, 32, 24),
    {
        get_u32(self.c0, 32, 24)
    }

    /// Writes the psn field; the other words stay as they were.
    pub fn set_psn(&mut self, val: u32)
        ensures
            final(self).c0 == field_set(old(self).c0, 32, 24, val as u64),
            final(self).c1 == old(self).c1,
            final(self).c2 == old(self).c2,
            final(self).c3 == old(self).c3,
    {
        self.c0 = set_field(self.c0, 32, 24, val as u64);
    }

    /// Reads the ecn marked field.
    pub fn ecn_marked(&self) -> (r: bool)
        ensures
            r == (field_get(self.c0, 56, 1) == 1),
    {
        get_bool(self.c0, 56)
    }

    /// Writes the ecn marked field; the other words stay as they were.
    pub fn set_ecn_marked(&mut self, val: bool)
        ensures
            final(self).c0 == field_set(old(self).c0, 56, 1, bool_bit(val)),
            final(self).c1 == old(self).c1,
            final(self).c2 == old(self).c2,
            final(self).c3 == old(self).c3,
    {
        self.c0 = set_field(self.c0, 56, 1, bit_of(val));
    }

    /// Reads the solicited field.
    pub fn solicited(&self) -> (r: bool)
        ensures
            r == (field_get(self.c0, 57, 1) == 1),
    {
        get_bool(self.c0, 57)
    }

    /// Writes the solicited field; the other words stay as they were.
    pub fn set_solicited(&mut self, val: bool)
        ensures
            final(self).c0 == field_set(old(self).c0, 57, 1, bool_bit(val)),
            final(self).c1 == old(self).c1,
            final(self).c2 == old(self).c2,
            final(self).c3 == old(self).c3,
    {
        self.c0 = set_field(self.c0, 57, 1, bit_of(val));
    }

    /// Reads the ack req field.
    pub fn ack_req(&self) -> (r: bool)
        ensures
            r == (field_get(self.c0, 58, 1) == 1),
    {
        get_bool(self.c0, 58)
    }

    /// Writes the ack req field; the other words stay as they were.
    pub fn set_ack_req(&mut self, val: bool)
        ensures
            final(self).c0 == field_set(old(self).c0, 58, 1, bool_bit(val)),
            final(self).c1 == old(self).c1,
            final(self).c2 == old(self).c2,
            final(self).c3 == old(self).c3,
    {
        self.c0 = set_field(self.c0, 58, 1, bit_of(val));
    }

    /// Reads the is retry field.
    pub fn is_retry(&self) -> (r: bool)
        ensures
            r == (field_get(self.c0, 59, 1) == 1),
    {
        get_bool(self.c0, 59)
    }

    /// Writes the is retry field; the other words stay as they were.
    pub fn set_is_retry(&mut self, val: bool)
        ensures
            final(self).c0 == field_set(old(self).c0, 59, 1, bool_bit(val)),
            final(self).c1 == old(self).c1,
            final(self).c2 == old(self).c2,
            final(self).c3 == old(self).c3,
    {
        self.c0 = set_field(self.c0, 59, 1, bit_of(val));
    }

    /// Reads the dqpn field.
    pub fn dqpn(&self) -> (r: u32)
        ensures
            r as u64 == field_get(self.c1, 0, 24),
    {
        get_u32(self.c1, 0, 24)
    }

    /// Writes the dqpn field; the other words stay as they were.
    pub fn set_dqpn(&mut self, val: u32)
        ensures
            final(self).c1 == field_set(old(self).c1, 0, 24, val as u64),
            final(self).c0 == old(self).c0,
            final(self).c2 == old(self).c2,
            final(self).c3 == old(self).c3,
    {
        self.c1 = set_field(self.c1, 0, 24, val as u64);
    }

    /// Reads the total len field.
    pub fn total_len(&self) -> (r: u32)
        ensures
            r as u64 == field_get(self.c1, 32, 32),
    {
        get_u32(self.c1, 32, 32)
    }

    /// Writes the total len field; the other words stay as they were.
    pub fn set_total_len(&mut self, val: u32)
        ensures
            final(self).c1 == field_set(old(self).c1, 32, 32, val as u64),
            final(self).c0 == old(self).c0,
            final(self).c2 == old(self).c2,
            final(self).c3 == old(self).c3,
    {
        self.c1 = set_field(self.c1, 32, 32, val as u64);
    }

    /// Reads the raddr field.
    pub fn raddr(&self) -> (r: u64)
        ensures
            r == self.c2,
    {
        self.c2
    }

    /// Writes the raddr field; the other words stay as they were.
    pub fn set_raddr(&mut self, val: u64)
        ensures
            final(self).c2 == val,
            final(self).c0 == old(self).c0,
            final(self).c1 == old(self).c1,
            final(self).c3 == old(self).c3,
    {
        self.c2 = val;
    }

    /// Reads the rkey field.
    pub fn rkey(&self) -> (r: u32)
        ensures
            r as u64 == field_get(self.c3, 0, 32),
    {
        get_u32(self.c3, 0, 32)
    }

    /// Writes the rkey field; the other words stay as they were.
    pub fn set_rkey(&mut self, val: u32)
        ensures
            final(self).c3 == field_set(old(self).c3, 0, 32, val as u64),
            final(self).c0 == old(self).c0,
            final(self).c1 == old(self).c1,
            final(self).c2 == old(self).c2,
    {
        self.c3 = set_field(self.c3, 0, 32, val as u64);
    }

    /// Reads the imm data field.
    pub fn imm_data(&self) -> (r: u32)
        ensures
            r as u64 == field_get(self.c3, 32, 32),
    {
        get_u32(self.c3, 32, 32)
    }

    /// Writes the imm data field; the other words stay as they were.
    pub fn set_imm_data(&mut self, val: u32)
        ensures
            final(self).c3 == field_set(old(self).c3, 32, 32, val as u64),
            final(self).c0 == old(self).c0,
            final(self).c1 == old(self).c1,
            final(self).c2 == old(self).c2,
    {
        self.c3 = set_field(self.c3, 32, 32, val as u64);
    }
}

/// Second report of an RDMA read request: its local side.
#[derive(Clone, Copy, Debug)]
pub struct MetaReportQueueReadReqExtendInfoDesc {
    /// Bytes 0 to 7, read little-endian.
    pub c0: u64,
    /// Bytes 8 to 15, read little-endian.
    pub c1: u64,
    /// Bytes 16 to 23, read little-endian.
    pub c2: u64,
    /// Bytes 24 to 31, read little-endian.
    pub c3: u64,
}

impl MetaReportQueueReadReqExtendInfoDesc {
    /// Reads the total len field.
    pub fn total_len(&self) -> (r: u32)
        ensures
            r as u64 == field_get(self.c0, 32, 32),
    {
        get_u32(self.c0, 32, 32)
    }

    /// Writes the total len field; the other words stay as they were.
    pub fn set_total_len(&mut self, val: u32)
        ensures
            final(self).c0 == field_set(old(self).c0, 32, 32, val as u64),
            final(self).c1 == old(self).c1,
            final(self).c2 == old(self).c2,
            final(self).c3 == old(self).c3,
    {
        self.c0 = set_field(self.c0, 32, 32, val as u64);
    }

    /// Reads the laddr field.
    pub fn laddr(&self) -> (r: u64)
        ensures
            r == self.c1,
    {
        self.c1
    }

    /// Writes the laddr field; the other words stay as they were.
    pub fn set_laddr(&mut self, val: u64)
        ensures
            final(self).c1 == val,
            final(self).c0 == old(self).c0,
            final(self).c2 == old(self).c2,
            final(self).c3 == old(self).c3,
    {
        self.c1 = val;
    }

    /// Reads the lkey field.
    pub fn lkey(&self) -> (r: u32)
        ensures
            r as u64 == field_get(self.c2, 0, 32),
    {
        get_u32(self.c2, 0, 32)
    }

    /// Writes the lkey field; the other words stay as they were.
    pub fn set_lkey(&mut self, val: u32)
        ensures
            final(self).c2 == field_set(old(self).c2, 0, 32, val as u64),
            final(self).c0 == old(self).c0,
            final(self).c1 == old(self).c1,
            final(self).c3 == old(self).c3,
    {
        self.c2 = set_field(self.c2, 0, 32, val as u64);
    }
}

/// Report of a received acknowledgement.
#[derive(Clone, Copy, Debug)]
pub struct MetaReportQueueAckDesc {
    /// Bytes 0 to 7, read little-endian.
    pub c0: u64,
    /// Bytes 8 to 15, read little-endian.
    pub c1: u64,
    /// Bytes 16 to 31, read little-endian.
    pub c2: u128,
}

impl MetaReportQueueAckDesc {
    /// Reads the common header.
    pub fn common_header(&self) -> (r: RingBufDescCommonHead)
        ensures
            r == RingBufDescCommonHead::spec_decode(self.c0),
    {
        RingBufDescCommonHead::decode(self.c0)
    }

    /// Reads the is send by local hw field.
    pub fn is_send_by_local_hw(&self) -> (r: bool)
        ensures
            r == (field_get(self.c0, 20, 1) == 1),
    {
        get_bool(self.c0, 20)
    }

    /// Writes the is send by local hw field; the other words stay as they were.
    pub fn set_is_send_by_local_hw(&mut self, val: bool)
        ensures
            final(self).c0 == field_set(old(self).c0, 20, 1, bool_bit(val)),
            final(self).c1 == old(self).c1,
            final(self).c2 == old(self).c2,
    {
        self.c0 = set_field(self.c0, 20, 1, bit_of(val));
    }

    /// Reads the is send by driver field.
    pub fn is_send_by_driver(&self) -> (r: bool)
        ensures
            r == (field_get(self.c0, 21, 1) == 1),
    {
        get_bool(self.c0, 21)
    }

    /// Writes the is send by driver field; the other words stay as they were.
    pub fn set_is_send_by_driver(&mut self, val: bool)
        ensures
            final(self).c0 == field_set(old(self).c0, 21, 1, bool_bit(val)),
            final(self).c1 == old(self).c1,
            final(self).c2 == old(self).c2,
    {
        self.c0 = set_field(self.c0, 21, 1, bit_of(val));
    }

    /// Reads the is window slided field.
    pub fn is_window_slided(&self) -> (r: bool)
        ensures
            r == (field_get(self.c0, 22, 1) == 1),
    {
        get_bool(self.c0, 22)
    }

    /// Writes the is window slided field; the other words stay as they were.
    pub fn set_is_window_slided(&mut self, val: bool)
        ensures
            final(self).c0 == field_set(old(self).c0, 22, 1, bool_bit(val)),
            final(self).c1 == old(self).c1,
            final(self).c2 == old(self).c2,
    {
        self.c0 = set_field(self.c0, 22, 1, bit_of(val));
    }

    /// Reads the is packet lost field.
    pub fn is_packet_lost(&self) -> (r: bool)
        ensures
            r == (field_get(self.c0, 23, 1) == 1),
    {
        get_bool(self.c0, 23)
    }

    /// Writes the is packet lost field; the other words stay as they were.
    pub fn set_is_packet_lost(&mut self, val: bool)
        ensures
            final(self).c0 == field_set(old(self).c0, 23, 1, bool_bit(val)),
            final(self).c1 == old(self).c1,
            final(self).c2 == old(self).c2,
    {
        self.c0 = set_field(self.c0, 23, 1, bit_of(val));
    }

    /// Reads the psn before slide field.
    pub fn psn_before_slide(&self) -> (r: u32)
        ensures
            r as u64 == field_get(self.c0, 32, 24),
    {
        get_u32(self.c0, 32, 24)
    }

    /// Writes the psn before slide field; the other words stay as they were.
    pub fn set_psn_before_slide(&mut self, val: u32)
        ensures
            final(self).c0 == field_set(old(self).c0, 32, 24, val as u64),
            final(self).c1 == old(self).c1,
            final(self).c2 == old(self).c2,
    {
        self.c0 = set_field(self.c0, 32, 24, val as u64);
    }

    /// Reads the psn now field.
    pub fn psn_now(&self) -> (r: u32)
        ensures
            r as u64 == field_get(self.c1, 0, 24),
    {
        get_u32(self.c1, 0, 24)
    }

    /// Writes the psn now field; the other words stay as they were.
    pub fn set_psn_now(&mut self, val: u32)
        ensures
            final(self).c1 == field_set(old(self).c1, 0, 24, val as u64),
            final(self).c0 == old(self).c0,
            final(self).c2 == old(self).c2,
    {
        self.c1 = set_field(self.c1, 0, 24, val as u64);
    }

    /// Reads the qpn field.
    pub fn qpn(&self) -> (r: u32)
        ensures
            r as u64 == field_get(self.c1, 24, 24),
    {
        get_u32(self.c1, 24, 24)
    }

    /// Writes the qpn field; the other words stay as they were.
    pub fn set_qpn(&mut self, val: u32)
        ensures
            final(self).c1 == field_set(old(self).c1, 24, 24, val as u64),
            final(self).c0 == old(self).c0,
            final(self).c2 == old(self).c2,
    {
        self.c1 = set_field(self.c1, 24, 24, val as u64);
    }

    /// Reads the msn field.
    pub fn msn(&self) -> (r: u16)
        ensures
            r as u64 == field_get(self.c1, 48, 16),
    {
        get_u16(self.c1, 48, 16)
    }

    /// Writes the msn field; the other words stay as they were.
    pub fn set_msn(&mut self, val: u16)
        ensures
            final(self).c1 == field_set(old(self).c1, 48, 16, val as u64),
            final(self).c0 == old(self).c0,
            final(self).c2 == old(self).c2,
    {
        self.c1 = set_field(self.c1, 48, 16, val as u64);
    }

    /// Reads the now bitmap field.
    pub fn now_bitmap(&self) -> (r: u128)
        ensures
            r == self.c2,
    {
        self.c2
    }

    /// Writes the now bitmap field; the other words stay as they were.
    pub fn set_now_bitmap(&mut self, val: u128)
        ensures
            final(self).c2 == val,
            final(self).c0 == old(self).c0,
            final(self).c1 == old(self).c1,
    {
        self.c2 = val;
    }
}

/// Second report of a negative acknowledgement: the bitmap before the window moved.
#[derive(Clone, Copy, Debug)]
pub struct MetaReportQueueAckExtraDesc {
    /// Bytes 0 to 7, read little-endian.
    pub c0: u64,
    /// Bytes 8 to 15, read little-endian.
    pub c1: u64,
    /// Bytes 16 to 31, read little-endian.
    pub c2: u128,
}

impl MetaReportQueueAckExtraDesc {
    /// Reads the pre bitmap field.
    pub fn pre_bitmap(&self) -> (r: u128)
        ensures
            r == self.c2,
    {
        self.c2
    }

    /// Writes the pre bitmap field; the other words stay as they were.
    pub fn set_pre_bitmap(&mut self, val: u128)
        ensures
            final(self).c2 == val,
            final(self).c0 == old(self).c0,
            final(self).c1 == old(self).c1,
    {
        self.c2 = val;
    }
}

/// The 128-bit little-endian value of two words, low word first.
pub open spec fn wide_word(lo: u64, hi: u64) -> u128 {
    (lo + hi * 0x1_0000_0000_0000_0000) as u128
}

/// Joins two words into a 128-bit value, low word first.
fn join_words(lo: u64, hi: u64) -> (r: u128)
    ensures
        r == wide_word(lo, hi),
{
    assert((lo as u128) | ((hi as u128) << 64u128) == lo + hi * 0x1_0000_0000_0000_0000)
        by (bit_vector);
    (lo as u128) | ((hi as u128) << 64u128)
}

/// The first descriptor of a report.
#[derive(Debug, Clone, Copy)]
pub enum MetaReportQueueDescFirst {
    /// A packet that carries a message
    PacketInfo(MetaReportQueuePacketBasicInfoDesc),
    /// An acknowledgement
    Ack(MetaReportQueueAckDesc),
}

impl MetaReportQueueDescFirst {
    /// Reads a descriptor by the operation code in its header. The code must name an
    /// operation that carries a message or acknowledges.
    pub fn from(desc: RingBufDescUntyped) -> (r: Self)
        requires
            field_get(desc.c0, 8, 8) <= 0x12,
        ensures
            field_get(desc.c0, 8, 8) <= 0x10 ==> r == MetaReportQueueDescFirst::PacketInfo(
                MetaReportQueuePacketBasicInfoDesc { c0: desc.c0, c1: desc.c1, c2: desc.c2, c3: desc.c3 },
            ),
            field_get(desc.c0, 8, 8) > 0x10 ==> r == MetaReportQueueDescFirst::Ack(
                MetaReportQueueAckDesc { c0: desc.c0, c1: desc.c1, c2: wide_word(desc.c2, desc.c3) },
            ),
    {
        let code = desc.head().op_code();
        match RdmaOpCode::from_u8(code) {
            Some(op) => {
                if op.is_packet() {
                    MetaReportQueueDescFirst::PacketInfo(
                        MetaReportQueuePacketBasicInfoDesc { c0: desc.c0, c1: desc.c1, c2: desc.c2, c3: desc.c3 },
                    )
                } else if op.is_ack() {
                    MetaReportQueueDescFirst::Ack(
                        MetaReportQueueAckDesc { c0: desc.c0, c1: desc.c1, c2: join_words(desc.c2, desc.c3) },
                    )
                } else {
                    vstd::pervasive::unreached()
                }
            },
            None => vstd::pervasive::unreached(),
        }
    }

    /// Whether another descriptor of the same report follows.
    pub fn has_next(&self) -> (r: bool)
        ensures
            r == (match *self {
                MetaReportQueueDescFirst::PacketInfo(d) => field_get(d.c0, 1, 1) == 1,
                MetaReportQueueDescFirst::Ack(d) => field_get(d.c0, 1, 1) == 1,
            }),
    {
        match *self {
            MetaReportQueueDescFirst::PacketInfo(d) => d.common_header().has_next(),
            MetaReportQueueDescFirst::Ack(d) => d.common_header().has_next(),
        }
    }
}

/// The descriptor that follows the first one of a report.
#[derive(Debug, Clone, Copy)]
pub enum MetaReportQueueDescNext {
    /// The local side of a read request
    ReadInfo(MetaReportQueueReadReqExtendInfoDesc),
    /// The earlier bitmap of a negative acknowledgement
    AckExtra(MetaReportQueueAckExtraDesc),
}

impl MetaReportQueueDescNext {
    /// Reads a following descriptor by the operation code in its header. The code must name
    /// an operation that carries a message or acknowledges.
    pub fn from(desc: RingBufDescUntyped) -> (r: Self)
        requires
            field_get(desc.c0, 8, 8) <= 0x12,
        ensures
            field_get(desc.c0, 8, 8) <= 0x10 ==> r == MetaReportQueueDescNext::ReadInfo(
                MetaReportQueueReadReqExtendInfoDesc { c0: desc.c0, c1: desc.c1, c2: desc.c2, c3: desc.c3 },
            ),
            field_get(desc.c0, 8, 8) > 0x10 ==> r == MetaReportQueueDescNext::AckExtra(
                MetaReportQueueAckExtraDesc { c0: desc.c0, c1: desc.c1, c2: wide_word(desc.c2, desc.c3) },
            ),
    {
        let code = desc.head().op_code();
        match RdmaOpCode::from_u8(code) {
            Some(op) => {
                if op.is_packet() {
                    MetaReportQueueDescNext::ReadInfo(
                        MetaReportQueueReadReqExtendInfoDesc { c0: desc.c0, c1: desc.c1, c2: desc.c2, c3: desc.c3 },
                    )
                } else if op.is_ack() {
                    MetaReportQueueDescNext::AckExtra(
                        MetaReportQueueAckExtraDesc { c0: desc.c0, c1: desc.c1, c2: join_words(desc.c2, desc.c3) },
                    )
                } else {
                    vstd::pervasive::unreached()
                }
            },
            None => vstd::pervasive::unreached(),
        }
    }
}

} // verus!
