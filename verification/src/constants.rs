//! Protocol-wide constants.
use vstd::prelude::*;

verus! {

/// Maximum number of bits used to represent a PSN.
pub const MAX_PSN_SIZE_BITS: u32 = 24;

/// Maximum size of the PSN window: the maximum number of outstanding PSNs.
pub const MAX_PSN_WINDOW: u32 = 0x80_0000;

/// Bit mask used to extract the PSN value from a 32-bit number.
pub const PSN_MASK: u32 = 0xff_ffff;

/// Maximum number of bits used to represent a MSN.
pub const MAX_MSN_SIZE_BITS: u32 = 16;

/// Maximum size of the MSN window.
pub const MAX_MSN_WINDOW: u16 = 0x8000;

/// Maximum number of queue pairs.
pub const MAX_QP_CNT: usize = 1024;

/// Width of the key part of a queue pair number.
pub const QPN_KEY_PART_WIDTH: u32 = 8;

/// Width of the index part of a queue pair number.
pub const QPN_IDX_PART_WIDTH: u32 = 24;

/// Maximum number of completion queues.
pub const MAX_CQ_CNT: usize = 1024;

/// Maximum number of outstanding send work requests of a queue pair.
pub const MAX_SEND_WR: usize = 0x8000;

/// IP address of the test card.
pub const TEST_CARD_IP_ADDRESS: u32 = 0x1122_330A;

/// MAC address of the card.
pub const CARD_MAC_ADDRESS: u64 = 0xAABB_CCDD_EE0A;

} // verus!
