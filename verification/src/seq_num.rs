//! Wrapping comparisons of message and packet sequence numbers.
use vstd::prelude::*;

use crate::constants::{MAX_MSN_WINDOW, MAX_PSN_WINDOW, PSN_MASK};

verus! {

/// Distance from MSN `a` forward to MSN `b`, modulo 2^16.
pub open spec fn msn_dist(a: u16, b: u16) -> u16 {
    vstd::wrapping::u16_specs::wrapping_sub(b, a)
}

/// MSN `a` comes strictly before MSN `b`: `b` lies less than half the MSN space ahead.
pub open spec fn spec_msn_lt(a: u16, b: u16) -> bool {
    0 < msn_dist(a, b) < MAX_MSN_WINDOW
}

/// Distance from PSN `a` forward to PSN `b`, modulo 2^24.
pub open spec fn psn_dist(a: u32, b: u32) -> u32 {
    vstd::wrapping::u32_specs::wrapping_sub(b, a) & PSN_MASK
}

/// PSN `a` comes at or before PSN `b`: `b` lies less than half the PSN space ahead.
pub open spec fn spec_psn_le(a: u32, b: u32) -> bool {
    psn_dist(a, b) < MAX_PSN_WINDOW
}

/// PSN `a` comes strictly before PSN `b`.
pub open spec fn spec_psn_lt(a: u32, b: u32) -> bool {
    0 < psn_dist(a, b) < MAX_PSN_WINDOW
}

/// Whether MSN `a` comes strictly before MSN `b`.
pub fn msn_lt(a: u16, b: u16) -> (r: bool)
    ensures
        r == spec_msn_lt(a, b),
{
    let d = b.wrapping_sub(a);
    0 < d && d < MAX_MSN_WINDOW
}

/// Whether MSN `a` comes strictly after MSN `b`.
pub fn msn_gt(a: u16, b: u16) -> (r: bool)
    ensures
        r == spec_msn_lt(b, a),
{
    msn_lt(b, a)
}

/// Whether PSN `a` comes at or before PSN `b`.
pub fn psn_le(a: u32, b: u32) -> (r: bool)
    ensures
        r == spec_psn_le(a, b),
{
    (b.wrapping_sub(a) & PSN_MASK) < MAX_PSN_WINDOW
}

/// Whether PSN `a` comes strictly before PSN `b`.
pub fn psn_lt(a: u32, b: u32) -> (r: bool)
    ensures
        r == spec_psn_lt(a, b),
{
    let d = b.wrapping_sub(a) & PSN_MASK;
    0 < d && d < MAX_PSN_WINDOW
}

/// The MSN order is irreflexive and asymmetric.
pub proof fn lemma_msn_lt_asymmetric(a: u16, b: u16)
    ensures
        !spec_msn_lt(a, a),
        spec_msn_lt(a, b) ==> !spec_msn_lt(b, a),
{
}

/// Two MSNs that are not half the space apart are ordered one way or the other.
pub proof fn lemma_msn_lt_total(a: u16, b: u16)
    requires
        msn_dist(a, b) != MAX_MSN_WINDOW,
    ensures
        a == b || spec_msn_lt(a, b) || spec_msn_lt(b, a),
{
}

/// Every PSN comes at or before itself, and `psn_lt` is `psn_le` without equality of the
/// 24-bit values.
pub proof fn lemma_psn_le_reflexive(a: u32, b: u32)
    ensures
        spec_psn_le(a, a),
        spec_psn_lt(a, b) <==> spec_psn_le(a, b) && psn_dist(a, b) != 0,
{
    assert(0u32 & PSN_MASK == 0) by (bit_vector);
}

} // verus!
