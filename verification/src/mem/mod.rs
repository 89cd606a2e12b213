//! Memory helpers: page arithmetic, physical address resolution, slot allocation.
use vstd::prelude::*;

pub mod page;
pub mod sim_alloc;
pub mod slot_alloc;
pub mod virt_to_phy;

verus! {

/// Number of bits of the page size (4 KiB pages).
pub const PAGE_SIZE_BITS: u8 = 12;

/// Size of a page in bytes.
pub const PAGE_SIZE: usize = 4096;

/// Number of pages spanned by `length` bytes at `addr`, computed with saturating arithmetic.
pub open spec fn spec_num_page(addr: u64, length: usize) -> int {
    if length == 0 {
        0
    } else {
        let sum = if addr + length > u64::MAX {
            u64::MAX as int
        } else {
            addr + length
        };
        let last = sum - 1;
        let start_page = (addr as int) / (PAGE_SIZE as int);
        let end_page = last / (PAGE_SIZE as int);
        let diff = if end_page >= start_page {
            end_page - start_page
        } else {
            0
        };
        diff + 1
    }
}

/// Calculates the number of pages spanned by a memory region.
pub fn get_num_page(addr: u64, length: usize) -> (r: usize)
    requires
        spec_num_page(addr, length) <= usize::MAX,
    ensures
        r == spec_num_page(addr, length),
{
    if length == 0 {
        return 0;
    }
    let last = addr.saturating_add(length as u64).saturating_sub(1);
    let start_page = addr / (PAGE_SIZE as u64);
    let end_page = last / (PAGE_SIZE as u64);
    (end_page.saturating_sub(start_page) + 1) as usize
}

/// A region spans every page from the one holding its first byte to the one holding its
/// last byte.
pub proof fn lemma_num_page_covers(addr: u64, length: usize)
    requires
        length > 0,
        addr + length <= u64::MAX,
    ensures
        spec_num_page(addr, length) == (addr + length - 1) / (PAGE_SIZE as int) - (addr as int) / (PAGE_SIZE as int) + 1,
        spec_num_page(addr, length) * (PAGE_SIZE as int) >= length,
{
    let p = PAGE_SIZE as int;
    let a = addr as int;
    let l = length as int;
    assert((a + l - 1) / p >= a / p) by (nonlinear_arith)
        requires
            l >= 1,
            p > 0,
            a >= 0,
    {
        vstd::arithmetic::div_mod::lemma_div_is_ordered(a, a + l - 1, p);
    }
    assert(((a + l - 1) / p - a / p + 1) * p >= l) by (nonlinear_arith)
        requires
            l >= 1,
            p > 0,
            a >= 0,
    {
        let q1 = a / p;
        let q2 = (a + l - 1) / p;
        assert(a == q1 * p + a % p);
        assert(a + l - 1 == q2 * p + (a + l - 1) % p);
    }
}

} // verus!
