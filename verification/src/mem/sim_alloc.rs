//! Layout of the shared memory that the simulator and the driver share.
//!
//! ```text
//! +----------------------+ SHM_START_ADDR + 256MB
//! |      Heap Space      | (192MB - 256MB)
//! +----------------------+ SHM_START_ADDR + 192MB
//! |      Page Space      | (128MB - 192MB)
//! +----------------------+ SHM_START_ADDR + 128MB
//! |      Reserved        | (0MB - 128MB)
//! +----------------------+ SHM_START_ADDR
//! ```
use vstd::prelude::*;

verus! {

/// Size of the shared memory block.
pub const SHM_BLOCK_SIZE: u64 = 0x1000_0000;

/// Address the shared memory is mapped at.
pub const SHM_START_ADDR: u64 = 0x7f7e_8e60_0000;

/// Offset of the heap in the shared memory.
pub const HEAP_START_ADDR_OFFSET: u64 = 0xc00_0000;

/// Offset of the page space in the shared memory.
pub const PAGE_START_ADDR_OFFSET: u64 = 0x800_0000;

/// Start of the shared memory.
pub fn shm_start_addr() -> (r: u64)
    ensures
        r == SHM_START_ADDR,
{
    SHM_START_ADDR
}

/// Start of the page space.
pub fn page_start_addr() -> (r: u64)
    ensures
        r == SHM_START_ADDR + PAGE_START_ADDR_OFFSET,
{
    SHM_START_ADDR + PAGE_START_ADDR_OFFSET
}

/// Start of the heap.
pub fn heap_start_addr() -> (r: u64)
    ensures
        r == SHM_START_ADDR + HEAP_START_ADDR_OFFSET,
{
    SHM_START_ADDR + HEAP_START_ADDR_OFFSET
}

/// Size of the heap: the rest of the block after its start.
pub fn heap_size() -> (r: u64)
    ensures
        r == SHM_BLOCK_SIZE - HEAP_START_ADDR_OFFSET,
{
    SHM_BLOCK_SIZE - HEAP_START_ADDR_OFFSET
}

/// The reserved space, the page space and the heap follow each other inside the block, and
/// each is a whole number of pages.
pub proof fn lemma_layout()
    ensures
        SHM_START_ADDR < SHM_START_ADDR + PAGE_START_ADDR_OFFSET,
        PAGE_START_ADDR_OFFSET < HEAP_START_ADDR_OFFSET,
        HEAP_START_ADDR_OFFSET < SHM_BLOCK_SIZE,
        PAGE_START_ADDR_OFFSET % 4096 == 0,
        HEAP_START_ADDR_OFFSET % 4096 == 0,
        SHM_START_ADDR % 4096 == 0,
{
}

} // verus!
