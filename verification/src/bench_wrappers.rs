//! Entry points for benchmarking the ring buffer and address resolution.
use vstd::prelude::*;

use crate::mem::slot_alloc::SlotAlloc;
use crate::mem::virt_to_phy::{spec_decode_entry, virt_to_phy, virt_to_phy_range};
use crate::mem::slot_alloc::RcSlot;
use crate::ring::{Descriptor, Dummy, Ring, RingCtx, RING_BUF_LEN, RING_PTR_WRAP};

verus! {

/// Resolves each address of `virt_addrs` with the page map entry read for it.
pub fn virt_to_phy_bench_wrapper(virt_addrs: &Vec<u64>, entries: &Vec<u64>) -> (r: Vec<
    Option<u64>,
>)
    requires
        virt_addrs.len() == entries.len(),
    ensures
        r.len() == virt_addrs.len(),
        forall|i: int|
            0 <= i < r.len() ==> #[trigger] r[i] == spec_decode_entry(entries[i], virt_addrs[i]),
{
    virt_to_phy(virt_addrs, entries)
}

/// Resolves the pages starting at `start_addr` with the page map entries read for them.
pub fn virt_to_phy_bench_range_wrapper(start_addr: u64, entries: &Vec<u64>) -> (r: Vec<
    Option<u64>,
>)
    ensures
        r.len() == entries.len(),
        forall|i: int|
            0 <= i < r.len() ==> #[trigger] r[i] == spec_decode_entry(entries[i], start_addr),
{
    virt_to_phy_range(start_addr, entries)
}

/// A 32-byte descriptor used for benchmarking.
#[derive(Clone, Copy)]
pub struct BenchDesc {
    inner: [u8; 32],
}

impl BenchDesc {
    /// The bytes of the descriptor.
    pub closed spec fn bytes(&self) -> Seq<u8> {
        self.inner@
    }

    /// Creates a descriptor from its bytes.
    pub fn new(data: [u8; 32]) -> (r: Self)
        ensures
            r.bytes() == data@,
    {
        Self { inner: data }
    }
}

impl Descriptor for BenchDesc {
    const SIZE: usize = 24;

    /// Benchmark descriptors are always consumable.
    open spec fn spec_valid(&self) -> bool {
        true
    }

    closed spec fn spec_consumed(&self) -> Self {
        BenchDesc { inner: vstd::array::spec_array_update(self.inner, 0, 0u8) }
    }

    fn try_consume(&mut self) -> (r: bool) {
        broadcast use vstd::array::group_array_axioms;

        let _valid = self.inner[0] == 1;
        self.inner[0] = 0;
        true
    }
}

/// Consuming a benchmark descriptor clears its first byte and keeps the others.
pub proof fn lemma_bench_consumed_bytes(d: BenchDesc)
    ensures
        d.spec_consumed().bytes() == d.bytes().update(0, 0u8),
{
    broadcast use vstd::array::group_array_axioms;

}

/// Size of the slot that backs the benchmark ring.
pub const BENCH_SLOT_SIZE: usize = 3072;

/// Slot size of the benchmark ring.
pub struct BenchSlotSize;

impl BenchSlotSize {
    /// Room for `RING_BUF_LEN` benchmark descriptors.
    pub fn size() -> (r: usize)
        ensures
            r == BenchDesc::SIZE * RING_BUF_LEN,
    {
        BenchDesc::SIZE * RING_BUF_LEN
    }
}

/// A ring of benchmark descriptors.
pub struct RingWrapper {
    inner: Ring<RcSlot<Vec<u8>>, Dummy, BenchDesc>,
}

impl RingWrapper {
    /// The ring is well formed.
    pub closed spec fn wf(&self) -> bool {
        self.inner.wf()
    }

    /// Number of descriptors produced and not yet consumed.
    pub open spec fn pending_count(&self) -> int {
        self.pending().len() as int
    }

    /// The slot that backs the ring.
    pub closed spec fn buffer(&self) -> RcSlot<Vec<u8>> {
        self.inner.buffer()
    }

    /// The descriptors produced and not yet consumed, oldest first.
    pub closed spec fn pending(&self) -> Seq<BenchDesc> {
        self.inner.pending()
    }

    /// Writes `descs` without checking for free space.
    pub fn force_produce(&mut self, descs: Vec<BenchDesc>)
        requires
            old(self).wf(),
        ensures
            final(self).wf(),
            final(self).buffer() == old(self).buffer(),
            descs.len() + old(self).pending_count() <= RING_BUF_LEN ==> final(self).pending()
                == old(self).pending() + descs@,
            descs.len() + old(self).pending_count() <= RING_BUF_LEN ==> final(self).pending_count()
                == old(self).pending_count() + descs.len(),
    {
        self.inner.force_produce(descs);
    }

    /// Writes `descs`; the ring must have room for all of them.
    pub fn produce(&mut self, descs: Vec<BenchDesc>)
        requires
            old(self).wf(),
            old(self).pending_count() + descs.len() <= RING_BUF_LEN,
        ensures
            final(self).wf(),
            final(self).buffer() == old(self).buffer(),
            final(self).pending() == old(self).pending() + descs@,
            final(self).pending_count() == old(self).pending_count() + descs.len(),
    {
        let r = self.inner.produce(descs);
        proof {
            assert(r is Ok);
        }
    }

    /// Consumes the descriptor at the consumer pointer.
    pub fn consume(&mut self) -> (r: Option<BenchDesc>)
        requires
            old(self).wf(),
        ensures
            final(self).wf(),
            final(self).buffer() == old(self).buffer(),
            r is Some,
            0 < old(self).pending_count() <= RING_BUF_LEN ==> {
                &&& r == Some(old(self).pending()[0].spec_consumed())
                &&& final(self).pending() == old(self).pending().drop_first()
            },
    {
        self.inner.try_consume()
    }
}

/// Creates a benchmark ring over one slot of `mem`: the last of its slots of
/// `BENCH_SLOT_SIZE` bytes, which holds exactly `RING_BUF_LEN` descriptors.
pub fn create_ring_wrapper(mem: Vec<u8>) -> (r: RingWrapper)
    requires
        mem.len() >= BENCH_SLOT_SIZE,
    ensures
        r.wf(),
        r.pending_count() == 0,
        r.buffer().spec_mem() == mem,
        r.buffer().spec_len() == BenchDesc::SIZE * RING_BUF_LEN,
        r.buffer().spec_index() == mem.len() / BENCH_SLOT_SIZE - 1,
        r.buffer().spec_offset() == r.buffer().spec_index() * BENCH_SLOT_SIZE,
{
    let mut alloc = SlotAlloc::new(mem, BenchSlotSize::size());
    let slot = alloc.alloc_one();
    let slot = match slot {
        Some(s) => s,
        None => {
            return vstd::pervasive::unreached();
        },
    };
    let ring_ctx = RingCtx::new(Dummy);
    let ring = Ring::<RcSlot<Vec<u8>>, Dummy, BenchDesc>::new(
        ring_ctx,
        slot,
        BenchDesc::new([0u8; 32]),
    );
    match ring {
        Some(inner) => RingWrapper { inner },
        None => vstd::pervasive::unreached(),
    }
}

} // verus!
