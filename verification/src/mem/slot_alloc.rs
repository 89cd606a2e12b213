//! A fixed-size slot allocator over one consecutive memory region.
use std::sync::Arc;

use vstd::prelude::*;

verus! {

/// A consecutive region of bytes whose length can be read.
pub trait ByteRegion {
    /// Number of bytes of the region.
    spec fn region_len(&self) -> nat;

    /// Number of bytes of the region.
    fn byte_len(&self) -> (r: usize)
        ensures
            r == self.region_len(),
    ;
}

impl ByteRegion for Vec<u8> {
    open spec fn region_len(&self) -> nat {
        self@.len()
    }

    fn byte_len(&self) -> (r: usize) {
        self.len()
    }
}

impl<const N: usize> ByteRegion for [u8; N] {
    open spec fn region_len(&self) -> nat {
        N as nat
    }

    fn byte_len(&self) -> (r: usize) {
        N
    }
}

/// `Arc::clone`: a new handle to the same shared value.
///
/// The contract claims only that the clone refers to an equal value; that it is the same
/// allocation is not stated.
#[verifier::external_body]
fn arc_clone<Mem>(a: &Arc<Mem>) -> (r: Arc<Mem>)
    ensures
        r == *a,
{
    Arc::clone(a)
}

/// `Arc::ptr_eq`: whether two handles point to the same allocation.
///
/// The contract claims that handles to one allocation refer to equal values; which
/// handles share an allocation depends on addresses and is not stated.
#[verifier::external_body]
fn arc_ptr_eq<Mem>(a: &Arc<Mem>, b: &Arc<Mem>) -> (r: bool)
    ensures
        r ==> *a == *b,
{
    Arc::ptr_eq(a, b)
}

/// A slot of a region: the bytes `[offset, offset + len)` of the shared memory object.
pub struct RcSlot<Mem> {
    /// Reference counted memory object
    rc: Arc<Mem>,
    /// Index of the slot in the region
    index: usize,
    /// Offset of the slot in bytes
    offset: usize,
    /// Length of the slot in bytes
    len: usize,
}

impl<Mem> RcSlot<Mem> {
    /// Index of the slot in its region.
    pub closed spec fn spec_index(&self) -> usize {
        self.index
    }

    /// Offset of the slot in bytes.
    pub closed spec fn spec_offset(&self) -> usize {
        self.offset
    }

    /// Length of the slot in bytes.
    pub closed spec fn spec_len(&self) -> usize {
        self.len
    }

    /// The memory object the slot belongs to.
    pub closed spec fn spec_mem(&self) -> Mem {
        *self.rc
    }

    /// Creates a slot of `len` bytes at `offset`, holding `rc` alive.
    fn new(rc: Arc<Mem>, index: usize, offset: usize, len: usize) -> (r: Self)
        ensures
            r.spec_mem() == *rc,
            r.spec_index() == index,
            r.spec_offset() == offset,
            r.spec_len() == len,
    {
        Self { rc, index, offset, len }
    }

    /// Index of the slot in its region.
    pub fn index(&self) -> (r: usize)
        ensures
            r == self.spec_index(),
    {
        self.index
    }

    /// Offset of the slot in bytes.
    pub fn offset(&self) -> (r: usize)
        ensures
            r == self.spec_offset(),
    {
        self.offset
    }

    /// Length of the slot in bytes.
    pub fn len(&self) -> (r: usize)
        ensures
            r == self.spec_len(),
    {
        self.len
    }

    /// The shared memory object.
    pub fn mem(&self) -> (r: &Mem)
        ensures
            *r == self.spec_mem(),
    {
        &*self.rc
    }
}

/// A fixed-size slot allocator that manages memory slots within a consecutive memory region.
pub struct SlotAlloc<Mem> {
    /// Reference counted memory object
    rc: Arc<Mem>,
    /// Free slots to allocate
    slots: Vec<RcSlot<Mem>>,
    /// Whole length of `Mem` in bytes
    len: usize,
    /// Size of every slot
    slot_size: usize,
}

impl<Mem> SlotAlloc<Mem> {
    /// Size of a slot.
    pub closed spec fn spec_slot_size(&self) -> usize {
        self.slot_size
    }

    /// Length of the region.
    pub closed spec fn spec_len(&self) -> usize {
        self.len
    }

    /// The memory region.
    pub closed spec fn spec_mem(&self) -> Mem {
        *self.rc
    }

    /// Number of slots the region splits into.
    pub open spec fn spec_total(&self) -> int {
        (self.spec_len() / self.spec_slot_size()) as int
    }

    /// Indices of the free slots, in the order `alloc_one` hands them out last-first.
    pub closed spec fn free_indices(&self) -> Seq<usize> {
        self.slots@.map_values(|s: RcSlot<Mem>| s.index)
    }

    /// The free slots are distinct slots of this region, and the slot size is positive.
    pub closed spec fn wf(&self) -> bool {
        &&& 0 < self.slot_size <= self.len
        &&& forall|i: int|
            0 <= i < self.slots.len() ==> {
                let s = #[trigger] self.slots@[i];
                &&& s.index < self.len / self.slot_size
                &&& s.offset == s.index * self.slot_size
                &&& s.len == self.slot_size
                &&& *s.rc == *self.rc
            }
        &&& forall|i: int, j: int|
            0 <= i < j < self.slots.len() ==> #[trigger] self.slots@[i].index
                != #[trigger] self.slots@[j].index
    }

    /// A slot is one that this allocator hands out.
    pub open spec fn is_slot_of(&self, slot: &RcSlot<Mem>) -> bool {
        &&& slot.spec_index() < self.spec_total()
        &&& slot.spec_offset() == slot.spec_index() * self.spec_slot_size()
        &&& slot.spec_len() == self.spec_slot_size()
        &&& slot.spec_mem() == self.spec_mem()
    }

    /// Creates a slot allocator over the bytes of `mem`, split into slots of `slot_size`
    /// bytes; trailing bytes that do not fill a slot are left out.
    pub fn new(mem: Mem, slot_size: usize) -> (r: Self)
        where
            Mem: ByteRegion,
        requires
            0 < slot_size <= mem.region_len(),
        ensures
            r.wf(),
            r.spec_mem() == mem,
            r.spec_len() == mem.region_len(),
            r.spec_slot_size() == slot_size,
            r.free_indices() == Seq::new(
                (mem.region_len() / (slot_size as nat)) as nat,
                |i: int| i as usize,
            ),
    {
        let mem_len = mem.byte_len();
        let mem_arc = Arc::new(mem);
        let total = mem_len / slot_size;
        let mut slots: Vec<RcSlot<Mem>> = Vec::new();
        let mut i: usize = 0;
        while i < total
            invariant
                total == mem_len / slot_size,
                0 < slot_size <= mem_len,
                i <= total,
                *mem_arc == mem,
                slots.len() == i,
                forall|j: int|
                    0 <= j < i ==> {
                        let s = #[trigger] slots@[j];
                        &&& s.index == j
                        &&& s.offset == j * slot_size
                        &&& s.len == slot_size
                        &&& *s.rc == mem
                    },
            decreases total - i,
        {
            proof {
                assert(i * slot_size <= mem_len) by (nonlinear_arith)
                    requires
                        i < total,
                        total == mem_len / slot_size,
                        slot_size > 0,
                {
                }
            }
            let slot = RcSlot::new(arc_clone(&mem_arc), i, i * slot_size, slot_size);
            slots.push(slot);
            i = i + 1;
        }
        let r = Self { rc: mem_arc, slots, len: mem_len, slot_size };
        assert(r.free_indices() =~= Seq::new((mem_len / slot_size) as nat, |i: int| i as usize));
        r
    }

    /// Allocates a free slot, the one freed or created last, if any is left.
    pub fn alloc_one(&mut self) -> (r: Option<RcSlot<Mem>>)
        requires
            old(self).wf(),
        ensures
            final(self).wf(),
            final(self).spec_mem() == old(self).spec_mem(),
            final(self).spec_len() == old(self).spec_len(),
            final(self).spec_slot_size() == old(self).spec_slot_size(),
            old(self).free_indices().len() == 0 ==> r is None && final(self).free_indices()
                == old(self).free_indices(),
            old(self).free_indices().len() > 0 ==> {
                &&& r is Some
                &&& old(self).is_slot_of(&r->0)
                &&& r->0.spec_index() == old(self).free_indices().last()
                &&& final(self).free_indices() == old(self).free_indices().drop_last()
                &&& !final(self).free_indices().contains(r->0.spec_index())
            },
    {
        let r = self.slots.pop();
        proof {
            let old_free = old(self).free_indices();
            if old_free.len() == 0 {
                assert(self.free_indices() =~= old_free);
            } else {
                assert(self.free_indices() =~= old_free.drop_last());
                let s = r->0;
                assert(s == old(self).slots@[old(self).slots.len() - 1]);
                if self.free_indices().contains(s.index) {
                    let j = choose|j: int|
                        0 <= j < self.free_indices().len() && self.free_indices()[j] == s.index;
                    assert(old(self).slots@[j].index == s.index);
                }
            }
        }
        r
    }

    /// Returns a slot to the allocator: `None` when it was taken back, or `Some(slot)`, the
    /// slot itself, when it belongs to another allocator.
    ///
    /// Whether the slot belongs here is decided by whether it shares this allocator's memory
    /// object (`Arc::ptr_eq`); `dealloc_checked` says what follows from each answer.
    pub fn dealloc(&mut self, slot: RcSlot<Mem>) -> (r: Option<RcSlot<Mem>>)
        requires
            old(self).wf(),
        ensures
            final(self).wf(),
            final(self).spec_mem() == old(self).spec_mem(),
            final(self).spec_len() == old(self).spec_len(),
            final(self).spec_slot_size() == old(self).spec_slot_size(),
            slot.spec_mem() != old(self).spec_mem() ==> r == Some(slot),
            r is None ==> {
                &&& old(self).is_slot_of(&slot)
                &&& !old(self).free_indices().contains(slot.spec_index())
                &&& final(self).free_indices() == old(self).free_indices().push(slot.spec_index())
            },
            r is Some ==> r->0 == slot && final(self).free_indices() == old(
                self,
            ).free_indices(),
    {
        let same_region = arc_ptr_eq(&self.rc, &slot.rc);
        self.dealloc_checked(slot, same_region)
    }

    /// Returns a slot to the allocator, given whether it shares this allocator's memory
    /// object: a slot of this allocator that is not free is pushed onto the free slots and
    /// `None` comes back; any other slot comes back as `Some(slot)` and nothing changes.
    pub fn dealloc_checked(&mut self, slot: RcSlot<Mem>, same_region: bool) -> (r: Option<
        RcSlot<Mem>,
    >)
        requires
            old(self).wf(),
            same_region ==> slot.spec_mem() == old(self).spec_mem(),
        ensures
            final(self).wf(),
            final(self).spec_mem() == old(self).spec_mem(),
            final(self).spec_len() == old(self).spec_len(),
            final(self).spec_slot_size() == old(self).spec_slot_size(),
            ({
                let owned = same_region && old(self).is_slot_of(&slot)
                    && !old(self).free_indices().contains(slot.spec_index());
                &&& owned ==> r is None && final(self).free_indices() == old(
                    self,
                ).free_indices().push(slot.spec_index())
                &&& !owned ==> r == Some(slot) && final(self).free_indices() == old(
                    self,
                ).free_indices()
            }),
    {
        if !same_region {
            return Some(slot);
        }
        if slot.len != self.slot_size || slot.index >= self.len / self.slot_size {
            return Some(slot);
        }
        proof {
            assert(slot.index * self.slot_size <= self.len) by (nonlinear_arith)
                requires
                    slot.index < self.len / self.slot_size,
                    self.slot_size > 0,
            {
            }
        }
        if slot.offset != slot.index * self.slot_size {
            return Some(slot);
        }
        let mut i: usize = 0;
        while i < self.slots.len()
            invariant
                i <= self.slots.len(),
                *self == *old(self),
                self.wf(),
                forall|j: int| 0 <= j < i ==> self.slots@[j].index != slot.index,
            decreases self.slots.len() - i,
        {
            if self.slots[i].index == slot.index {
                proof {
                    assert(old(self).free_indices()[i as int] == slot.index);
                }
                return Some(slot);
            }
            i = i + 1;
        }
        proof {
            if old(self).free_indices().contains(slot.index) {
                let j = choose|j: int|
                    0 <= j < old(self).free_indices().len() && old(self).free_indices()[j]
                        == slot.index;
                assert(old(self).slots@[j].index == slot.index);
            }
        }
        let ghost idx = slot.index;
        self.slots.push(slot);
        proof {
            assert(self.free_indices() =~= old(self).free_indices().push(idx));
            assert forall|i: int, j: int|
                0 <= i < j < self.slots.len() implies #[trigger] self.slots@[i].index
                != #[trigger] self.slots@[j].index by {
                if j == self.slots.len() - 1 {
                    assert(old(self).slots@[i].index != idx);
                }
            }
        }
        None
    }

    /// Returns true if there are no free slots available.
    pub fn is_empty(&self) -> (r: bool)
        ensures
            r == (self.free_indices().len() == 0),
    {
        self.slots.len() == 0
    }

    /// Returns the total number of slots that can be allocated.
    pub fn num_slots_total(&self) -> (r: usize)
        requires
            self.wf(),
        ensures
            r == self.spec_total(),
    {
        self.len / self.slot_size
    }

    /// Returns the maximum slot number that can be allocated.
    pub fn slot_num_max(&self) -> (r: usize)
        requires
            self.wf(),
        ensures
            r == if self.spec_total() == 0 {
                0
            } else {
                self.spec_total() - 1
            },
    {
        self.num_slots_total().saturating_sub(1)
    }

    /// Returns the size of each slot in bytes.
    pub fn slot_size(&self) -> (r: usize)
        ensures
            r == self.spec_slot_size(),
    {
        self.slot_size
    }
}

} // verus!
