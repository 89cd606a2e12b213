//! Allocation of completion queue handles.
use bitvec::vec::BitVec;

use vstd::prelude::*;

use crate::constants::MAX_CQ_CNT;

verus! {

/// A `bitvec::vec::BitVec`, held opaquely: Verus does not take a declaration of `BitVec`
/// itself with the bounds of its parameters.
#[verifier::external_body]
pub struct Bitmap {
    bits: BitVec,
}

/// The bits of a bitmap, in index order.
pub uninterp spec fn bitvec_bits(v: Bitmap) -> Seq<bool>;

/// `BitVec::with_capacity`: an empty bit vector with room for `capacity` bits.
///
/// The source panics when `capacity` exceeds `BitSlice::MAX_BITS`, `usize::MAX >> 3`.
#[verifier::external_body]
fn bitvec_with_capacity(capacity: usize) -> (r: Bitmap)
    requires
        capacity <= usize::MAX / 8,
    ensures
        bitvec_bits(r) == Seq::<bool>::empty(),
{
    Bitmap { bits: BitVec::with_capacity(capacity) }
}

/// `BitVec::resize`: grows the vector with copies of `value`, or truncates it, to `new_len`
/// bits.
#[verifier::external_body]
fn bitvec_resize(v: &mut Bitmap, new_len: usize, value: bool)
    requires
        new_len <= usize::MAX / 8,
    ensures
        new_len <= bitvec_bits(*old(v)).len() ==> bitvec_bits(*final(v)) == bitvec_bits(
            *old(v),
        ).take(new_len as int),
        new_len > bitvec_bits(*old(v)).len() ==> bitvec_bits(*final(v)) == bitvec_bits(
            *old(v),
        ) + Seq::new((new_len - bitvec_bits(*old(v)).len()) as nat, |i: int| value),
{
    v.bits.resize(new_len, value);
}

/// `BitSlice::first_zero`: the index of the first cleared bit, if any.
#[verifier::external_body]
fn bitvec_first_zero(v: &Bitmap) -> (r: Option<usize>)
    ensures
        r matches Some(i) ==> i < bitvec_bits(*v).len() && !bitvec_bits(*v)[i as int] && forall|
            j: int,
        | 0 <= j < i ==> bitvec_bits(*v)[j],
        r is None ==> forall|j: int| 0 <= j < bitvec_bits(*v).len() ==> bitvec_bits(*v)[j],
{
    v.bits.first_zero()
}

/// `BitSlice::set`: writes `value` at `index`; the source panics only out of bounds, which
/// the precondition leaves out, so the call does not unwind.
#[verifier::external_body]
fn bitvec_set(v: &mut Bitmap, index: usize, value: bool)
    requires
        index < bitvec_bits(*old(v)).len(),
    ensures
        bitvec_bits(*final(v)) == bitvec_bits(*old(v)).update(index as int, value),
    no_unwind
{
    v.bits.set(index, value);
}

/// Manages completion queue handles.
pub struct CqManager {
    /// Bitmap tracking allocated CQ handles
    bitmap: Bitmap,
}

impl CqManager {
    /// The bitmap holds one bit per completion queue handle.
    #[verifier::type_invariant]
    spec fn inv(self) -> bool {
        bitvec_bits(self.bitmap).len() == MAX_CQ_CNT
    }

    /// Which handles are allocated.
    pub closed spec fn allocated(&self) -> Seq<bool> {
        bitvec_bits(self.bitmap)
    }

    /// Creates a manager with all `MAX_CQ_CNT` handles free.
    pub fn new() -> (r: Self)
        ensures
            r.allocated() == Seq::new(MAX_CQ_CNT as nat, |i: int| false),
    {
        let mut bitmap = bitvec_with_capacity(MAX_CQ_CNT);
        bitvec_resize(&mut bitmap, MAX_CQ_CNT, false);
        proof {
            assert(Seq::<bool>::empty() + Seq::new(MAX_CQ_CNT as nat, |i: int| false) =~= Seq::new(
                MAX_CQ_CNT as nat,
                |i: int| false,
            ));
        }
        Self { bitmap }
    }

    /// Allocates the lowest free handle; `None` when all are allocated.
    pub fn create_cq(&mut self) -> (r: Option<u32>)
        ensures
            r matches Some(h) ==> {
                &&& h < old(self).allocated().len()
                &&& !old(self).allocated()[h as int]
                &&& forall|j: int| 0 <= j < h ==> old(self).allocated()[j]
                &&& final(self).allocated() == old(self).allocated().update(h as int, true)
            },
            r is None ==> final(self).allocated() == old(self).allocated() && forall|j: int|
                0 <= j < old(self).allocated().len() ==> old(self).allocated()[j],
    {
        proof {
            use_type_invariant(&*self);
        }
        let handle = match bitvec_first_zero(&self.bitmap) {
            Some(h) => h,
            None => return None,
        };
        bitvec_set(&mut self.bitmap, handle, true);
        Some(handle as u32)
    }

    /// Frees `handle`; handles out of range are ignored.
    pub fn destroy_cq(&mut self, handle: u32)
        ensures
            handle < MAX_CQ_CNT ==> final(self).allocated() == old(self).allocated().update(
                handle as int,
                false,
            ),
            handle >= MAX_CQ_CNT ==> final(self).allocated() == old(self).allocated(),
    {
        proof {
            use_type_invariant(&*self);
        }
        if handle as usize >= MAX_CQ_CNT {
            return;
        }
        bitvec_set(&mut self.bitmap, handle as usize, false);
    }
}

} // verus!
