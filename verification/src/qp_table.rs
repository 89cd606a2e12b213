//! Per queue pair tables, indexed by the index part of a queue pair number.
use vstd::prelude::*;

use crate::constants::{MAX_QP_CNT, QPN_KEY_PART_WIDTH};

verus! {

/// The table index of queue pair number `qpn`: its bits above the key part.
pub open spec fn spec_qpn_index(qpn: u32) -> int {
    (qpn >> QPN_KEY_PART_WIDTH) as int
}

/// The table index of queue pair number `qpn`.
pub fn qpn_index(qpn: u32) -> (r: usize)
    ensures
        r == spec_qpn_index(qpn),
{
    (qpn >> QPN_KEY_PART_WIDTH) as usize
}

/// A value per queue pair.
#[derive(Debug)]
pub struct QpTable<T> {
    inner: Vec<T>,
}

impl<T> QpTable<T> {
    /// The entries, by queue pair index.
    pub closed spec fn view(&self) -> Seq<T> {
        self.inner@
    }

    /// The table holds one entry per queue pair index.
    pub open spec fn wf(&self) -> bool {
        self@.len() == MAX_QP_CNT
    }

    /// Whether `qpn` has an entry.
    pub open spec fn has_qp(&self, qpn: u32) -> bool {
        spec_qpn_index(qpn) < self@.len()
    }

    /// The entry of `qpn`.
    pub fn get_qp(&self, qpn: u32) -> (r: Option<&T>)
        ensures
            self.has_qp(qpn) ==> r == Some(&self@[spec_qpn_index(qpn)]),
            !self.has_qp(qpn) ==> r is None,
    {
        let idx = qpn_index(qpn);
        if idx < self.inner.len() {
            Some(&self.inner[idx])
        } else {
            None
        }
    }

    /// Replaces the entry of `qpn`; returns whether it has one.
    pub fn set_qp(&mut self, qpn: u32, value: T) -> (r: bool)
        ensures
            r == old(self).has_qp(qpn),
            r ==> final(self)@ == old(self)@.update(spec_qpn_index(qpn), value),
            !r ==> final(self)@ == old(self)@,
    {
        let idx = qpn_index(qpn);
        if idx < self.inner.len() {
            self.inner.set(idx, value);
            true
        } else {
            false
        }
    }

    /// Number of entries.
    pub fn len(&self) -> (r: usize)
        ensures
            r == self@.len(),
    {
        self.inner.len()
    }

    /// The entry at table index `idx`.
    pub fn get_index(&self, idx: usize) -> (r: &T)
        requires
            idx < self@.len(),
        ensures
            *r == self@[idx as int],
    {
        &self.inner[idx]
    }

    /// Mutable access to the entry at table index `idx`.
    pub fn index_mut(&mut self, idx: usize) -> (r: &mut T)
        requires
            idx < old(self)@.len(),
        ensures
            *r == old(self)@[idx as int],
            final(self)@ == old(self)@.update(idx as int, *final(r)),
    {
        &mut self.inner[idx]
    }

    /// Replaces the entry at table index `idx`.
    pub fn set_index(&mut self, idx: usize, value: T)
        requires
            idx < old(self)@.len(),
        ensures
            final(self)@ == old(self)@.update(idx as int, value),
    {
        self.inner.set(idx, value);
    }

    /// A table of `MAX_QP_CNT` copies of `value`.
    pub fn new_filled(value: T) -> (r: Self)
        where
            T: Copy,
        ensures
            r.wf(),
            r@ == Seq::new(MAX_QP_CNT as nat, |i: int| value),
    {
        let mut inner: Vec<T> = Vec::new();
        let mut i: usize = 0;
        while i < MAX_QP_CNT
            invariant
                i <= MAX_QP_CNT,
                inner@ == Seq::new(i as nat, |j: int| value),
            decreases MAX_QP_CNT - i,
        {
            inner.push(value);
            i = i + 1;
            proof {
                assert(inner@ =~= Seq::new(i as nat, |j: int| value));
            }
        }
        Self { inner }
    }

    /// A table with the given entries.
    pub fn from_vec(inner: Vec<T>) -> (r: Self)
        ensures
            r@ == inner@,
    {
        Self { inner }
    }
}

} // verus!
