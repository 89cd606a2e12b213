//! Descriptor ring buffers shared between the host and the device.
use vstd::prelude::*;

use crate::mem::slot_alloc::RcSlot;

verus! {

/// Number of descriptors in a ring.
pub const RING_BUF_LEN: usize = 128;

/// Pointers of a ring run over twice its length, so that a full ring and an empty one differ.
pub const RING_PTR_WRAP: usize = 256;

/// A descriptor that a ring can hold.
pub trait Descriptor: Sized + Copy {
    /// Size of the descriptor in bytes.
    const SIZE: usize;

    /// The descriptor carries its valid mark.
    spec fn spec_valid(&self) -> bool;

    /// The descriptor after its valid mark is cleared.
    spec fn spec_consumed(&self) -> Self;

    /// Clears the valid mark; returns whether the descriptor may be consumed.
    fn try_consume(&mut self) -> (r: bool)
        ensures
            r == old(self).spec_valid(),
            *final(self) == old(self).spec_consumed(),
    ;
}

/// A ring context without a device behind it.
#[derive(Debug)]
pub struct Dummy;

/// The context of a ring: the device its pointers are reported to.
#[derive(Debug)]
pub struct RingCtx<Ctx> {
    /// The device
    pub ctx: Ctx,
}

impl<Ctx> RingCtx<Ctx> {
    /// Creates a ring context.
    pub fn new(ctx: Ctx) -> (r: Self)
        ensures
            r.ctx == ctx,
    {
        Self { ctx }
    }
}

/// Writes `input` into the ring slots starting at pointer `head`, one after the other.
pub open spec fn write_all<D>(descs: Seq<D>, head: int, input: Seq<D>) -> Seq<D>
    decreases input.len(),
{
    if input.len() == 0 {
        descs
    } else {
        write_all(descs, head, input.drop_last()).update(
            (head + input.len() - 1) % (RING_BUF_LEN as int),
            input.last(),
        )
    }
}

/// A descriptor ring: the host produces at `head` and consumes at `tail`.
pub struct Ring<Buf, Ctx, D> {
    ctx: RingCtx<Ctx>,
    buf: Buf,
    descs: Vec<D>,
    head: usize,
    tail: usize,
}

impl<Mem, Ctx, D: Descriptor> Ring<RcSlot<Mem>, Ctx, D> {
    /// The pointers lie in range and the ring holds `RING_BUF_LEN` descriptors.
    pub closed spec fn wf(&self) -> bool {
        &&& self.descs.len() == RING_BUF_LEN
        &&& self.head < RING_PTR_WRAP
        &&& self.tail < RING_PTR_WRAP
    }

    /// The producer pointer.
    pub closed spec fn spec_head(&self) -> int {
        self.head as int
    }

    /// The consumer pointer.
    pub closed spec fn spec_tail(&self) -> int {
        self.tail as int
    }

    /// The buffer that backs the ring.
    pub closed spec fn buffer(&self) -> RcSlot<Mem> {
        self.buf
    }

    /// The descriptor slots.
    pub closed spec fn slots(&self) -> Seq<D> {
        self.descs@
    }

    /// Number of descriptors between the consumer and the producer pointer.
    pub open spec fn pending_count(&self) -> int {
        (self.spec_head() - self.spec_tail() + RING_PTR_WRAP) % (RING_PTR_WRAP as int)
    }

    /// The descriptors produced and not yet consumed, oldest first.
    pub open spec fn pending(&self) -> Seq<D> {
        Seq::new(
            self.pending_count() as nat,
            |i: int| self.slots()[(self.spec_tail() + i) % (RING_BUF_LEN as int)],
        )
    }

    /// Creates a ring over `buf`, or `None` when `buf` cannot hold `RING_BUF_LEN` descriptors.
    pub fn new(ctx: RingCtx<Ctx>, buf: RcSlot<Mem>, init: D) -> (r: Option<Self>)
        ensures
            r is Some <==> buf.spec_len() >= D::SIZE * RING_BUF_LEN,
            r matches Some(ring) ==> {
                &&& ring.wf()
                &&& ring.buffer() == buf
                &&& ring.spec_head() == 0
                &&& ring.spec_tail() == 0
                &&& ring.slots() == Seq::new(RING_BUF_LEN as nat, |i: int| init)
            },
    {
        let len = buf.len();
        if (len as u128) < (D::SIZE as u128) * (RING_BUF_LEN as u128) {
            return None;
        }
        let mut descs: Vec<D> = Vec::new();
        let mut i: usize = 0;
        while i < RING_BUF_LEN
            invariant
                i <= RING_BUF_LEN,
                descs@ == Seq::new(i as nat, |j: int| init),
            decreases RING_BUF_LEN - i,
        {
            descs.push(init);
            i = i + 1;
            proof {
                assert(descs@ =~= Seq::new(i as nat, |j: int| init));
            }
        }
        Some(Self { ctx, buf, descs, head: 0, tail: 0 })
    }

    /// Number of descriptors produced and not yet consumed.
    fn num_pending(&self) -> (r: usize)
        requires
            self.wf(),
        ensures
            r == self.pending_count(),
    {
        (self.head + RING_PTR_WRAP - self.tail) % RING_PTR_WRAP
    }

    /// Writes one descriptor at the producer pointer and advances it.
    fn write_one(&mut self, desc: D)
        requires
            old(self).wf(),
        ensures
            final(self).wf(),
            final(self).buffer() == old(self).buffer(),
            final(self).spec_tail() == old(self).spec_tail(),
            final(self).spec_head() == (old(self).spec_head() + 1) % (RING_PTR_WRAP as int),
            final(self).slots() == old(self).slots().update(
                old(self).spec_head() % (RING_BUF_LEN as int),
                desc,
            ),
    {
        let idx = self.head % RING_BUF_LEN;
        self.descs.set(idx, desc);
        self.head = (self.head + 1) % RING_PTR_WRAP;
    }

    /// Writes `descs` at the producer pointer without checking for free space.
    pub fn force_produce(&mut self, descs: Vec<D>)
        requires
            old(self).wf(),
        ensures
            final(self).wf(),
            final(self).buffer() == old(self).buffer(),
            final(self).spec_tail() == old(self).spec_tail(),
            final(self).spec_head() == (old(self).spec_head() + descs.len()) % (
            RING_PTR_WRAP as int),
            final(self).slots() == write_all(old(self).slots(), old(self).spec_head(), descs@),
            old(self).pending_count() + descs.len() <= RING_BUF_LEN ==> final(self).pending() == old(
                self,
            ).pending() + descs@,
    {
        let ghost input = descs@;
        let mut i: usize = 0;
        while i < descs.len()
            invariant
                self.wf(),
                self.buffer() == old(self).buffer(),
                i <= descs.len(),
                self.spec_tail() == old(self).spec_tail(),
                self.spec_head() == (old(self).spec_head() + i) % (RING_PTR_WRAP as int),
                self.slots() == write_all(old(self).slots(), old(self).spec_head(), descs@.take(
                    i as int,
                )),
            decreases descs.len() - i,
        {
            let ghost h = self.spec_head();
            self.write_one(descs[i]);
            proof {
                let t = descs@.take(i + 1);
                assert(t.drop_last() =~= descs@.take(i as int));
                lemma_mod_wrap_index(old(self).spec_head(), i as int);
                assert(self.spec_head() == (old(self).spec_head() + i + 1) % (
                RING_PTR_WRAP as int)) by {
                    vstd::arithmetic::div_mod::lemma_add_mod_noop(
                        old(self).spec_head() + i,
                        1,
                        RING_PTR_WRAP as int,
                    );
                    vstd::arithmetic::div_mod::lemma_mod_twice(
                        old(self).spec_head() + i,
                        RING_PTR_WRAP as int,
                    );
                }
            }
            i = i + 1;
        }
        proof {
            assert(descs@.take(descs.len() as int) =~= descs@);
            if old(self).pending_count() + input.len() <= RING_BUF_LEN {
                lemma_produce_appends(old(self).slots(), old(self).spec_head(), old(self).spec_tail(), input);
                let count = old(self).pending_count();
                let t = old(self).spec_tail();
                assert(self.pending().len() == old(self).pending().len() + input.len());
                assert forall|j: int| 0 <= j < self.pending().len() implies #[trigger] self.pending()[j]
                    == (old(self).pending() + input)[j] by {
                    if j < count {
                        assert(self.slots()[(t + j) % (RING_BUF_LEN as int)] == old(self).slots()[(t + j)
                            % (RING_BUF_LEN as int)]);
                    } else {
                        let i = j - count;
                        assert(self.slots()[(t + count + i) % (RING_BUF_LEN as int)] == input[i]);
                    }
                }
                assert(self.pending() =~= old(self).pending() + input);
            }
        }
    }

    /// Writes `descs` at the producer pointer when the ring has room for all of them;
    /// otherwise returns `Err(())` and leaves the ring as it was.
    pub fn produce(&mut self, descs: Vec<D>) -> (r: Result<(), ()>)
        requires
            old(self).wf(),
        ensures
            final(self).wf(),
            final(self).buffer() == old(self).buffer(),
            r is Ok <==> old(self).pending_count() + descs.len() <= RING_BUF_LEN,
            r is Ok ==> {
                &&& final(self).spec_tail() == old(self).spec_tail()
                &&& final(self).spec_head() == (old(self).spec_head() + descs.len()) % (
                RING_PTR_WRAP as int)
                &&& final(self).slots() == write_all(
                    old(self).slots(),
                    old(self).spec_head(),
                    descs@,
                )
                &&& final(self).pending() == old(self).pending() + descs@
            },
            r is Err ==> *final(self) == *old(self),
    {
        let pending = self.num_pending();
        if pending > RING_BUF_LEN || descs.len() > RING_BUF_LEN - pending {
            return Err(());
        }
        self.force_produce(descs);
        Ok(())
    }

    /// Consumes the descriptor at the consumer pointer when it carries its valid mark.
    ///
    /// Returns the descriptor with the mark cleared; the mark is cleared in the ring too.
    pub fn try_consume(&mut self) -> (r: Option<D>)
        requires
            old(self).wf(),
        ensures
            final(self).wf(),
            final(self).buffer() == old(self).buffer(),
            final(self).spec_head() == old(self).spec_head(),
            ({
                let idx = old(self).spec_tail() % (RING_BUF_LEN as int);
                let d = old(self).slots()[idx];
                &&& final(self).slots() == old(self).slots().update(idx, d.spec_consumed())
                &&& d.spec_valid() ==> r == Some(d.spec_consumed()) && final(self).spec_tail() == (
                old(self).spec_tail() + 1) % (RING_PTR_WRAP as int)
                &&& !d.spec_valid() ==> r is None && final(self).spec_tail() == old(
                    self,
                ).spec_tail()
            }),
            old(self).slots()[old(self).spec_tail() % (RING_BUF_LEN as int)].spec_valid() && 0
                < old(self).pending_count() <= RING_BUF_LEN ==> {
                &&& r == Some(old(self).pending()[0].spec_consumed())
                &&& final(self).pending() == old(self).pending().drop_first()
            },
    {
        let idx = self.tail % RING_BUF_LEN;
        let mut d = self.descs[idx];
        let valid = d.try_consume();
        self.descs.set(idx, d);
        if valid {
            self.tail = (self.tail + 1) % RING_PTR_WRAP;
            proof {
                let old_count = old(self).pending_count();
                if 0 < old_count <= RING_BUF_LEN {
                    lemma_consume_pops(
                        old(self).slots(),
                        self.slots(),
                        old(self).spec_head(),
                        old(self).spec_tail(),
                    );
                    assert(self.pending() =~= old(self).pending().drop_first());
                }
            }
            Some(d)
        } else {
            None
        }
    }

    /// The producer pointer.
    pub fn head(&self) -> (r: usize)
        ensures
            r == self.spec_head(),
    {
        self.head
    }

    /// The consumer pointer.
    pub fn tail(&self) -> (r: usize)
        ensures
            r == self.spec_tail(),
    {
        self.tail
    }
}

/// Adding to a pointer and then wrapping it once more gives the same slot index.
proof fn lemma_mod_wrap_index(h: int, i: int)
    requires
        0 <= h,
        0 <= i,
    ensures
        ((h + i) % (RING_PTR_WRAP as int)) % (RING_BUF_LEN as int) == (h + i) % (RING_BUF_LEN as int),
{
    let n = h + i;
    assert((n % 256) % 128 == n % 128) by (nonlinear_arith)
        requires
            n >= 0,
    {
        assert(n == 256 * (n / 256) + n % 256);
        assert(n % 256 == 128 * ((n % 256) / 128) + (n % 256) % 128);
    }
}


/// Distinct offsets less than a ring length apart land on distinct slots.
proof fn lemma_slots_distinct(h: int, a: int, b: int)
    requires
        0 <= h,
        0 <= a < b,
        b - a < RING_BUF_LEN,
    ensures
        (h + a) % (RING_BUF_LEN as int) != (h + b) % (RING_BUF_LEN as int),
{
    let x = h + a;
    let y = h + b;
    assert(x % 128 != y % 128) by (nonlinear_arith)
        requires
            0 <= x < y,
            y - x < 128,
    {
        assert(x == 128 * (x / 128) + x % 128);
        assert(y == 128 * (y / 128) + y % 128);
        if x % 128 == y % 128 {
            assert(128 * (y / 128 - x / 128) == y - x);
        }
    }
}

/// Where a batch of at most `RING_BUF_LEN` writes puts each descriptor.
proof fn lemma_write_all<D>(descs: Seq<D>, h: int, input: Seq<D>)
    requires
        descs.len() == RING_BUF_LEN,
        input.len() <= RING_BUF_LEN,
        h >= 0,
    ensures
        write_all(descs, h, input).len() == RING_BUF_LEN,
        forall|i: int|
            0 <= i < input.len() ==> #[trigger] write_all(descs, h, input)[(h + i) % (
            RING_BUF_LEN as int)] == input[i],
        forall|k: int|
            0 <= k < RING_BUF_LEN && (forall|i: int|
                0 <= i < input.len() ==> #[trigger] ((h + i) % (RING_BUF_LEN as int)) != k)
                ==> #[trigger] write_all(descs, h, input)[k] == descs[k],
    decreases input.len(),
{
    if input.len() > 0 {
        let n = input.len() as int;
        let prev = input.drop_last();
        lemma_write_all(descs, h, prev);
        let w = write_all(descs, h, input);
        let wp = write_all(descs, h, prev);
        let p = (h + n - 1) % (RING_BUF_LEN as int);
        assert(w == wp.update(p, input.last()));
        assert forall|i: int| 0 <= i < n implies #[trigger] w[(h + i) % (RING_BUF_LEN as int)]
            == input[i] by {
            if i < n - 1 {
                lemma_slots_distinct(h, i, n - 1);
                assert(prev[i] == input[i]);
            }
        }
        assert forall|k: int|
            0 <= k < RING_BUF_LEN && (forall|i: int|
                0 <= i < n ==> #[trigger] ((h + i) % (RING_BUF_LEN as int)) != k) implies #[trigger] w[k]
            == descs[k] by {
            assert(((h + (n - 1)) % (RING_BUF_LEN as int)) != k);
            assert forall|i: int| 0 <= i < prev.len() implies #[trigger] ((h + i) % (
            RING_BUF_LEN as int)) != k by {
                assert(((h + i) % (RING_BUF_LEN as int)) != k);
            }
        }
    }
}

/// Producing into a ring with room appends the batch to the pending descriptors.
proof fn lemma_produce_appends<D>(slots: Seq<D>, head: int, tail: int, input: Seq<D>)
    requires
        slots.len() == RING_BUF_LEN,
        0 <= head < RING_PTR_WRAP,
        0 <= tail < RING_PTR_WRAP,
        (head - tail + RING_PTR_WRAP) % (RING_PTR_WRAP as int) + input.len() <= RING_BUF_LEN,
    ensures
        ({
            let count = (head - tail + RING_PTR_WRAP) % (RING_PTR_WRAP as int);
            let head2 = (head + input.len()) % (RING_PTR_WRAP as int);
            let count2 = (head2 - tail + RING_PTR_WRAP) % (RING_PTR_WRAP as int);
            let w = write_all(slots, head, input);
            &&& count2 == count + input.len()
            &&& forall|j: int|
                0 <= j < count ==> #[trigger] w[(tail + j) % (RING_BUF_LEN as int)] == slots[(tail
                    + j) % (RING_BUF_LEN as int)]
            &&& forall|i: int|
                0 <= i < input.len() ==> #[trigger] w[(tail + count + i) % (RING_BUF_LEN as int)]
                    == input[i]
        }),
{
    let n = input.len() as int;
    let count = (head - tail + RING_PTR_WRAP) % (RING_PTR_WRAP as int);
    lemma_write_all(slots, head, input);
    let w = write_all(slots, head, input);
    assert(count + tail == head || count + tail == head + 256);
    assert forall|i: int| 0 <= i < n implies #[trigger] w[(tail + count + i) % (
    RING_BUF_LEN as int)] == input[i] by {
        assert((tail + count + i) % 128 == (head + i) % 128);
    }
    assert forall|j: int| 0 <= j < count implies #[trigger] w[(tail + j) % (RING_BUF_LEN as int)]
        == slots[(tail + j) % (RING_BUF_LEN as int)] by {
        let k = (tail + j) % (RING_BUF_LEN as int);
        assert forall|i: int| 0 <= i < n implies #[trigger] ((head + i) % (RING_BUF_LEN as int))
            != k by {
            assert((head + i) % 128 == (tail + count + i) % 128);
            lemma_slots_distinct(tail, j, count + i);
        }
    }
}

/// Consuming from a ring that holds at most `RING_BUF_LEN` pending descriptors removes the
/// oldest one and leaves the others in place.
proof fn lemma_consume_pops<D>(slots: Seq<D>, slots2: Seq<D>, head: int, tail: int)
    requires
        slots.len() == RING_BUF_LEN,
        0 <= head < RING_PTR_WRAP,
        0 <= tail < RING_PTR_WRAP,
        0 < (head - tail + RING_PTR_WRAP) % (RING_PTR_WRAP as int) <= RING_BUF_LEN,
        slots2.len() == RING_BUF_LEN,
        forall|k: int|
            0 <= k < RING_BUF_LEN && k != tail % (RING_BUF_LEN as int) ==> slots2[k] == slots[k],
    ensures
        ({
            let count = (head - tail + RING_PTR_WRAP) % (RING_PTR_WRAP as int);
            let tail2 = (tail + 1) % (RING_PTR_WRAP as int);
            &&& (head - tail2 + RING_PTR_WRAP) % (RING_PTR_WRAP as int) == count - 1
            &&& forall|j: int|
                0 <= j < count - 1 ==> #[trigger] slots2[(tail2 + j) % (RING_BUF_LEN as int)]
                    == slots[(tail + (j + 1)) % (RING_BUF_LEN as int)]
        }),
{
    let count = (head - tail + RING_PTR_WRAP) % (RING_PTR_WRAP as int);
    let tail2 = (tail + 1) % (RING_PTR_WRAP as int);
    assert forall|j: int| 0 <= j < count - 1 implies #[trigger] slots2[(tail2 + j) % (
    RING_BUF_LEN as int)] == slots[(tail + (j + 1)) % (RING_BUF_LEN as int)] by {
        assert((tail2 + j) % 128 == (tail + (j + 1)) % 128);
        lemma_slots_distinct(tail, 0, j + 1);
    }
}

} // verus!
