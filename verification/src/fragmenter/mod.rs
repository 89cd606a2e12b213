//! Splitting an address range into segments whose ends fall on an alignment boundary.
use vstd::prelude::*;
use vstd::arithmetic::power2::pow2;
use vstd::bits::{low_bits_mask, lemma_u64_low_bits_mask_is_mod, lemma_u64_pow2_no_overflow};

use crate::device_protocol::ChunkPos;

pub mod chunk;
pub mod packet;

verus! {

/// `x` rounded down by clearing the bits of `align - 1`.
pub open spec fn align_down(x: u64, align: u64) -> u64 {
    x & !((align - 1) as u64)
}

/// Ceiling of `x / y`, for `y > 0`.
pub open spec fn div_ceil_spec(x: int, y: int) -> int {
    if x % y == 0 {
        x / y
    } else {
        x / y + 1
    }
}

/// `align` is a power of two that fits in a `u64`.
pub open spec fn is_pow2(align: u64) -> bool {
    exists|k: nat| k < 64 && align == pow2(k)
}

/// Position of the fragment after one at `pos`, where `next_is_last` tells whether
/// exactly one fragment remains after it.
pub open spec fn next_pos_spec(next_is_last: bool, pos: ChunkPos) -> ChunkPos {
    match pos {
        ChunkPos::Only => ChunkPos::Only,
        _ => if next_is_last {
            ChunkPos::Last
        } else {
            match pos {
                ChunkPos::Last => ChunkPos::Last,
                _ => ChunkPos::Middle,
            }
        },
    }
}

/// End of the fragment that starts at `cur`.
pub open spec fn frag_end(seg: u64, align: u64, cur: u64, end: u64) -> u64 {
    let a = align_down((cur + seg) as u64, align);
    if a < end {
        a
    } else {
        end
    }
}

/// The `count` fragments produced from an iterator state.
pub open spec fn frag_seq(seg: u64, align: u64, cur: u64, pos: ChunkPos, end: u64, count: nat) -> Seq<
    Fragment,
>
    decreases count,
{
    if count == 0 {
        Seq::empty()
    } else {
        let e = frag_end(seg, align, cur, end);
        let f = Fragment { addr: cur, len: (e - cur) as u64, pos };
        let next_count = (count - 1) as nat;
        seq![f] + frag_seq(seg, align, e, next_pos_spec(next_count == 1, pos), end, next_count)
    }
}

/// Splits `[base_addr, end_addr)` into segments of at most `segment_size` bytes.
///
/// The first segment ends at the first `align` boundary at or below `base_addr + segment_size`;
/// every following segment ends `segment_size` further on, rounded down the same way.
#[derive(Debug, Clone, Copy)]
pub struct Fragmenter {
    /// Maximum size of a segment
    pub segment_size: u64,
    /// Alignment of segment ends
    pub align: u64,
    /// Start address
    pub base_addr: u64,
    /// End address (exclusive)
    pub end_addr: u64,
}

/// A segment of an address range.
#[derive(Debug, Clone, Copy, PartialEq, Eq)]
pub struct Fragment {
    /// Start address of the segment
    pub addr: u64,
    /// Length of the segment
    pub len: u64,
    /// Position of the segment in the range
    pub pos: ChunkPos,
}

impl Fragment {
    /// Start address of the segment.
    pub fn addr(&self) -> (r: u64)
        ensures
            r == self.addr,
    {
        self.addr
    }

    /// Length of the segment.
    pub fn len(&self) -> (r: u64)
        ensures
            r == self.len,
    {
        self.len
    }
}

impl Fragmenter {
    /// Parameters under which iterating never overflows nor underflows.
    pub open spec fn params_ok(self) -> bool {
        &&& 0 < self.align <= self.segment_size
        &&& self.end_addr + self.segment_size <= u64::MAX
    }

    /// Number of segments, as `num_segments` computes it.
    pub open spec fn spec_num_segments(self) -> int {
        if self.base_addr >= self.end_addr {
            0
        } else {
            let first_aligned = align_down((self.base_addr + self.segment_size) as u64, self.align);
            let remaining = if self.end_addr >= first_aligned {
                self.end_addr - first_aligned
            } else {
                0
            };
            div_ceil_spec(remaining, self.segment_size as int) + 1
        }
    }

    /// Position of the first segment.
    pub open spec fn first_pos(self) -> ChunkPos {
        if self.spec_num_segments() == 1 {
            ChunkPos::Only
        } else {
            ChunkPos::First
        }
    }

    /// The segments, in order.
    pub open spec fn fragments(self) -> Seq<Fragment> {
        frag_seq(
            self.segment_size,
            self.align,
            self.base_addr,
            self.first_pos(),
            self.end_addr,
            self.spec_num_segments() as nat,
        )
    }

    /// Creates a fragmenter for `length` bytes starting at `base_addr`.
    pub fn new(segment_size: u64, align: u64, base_addr: u64, length: u64) -> (r: Self)
        requires
            base_addr + length <= u64::MAX,
        ensures
            r == (Fragmenter {
                segment_size,
                align,
                base_addr,
                end_addr: (base_addr + length) as u64,
            }),
    {
        Self { segment_size, align, base_addr, end_addr: base_addr + length }
    }

    /// Number of segments the range splits into.
    pub fn num_segments(&self) -> (n: usize)
        requires
            self.base_addr < self.end_addr ==> {
                &&& 0 < self.align
                &&& 0 < self.segment_size
                &&& self.base_addr + self.segment_size <= u64::MAX
            },
            self.spec_num_segments() <= usize::MAX,
        ensures
            n == self.spec_num_segments(),
    {
        if self.base_addr >= self.end_addr {
            return 0;
        }
        let first_aligned = (self.base_addr + self.segment_size) & !(self.align - 1);
        proof {
            lemma_align_down_bounds((self.base_addr + self.segment_size) as u64, self.align);
        }
        let remaining_after_first = self.end_addr.saturating_sub(first_aligned);
        let q = div_ceil_u64(remaining_after_first, self.segment_size);
        q as usize + 1
    }

    /// Starts iterating over the segments.
    pub fn into_iter(self) -> (it: IntoIter)
        requires
            self.base_addr < self.end_addr ==> self.params_ok(),
            self.spec_num_segments() <= usize::MAX,
        ensures
            it.wf(),
            it.remaining() == self.fragments(),
            it.total() == self.spec_num_segments(),
            it.spec_current() == self.base_addr,
            it.spec_end() == self.end_addr,
            it.spec_seg() == self.segment_size,
    {
        let num_segments = self.num_segments();
        let current_pos = if num_segments == 1 {
            ChunkPos::Only
        } else {
            ChunkPos::First
        };
        IntoIter {
            segment_size: self.segment_size,
            align: self.align,
            current_addr: self.base_addr,
            end_addr: self.end_addr,
            total_segments: self.num_segments(),
            current_pos,
            count: num_segments,
        }
    }
}

/// Ceiling of `x / y`.
fn div_ceil_u64(x: u64, y: u64) -> (r: u64)
    requires
        y > 0,
    ensures
        r == div_ceil_spec(x as int, y as int),
{
    let q = x / y;
    if x % y != 0 {
        proof {
            assert(q < x) by (nonlinear_arith)
                requires
                    q == x / y,
                    x % y != 0,
                    y > 0,
            {
            }
        }
        q + 1
    } else {
        q
    }
}

/// Bounds of rounding down by a mask.
pub proof fn lemma_align_down_bounds(x: u64, align: u64)
    requires
        align >= 1,
    ensures
        align_down(x, align) <= x,
        x - align_down(x, align) <= align - 1,
{
    let y = (align - 1) as u64;
    assert((x & !y) <= x && x - (x & !y) <= y) by (bit_vector);
}

/// Iterator over the segments of a `Fragmenter`.
pub struct IntoIter {
    segment_size: u64,
    align: u64,
    current_addr: u64,
    current_pos: ChunkPos,
    end_addr: u64,
    total_segments: usize,
    count: usize,
}

impl IntoIter {
    /// The iterator state admits every remaining step.
    pub closed spec fn wf(&self) -> bool {
        self.count > 0 ==> {
            &&& 0 < self.align <= self.segment_size
            &&& self.current_addr <= self.end_addr
            &&& self.end_addr + self.segment_size <= u64::MAX
        }
    }

    /// The segments that are still to come.
    pub closed spec fn remaining(&self) -> Seq<Fragment> {
        frag_seq(
            self.segment_size,
            self.align,
            self.current_addr,
            self.current_pos,
            self.end_addr,
            self.count as nat,
        )
    }

    /// Address the next segment starts at.
    pub closed spec fn spec_current(&self) -> int {
        self.current_addr as int
    }

    /// End of the range (exclusive).
    pub closed spec fn spec_end(&self) -> int {
        self.end_addr as int
    }

    /// Maximum size of a segment.
    pub closed spec fn spec_seg(&self) -> int {
        self.segment_size as int
    }

    /// Number of segments the iterator yields in all.
    pub closed spec fn total(&self) -> int {
        self.total_segments as int
    }

    /// Yields the next segment.
    pub fn next(&mut self) -> (r: Option<Fragment>)
        requires
            old(self).wf(),
        ensures
            final(self).wf(),
            final(self).total() == old(self).total(),
            old(self).remaining().len() == 0 ==> r is None && final(self).remaining() == old(
                self,
            ).remaining(),
            old(self).remaining().len() > 0 ==> r == Some(old(self).remaining()[0])
                && final(self).remaining() == old(self).remaining().drop_first(),
            final(self).spec_end() == old(self).spec_end(),
            final(self).spec_seg() == old(self).spec_seg(),
            r is None ==> final(self).spec_current() == old(self).spec_current(),
            r matches Some(f) ==> {
                &&& f.addr == old(self).spec_current()
                &&& f.len <= old(self).spec_seg()
                &&& old(self).spec_current() + f.len <= old(self).spec_end()
                &&& final(self).spec_current() == old(self).spec_current() + f.len
            },
    {
        proof {
            lemma_frag_seq_len(
                self.segment_size,
                self.align,
                self.current_addr,
                self.current_pos,
                self.end_addr,
                self.count as nat,
            );
        }
        if self.count == 0 {
            return None;
        }
        let ghost old_rem = self.remaining();
        proof {
            lemma_align_down_bounds((self.current_addr + self.segment_size) as u64, self.align);
        }
        let aligned = (self.current_addr + self.segment_size) & !(self.align - 1);
        let end = if aligned < self.end_addr {
            aligned
        } else {
            self.end_addr
        };
        let len = end - self.current_addr;
        let fragment = Fragment { addr: self.current_addr, len, pos: self.current_pos };
        self.current_addr = self.current_addr + len;
        self.count = self.count - 1;
        let next_pos = match self.current_pos {
            ChunkPos::Only => ChunkPos::Only,
            _ => if self.count == 1 {
                ChunkPos::Last
            } else {
                match self.current_pos {
                    ChunkPos::Last => ChunkPos::Last,
                    _ => ChunkPos::Middle,
                }
            },
        };
        self.current_pos = next_pos;
        proof {
            assert(self.remaining() =~= old_rem.drop_first());
        }
        Some(fragment)
    }

    /// Number of segments the iterator yields in all.
    pub fn len(&self) -> (r: usize)
        ensures
            r == self.total(),
    {
        self.total_segments
    }
}

/// `frag_seq` has one fragment per count.
pub proof fn lemma_frag_seq_len(
    seg: u64,
    align: u64,
    cur: u64,
    pos: ChunkPos,
    end: u64,
    count: nat,
)
    ensures
        frag_seq(seg, align, cur, pos, end, count).len() == count,
    decreases count,
{
    if count > 0 {
        let e = frag_end(seg, align, cur, end);
        let next_count = (count - 1) as nat;
        lemma_frag_seq_len(seg, align, e, next_pos_spec(next_count == 1, pos), end, next_count);
    }
}

/// Rounding down leaves a multiple of a power of two unchanged.
pub proof fn lemma_align_down_exact(x: u64, align: u64)
    requires
        is_pow2(align),
        x % align == 0,
    ensures
        align_down(x, align) == x,
{
    let k = choose|k: nat| k < 64 && align == pow2(k);
    lemma_u64_pow2_no_overflow(k);
    lemma_u64_low_bits_mask_is_mod(x, k);
    let y = (align - 1) as u64;
    assert(low_bits_mask(k) as u64 == y);
    assert(x & y == 0);
    assert(x & y == 0 ==> x & !y == x) by (bit_vector);
}

/// Rounding down by a power of two yields a multiple of it.
pub proof fn lemma_align_down_aligned(x: u64, align: u64)
    requires
        is_pow2(align),
    ensures
        align_down(x, align) % align == 0,
{
    let k = choose|k: nat| k < 64 && align == pow2(k);
    lemma_u64_pow2_no_overflow(k);
    let y = (align - 1) as u64;
    let m = x & !y;
    assert(m & y == 0) by (bit_vector)
        requires
            m == x & !y,
    ;
    lemma_u64_low_bits_mask_is_mod(m, k);
    assert(low_bits_mask(k) as u64 == y);
}

/// Positions of the fragments of an iterator state that starts at `First`, `Middle` or `Only`.
proof fn lemma_frag_seq_positions(
    seg: u64,
    align: u64,
    cur: u64,
    pos: ChunkPos,
    end: u64,
    count: nat,
)
    requires
        count >= 1,
        pos == ChunkPos::First || pos == ChunkPos::Middle || pos == ChunkPos::Only,
    ensures
        ({
            let fs = frag_seq(seg, align, cur, pos, end, count);
            &&& pos == ChunkPos::Only ==> forall|i: int| 0 <= i < count ==> #[trigger] fs[i].pos
                == ChunkPos::Only
            &&& pos != ChunkPos::Only ==> fs[0].pos == pos
            &&& pos != ChunkPos::Only && count >= 2 ==> {
                &&& fs[count - 1].pos == ChunkPos::Last
                &&& forall|i: int| 0 < i < count - 1 ==> #[trigger] fs[i].pos == ChunkPos::Middle
            }
        }),
    decreases count,
{
    let fs = frag_seq(seg, align, cur, pos, end, count);
    let e = frag_end(seg, align, cur, end);
    let next_count = (count - 1) as nat;
    let np = next_pos_spec(next_count == 1, pos);
    let rest = frag_seq(seg, align, e, np, end, next_count);
    lemma_frag_seq_len(seg, align, e, np, end, next_count);
    assert(fs == seq![fs[0]] + rest);
    if count >= 2 {
        if count >= 3 || pos == ChunkPos::Only {
            lemma_frag_seq_positions(seg, align, e, np, end, next_count);
        }
        assert forall|i: int| 0 < i < count implies #[trigger] fs[i] == rest[i - 1] by {}
        if pos == ChunkPos::Only {
            assert forall|i: int| 0 <= i < count implies #[trigger] fs[i].pos == ChunkPos::Only by {
                if i > 0 {
                    assert(fs[i] == rest[i - 1]);
                }
            }
        } else {
            if count == 2 {
                assert(np == ChunkPos::Last);
                assert(fs[1] == rest[0]);
                let rest1 = frag_seq(seg, align, frag_end(seg, align, e, end), next_pos_spec(false, np), end, 0);
                assert(rest == seq![rest[0]] + rest1);
            } else {
                assert(np == ChunkPos::Middle);
                assert(fs[count - 1] == rest[count - 2]);
                assert forall|i: int| 0 < i < count - 1 implies #[trigger] fs[i].pos
                    == ChunkPos::Middle by {
                    assert(fs[i] == rest[i - 1]);
                }
            }
        }
    } else if pos == ChunkPos::Only {
        assert forall|i: int| 0 <= i < count implies #[trigger] fs[i].pos == ChunkPos::Only by {}
    }
}

/// The fragments of a range come as `Only` when there is one, and otherwise as `First`,
/// then `Middle` ones, then `Last`.
pub proof fn lemma_fragment_positions(f: Fragmenter)
    requires
        f.spec_num_segments() >= 1,
    ensures
        ({
            let fs = f.fragments();
            let n = f.spec_num_segments();
            &&& fs.len() == n
            &&& n == 1 ==> fs[0].pos == ChunkPos::Only
            &&& n >= 2 ==> {
                &&& fs[0].pos == ChunkPos::First
                &&& fs[n - 1].pos == ChunkPos::Last
                &&& forall|i: int| 0 < i < n - 1 ==> #[trigger] fs[i].pos == ChunkPos::Middle
            }
        }),
{
    let n = f.spec_num_segments() as nat;
    lemma_frag_seq_len(f.segment_size, f.align, f.base_addr, f.first_pos(), f.end_addr, n);
    lemma_frag_seq_positions(f.segment_size, f.align, f.base_addr, f.first_pos(), f.end_addr, n);
}

/// Fragments of a range whose start is aligned: they tile `[cur, end)`.
#[verifier::spinoff_prover]
proof fn lemma_frag_seq_tail_covers(
    seg: u64,
    align: u64,
    cur: u64,
    pos: ChunkPos,
    end: u64,
    count: nat,
)
    requires
        0 < align <= seg,
        end + seg <= u64::MAX,
        is_pow2(align),
        seg % align == 0,
        cur % align == 0,
        cur < end,
        count == div_ceil_spec(end - cur, seg as int),
    ensures
        ({
            let fs = frag_seq(seg, align, cur, pos, end, count);
            &&& count >= 1
            &&& fs.len() == count
            &&& fs[0].addr == cur
            &&& forall|i: int| 0 <= i < count - 1 ==> #[trigger] fs[i].addr + fs[i].len == fs[i
                + 1].addr
            &&& fs[count - 1].addr + fs[count - 1].len == end
            &&& forall|i: int| 0 <= i < count ==> 0 < #[trigger] fs[i].len <= seg
            &&& forall|i: int| 0 <= i < count ==> #[trigger] fs[i].addr % align == 0
        }),
    decreases count,
{
    let fs = frag_seq(seg, align, cur, pos, end, count);
    let x = (end - cur) as int;
    let s = seg as int;
    assert(cur + seg <= u64::MAX);
    vstd::arithmetic::div_mod::lemma_add_mod_noop(cur as int, seg as int, align as int);
    assert((cur + seg) % (align as int) == 0);
    lemma_align_down_exact((cur + seg) as u64, align);
    let e = frag_end(seg, align, cur, end);
    let next_count = (count - 1) as nat;
    let np = next_pos_spec(next_count == 1, pos);
    let rest = frag_seq(seg, align, e, np, end, next_count);
    lemma_frag_seq_len(seg, align, cur, pos, end, count);
    if x <= s {
        assert(div_ceil_spec(x, s) == 1) by (nonlinear_arith)
            requires
                0 < x <= s,
        {
        }
        assert(e == end);
    } else {
        assert(div_ceil_spec(x, s) >= 2 && div_ceil_spec(x - s, s) == div_ceil_spec(x, s) - 1)
            by (nonlinear_arith)
            requires
                x > s,
                s > 0,
        {
            assert((x - s) / s == x / s - 1);
            assert((x - s) % s == x % s);
        }
        assert(e == cur + seg);
        lemma_frag_seq_tail_covers(seg, align, e, np, end, next_count);
        assert(fs == seq![fs[0]] + rest);
        assert forall|i: int| 0 < i < count implies #[trigger] fs[i] == rest[i - 1] by {}
        assert forall|i: int| 0 <= i < count - 1 implies #[trigger] fs[i].addr + fs[i].len
            == fs[i + 1].addr by {
            assert(fs[i + 1] == rest[i]);
            if i > 0 {
                assert(fs[i] == rest[i - 1]);
            }
        }
        assert(fs[count - 1] == rest[count - 2]);
        assert forall|i: int| 0 <= i < count implies 0 < #[trigger] fs[i].len <= seg by {
            if i > 0 {
                assert(fs[i] == rest[i - 1]);
            }
        }
        assert forall|i: int| 0 <= i < count implies #[trigger] fs[i].addr % align == 0 by {
            if i > 0 {
                assert(fs[i] == rest[i - 1]);
            }
        }
    }
}

/// When the alignment is a power of two dividing the segment size, the fragments of a
/// non-empty range tile it exactly: the first starts at `base_addr`, each starts where the
/// previous one ends, the last ends at `end_addr`, none is empty or longer than a segment,
/// and all but the first start on an alignment boundary.
pub proof fn lemma_fragments_cover(f: Fragmenter)
    requires
        f.params_ok(),
        f.base_addr < f.end_addr,
        is_pow2(f.align),
        f.segment_size % f.align == 0,
    ensures
        ({
            let fs = f.fragments();
            let n = fs.len() as int;
            &&& n == f.spec_num_segments()
            &&& n >= 1
            &&& fs[0].addr == f.base_addr
            &&& forall|i: int| 0 <= i < n - 1 ==> #[trigger] fs[i].addr + fs[i].len == fs[i
                + 1].addr
            &&& fs[n - 1].addr + fs[n - 1].len == f.end_addr
            &&& forall|i: int| 0 <= i < n ==> 0 < #[trigger] fs[i].len <= f.segment_size
            &&& forall|i: int| 0 < i < n ==> #[trigger] fs[i].addr % f.align == 0
        }),
{
    let seg = f.segment_size;
    let align = f.align;
    let base = f.base_addr;
    let end = f.end_addr;
    let fs = f.fragments();
    let fa = align_down((base + seg) as u64, align);
    lemma_align_down_bounds((base + seg) as u64, align);
    lemma_align_down_aligned((base + seg) as u64, align);
    let n = f.spec_num_segments();
    let pos0 = f.first_pos();
    lemma_frag_seq_len(seg, align, base, pos0, end, n as nat);
    if fa >= end {
        assert(div_ceil_spec(0, seg as int) == 0) by (nonlinear_arith)
            requires
                seg > 0,
        {
        }
        assert(n == 1);
    } else {
        let x = (end - fa) as int;
        assert(div_ceil_spec(x, seg as int) >= 1) by (nonlinear_arith)
            requires
                x > 0,
                seg > 0,
        {
        }
        let next_count = (n - 1) as nat;
        let np = next_pos_spec(next_count == 1, pos0);
        let rest = frag_seq(seg, align, fa, np, end, next_count);
        assert(frag_end(seg, align, base, end) == fa);
        lemma_frag_seq_tail_covers(seg, align, fa, np, end, next_count);
        assert(fs == seq![fs[0]] + rest);
        assert forall|i: int| 0 < i < n implies #[trigger] fs[i] == rest[i - 1] by {}
        assert forall|i: int| 0 <= i < n - 1 implies #[trigger] fs[i].addr + fs[i].len == fs[i
            + 1].addr by {
            assert(fs[i + 1] == rest[i]);
            if i > 0 {
                assert(fs[i] == rest[i - 1]);
            }
        }
        assert(fs[n - 1] == rest[n - 2]);
        assert forall|i: int| 0 <= i < n implies 0 < #[trigger] fs[i].len <= seg by {
            if i > 0 {
                assert(fs[i] == rest[i - 1]);
            }
        }
        assert forall|i: int| 0 < i < n implies #[trigger] fs[i].addr % align == 0 by {
            assert(fs[i] == rest[i - 1]);
        }
    }
}

} // verus!
