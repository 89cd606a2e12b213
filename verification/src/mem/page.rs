//! Decisions of the page allocators: which pages the emulated allocator hands out, and
//! whether host pages are physically consecutive.
use vstd::prelude::*;

use super::PAGE_SIZE;

verus! {

/// Why a page allocation failed.
#[derive(Debug, Clone, Copy, PartialEq, Eq, Structural)]
pub enum PageError {
    /// No page is left
    OutOfMemory,
    /// The mapping would be larger than the address space
    Unsupported,
    /// A page has no physical address
    NotFound,
}

/// The pages of `[start, end)`, one every `PAGE_SIZE` bytes from `start` on.
pub open spec fn spec_pages(start: usize, end: usize) -> Seq<usize> {
    let n = if end > start {
        ((end - start) + PAGE_SIZE - 1) / (PAGE_SIZE as int)
    } else {
        0
    };
    Seq::new(n as nat, |i: int| (start + i * PAGE_SIZE) as usize)
}

/// Hands out the pages of an address range, last page first.
#[derive(Debug)]
pub struct EmulatedPageAllocator {
    pages: Vec<usize>,
}

impl EmulatedPageAllocator {
    /// The pages not handed out yet.
    pub closed spec fn view(&self) -> Seq<usize> {
        self.pages@
    }

    /// An allocator over the pages of `[start, end)`.
    pub fn new(start: usize, end: usize) -> (r: Self)
        ensures
            r@ == spec_pages(start, end),
    {
        let mut pages: Vec<usize> = Vec::new();
        let mut addr: usize = start;
        let mut done = start >= end;
        let ghost n = if end > start {
            ((end - start) + PAGE_SIZE - 1) / (PAGE_SIZE as int)
        } else {
            0
        };
        while !done
            invariant
                n == (if end > start {
                    ((end - start) + PAGE_SIZE - 1) / (PAGE_SIZE as int)
                } else {
                    0
                }),
                pages@.len() <= n,
                pages@ == spec_pages(start, end).take(pages@.len() as int),
                done ==> pages@.len() == n,
                !done ==> addr < end && addr == start + pages@.len() * PAGE_SIZE && pages@.len()
                    < n,
            decreases n - pages@.len(),
        {
            let ghost k = pages@.len() as int;
            pages.push(addr);
            proof {
                let c = end - start;
                assert(4096 * k < c);
                assert((4096 * (k + 1) < c ==> k + 1 < n) && (4096 * (k + 1) >= c ==> k + 1 == n))
                    by (nonlinear_arith)
                    requires
                        4096 * k < c,
                        n == (c + 4095) / 4096,
                        k >= 0,
                {
                }
                assert(pages@ =~= spec_pages(start, end).take(k + 1));
            }
            if end - addr <= PAGE_SIZE {
                done = true;
            } else {
                addr = addr + PAGE_SIZE;
            }
        }
        proof {
            assert(pages@ =~= spec_pages(start, end));
        }
        Self { pages }
    }

    /// Hands out the last page not handed out yet.
    pub fn alloc_page(&mut self) -> (r: Result<usize, PageError>)
        ensures
            old(self)@.len() == 0 ==> r == Err::<usize, PageError>(PageError::OutOfMemory)
                && final(self)@ == old(self)@,
            old(self)@.len() > 0 ==> r == Ok::<usize, PageError>(old(self)@.last())
                && final(self)@ == old(self)@.drop_last(),
    {
        match self.pages.pop() {
            Some(p) => Ok(p),
            None => Err(PageError::OutOfMemory),
        }
    }
}

/// Allocates pages of host memory, checking that they are physically consecutive.
#[derive(Debug, Clone, Copy)]
pub struct HostPageAllocator;

impl HostPageAllocator {
    /// Creates the allocator.
    pub fn new() -> (r: Self) {
        HostPageAllocator
    }
}

/// Length of a mapping of `num_pages` pages, or `Unsupported` when it overflows.
pub fn reserve_len(num_pages: usize) -> (r: Result<usize, PageError>)
    ensures
        num_pages * PAGE_SIZE <= usize::MAX ==> r == Ok::<usize, PageError>(
            (num_pages * PAGE_SIZE) as usize,
        ),
        num_pages * PAGE_SIZE > usize::MAX ==> r == Err::<usize, PageError>(
            PageError::Unsupported,
        ),
{
    match PAGE_SIZE.checked_mul(num_pages) {
        Some(len) => Ok(len),
        None => Err(PageError::Unsupported),
    }
}

/// Whether each page's physical address is one page after the previous one's.
pub open spec fn spec_consecutive(addrs: Seq<u64>) -> bool {
    forall|i: int|
        0 < i < addrs.len() ==> #[trigger] addrs[i] - addrs[i - 1] == PAGE_SIZE as int
}

/// Whether the physical pages behind a mapping are consecutive: `NotFound` when a page has
/// no physical address.
pub fn ensure_consecutive(phys: &Vec<Option<u64>>) -> (r: Result<bool, PageError>)
    ensures
        (exists|i: int| 0 <= i < phys@.len() && #[trigger] phys@[i] is None) ==> r == Err::<
            bool,
            PageError,
        >(PageError::NotFound),
        (forall|i: int| 0 <= i < phys@.len() ==> #[trigger] phys@[i] is Some) ==> r == Ok::<
            bool,
            PageError,
        >(spec_consecutive(Seq::new(phys@.len(), |i: int| phys@[i]->Some_0))),
        (forall|i: int| 0 <= i < phys@.len() ==> #[trigger] phys@[i] is Some) ==> (r
            == Ok::<bool, PageError>(true) <==> forall|i: int|
            #![trigger phys@[i]]
            0 < i < phys@.len() ==> phys@[i]->Some_0 == phys@[i - 1]->Some_0 + 4096),
        (forall|i: int| 0 <= i < phys@.len() ==> #[trigger] phys@[i] is Some) ==> r is Ok,
{
    let n = phys.len();
    let mut addrs: Vec<u64> = Vec::new();
    let mut i: usize = 0;
    while i < n
        invariant
            n == phys@.len(),
            i <= n,
            addrs@.len() == i,
            forall|j: int| 0 <= j < i ==> #[trigger] phys@[j] == Some(addrs@[j]),
        decreases n - i,
    {
        match phys[i] {
            Some(a) => addrs.push(a),
            None => {
                return Err(PageError::NotFound);
            },
        }
        i = i + 1;
    }
    let ghost all = Seq::new(phys@.len(), |i: int| phys@[i]->Some_0);
    proof {
        assert(addrs@ =~= all);
    }
    let mut ok = true;
    let mut k: usize = 1;
    while k < n
        invariant
            n == addrs@.len(),
            1 <= k <= n || n == 0,
            ok == (forall|j: int| 0 < j < k && j < n ==> #[trigger] addrs@[j] - addrs@[j - 1]
                == PAGE_SIZE as int),
        decreases n - k,
    {
        if addrs[k].saturating_sub(addrs[k - 1]) != PAGE_SIZE as u64 {
            ok = false;
        }
        k = k + 1;
    }
    proof {
        if n > 0 {
            assert(k == n);
        }
        assert(ok <==> forall|i: int|
            #![trigger phys@[i]]
            0 < i < phys@.len() ==> phys@[i]->Some_0 == phys@[i - 1]->Some_0 + 4096)
            by {
            if ok {
                assert forall|i: int|
                    #![trigger phys@[i]]
                    0 < i < phys@.len() implies phys@[i]->Some_0 == phys@[i - 1]->Some_0
                        + 4096 by {
                    assert(addrs@[i] - addrs@[i - 1] == PAGE_SIZE as int);
                    assert(phys@[i] == Some(addrs@[i]));
                    assert(phys@[i - 1] == Some(addrs@[i - 1]));
                }
            } else {
                let j = choose|j: int|
                    #![trigger addrs@[j]]
                    0 < j < n && !(addrs@[j] - addrs@[j - 1] == PAGE_SIZE as int);
                assert(phys@[j] == Some(addrs@[j]));
                assert(phys@[j - 1] == Some(addrs@[j - 1]));
            }
        }
    }
    Ok(ok)
}

} // verus!
