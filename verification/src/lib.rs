use vstd::prelude::*;

verus! {

/// The ways an allocator operation can fail.
#[derive(Clone, Copy, Debug, PartialEq, Eq, Structural)]
pub enum AllocError {
    /// The requested allocation does not fit in the free gap.
    NoMemory,
    /// A region handed to `add_memory` intersects the managed range.
    MemoryOverlap,
    /// A page alignment is not a power of two or not a multiple of the page size.
    InvalidParam,
}

/// `n` is a power of two.
pub open spec fn is_power_of_2(n: int) -> bool
    decreases n,
{
    if n <= 0 {
        false
    } else if n == 1 {
        true
    } else {
        n % 2 == 0 && is_power_of_2(n / 2)
    }
}

/// `x` rounded down to the nearest multiple of `a`.
pub open spec fn align_down(x: int, a: int) -> int {
    (x / a) * a
}

/// Decide whether `n` is a power of two by halving it down to one.
fn check_power_of_2(n: usize) -> (r: bool)
    ensures
        r == is_power_of_2(n as int),
{
    let mut v: usize = n;
    while v > 1
        invariant
            is_power_of_2(n as int) == is_power_of_2(v as int),
        decreases v,
    {
        if v % 2 != 0 {
            return false;
        }
        v = v / 2;
    }
    v == 1
}

/// Early memory allocator for the boot phase, before the permanent byte and
/// page allocators are up. It manages one contiguous address range and serves
/// byte allocations bumping forward from the low end and page allocations
/// bumping backward from the high end:
///
/// ```text
/// [ bytes-used | free gap | pages-used ]
/// start       b_pos      p_pos        end
/// ```
///
/// Deallocation is LIFO-only on the byte side and never reclaimed on the page
/// side; freed space that does not sit at a frontier is leaked until the whole
/// allocator is retired.
pub struct EarlyAllocator<const PAGE_SIZE: usize> {
    start: usize,
    end: usize,
    b_pos: usize,
    p_pos: usize,
}

impl<const PAGE_SIZE: usize> EarlyAllocator<PAGE_SIZE> {
    /// Lowest address of the managed range.
    pub closed spec fn spec_start(&self) -> int {
        self.start as int
    }

    /// Exclusive upper bound of the managed range.
    pub closed spec fn spec_end(&self) -> int {
        self.end as int
    }

    /// Byte frontier: top of the bytes-used region.
    pub closed spec fn spec_b_pos(&self) -> int {
        self.b_pos as int
    }

    /// Page frontier: bottom of the pages-used region.
    pub closed spec fn spec_p_pos(&self) -> int {
        self.p_pos as int
    }

    /// The layout invariant: the two frontiers sit inside the managed range
    /// and never cross.
    pub open spec fn wf(&self) -> bool {
        self.spec_start() <= self.spec_b_pos() <= self.spec_p_pos() <= self.spec_end()
    }

    /// Whole managed range, in bytes.
    pub open spec fn spec_total_bytes(&self) -> int {
        self.spec_end() - self.spec_start()
    }

    /// Bytes consumed by byte allocations.
    pub open spec fn spec_used_bytes(&self) -> int {
        self.spec_b_pos() - self.spec_start()
    }

    /// Bytes still open to the byte side, measured up to the end of the range.
    pub open spec fn spec_available_bytes(&self) -> int {
        self.spec_end() - self.spec_b_pos()
    }

    /// The free gap between the two frontiers; allocations on either side
    /// succeed only while they fit in it.
    pub open spec fn spec_free_gap(&self) -> int {
        self.spec_p_pos() - self.spec_b_pos()
    }

    /// Whether `[base, base + size)` intersects the managed range.
    pub open spec fn spec_overlaps(&self, base: usize, size: usize) -> bool {
        (base as int) < self.spec_end() && base as int + size as int > self.spec_start()
    }

    /// An empty, not yet activated allocator.
    pub fn new() -> (r: Self)
        ensures
            r.wf(),
            r.spec_start() == 0,
            r.spec_end() == 0,
            r.spec_b_pos() == 0,
            r.spec_p_pos() == 0,
    {
        Self { start: 0, end: 0, b_pos: 0, p_pos: 0 }
    }

    /// One-time activation: take over the range `[base, base + size)` with
    /// both sides empty.
    pub fn init(&mut self, base: usize, size: usize)
        requires
            base + size <= usize::MAX,
        ensures
            final(self).wf(),
            final(self).spec_start() == base,
            final(self).spec_end() == base + size,
            final(self).spec_b_pos() == base,
            final(self).spec_p_pos() == base + size,
    {
        self.start = base;
        self.end = base + size;
        self.b_pos = base;
        self.p_pos = base + size;
    }

    /// Extend the managed range with a disjoint block. A block below `start`
    /// lowers `start`; a block above `end` raises `end` and resets the page
    /// frontier to the new `end`, so the whole upper extension becomes free
    /// page space. A block intersecting the range is rejected.
    pub fn add_memory(&mut self, base: usize, size: usize) -> (r: Result<(), AllocError>)
        requires
            old(self).wf(),
            base + size <= usize::MAX,
        ensures
            final(self).wf(),
            r is Err <==> old(self).spec_overlaps(base, size),
            r is Err ==> r == Err::<(), AllocError>(AllocError::MemoryOverlap)
                && *final(self) == *old(self),
            r is Ok ==> final(self).spec_start() == (
                if (base as int) < old(self).spec_start() {
                    base as int
                } else {
                    old(self).spec_start()
                }),
            r is Ok ==> final(self).spec_b_pos() == old(self).spec_b_pos(),
            r is Ok && base + size > old(self).spec_end() ==> final(self).spec_end() == base + size
                && final(self).spec_p_pos() == base + size,
            r is Ok && base + size <= old(self).spec_end() ==> final(self).spec_end() == old(
                self,
            ).spec_end() && final(self).spec_p_pos() == old(self).spec_p_pos(),
    {
        if base < self.end && base + size > self.start {
            return Err(AllocError::MemoryOverlap);
        }
        if base < self.start {
            self.start = base;
        }
        if base + size > self.end {
            self.end = base + size;
            self.p_pos = self.end;
        }
        Ok(())
    }

    /// Allocate `size` bytes by bumping the byte frontier forward; the
    /// returned address is the old frontier. Placement is natural: the
    /// `_align` request is not acted on beyond it. Fails with `NoMemory`, and
    /// changes nothing, exactly when `size` exceeds the free gap.
    pub fn alloc_bytes(&mut self, size: usize, _align: usize) -> (r: Result<usize, AllocError>)
        requires
            old(self).wf(),
        ensures
            final(self).wf(),
            r is Ok <==> size as int <= old(self).spec_free_gap(),
            r matches Ok(addr) ==> addr as int == old(self).spec_b_pos()
                && final(self).spec_b_pos() == old(self).spec_b_pos() + size
                && final(self).spec_start() == old(self).spec_start()
                && final(self).spec_end() == old(self).spec_end()
                && final(self).spec_p_pos() == old(self).spec_p_pos(),
            r is Err ==> r == Err::<usize, AllocError>(AllocError::NoMemory)
                && *final(self) == *old(self),
    {
        if self.p_pos - self.b_pos < size {
            return Err(AllocError::NoMemory);
        }
        let addr = self.b_pos;
        self.b_pos = self.b_pos + size;
        Ok(addr)
    }

    /// Free `size` bytes at `pos`. Only the most recently allocated block can
    /// come back: when `pos + size` is exactly the byte frontier (and `pos`
    /// lies in the range), the frontier drops to `pos`; any other call is a
    /// silent no-op and the space stays leaked.
    pub fn dealloc(&mut self, pos: usize, size: usize)
        requires
            old(self).wf(),
        ensures
            final(self).wf(),
            pos as int + size as int == old(self).spec_b_pos() && pos as int >= old(
                self,
            ).spec_start() ==> final(self).spec_b_pos() == pos
                && final(self).spec_start() == old(self).spec_start()
                && final(self).spec_end() == old(self).spec_end()
                && final(self).spec_p_pos() == old(self).spec_p_pos(),
            !(pos as int + size as int == old(self).spec_b_pos() && pos as int >= old(
                self,
            ).spec_start()) ==> *final(self) == *old(self),
    {
        if size <= self.b_pos && pos == self.b_pos - size && pos >= self.start {
            self.b_pos = pos;
        }
    }

    /// Size of the whole managed range, in bytes.
    pub fn total_bytes(&self) -> (r: usize)
        requires
            self.wf(),
        ensures
            r as int == self.spec_total_bytes(),
    {
        self.end - self.start
    }

    /// Bytes consumed by byte allocations.
    pub fn used_bytes(&self) -> (r: usize)
        requires
            self.wf(),
        ensures
            r as int == self.spec_used_bytes(),
    {
        self.b_pos - self.start
    }

    /// Bytes still open to the byte side.
    pub fn available_bytes(&self) -> (r: usize)
        requires
            self.wf(),
        ensures
            r as int == self.spec_available_bytes(),
    {
        self.end - self.b_pos
    }

    /// Page alignment accepted by `alloc_pages`: a multiple of the page size
    /// and a power of two.
    pub open spec fn spec_align_ok(align: usize) -> bool {
        align as int % PAGE_SIZE as int == 0 && is_power_of_2(align as int)
    }

    /// Bytes taken by `num_pages` pages.
    pub open spec fn spec_pages_needed(num_pages: usize) -> int {
        num_pages as int * PAGE_SIZE as int
    }

    /// The base address a page allocation would get: the page frontier moved
    /// down by the requested bytes, then rounded down to the requested
    /// alignment.
    pub open spec fn spec_page_target(&self, num_pages: usize, align: usize) -> int {
        align_down(self.spec_p_pos() - Self::spec_pages_needed(num_pages), align as int)
    }

    /// Whether a page allocation lands inside the free gap.
    pub open spec fn spec_pages_fit(&self, num_pages: usize, align: usize) -> bool {
        Self::spec_pages_needed(num_pages) <= self.spec_p_pos() && self.spec_page_target(
            num_pages,
            align,
        ) >= self.spec_b_pos()
    }

    /// Whole managed range, in pages.
    pub open spec fn spec_total_pages(&self) -> int {
        self.spec_total_bytes() / PAGE_SIZE as int
    }

    /// Pages consumed by page allocations.
    pub open spec fn spec_used_pages(&self) -> int {
        (self.spec_end() - self.spec_p_pos()) / PAGE_SIZE as int
    }

    /// Pages still open to the page side.
    pub open spec fn spec_available_pages(&self) -> int {
        (self.spec_p_pos() - self.spec_start()) / PAGE_SIZE as int
    }

    /// Allocate `num_pages` contiguous pages by bumping the page frontier
    /// downward; the new frontier, rounded down to `align_pow2`, is returned
    /// as the base of the block. Fails with `InvalidParam` exactly when the
    /// alignment is not a power of two or not a multiple of the page size,
    /// and with `NoMemory` exactly when the aligned block does not fit in the
    /// free gap; a failing call changes nothing.
    pub fn alloc_pages(&mut self, num_pages: usize, align_pow2: usize) -> (r: Result<
        usize,
        AllocError,
    >)
        requires
            old(self).wf(),
            PAGE_SIZE >= 1,
        ensures
            final(self).wf(),
            r == Err::<usize, AllocError>(AllocError::InvalidParam) <==> !Self::spec_align_ok(
                align_pow2,
            ),
            r == Err::<usize, AllocError>(AllocError::NoMemory) <==> Self::spec_align_ok(align_pow2)
                && !old(self).spec_pages_fit(num_pages, align_pow2),
            r is Ok <==> Self::spec_align_ok(align_pow2) && old(self).spec_pages_fit(
                num_pages,
                align_pow2,
            ),
            r matches Ok(addr) ==> addr as int == old(self).spec_page_target(num_pages, align_pow2)
                && addr as int % align_pow2 as int == 0
                && addr as int + Self::spec_pages_needed(num_pages) <= old(self).spec_p_pos()
                && final(self).spec_p_pos() == addr as int
                && final(self).spec_start() == old(self).spec_start()
                && final(self).spec_end() == old(self).spec_end()
                && final(self).spec_b_pos() == old(self).spec_b_pos(),
            r is Err ==> *final(self) == *old(self),
    {
        if align_pow2 % PAGE_SIZE != 0 {
            return Err(AllocError::InvalidParam);
        }
        if !check_power_of_2(align_pow2) {
            return Err(AllocError::InvalidParam);
        }
        if num_pages > self.p_pos / PAGE_SIZE {
            proof {
                let p = self.p_pos as int;
                let ps = PAGE_SIZE as int;
                vstd::arithmetic::mul::lemma_mul_inequality(p / ps + 1, num_pages as int, ps);
                vstd::arithmetic::mul::lemma_mul_is_distributive_add(ps, p / ps, 1);
                vstd::arithmetic::div_mod::lemma_fundamental_div_mod(p, ps);
                vstd::arithmetic::div_mod::lemma_mod_bound(p, ps);
                assert(num_pages as int * ps > p);
            }
            return Err(AllocError::NoMemory);
        }
        proof {
            let p = self.p_pos as int;
            let ps = PAGE_SIZE as int;
            vstd::arithmetic::mul::lemma_mul_inequality(num_pages as int, p / ps, ps);
            vstd::arithmetic::mul::lemma_mul_nonnegative(num_pages as int, ps);
            vstd::arithmetic::div_mod::lemma_fundamental_div_mod(p, ps);
            vstd::arithmetic::div_mod::lemma_mod_bound(p, ps);
            assert(num_pages as int * ps <= p);
        }
        let needed = num_pages * PAGE_SIZE;
        let rest = self.p_pos - needed;
        proof {
            assert(align_pow2 as int >= 1);
            let x = rest as int;
            let a = align_pow2 as int;
            vstd::arithmetic::div_mod::lemma_fundamental_div_mod(x, a);
            vstd::arithmetic::div_mod::lemma_mod_bound(x, a);
            vstd::arithmetic::div_mod::lemma_mod_multiples_basic(x / a, a);
        }
        let target = (rest / align_pow2) * align_pow2;
        if target < self.b_pos {
            return Err(AllocError::NoMemory);
        }
        self.p_pos = target;
        Ok(target)
    }

    /// Hand `num_pages` pages back by bumping the page frontier up,
    /// unconditionally: the caller must free in exact reverse order of
    /// allocation, and nothing checks that `_pos` was the block's base.
    pub fn dealloc_pages(&mut self, _pos: usize, num_pages: usize)
        requires
            old(self).wf(),
            PAGE_SIZE >= 1,
            old(self).spec_p_pos() + num_pages as int * PAGE_SIZE as int <= old(self).spec_end(),
        ensures
            final(self).wf(),
            final(self).spec_p_pos() == old(self).spec_p_pos() + num_pages as int
                * PAGE_SIZE as int,
            final(self).spec_start() == old(self).spec_start(),
            final(self).spec_end() == old(self).spec_end(),
            final(self).spec_b_pos() == old(self).spec_b_pos(),
    {
        proof {
            vstd::arithmetic::mul::lemma_mul_nonnegative(num_pages as int, PAGE_SIZE as int);
        }
        self.p_pos = self.p_pos + num_pages * PAGE_SIZE;
    }

    /// Size of the whole managed range, in pages.
    pub fn total_pages(&self) -> (r: usize)
        requires
            self.wf(),
            PAGE_SIZE >= 1,
        ensures
            r as int == self.spec_total_pages(),
    {
        (self.end - self.start) / PAGE_SIZE
    }

    /// Pages consumed by page allocations.
    pub fn used_pages(&self) -> (r: usize)
        requires
            self.wf(),
            PAGE_SIZE >= 1,
        ensures
            r as int == self.spec_used_pages(),
    {
        (self.end - self.p_pos) / PAGE_SIZE
    }

    /// Pages still open to the page side.
    pub fn available_pages(&self) -> (r: usize)
        requires
            self.wf(),
            PAGE_SIZE >= 1,
        ensures
            r as int == self.spec_available_pages(),
    {
        (self.p_pos - self.start) / PAGE_SIZE
    }

    /// Byte accounting law: at every point, the total byte count is exactly
    /// the used bytes plus the available bytes.
    pub proof fn lemma_byte_accounting(&self)
        requires
            self.wf(),
        ensures
            self.spec_total_bytes() == self.spec_used_bytes() + self.spec_available_bytes(),
    {
    }

    /// Page accounting law: while the bounds and the page frontier are
    /// page-aligned, the total page count is exactly the used pages plus the
    /// available pages. (An unaligned range loses the fractional pages at
    /// its edges to rounding, and the sum can fall short of the total.)
    pub proof fn lemma_page_accounting(&self)
        requires
            self.wf(),
            PAGE_SIZE >= 1,
            self.spec_start() % PAGE_SIZE as int == 0,
            self.spec_end() % PAGE_SIZE as int == 0,
            self.spec_p_pos() % PAGE_SIZE as int == 0,
        ensures
            self.spec_total_pages() == self.spec_used_pages() + self.spec_available_pages(),
    {
        let ps = PAGE_SIZE as int;
        let used = self.spec_end() - self.spec_p_pos();
        let avail = self.spec_p_pos() - self.spec_start();
        vstd::arithmetic::div_mod::lemma_sub_mod_noop(self.spec_end(), self.spec_p_pos(), ps);
        vstd::arithmetic::div_mod::lemma_mod_multiples_basic(0, ps);
        assert(used % ps == 0);
        vstd::arithmetic::div_mod::lemma_fundamental_div_mod(used, ps);
        vstd::arithmetic::div_mod::lemma_hoist_over_denominator(avail, used / ps, ps as nat);
        assert(avail / ps + used / ps == (avail + used) / ps);
    }
}

} // verus!
