use vstd::prelude::*;

verus! {

/// Bytes taken by a free-list node header (a size and a next pointer).
pub const NODE_SIZE: usize = 16;

/// Alignment of a free-list node header.
pub const NODE_ALIGN: usize = 8;

/// `addr` rounded up to a multiple of `align`.
pub open spec fn align_up_spec(addr: int, align: int) -> int {
    if addr % align == 0 {
        addr
    } else {
        addr - addr % align + align
    }
}

/// Rounds `addr` up to a multiple of `align`.
pub fn align_up(addr: usize, align: usize) -> (r: usize)
    requires
        align > 0,
        align_up_spec(addr as int, align as int) <= usize::MAX,
    ensures
        r == align_up_spec(addr as int, align as int),
{
    let remainder = addr % align;
    assert(remainder <= addr) by (nonlinear_arith)
        requires remainder == addr % align, align > 0;
    if remainder == 0 {
        addr
    } else {
        addr - remainder + align
    }
}

/// Where an allocation of `size` bytes aligned to `align` starts inside the
/// free region [start, start + rsize): none when it does not fit, or when the
/// leftover tail is too small to hold a node header.
pub open spec fn region_fit(start: int, rsize: int, size: int, align: int) -> Option<int> {
    let alloc_start = align_up_spec(start, align);
    let alloc_end = alloc_start + size;
    if alloc_end > usize::MAX || alloc_end > start + rsize {
        None
    } else if start + rsize - alloc_end > 0 && start + rsize - alloc_end < NODE_SIZE {
        None
    } else {
        Some(alloc_start)
    }
}

/// Start of an allocation of `size` bytes aligned to `align` within the
/// region [start, start + rsize).
fn alloc_from_region(start: usize, rsize: usize, size: usize, align: usize) -> (r: Result<usize, ()>)
    requires
        align > 0,
        start + rsize <= usize::MAX,
        align_up_spec(start as int, align as int) <= usize::MAX,
    ensures
        match r {
            Ok(s) => region_fit(start as int, rsize as int, size as int, align as int) == Some(s as int),
            Err(_) => region_fit(start as int, rsize as int, size as int, align as int) is None,
        },
{
    let alloc_start = align_up(start, align);
    let alloc_end = match alloc_start.checked_add(size) {
        Some(e) => e,
        None => {
            return Err(());
        },
    };
    let end = start + rsize;
    if alloc_end > end {
        return Err(());
    }
    let excess_size = end - alloc_end;
    if excess_size > 0 && excess_size < NODE_SIZE {
        return Err(());
    }
    Ok(alloc_start)
}

/// A first-fit allocator over a list of free regions `(start, size)`, the
/// most recently freed first.
pub struct LinkedListAllocator {
    pub free: Vec<(usize, usize)>,
    pub used_bytes: usize,
    pub total_size: usize,
}

/// A free region: node-aligned and not wrapping past the address space.
pub open spec fn region_ok(r: (usize, usize)) -> bool {
    r.0 % NODE_ALIGN == 0 && r.0 + r.1 <= usize::MAX
}

/// Total free bytes in a region list.
pub open spec fn free_bytes(regions: Seq<(usize, usize)>) -> int
    decreases regions.len(),
{
    if regions.len() == 0 {
        0
    } else {
        regions[0].1 + free_bytes(regions.drop_first())
    }
}

/// Index of the first region an allocation fits in, searching from `i`.
pub open spec fn first_fit_from(regions: Seq<(usize, usize)>, i: int, size: int, align: int) -> Option<int>
    decreases regions.len() - i,
{
    if i < 0 || i >= regions.len() {
        None
    } else if region_fit(regions[i].0 as int, regions[i].1 as int, size, align) is Some {
        Some(i)
    } else {
        first_fit_from(regions, i + 1, size, align)
    }
}

/// Heap block size serving a request of `size` bytes: at least a node header,
/// rounded up to the node alignment.
pub open spec fn block_size(size: int) -> int {
    align_up_spec(if size > NODE_SIZE { size } else { NODE_SIZE as int }, NODE_ALIGN as int)
}

/// Alignments the allocator serves: divisors or multiples of the node alignment
/// (every power of two is one or the other).
pub open spec fn align_ok(align: int) -> bool {
    align > 0 && (align % (NODE_ALIGN as int) == 0 || (NODE_ALIGN as int) % align == 0)
}

proof fn lemma_align_up_node_aligned(start: int, align: int)
    requires
        start >= 0,
        start % 8 == 0,
        align_ok(align),
    ensures
        align_up_spec(start, align) % 8 == 0,
        align_up_spec(start, align) >= start,
        align_up_spec(start, align) % align == 0,
        align % 8 == 0 ==> align_up_spec(start, align) <= start + align,
        8int % align == 0 ==> align_up_spec(start, align) == start,
{
    if 8int % align == 0 {
        assert(start % align == 0) by (nonlinear_arith)
            requires start % 8 == 0, 8int % align == 0, align > 0, start >= 0;
    } else {
        let r = start % align;
        assert(0 <= r < align) by (nonlinear_arith)
            requires r == start % align, align > 0;
        if r != 0 {
            assert((start - r + align) % align == 0) by (nonlinear_arith)
                requires r == start % align, align > 0;
            let q = start - r + align;
            let k = q / align;
            let m = align / 8;
            vstd::arithmetic::div_mod::lemma_fundamental_div_mod(q, align);
            vstd::arithmetic::div_mod::lemma_fundamental_div_mod(align, 8);
            assert(q == 8 * (m * k)) by (nonlinear_arith)
                requires q == align * k + 0, align == 8 * m + 0;
            vstd::arithmetic::div_mod::lemma_mod_multiples_basic(m * k, 8);
            assert((m * k) * 8 == 8 * (m * k)) by (nonlinear_arith);
        }
    }
}

impl LinkedListAllocator {
    pub open spec fn wf(&self) -> bool {
        forall|i: int| 0 <= i < self.free@.len() ==> #[trigger] region_ok(self.free@[i])
    }

    /// An allocator with no memory.
    pub fn new() -> (a: Self)
        ensures
            a.wf(),
            a.free@.len() == 0,
            a.used_bytes == 0,
            a.total_size == 0,
    {
        LinkedListAllocator { free: Vec::new(), used_bytes: 0, total_size: 0 }
    }

    /// Hands the region [heap_start, heap_start + heap_size) to the allocator.
    pub fn init(&mut self, heap_start: usize, heap_size: usize)
        requires
            old(self).wf(),
            heap_start % NODE_ALIGN == 0,
            heap_start + heap_size <= usize::MAX,
        ensures
            final(self).wf(),
            final(self).free@ == seq![(heap_start, heap_size)] + old(self).free@,
            final(self).used_bytes == old(self).used_bytes,
            final(self).total_size == heap_size,
    {
        self.add_free_region(heap_start, heap_size);
        self.total_size = heap_size;
    }

    /// Pushes a free region at the front of the list.
    fn add_free_region(&mut self, addr: usize, size: usize)
        requires
            old(self).wf(),
            addr % NODE_ALIGN == 0,
            addr + size <= usize::MAX,
        ensures
            final(self).wf(),
            final(self).free@ == seq![(addr, size)] + old(self).free@,
            final(self).used_bytes == old(self).used_bytes,
            final(self).total_size == old(self).total_size,
    {
        self.free.insert(0, (addr, size));
        assert(self.free@ =~= seq![(addr, size)] + old(self).free@);
    }

    /// Removes the first region an allocation of `size` bytes aligned to
    /// `align` fits in; returns that region and where the allocation starts.
    fn find_region(&mut self, size: usize, align: usize) -> (r: Option<((usize, usize), usize)>)
        requires
            old(self).wf(),
            align_ok(align as int),
            forall|i: int| 0 <= i < old(self).free@.len()
                ==> align_up_spec((#[trigger] old(self).free@[i]).0 as int, align as int) <= usize::MAX,
        ensures
            final(self).wf(),
            final(self).used_bytes == old(self).used_bytes,
            final(self).total_size == old(self).total_size,
            match first_fit_from(old(self).free@, 0, size as int, align as int) {
                Some(i) => r == Some((old(self).free@[i], region_fit(
                    old(self).free@[i].0 as int,
                    old(self).free@[i].1 as int,
                    size as int,
                    align as int,
                )->0 as usize)) && final(self).free@ == old(self).free@.remove(i),
                None => r is None && final(self).free@ == old(self).free@,
            },
    {
        let mut i: usize = 0;
        while i < self.free.len()
            invariant
                i <= self.free@.len(),
                self.free@ == old(self).free@,
                self.used_bytes == old(self).used_bytes,
                self.total_size == old(self).total_size,
                self.wf(),
                align_ok(align as int),
                forall|k: int| 0 <= k < old(self).free@.len()
                    ==> align_up_spec((#[trigger] old(self).free@[k]).0 as int, align as int) <= usize::MAX,
                first_fit_from(old(self).free@, 0, size as int, align as int)
                    == first_fit_from(old(self).free@, i as int, size as int, align as int),
            decreases self.free@.len() - i,
        {
            let (start, rsize) = self.free[i];
            proof {
                assert(region_ok(self.free@[i as int]));
                lemma_align_up_node_aligned(start as int, align as int);
            }
            match alloc_from_region(start, rsize, size, align) {
                Ok(alloc_start) => {
                    let region = self.free.remove(i);
                    return Some((region, alloc_start));
                },
                Err(_) => {},
            }
            i = i + 1;
        }
        None
    }

    /// Bytes handed out and not yet returned.
    pub fn used(&self) -> (u: usize)
        ensures
            u == self.used_bytes,
    {
        self.used_bytes
    }

    /// Size of the heap given to `init`.
    pub fn size(&self) -> (s: usize)
        ensures
            s == self.total_size,
    {
        self.total_size
    }
}


/// Every region of `free` leaves room to round its start up to `align`.
pub open spec fn aligns_within(free: Seq<(usize, usize)>, align: int) -> bool {
    forall|i: int| 0 <= i < free.len() ==> align_up_spec((#[trigger] free[i]).0 as int, align) <= usize::MAX
}

/// What a successful allocation of `size` bytes aligned to `align` does to the
/// free list `free`: the address handed out and the new free list. The first
/// region that fits is taken out, and the tail left after the block goes back
/// at the front of the list; the alignment padding in front of the block is
/// not given back. None when no region fits.
pub open spec fn alloc_outcome(free: Seq<(usize, usize)>, size: int, align: int) -> Option<(usize, Seq<(usize, usize)>)> {
    let bs = block_size(size);
    match first_fit_from(free, 0, bs, align) {
        None => None,
        Some(i) => {
            let reg = free[i];
            let a = region_fit(reg.0 as int, reg.1 as int, bs, align)->0;
            let end = a + bs;
            let excess = reg.0 + reg.1 - end;
            let rest = free.remove(i);
            Some((a as usize, if excess > 0 { seq![(end as usize, excess as usize)] + rest } else { rest }))
        },
    }
}

/// The free list after a block of `size` bytes at `ptr` is returned.
pub open spec fn dealloc_outcome(free: Seq<(usize, usize)>, ptr: usize, size: int) -> Seq<(usize, usize)> {
    seq![(ptr, block_size(size) as usize)] + free
}

/// The allocator behind a lock: the heap of the kernel.
pub struct LockedAllocator {
    pub inner: LinkedListAllocator,
}

impl LockedAllocator {
    /// A locked allocator with no memory.
    pub fn new() -> (a: Self)
        ensures
            a.inner.wf(),
            a.inner.free@.len() == 0,
            a.inner.used_bytes == 0,
            a.inner.total_size == 0,
    {
        LockedAllocator { inner: LinkedListAllocator::new() }
    }

    /// Exclusive access to the allocator.
    pub fn lock(&mut self) -> (g: &mut LinkedListAllocator)
        ensures
            *g == old(self).inner,
            final(self).inner == *final(g),
    {
        &mut self.inner
    }

    /// Allocates `size` bytes aligned to `align`; None when no free region fits.
    pub fn allocate(&mut self, size: usize, align: usize) -> (r: Option<usize>)
        requires
            old(self).inner.wf(),
            align_ok(align as int),
            block_size(size as int) <= usize::MAX,
            old(self).inner.used_bytes + block_size(size as int) <= usize::MAX,
            aligns_within(old(self).inner.free@, align as int),
        ensures
            final(self).inner.wf(),
            final(self).inner.total_size == old(self).inner.total_size,
            match alloc_outcome(old(self).inner.free@, size as int, align as int) {
                None => r is None && final(self).inner.free@ == old(self).inner.free@
                    && final(self).inner.used_bytes == old(self).inner.used_bytes,
                Some((a, nf)) => r == Some(a) && final(self).inner.free@ == nf
                    && final(self).inner.used_bytes == old(self).inner.used_bytes + block_size(size as int),
            },
    {
        let ghost bs = block_size(size as int);
        let min_size = if size > NODE_SIZE { size } else { NODE_SIZE };
        let bsz = align_up(min_size, NODE_ALIGN);
        assert(bsz == bs);
        match self.inner.find_region(bsz, align) {
            Some((region, alloc_start)) => {
                let ghost i = first_fit_from(old(self).inner.free@, 0, bs, align as int)->0;
                proof {
                    lemma_first_fit_in_range(old(self).inner.free@, 0, bs, align as int);
                    assert(region_ok(old(self).inner.free@[i]));
                    lemma_align_up_node_aligned(region.0 as int, align as int);
                    lemma_block_size_aligned(size as int);
                }
                let alloc_end = alloc_start + bsz;
                let excess = region.0 + region.1 - alloc_end;
                if excess > 0 {
                    assert(alloc_end % NODE_ALIGN == 0);
                    self.inner.add_free_region(alloc_end, excess);
                }
                self.inner.used_bytes = self.inner.used_bytes + bsz;
                proof {
                    let rest = old(self).inner.free@.remove(i);
                    if excess > 0 {
                        assert(self.inner.free@ =~= seq![(alloc_end, excess)] + rest);
                    } else {
                        assert(self.inner.free@ =~= rest);
                    }
                }
                Some(alloc_start)
            },
            None => None,
        }
    }

    /// Returns the block of `size` bytes at `ptr` to the free list.
    pub fn deallocate(&mut self, ptr: usize, size: usize, align: usize)
        requires
            old(self).inner.wf(),
            ptr % NODE_ALIGN == 0,
            block_size(size as int) <= usize::MAX,
            ptr + block_size(size as int) <= usize::MAX,
            old(self).inner.used_bytes >= block_size(size as int),
        ensures
            final(self).inner.wf(),
            final(self).inner.free@ == dealloc_outcome(old(self).inner.free@, ptr, size as int),
            final(self).inner.used_bytes == old(self).inner.used_bytes - block_size(size as int),
            final(self).inner.total_size == old(self).inner.total_size,
    {
        let min_size = if size > NODE_SIZE { size } else { NODE_SIZE };
        let bsz = align_up(min_size, NODE_ALIGN);
        self.inner.add_free_region(ptr, bsz);
        self.inner.used_bytes = self.inner.used_bytes - bsz;
    }
}

proof fn lemma_first_fit_in_range(regions: Seq<(usize, usize)>, i: int, size: int, align: int)
    ensures
        first_fit_from(regions, i, size, align) matches Some(k) ==> i <= k < regions.len()
            && region_fit(regions[k].0 as int, regions[k].1 as int, size, align) is Some,
    decreases regions.len() - i,
{
    if 0 <= i < regions.len() {
        lemma_first_fit_in_range(regions, i + 1, size, align);
    }
}

proof fn lemma_block_size_aligned(size: int)
    requires
        size >= 0,
    ensures
        block_size(size) % 8 == 0,
        block_size(size) >= size,
        block_size(size) >= NODE_SIZE,
        block_size(size) < (if size > NODE_SIZE { size } else { NODE_SIZE as int }) + 8,
{
    let m = if size > NODE_SIZE { size } else { NODE_SIZE as int };
    let r = m % 8;
    if r != 0 {
        assert((m - r + 8) % 8 == 0);
    }
}

proof fn lemma_free_bytes_prepend(x: (usize, usize), s: Seq<(usize, usize)>)
    ensures
        free_bytes(seq![x] + s) == x.1 + free_bytes(s),
{
    assert((seq![x] + s).drop_first() =~= s);
}

proof fn lemma_free_bytes_remove(s: Seq<(usize, usize)>, i: int)
    requires
        0 <= i < s.len(),
    ensures
        free_bytes(s) == s[i].1 + free_bytes(s.remove(i)),
    decreases i,
{
    if i > 0 {
        lemma_free_bytes_remove(s.drop_first(), i - 1);
        assert(s.remove(i) =~= seq![s[0]] + s.drop_first().remove(i - 1));
        lemma_free_bytes_prepend(s[0], s.drop_first().remove(i - 1));
    }
}

/// A block handed out lies inside one of the free regions, starts at a
/// multiple of the requested alignment and of the node alignment, and the
/// free list that remains is still well formed.
pub proof fn lemma_allocation_inside_free_region(free: Seq<(usize, usize)>, size: int, align: int)
    requires
        forall|i: int| 0 <= i < free.len() ==> #[trigger] region_ok(free[i]),
        align_ok(align),
        size >= 0,
        block_size(size) <= usize::MAX,
        aligns_within(free, align),
        alloc_outcome(free, size, align) is Some,
    ensures
        ({
            let (a, nf) = alloc_outcome(free, size, align)->0;
            &&& a as int % align == 0
            &&& a % NODE_ALIGN == 0
            &&& exists|i: int| 0 <= i < free.len() && (#[trigger] free[i]).0 <= a
                && a + block_size(size) <= free[i].0 + free[i].1
            &&& forall|j: int| 0 <= j < nf.len() ==> #[trigger] region_ok(nf[j])
        }),
{
    let bs = block_size(size);
    lemma_first_fit_in_range(free, 0, bs, align);
    let i = first_fit_from(free, 0, bs, align)->0;
    let reg = free[i];
    assert(region_ok(reg));
    lemma_align_up_node_aligned(reg.0 as int, align);
    lemma_block_size_aligned(size);
    let (a, nf) = alloc_outcome(free, size, align)->0;
    assert(free[i].0 <= a && a + bs <= free[i].0 + free[i].1);
    let rest = free.remove(i);
    assert forall|j: int| 0 <= j < rest.len() implies #[trigger] region_ok(rest[j]) by {
        if j < i {
            assert(rest[j] == free[j]);
        } else {
            assert(rest[j] == free[j + 1]);
        }
    }
    assert forall|j: int| 0 <= j < nf.len() implies #[trigger] region_ok(nf[j]) by {
        if a + bs < reg.0 + reg.1 {
            if j > 0 {
                assert(nf[j] == rest[j - 1]);
            }
        } else {
            assert(nf[j] == rest[j]);
        }
    }
}

/// Freeing a block gives back every byte its allocation took from the free
/// list except the alignment padding in front of it; with an alignment no
/// larger than the node alignment there is no padding and the free bytes
/// are exactly restored.
pub proof fn lemma_free_returns_allocated_bytes(free: Seq<(usize, usize)>, size: int, align: int)
    requires
        forall|i: int| 0 <= i < free.len() ==> #[trigger] region_ok(free[i]),
        align_ok(align),
        size >= 0,
        block_size(size) <= usize::MAX,
        aligns_within(free, align),
        alloc_outcome(free, size, align) is Some,
    ensures
        ({
            let (a, nf) = alloc_outcome(free, size, align)->0;
            let reg = free[first_fit_from(free, 0, block_size(size), align)->0];
            &&& free_bytes(nf) + block_size(size) + (a - reg.0) == free_bytes(free)
            &&& free_bytes(dealloc_outcome(nf, a, size)) + (a - reg.0) == free_bytes(free)
            &&& reg.0 <= a
            &&& (NODE_ALIGN as int) % align == 0 ==> free_bytes(dealloc_outcome(nf, a, size)) == free_bytes(free)
        }),
{
    let bs = block_size(size);
    lemma_first_fit_in_range(free, 0, bs, align);
    let i = first_fit_from(free, 0, bs, align)->0;
    let reg = free[i];
    assert(region_ok(reg));
    lemma_align_up_node_aligned(reg.0 as int, align);
    lemma_block_size_aligned(size);
    let (a, nf) = alloc_outcome(free, size, align)->0;
    let rest = free.remove(i);
    lemma_free_bytes_remove(free, i);
    let end = a + bs;
    if end < reg.0 + reg.1 {
        lemma_free_bytes_prepend((end as usize, (reg.0 + reg.1 - end) as usize), rest);
    }
    lemma_free_bytes_prepend((a, bs as usize), nf);
}

} // verus!
