use vstd::prelude::*;
use core::marker::PhantomData;

verus! {

/// Addresses of the `count` objects of `size` bytes laid out from `start`.
pub open spec fn slab_slots(start: int, count: int, size: int) -> Seq<usize> {
    Seq::new(count as nat, |i: int| (start + i * size) as usize)
}

/// What taking an object from the free stack `free` gives: the object on
/// top and the stack left, or None when the stack is empty.
pub open spec fn slab_take(free: Seq<usize>) -> Option<(usize, Seq<usize>)> {
    if free.len() == 0 {
        None
    } else {
        Some((free.last(), free.drop_last()))
    }
}

/// The free stack after the object at `addr` is given back.
pub open spec fn slab_give(free: Seq<usize>, addr: usize) -> Seq<usize> {
    free.push(addr)
}

/// A pool of fixed-size objects of type `T`, kept as a stack of free slots:
/// the slot freed last is handed out first.
pub struct Slab<T> {
    pub size: usize,
    pub free: Vec<usize>,
    pub phantom: PhantomData<T>,
}

impl<T> Slab<T> {
    /// An empty slab whose slots are `size_of::<T>()` bytes.
    pub fn new() -> (s: Self)
        requires
            vstd::layout::size_of::<T>() >= 8,
        ensures
            s.size == vstd::layout::size_of::<T>(),
            s.free@.len() == 0,
    {
        Slab { size: core::mem::size_of::<T>(), free: Vec::new(), phantom: PhantomData }
    }

    /// Gives the slab `count` slots laid out from `start_addr`; the last of
    /// them is handed out first.
    pub fn init(&mut self, start_addr: usize, count: usize)
        requires
            start_addr as int % vstd::layout::align_of::<T>() as int == 0,
            count == 0 || start_addr + (count - 1) * old(self).size <= usize::MAX,
        ensures
            final(self).size == old(self).size,
            final(self).free@ == old(self).free@ + slab_slots(start_addr as int, count as int, old(self).size as int),
    {
        let ghost sz = self.size as int;
        let mut i: usize = 0;
        while i < count
            invariant
                i <= count,
                self.size == old(self).size,
                sz == self.size,
                count == 0 || start_addr + (count - 1) * sz <= usize::MAX,
                self.free@ == old(self).free@ + slab_slots(start_addr as int, i as int, sz),
            decreases count - i,
        {
            assert(i * sz <= (count - 1) * sz) by (nonlinear_arith)
                requires i < count, sz >= 0;
            assert(0 <= i * sz) by (nonlinear_arith)
                requires i >= 0, sz >= 0;
            let addr = start_addr + i * self.size;
            self.free_node(addr);
            i = i + 1;
            assert(self.free@ =~= old(self).free@ + slab_slots(start_addr as int, i as int, sz));
        }
    }

    /// Takes the slot on top of the free stack, or None when every slot is in use.
    pub fn allocate(&mut self) -> (r: Option<usize>)
        ensures
            final(self).size == old(self).size,
            match slab_take(old(self).free@) {
                None => r is None && final(self).free@ == old(self).free@,
                Some((a, rest)) => r == Some(a) && final(self).free@ == rest,
            },
    {
        self.free.pop()
    }

    /// Gives the slot at `ptr` back.
    pub fn deallocate(&mut self, ptr: usize)
        ensures
            final(self).size == old(self).size,
            final(self).free@ == slab_give(old(self).free@, ptr),
    {
        self.free_node(ptr);
    }

    fn free_node(&mut self, node: usize)
        ensures
            final(self).size == old(self).size,
            final(self).free@ == old(self).free@.push(node),
    {
        self.free.push(node);
    }
}

/// A slab behind a lock.
pub struct SlabAllocator<T> {
    pub inner: Slab<T>,
}

impl<T> SlabAllocator<T> {
    /// An allocator over an empty slab.
    pub fn new() -> (s: Self)
        requires
            vstd::layout::size_of::<T>() >= 8,
        ensures
            s.inner.size == vstd::layout::size_of::<T>(),
            s.inner.free@.len() == 0,
    {
        SlabAllocator { inner: Slab::new() }
    }

    /// Gives the slab `count` slots laid out from `start_addr`.
    pub fn init(&mut self, start_addr: usize, count: usize)
        requires
            start_addr as int % vstd::layout::align_of::<T>() as int == 0,
            count == 0 || start_addr + (count - 1) * old(self).inner.size <= usize::MAX,
        ensures
            final(self).inner.size == old(self).inner.size,
            final(self).inner.free@ == old(self).inner.free@ + slab_slots(start_addr as int, count as int, old(self).inner.size as int),
    {
        self.inner.init(start_addr, count);
    }

    /// Takes a free slot, or None when every slot is in use.
    pub fn allocate(&mut self) -> (r: Option<usize>)
        ensures
            final(self).inner.size == old(self).inner.size,
            match slab_take(old(self).inner.free@) {
                None => r is None && final(self).inner.free@ == old(self).inner.free@,
                Some((a, rest)) => r == Some(a) && final(self).inner.free@ == rest,
            },
    {
        self.inner.allocate()
    }

    /// Gives the slot at `ptr` back.
    pub fn dealloc(&mut self, ptr: usize)
        ensures
            final(self).inner.size == old(self).inner.size,
            final(self).inner.free@ == slab_give(old(self).inner.free@, ptr),
    {
        self.inner.deallocate(ptr);
    }
}

/// The slot given back last is the next one handed out, and taking it leaves
/// the free stack as it was before.
pub proof fn lemma_slab_give_then_take(free: Seq<usize>, addr: usize)
    ensures
        slab_take(slab_give(free, addr)) == Some((addr, free)),
{
    assert(free.push(addr).drop_last() =~= free);
}

/// The slots laid out by `init` are aligned like their first one and do not
/// overlap: any two are at least one object apart.
pub proof fn lemma_slab_slots_disjoint(start: usize, count: usize, size: usize, align: int)
    requires
        count == 0 || start + (count - 1) * size <= usize::MAX,
        align > 0,
        start as int % align == 0,
        size as int % align == 0,
    ensures
        forall|i: int, j: int| 0 <= i < j < count ==>
            #[trigger] slab_slots(start as int, count as int, size as int)[j]
                - #[trigger] slab_slots(start as int, count as int, size as int)[i] >= size,
        forall|i: int| 0 <= i < count ==>
            #[trigger] slab_slots(start as int, count as int, size as int)[i] as int % align == 0,
{
    let s = slab_slots(start as int, count as int, size as int);
    assert forall|i: int, j: int| 0 <= i < j < count implies #[trigger] s[j] - #[trigger] s[i] >= size by {
        assert(i * size <= (count - 1) * size && j * size <= (count - 1) * size && 0 <= i * size) by (nonlinear_arith)
            requires 0 <= i < j < count, size >= 0;
        assert(j * size - i * size >= size) by (nonlinear_arith)
            requires i < j, size >= 0;
    }
    assert forall|i: int| 0 <= i < count implies #[trigger] s[i] as int % align == 0 by {
        assert(0 <= i * size <= (count - 1) * size) by (nonlinear_arith)
            requires 0 <= i < count, size >= 0;
        let k = size as int / align;
        vstd::arithmetic::div_mod::lemma_fundamental_div_mod(size as int, align);
        vstd::arithmetic::div_mod::lemma_fundamental_div_mod(start as int, align);
        let m = start as int / align;
        assert(start + i * size == align * (m + i * k)) by (nonlinear_arith)
            requires size == align * k + 0, start == align * m + 0;
        vstd::arithmetic::div_mod::lemma_mod_multiples_basic(m + i * k, align);
        assert((m + i * k) * align == align * (m + i * k)) by (nonlinear_arith);
    }
}

} // verus!
