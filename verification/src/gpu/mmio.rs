use vstd::prelude::*;

verus! {

/// A block of memory-mapped device registers at a physical base address.
/// Register accesses themselves are performed by the platform layer.
#[derive(Debug, Clone, Copy)]
pub struct MmioReg {
    pub base: u64,
}

impl MmioReg {
    pub fn new(base: u64) -> (r: Self)
        ensures
            r.base == base,
    {
        MmioReg { base }
    }
}

} // verus!
