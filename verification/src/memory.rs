//! The boot frame allocator: 4 KiB physical frames handed out in order from
//! the usable regions of the boot memory map.
use vstd::prelude::*;

verus! {

/// The size of a physical frame.
pub const FRAME_SIZE: u64 = 4096;

/// What a region of the boot memory map holds.
#[derive(Debug, Clone, Copy, PartialEq, Eq, Structural)]
pub enum MemoryRegionKind {
    Usable,
    Bootloader,
    UnknownUefi(u32),
    UnknownBios(u32),
}

/// A region `[start, end)` of physical memory.
#[derive(Debug, Clone, Copy, PartialEq, Eq, Structural)]
pub struct MemoryRegion {
    pub start: u64,
    pub end: u64,
    pub kind: MemoryRegionKind,
}

/// How many 4 KiB steps from `start` stay below `end`.
pub open spec fn step_count(r: MemoryRegion) -> nat {
    if r.end > r.start { ((r.end - r.start + 4095) / 4096) as nat } else { 0 }
}

/// The frames of a region: the frame holding each address `start + 4096 i`
/// below `end`.
pub open spec fn region_frames(r: MemoryRegion) -> Seq<u64> {
    Seq::new(step_count(r), |i: int| ((r.start + 4096 * i) as u64) & !0xFFFu64)
}

/// The frames of the usable regions, region by region.
pub open spec fn usable_frames(rs: Seq<MemoryRegion>) -> Seq<u64>
    decreases rs.len(),
{
    if rs.len() == 0 {
        Seq::empty()
    } else {
        (if rs[0].kind == MemoryRegionKind::Usable { region_frames(rs[0]) } else { Seq::empty() })
            + usable_frames(rs.drop_first())
    }
}

/// A bump allocator over the memory map: the `next`-th usable frame is the
/// next one handed out.
pub struct BootInfoFrameAllocator {
    pub memory_map: Vec<MemoryRegion>,
    pub next: usize,
}

proof fn lemma_usable_frames_skip(rs: Seq<MemoryRegion>, i: int)
    requires
        0 <= i < rs.len(),
    ensures
        usable_frames(rs.skip(i)) == (if rs[i].kind == MemoryRegionKind::Usable {
            region_frames(rs[i])
        } else {
            Seq::empty()
        }) + usable_frames(rs.skip(i + 1)),
{
    assert(rs.skip(i).drop_first() =~= rs.skip(i + 1));
    assert(rs.skip(i)[0] == rs[i]);
}

impl BootInfoFrameAllocator {
    /// An allocator at the first frame of `memory_map`.
    pub fn init(memory_map: Vec<MemoryRegion>) -> (a: Self)
        ensures
            a.memory_map@ == memory_map@,
            a.next == 0,
    {
        BootInfoFrameAllocator { memory_map, next: 0 }
    }

    /// The next usable frame's start address, or `None` once they are used
    /// up; the position moves on either way.
    pub fn allocate_frame(&mut self) -> (frame: Option<u64>)
        requires
            old(self).next < usize::MAX,
        ensures
            final(self).memory_map@ == old(self).memory_map@,
            final(self).next == old(self).next + 1,
            frame == (if old(self).next < usable_frames(old(self).memory_map@).len() {
                Some(usable_frames(old(self).memory_map@)[old(self).next as int])
            } else {
                None::<u64>
            }),
    {
        let target = self.next;
        self.next = target + 1;
        let ghost rs = self.memory_map@;
        let mut n: u64 = target as u64;
        let mut i: usize = 0;
        proof {
            assert(rs.skip(0) =~= rs);
        }
        while i < self.memory_map.len()
            invariant
                i <= rs.len(),
                rs == self.memory_map@,
                rs == old(self).memory_map@,
                target == old(self).next,
                self.next == target + 1,
                n <= target,
                target - n + usable_frames(rs.skip(i as int)).len() == usable_frames(rs).len(),
                forall|k: int| 0 <= k < usable_frames(rs.skip(i as int)).len() ==>
                    usable_frames(rs)[target - n + k] == #[trigger] usable_frames(rs.skip(i as int))[k],
            decreases rs.len() - i,
        {
            let r = self.memory_map[i];
            proof {
                lemma_usable_frames_skip(rs, i as int);
            }
            if r.kind == MemoryRegionKind::Usable {
                let count: u64 = if r.end > r.start {
                    let span = r.end - r.start;
                    span / 4096 + if span % 4096 != 0 { 1 } else { 0 }
                } else {
                    0
                };
                assert(count == step_count(r));
                if n < count {
                    assert((r.start + 4096 * n) < r.end) by (nonlinear_arith)
                        requires
                            n < count,
                            r.end > r.start,
                            count == (r.end - r.start + 4095) / 4096,
                    ;
                    let addr = r.start + 4096 * n;
                    assert(region_frames(r)[n as int] == addr & !0xFFFu64);
                    assert(usable_frames(rs.skip(i as int))[n as int] == region_frames(r)[n as int]);
                    return Some(addr & !0xFFF);
                }
                let ghost n0 = n;
                n = n - count;
                proof {
                    assert forall|k: int| 0 <= k < usable_frames(rs.skip(i + 1)).len() implies
                        usable_frames(rs)[target - n + k] == #[trigger] usable_frames(rs.skip(i + 1))[k] by {
                        assert(usable_frames(rs.skip(i as int))[count + k] == usable_frames(rs.skip(i + 1))[k]);
                        assert(usable_frames(rs)[target - n0 + (count + k)] == usable_frames(rs.skip(i as int))[count + k]);
                    }
                }
            } else {
                proof {
                    assert forall|k: int| 0 <= k < usable_frames(rs.skip(i + 1)).len() implies
                        usable_frames(rs)[target - n + k] == #[trigger] usable_frames(rs.skip(i + 1))[k] by {
                        assert(usable_frames(rs.skip(i as int))[k] == usable_frames(rs.skip(i + 1))[k]);
                    }
                }
            }
            i = i + 1;
        }
        proof {
            assert(rs.skip(i as int) =~= Seq::<MemoryRegion>::empty());
        }
        None
    }
}

} // verus!
