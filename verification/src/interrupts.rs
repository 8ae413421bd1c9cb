//! Interrupt vectors of the hardware interrupts the kernel handles.
use vstd::prelude::*;

verus! {

/// The vector of the APIC timer, the first after the CPU exceptions.
pub const TIMER_INTERRUPT_VECTOR: u8 = 32;

/// The hardware interrupts: the timer, the keyboard after it, and the APIC's
/// spurious vector.
#[derive(Debug, Clone, Copy, PartialEq, Eq, Structural)]
pub enum InterruptIndex {
    Timer,
    Keyboard,
    Spurious,
}

/// The vector of each interrupt.
pub open spec fn vector_of(i: InterruptIndex) -> u8 {
    match i {
        InterruptIndex::Timer => TIMER_INTERRUPT_VECTOR,
        InterruptIndex::Keyboard => (TIMER_INTERRUPT_VECTOR + 1) as u8,
        InterruptIndex::Spurious => 0xFF,
    }
}

impl InterruptIndex {
    /// The interrupt's vector.
    pub fn as_u8(self) -> (v: u8)
        ensures
            v == vector_of(self),
    {
        match self {
            InterruptIndex::Timer => TIMER_INTERRUPT_VECTOR,
            InterruptIndex::Keyboard => TIMER_INTERRUPT_VECTOR + 1,
            InterruptIndex::Spurious => 0xFF,
        }
    }

    /// The interrupt's vector, as an index into the descriptor table.
    pub fn as_usize(self) -> (v: usize)
        ensures
            v == vector_of(self) as usize,
    {
        self.as_u8() as usize
    }
}

} // verus!
