//! Interrupt sources at the interrupt controller.
//!
//! The controller keeps one enable bit per source, 32 to a word.

use crate::hal::interrupt_uart0;
use vstd::prelude::*;

verus! {

/// Where the enable bit of an interrupt source sits.
#[derive(Clone, Copy, Debug, PartialEq, Eq, Structural)]
pub struct InterruptSlot {
    /// Index of the enable word.
    pub word: u32,
    /// Index of the bit within the word, below 32.
    pub bit: u32,
}

impl InterruptSlot {
    /// The source whose enable bit this is.
    pub open spec fn source(self) -> int {
        self.word * 32 + self.bit
    }
}

/// The slot of a source: word `source / 32`, bit `source % 32`.
pub open spec fn slot_of(source: u32) -> InterruptSlot {
    InterruptSlot { word: source / 32, bit: source % 32 }
}

/// The slot of an interrupt source.
#[verifier::when_used_as_spec(slot_of)]
pub fn interrupt_slot(source: u32) -> (slot: InterruptSlot)
    ensures
        slot == slot_of(source),
        slot.bit < 32,
        slot.source() == source,
{
    InterruptSlot { word: source / 32, bit: source % 32 }
}

/// The interrupt source of the serial console, UART0.
pub open spec fn spec_console_interrupt() -> u32 {
    32
}

/// The interrupt source of the serial console, UART0.
#[verifier::when_used_as_spec(spec_console_interrupt)]
pub fn console_interrupt() -> (source: u32)
    ensures
        source == spec_console_interrupt(),
{
    interrupt_uart0()
}

} // verus!
