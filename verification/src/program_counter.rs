//! The program counter, which keeps track of where execution is.
use crate::STARTING_MEMORY_BLOCK;
use vstd::prelude::*;

verus! {

/// A 16 bit value reduced modulo 0x10000.
pub open spec fn wrap16(x: int) -> u16 {
    (x % 0x10000) as u16
}

/// The Program Counter for the computer. Keeps track of where the computer's
/// execution is transpiring. `start` is where a reset sends it back to.
pub struct ProgramCounter {
    pub value: u16,
    pub start: u16,
}

/// Whether adding `amount` to the counter carries out of its low byte.
pub open spec fn crosses_up(value: u16, amount: u8) -> bool {
    value % 256 + amount > 255
}

/// Whether subtracting `amount` from the counter borrows from its high byte.
pub open spec fn crosses_down(value: u16, amount: u8) -> bool {
    value % 256 < amount
}

impl ProgramCounter {
    /// Creates a new counter at the default memory block. Use `new_at` to
    /// start elsewhere.
    pub fn new() -> (r: ProgramCounter)
        ensures
            r.value == STARTING_MEMORY_BLOCK,
            r.start == STARTING_MEMORY_BLOCK,
    {
        ProgramCounter { value: STARTING_MEMORY_BLOCK, start: STARTING_MEMORY_BLOCK }
    }

    /// Creates a new counter at the given block, which is also where a reset
    /// sends it back to.
    pub fn new_at(block: u16) -> (r: ProgramCounter)
        ensures
            r.value == block,
            r.start == block,
    {
        ProgramCounter { value: block, start: block }
    }

    /// Resets the counter to its start block.
    pub fn reset(&mut self)
        ensures
            final(self).value == old(self).start,
            final(self).start == old(self).start,
    {
        self.value = self.start;
    }

    /// Gets the current value of the counter.
    pub fn get(&self) -> (r: usize)
        ensures
            r == self.value,
    {
        self.value as usize
    }

    /// Adds to the counter, wrapping on overflow. Returns whether the
    /// addition crossed a page boundary.
    pub fn increase(&mut self, amount: u8) -> (r: bool)
        ensures
            r == crosses_up(old(self).value, amount),
            final(self).value == wrap16(old(self).value + amount),
            final(self).start == old(self).start,
    {
        let did_cross = self.test_page_boundary_add(amount);
        self.value = self.value.wrapping_add(amount as u16);
        did_cross
    }

    /// Subtracts from the counter, wrapping on overflow. Returns whether the
    /// subtraction crossed a page boundary.
    pub fn decrease(&mut self, amount: u8) -> (r: bool)
        ensures
            r == crosses_down(old(self).value, amount),
            final(self).value == wrap16(old(self).value - amount),
            final(self).start == old(self).start,
    {
        let did_cross = self.test_page_boundary_sub(amount);
        self.value = self.value.wrapping_sub(amount as u16);
        did_cross
    }

    /// Tests whether an addition would cross a page boundary.
    pub fn test_page_boundary_add(&mut self, amount: u8) -> (r: bool)
        ensures
            r == crosses_up(old(self).value, amount),
            *final(self) == *old(self),
    {
        let low = (self.value % 256) as u8;
        low > 255 - amount
    }

    /// Tests whether a subtraction would cross a page boundary.
    pub fn test_page_boundary_sub(&mut self, amount: u8) -> (r: bool)
        ensures
            r == crosses_down(old(self).value, amount),
            *final(self) == *old(self),
    {
        let low = (self.value % 256) as u8;
        low < amount
    }

    /// Sets the counter to a new location.
    pub fn jump(&mut self, index: u16)
        ensures
            final(self).value == index,
            final(self).start == old(self).start,
    {
        self.value = index;
    }

    /// Increments the counter and returns the new value.
    pub fn get_and_increase(&mut self) -> (r: u16)
        ensures
            r == wrap16(old(self).value + 1),
            final(self).value == r,
            final(self).start == old(self).start,
    {
        self.increase(1);
        self.value
    }
}

/// Decreasing by an amount undoes increasing by it, and increasing undoes
/// decreasing, whatever the wrap-around.
pub proof fn lemma_increase_decrease_inverse(value: u16, amount: u8)
    ensures
        wrap16(wrap16(value + amount) - amount) == value,
        wrap16(wrap16(value - amount) + amount) == value,
{
}

} // verus!
