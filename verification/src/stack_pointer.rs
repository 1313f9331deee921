//! The stack pointer: an eight bit index into the stack page 0x100..=0x1FF.
use crate::general_register::{dec8, inc8};
use vstd::prelude::*;

verus! {

/// The stack works top down, so the pointer starts at 0xFF.
pub const START_INDEX: u8 = 0xFF;

/// Emulation of a Stack Pointer. Has push and pop (pull in 6502 parlance)
/// operations, and is used as part of the memory stack. Works top down, so
/// it starts at 0xFF.
///
/// The stack pointer always points at the next free value, so pushing
/// returns the current value and then decrements, while popping increments
/// before returning the value.
pub struct StackPointer(pub u8);

impl StackPointer {
    /// Creates a new stack pointer at the 0xFF index.
    pub fn new() -> (r: StackPointer)
        ensures
            r.0 == START_INDEX,
    {
        StackPointer(START_INDEX)
    }

    /// Resets the stack pointer to the 0xFF index.
    pub fn reset(&mut self)
        ensures
            final(self).0 == START_INDEX,
    {
        self.0 = START_INDEX;
    }

    /// Gets the current value of the stack pointer.
    pub fn get(&self) -> (r: u8)
        ensures
            r == self.0,
    {
        self.0
    }

    /// Sets the current value of the stack pointer.
    pub fn set(&mut self, val: u8)
        ensures
            final(self).0 == val,
    {
        self.0 = val;
    }

    /// The pointer side of a push: returns the current value, then moves the
    /// pointer down by one, wrapping below zero.
    pub fn push(&mut self) -> (r: u16)
        ensures
            r == old(self).0,
            final(self).0 == dec8(old(self).0),
    {
        let val = self.0;
        self.0 = self.0.wrapping_sub(1);
        val as u16
    }

    /// The pointer side of a pop: moves the pointer up by one, wrapping above
    /// 0xFF, then returns the new value.
    pub fn pop(&mut self) -> (r: u16)
        ensures
            final(self).0 == inc8(old(self).0),
            r == final(self).0,
    {
        self.0 = self.0.wrapping_add(1);
        self.0 as u16
    }
}

/// A pop undoes a push: the pointer comes back to where it was, and the pop
/// names the slot that the push filled.
pub proof fn lemma_pop_undoes_push(sp: u8)
    ensures
        inc8(dec8(sp)) == sp,
{
}

} // verus!
