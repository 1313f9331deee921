//! Sixty-four KiB of memory, with the stack in page one.
use crate::general_register::{dec8, inc8};
use crate::stack_pointer::StackPointer;
use vstd::prelude::*;

verus! {

/// Number of addressable bytes: every 16 bit address has one.
pub const MEMORY_SIZE: usize = 0x10000;

/// The start block for the stack.
pub const STACK_MIN: u16 = 0x100;

/// The end block for the stack.
pub const STACK_MAX: u16 = 0x1FF;

/// Simulation of 16 bit memory for the 6502: a fixed size array that stores
/// a u8 at every 16 bit address.
///
/// Memory is mapped into 256 pages of 256 bytes each, so index 0x1234 is
/// byte 0x34 on page 0x12. The stack lives in page one and is addressed by
/// the stack pointer `sp`.
pub struct Memory {
    pub mem: [u8; 0x10000],
    pub sp: StackPointer,
}

/// The address of the stack slot that a stack pointer value names.
pub open spec fn stack_slot(sp: u8) -> int {
    0x100 + sp
}

impl Memory {
    /// Creates a new memory with every byte zero and the stack pointer at
    /// 0xFF.
    pub fn new() -> (r: Memory)
        ensures
            r.mem@ == Seq::new(0x10000, |i: int| 0u8),
            r.sp.0 == 0xFF,
    {
        let r = Memory { mem: [0u8; 0x10000], sp: StackPointer::new() };
        assert(r.mem@ =~= Seq::new(0x10000, |i: int| 0u8));
        r
    }

    /// Resets the memory to the base state.
    pub fn reset(&mut self)
        ensures
            final(self).mem@ == Seq::new(0x10000, |i: int| 0u8),
            final(self).sp.0 == 0xFF,
    {
        self.mem = [0u8; 0x10000];
        self.sp.reset();
        assert(self.mem@ =~= Seq::new(0x10000, |i: int| 0u8));
    }

    /// Sets an index to a value.
    pub fn set(&mut self, index: u16, value: u8)
        ensures
            final(self).mem@ == old(self).mem@.update(index as int, value),
            final(self).sp == old(self).sp,
    {
        self.mem[index as usize] = value;
    }

    /// Sets a byte in the zero page.
    pub fn set_zero_page(&mut self, index: u8, value: u8)
        ensures
            final(self).mem@ == old(self).mem@.update(index as int, value),
            final(self).sp == old(self).sp,
    {
        self.mem[index as usize] = value;
    }

    /// Gets a byte from the zero page.
    pub fn get_zero_page(&self, index: u8) -> (r: u8)
        ensures
            r == self.mem@[index as int],
    {
        self.mem[index as usize]
    }

    /// Gets the byte at an index.
    pub fn get_u16(&self, index: u16) -> (r: u8)
        ensures
            r == self.mem@[index as int],
    {
        self.mem[index as usize]
    }

    /// Adds a value to the stack, at 0x100 plus the stack pointer, and moves
    /// the pointer down.
    pub fn push_to_stack(&mut self, value: u8)
        ensures
            final(self).mem@ == old(self).mem@.update(stack_slot(old(self).sp.0), value),
            final(self).sp.0 == dec8(old(self).sp.0),
    {
        let index = STACK_MIN as usize + self.sp.push() as usize;
        self.mem[index] = value;
    }

    /// Takes a value from the stack: moves the pointer up, then returns the
    /// byte at 0x100 plus the pointer.
    pub fn pop_from_stack(&mut self) -> (r: u8)
        ensures
            final(self).sp.0 == inc8(old(self).sp.0),
            final(self).mem@ == old(self).mem@,
            r == old(self).mem@[stack_slot(final(self).sp.0)],
    {
        let index = STACK_MIN as usize + self.sp.pop() as usize;
        self.mem[index]
    }

    /// Gets the stack pointer.
    pub fn get_stack_pointer(&self) -> (r: &StackPointer)
        ensures
            *r == self.sp,
    {
        &self.sp
    }

    /// Sets the stack pointer.
    pub fn set_stack_pointer(&mut self, val: u8)
        ensures
            final(self).sp.0 == val,
            final(self).mem@ == old(self).mem@,
    {
        self.sp.set(val);
    }
}

/// A read gives back what the last write to the same index wrote, and a
/// write leaves every other index as it was.
pub proof fn lemma_read_after_write(mem: Seq<u8>, index: int, value: u8, other: int)
    requires
        0 <= index < mem.len(),
        0 <= other < mem.len(),
    ensures
        mem.update(index, value)[index] == value,
        other != index ==> mem.update(index, value)[other] == mem[other],
{
}

/// A pop right after a push gives back the pushed value and puts the stack
/// pointer back where it was.
pub proof fn lemma_pop_after_push(mem: Seq<u8>, sp: u8, value: u8)
    requires
        mem.len() == 0x10000,
    ensures
        inc8(dec8(sp)) == sp,
        mem.update(stack_slot(sp), value)[stack_slot(inc8(dec8(sp)))] == value,
{
}

} // verus!
