//! A general purpose 8 bit register: the accumulator, X or Y.
use vstd::prelude::*;

verus! {

/// A generic 6502 register, X Y or A.
pub struct GeneralRegister(pub u8);

/// The value of `v + 1` on eight bits.
pub open spec fn inc8(v: u8) -> u8 {
    ((v + 1) % 256) as u8
}

/// The value of `v - 1` on eight bits.
pub open spec fn dec8(v: u8) -> u8 {
    ((v - 1 + 256) % 256) as u8
}

impl GeneralRegister {
    /// Creates a new register holding zero.
    pub fn new() -> (r: GeneralRegister)
        ensures
            r.0 == 0,
    {
        GeneralRegister(0)
    }

    /// Resets the register value to 0.
    pub fn reset(&mut self)
        ensures
            final(self).0 == 0,
    {
        self.0 = 0;
    }

    /// Gets the register's value.
    pub fn get(&self) -> (r: u8)
        ensures
            r == self.0,
    {
        self.0
    }

    /// Sets the register's value.
    pub fn set(&mut self, v: u8)
        ensures
            final(self).0 == v,
    {
        self.0 = v;
    }

    /// Increments the register's value by 1, wrapping on overflow.
    pub fn increment(&mut self)
        ensures
            final(self).0 == inc8(old(self).0),
    {
        self.0 = self.0.wrapping_add(1);
    }

    /// Decrements the register's value by 1, wrapping on overflow.
    pub fn decrement(&mut self)
        ensures
            final(self).0 == dec8(old(self).0),
    {
        self.0 = self.0.wrapping_sub(1);
    }
}

/// Decrementing undoes incrementing, and incrementing undoes decrementing,
/// for every register value.
pub proof fn lemma_increment_decrement_inverse(v: u8)
    ensures
        dec8(inc8(v)) == v,
        inc8(dec8(v)) == v,
{
}

} // verus!
