//! A status register with one named method per flag. Its flag order has no
//! unused bit: Carry is bit 0, Zero 1, Interrupt 2, Decimal 3, Break 4,
//! Overflow 5 and Negative 6.
use vstd::prelude::*;

verus! {

/// A status register with named set, test and clear methods for each flag.
pub struct StatusRegister {
    pub register: u8,
}

/// The register with bit `i` set.
pub open spec fn bit_set(register: u8, i: u8) -> u8 {
    register | (1u8 << i)
}

/// The register with bit `i` cleared.
pub open spec fn bit_cleared(register: u8, i: u8) -> u8 {
    register & !(1u8 << i)
}

/// The flag test of this register: the register shifted right by the bit
/// position is exactly one. So a flag reads as set only while no higher
/// bit is set.
pub open spec fn bit_reads_set(register: u8, i: u8) -> bool {
    (register >> i) == 1
}

impl StatusRegister {
    /// A register with every bit clear.
    pub fn new() -> (r: StatusRegister)
        ensures
            r.register == 0,
    {
        StatusRegister { register: 0 }
    }

    /// Clears every bit.
    pub fn reset(&mut self)
        ensures
            final(self).register == 0,
    {
        self.register = 0;
    }

    /// The numerical value of the register.
    pub fn get_register(&self) -> (r: u8)
        ensures
            r == self.register,
    {
        self.register
    }

    fn set_status_register(&mut self, bit: u8)
        requires
            bit < 8,
        ensures
            final(self).register == bit_set(old(self).register, bit),
    {
        self.register = self.register | (1u8 << bit);
    }

    fn is_bit_set(&self, bit: u8) -> (r: bool)
        requires
            bit < 8,
        ensures
            r == bit_reads_set(self.register, bit),
    {
        (self.register >> bit) == 1
    }

    fn unset_status_register(&mut self, bit: u8)
        requires
            bit < 8,
        ensures
            final(self).register == bit_cleared(old(self).register, bit),
    {
        self.register = self.register & !(1u8 << bit);
    }

    /// Sets the carry bit, bit 0.
    pub fn set_carry_bit(&mut self)
        ensures
            final(self).register == bit_set(old(self).register, 0),
    {
        self.set_status_register(0);
    }

    /// Tests the carry bit, bit 0.
    pub fn is_carry_bit_set(&self) -> (r: bool)
        ensures
            r == bit_reads_set(self.register, 0),
    {
        self.is_bit_set(0)
    }

    /// Clears the carry bit, bit 0.
    pub fn clear_carry_bit(&mut self)
        ensures
            final(self).register == bit_cleared(old(self).register, 0),
    {
        self.unset_status_register(0);
    }

    /// Sets the zero bit, bit 1.
    pub fn set_zero_bit(&mut self)
        ensures
            final(self).register == bit_set(old(self).register, 1),
    {
        self.set_status_register(1);
    }

    /// Tests the zero bit, bit 1.
    pub fn is_zero_bit_set(&self) -> (r: bool)
        ensures
            r == bit_reads_set(self.register, 1),
    {
        self.is_bit_set(1)
    }

    /// Clears the zero bit, bit 1.
    pub fn clear_zero_bit(&mut self)
        ensures
            final(self).register == bit_cleared(old(self).register, 1),
    {
        self.unset_status_register(1);
    }

    /// Sets the interrupt bit, bit 2.
    pub fn set_interrupt_bit(&mut self)
        ensures
            final(self).register == bit_set(old(self).register, 2),
    {
        self.set_status_register(2);
    }

    /// Tests the interrupt bit, bit 2.
    pub fn is_interrupt_bit_set(&self) -> (r: bool)
        ensures
            r == bit_reads_set(self.register, 2),
    {
        self.is_bit_set(2)
    }

    /// Clears the interrupt bit, bit 2.
    pub fn clear_interrupt_bit(&mut self)
        ensures
            final(self).register == bit_cleared(old(self).register, 2),
    {
        self.unset_status_register(2);
    }

    /// Sets the break bit, bit 4.
    pub fn set_break_bit(&mut self)
        ensures
            final(self).register == bit_set(old(self).register, 4),
    {
        self.set_status_register(4);
    }

    /// Tests the break bit, bit 4.
    pub fn is_break_bit_set(&self) -> (r: bool)
        ensures
            r == bit_reads_set(self.register, 4),
    {
        self.is_bit_set(4)
    }

    /// Clears the break bit, bit 4.
    pub fn clear_break_bit(&mut self)
        ensures
            final(self).register == bit_cleared(old(self).register, 4),
    {
        self.unset_status_register(4);
    }

    /// Sets the decimal bit, bit 3.
    pub fn set_decimal_bit(&mut self)
        ensures
            final(self).register == bit_set(old(self).register, 3),
    {
        self.set_status_register(3);
    }

    /// Tests the decimal bit, bit 3.
    pub fn is_decimal_bit_set(&self) -> (r: bool)
        ensures
            r == bit_reads_set(self.register, 3),
    {
        self.is_bit_set(3)
    }

    /// Clears the decimal bit, bit 3.
    pub fn clear_decimal_bit(&mut self)
        ensures
            final(self).register == bit_cleared(old(self).register, 3),
    {
        self.unset_status_register(3);
    }

    /// Sets the overflow bit, bit 5.
    pub fn set_overflow_bit(&mut self)
        ensures
            final(self).register == bit_set(old(self).register, 5),
    {
        self.set_status_register(5);
    }

    /// Tests the overflow bit, bit 5.
    pub fn is_overflow_bit_set(&self) -> (r: bool)
        ensures
            r == bit_reads_set(self.register, 5),
    {
        self.is_bit_set(5)
    }

    /// Clears the overflow bit, bit 5.
    pub fn clear_overflow_bit(&mut self)
        ensures
            final(self).register == bit_cleared(old(self).register, 5),
    {
        self.unset_status_register(5);
    }

    /// Sets the negative bit, bit 6.
    pub fn set_negative_bit(&mut self)
        ensures
            final(self).register == bit_set(old(self).register, 6),
    {
        self.set_status_register(6);
    }

    /// Tests the negative bit, bit 6.
    pub fn is_negative_bit_set(&self) -> (r: bool)
        ensures
            r == bit_reads_set(self.register, 6),
    {
        self.is_bit_set(6)
    }

    /// Clears the negative bit, bit 6.
    pub fn clear_negative_bit(&mut self)
        ensures
            final(self).register == bit_cleared(old(self).register, 6),
    {
        self.unset_status_register(6);
    }
}

/// On a clear register, setting one flag makes it read as set, clearing it
/// again gives back the clear register, and clearing a flag always makes it
/// read as clear.
pub proof fn lemma_set_then_clear(register: u8, i: u8)
    requires
        i < 7,
    ensures
        bit_reads_set(bit_set(0, i), i),
        bit_cleared(bit_set(0, i), i) == 0,
        !bit_reads_set(bit_cleared(register, i), i),
{
    assert(i < 7 ==> ((0u8 | (1u8 << i)) >> i) == 1u8) by (bit_vector);
    assert(i < 7 ==> ((0u8 | (1u8 << i)) & !(1u8 << i)) == 0u8) by (bit_vector);
    assert(i < 7 ==> ((register & !(1u8 << i)) >> i) != 1u8) by (bit_vector);
}

} // verus!
