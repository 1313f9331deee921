//! The processor status register, with one bit per flag.
use vstd::prelude::*;

verus! {

/// The flags of the status register. The order of the variants is the bit
/// position of the flag, so Carry is bit 0 and Negative is bit 7. Bit 5 is
/// not used by the processor.
#[derive(Copy, Clone, Debug, PartialEq, Eq, Structural)]
pub enum StatusBit {
    Carry,
    Zero,
    Interrupt,
    Decimal,
    Break,
    Unused,
    Overflow,
    Negative,
}

/// The mask of the bit that holds a flag.
pub open spec fn flag_mask(f: StatusBit) -> u8 {
    match f {
        StatusBit::Carry => 1,
        StatusBit::Zero => 2,
        StatusBit::Interrupt => 4,
        StatusBit::Decimal => 8,
        StatusBit::Break => 16,
        StatusBit::Unused => 32,
        StatusBit::Overflow => 64,
        StatusBit::Negative => 128,
    }
}

/// Whether flag `f` is set in the register value `p`.
pub open spec fn flag_of(p: u8, f: StatusBit) -> bool {
    p & flag_mask(f) != 0
}

/// The register value `p` with flag `f` set to `on`, all other bits kept.
pub open spec fn with_flag(p: u8, f: StatusBit, on: bool) -> u8 {
    if on {
        p | flag_mask(f)
    } else {
        p & !flag_mask(f)
    }
}

/// The register's own overflow rule for a value and a carry, as
/// `handle_v_flag` applies it. The instructions do not use it: they set
/// overflow from signed overflow (`add_overflow`, `sub_overflow`), which
/// needs the operands as well as the result.
pub open spec fn overflow_rule(value: u8, carry: bool) -> bool {
    if carry {
        value > 0x80
    } else {
        value > 0x7F
    }
}

/// Whether adding `b` to `a` overflows as signed bytes, giving `r`: both
/// have the same sign bit and the result's differs.
pub open spec fn add_overflow(a: u8, b: u8, r: u8) -> bool {
    (a >= 0x80) == (b >= 0x80) && (r >= 0x80) != (a >= 0x80)
}

/// Whether subtracting `b` from `a` overflows as signed bytes, giving `r`:
/// the two have different sign bits and the result's differs from `a`'s.
pub open spec fn sub_overflow(a: u8, b: u8, r: u8) -> bool {
    (a >= 0x80) != (b >= 0x80) && (r >= 0x80) != (a >= 0x80)
}

/// The register value after the negative and zero flags are set from `value`.
pub open spec fn with_nz(p: u8, value: u8) -> u8 {
    with_flag(with_flag(p, StatusBit::Negative, value >= 0x80), StatusBit::Zero, value == 0)
}

impl StatusBit {
    /// The mask of this flag's bit.
    pub fn mask(self) -> (r: u8)
        ensures
            r == flag_mask(self),
    {
        match self {
            StatusBit::Carry => 1,
            StatusBit::Zero => 2,
            StatusBit::Interrupt => 4,
            StatusBit::Decimal => 8,
            StatusBit::Break => 16,
            StatusBit::Unused => 32,
            StatusBit::Overflow => 64,
            StatusBit::Negative => 128,
        }
    }
}

/// A 6502 status register with a bitmask implementation.
pub struct StatusRegister(pub u8);

impl StatusRegister {
    /// Constructs a new status register with every flag clear.
    pub fn new() -> (r: StatusRegister)
        ensures
            r.0 == 0,
    {
        StatusRegister(0)
    }

    /// Resets the status register, clearing all bits.
    pub fn reset(&mut self)
        ensures
            final(self).0 == 0,
    {
        self.0 = 0;
    }

    /// Gets the current numerical value of the register.
    pub fn get_register(&self) -> (r: u8)
        ensures
            r == self.0,
    {
        self.0
    }

    /// Sets the current numerical value of the register.
    pub fn set(&mut self, val: u8)
        ensures
            final(self).0 == val,
    {
        self.0 = val;
    }

    /// Sets a flag.
    pub fn set_flag(&mut self, flag: StatusBit)
        ensures
            final(self).0 == with_flag(old(self).0, flag, true),
    {
        self.0 = self.0 | flag.mask();
    }

    /// Checks whether a flag is set.
    pub fn is_flag_set(&self, flag: StatusBit) -> (r: bool)
        ensures
            r == flag_of(self.0, flag),
    {
        self.0 & flag.mask() != 0
    }

    /// Clears a flag.
    pub fn clear_flag(&mut self, flag: StatusBit)
        ensures
            final(self).0 == with_flag(old(self).0, flag, false),
    {
        self.0 = self.0 & !flag.mask();
    }

    /// Sets or clears the carry flag. The message names the caller.
    pub fn handle_c_flag(&mut self, message: &str, carry: bool)
        ensures
            final(self).0 == with_flag(old(self).0, StatusBit::Carry, carry),
    {
        if carry {
            self.set_flag(StatusBit::Carry);
        } else {
            self.clear_flag(StatusBit::Carry);
        }
    }

    /// Sets the flag when `on` holds, and clears it otherwise.
    pub fn set_flag_to(&mut self, flag: StatusBit, on: bool)
        ensures
            final(self).0 == with_flag(old(self).0, flag, on),
    {
        if on {
            self.set_flag(flag);
        } else {
            self.clear_flag(flag);
        }
    }

    /// Sets or clears the overflow flag: without a carry it is set when the
    /// value is above 0x7F, with a carry when it is above 0x80.
    pub fn handle_v_flag(&mut self, value: u8, message: &str, carry: bool)
        ensures
            final(self).0 == with_flag(old(self).0, StatusBit::Overflow, overflow_rule(value, carry)),
    {
        let on = if carry {
            value > 0x80
        } else {
            value > 0x7F
        };
        if on {
            self.set_flag(StatusBit::Overflow);
        } else {
            self.clear_flag(StatusBit::Overflow);
        }
    }

    /// Sets the negative flag when bit 7 of the value is set, else clears it.
    pub fn handle_n_flag(&mut self, value: u8, message: &str)
        ensures
            final(self).0 == with_flag(old(self).0, StatusBit::Negative, value >= 0x80),
    {
        if value >= 0x80 {
            self.set_flag(StatusBit::Negative);
        } else {
            self.clear_flag(StatusBit::Negative);
        }
    }

    /// Sets the zero flag when the value is zero, else clears it.
    pub fn handle_z_flag(&mut self, value: u8, message: &str)
        ensures
            final(self).0 == with_flag(old(self).0, StatusBit::Zero, value == 0),
    {
        if value == 0 {
            self.set_flag(StatusBit::Zero);
        } else {
            self.clear_flag(StatusBit::Zero);
        }
    }
}

/// The mask of each flag is a single bit, distinct from every other flag's.
pub proof fn lemma_flag_masks_distinct(f: StatusBit, g: StatusBit)
    ensures
        f != g ==> flag_mask(f) != flag_mask(g),
        is_single_bit(flag_mask(f)),
{
}

/// Whether `a` has exactly one bit set.
pub open spec fn is_single_bit(a: u8) -> bool {
    a == 1 || a == 2 || a == 4 || a == 8 || a == 16 || a == 32 || a == 64 || a == 128
}

proof fn lemma_single_bits(p: u8, a: u8, b: u8, x: bool, y: bool)
    by (bit_vector)
    requires
        a == 1 || a == 2 || a == 4 || a == 8 || a == 16 || a == 32 || a == 64 || a == 128,
        b == 1 || b == 2 || b == 4 || b == 8 || b == 16 || b == 32 || b == 64 || b == 128,
    ensures
        (p | a) & a != 0,
        (p & !a) & a == 0,
        a != b ==> (((p | a) & b != 0) == (p & b != 0)),
        a != b ==> (((p & !a) & b != 0) == (p & b != 0)),
        a != b ==> (p | a) | b == (p | b) | a,
        a != b ==> (p | a) & !b == (p & !b) | a,
        a != b ==> (p & !a) | b == (p | b) & !a,
        a != b ==> (p & !a) & !b == (p & !b) & !a,
        (p | a) | a == p | a,
        (p | a) & !a == p & !a,
        (p & !a) | a == p | a,
        (p & !a) & !a == p & !a,
{
}

/// Reading a flag after writing it gives back what was written, and writing
/// one flag leaves every other flag as it was.
pub proof fn lemma_flag_read_after_write(p: u8, f: StatusBit, on: bool, g: StatusBit)
    ensures
        flag_of(with_flag(p, f, on), g) == if f == g {
            on
        } else {
            flag_of(p, g)
        },
{
    lemma_flag_masks_distinct(f, g);
    lemma_flag_masks_distinct(g, f);
    lemma_single_bits(p, flag_mask(f), flag_mask(g), on, on);
}

/// Writing two different flags gives the same register value in either
/// order, and writing one flag twice keeps only the second write.
pub proof fn lemma_flag_writes_commute(p: u8, f: StatusBit, a: bool, g: StatusBit, b: bool)
    ensures
        f != g ==> with_flag(with_flag(p, f, a), g, b) == with_flag(with_flag(p, g, b), f, a),
        with_flag(with_flag(p, f, a), f, b) == with_flag(p, f, b),
{
    lemma_flag_masks_distinct(f, g);
    lemma_flag_masks_distinct(g, f);
    lemma_single_bits(p, flag_mask(f), flag_mask(g), a, b);
}

} // verus!
