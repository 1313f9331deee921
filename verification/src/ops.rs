//! The shared pieces of instructions (branching, comparison, shifts,
//! decimal arithmetic) and the instructions that act on one byte.
use crate::cpu::CPU;
use crate::model::{dsub_hi, dsub_lo, wrap8, CpuView, ReadOp};
use crate::status_register::{
    lemma_flag_writes_commute, with_flag, with_nz, StatusBit,
};
use vstd::prelude::*;

verus! {

/// Carry out of `a + b` on eight bits.
pub open spec fn add_carries(a: u8, b: u8) -> bool {
    a + b > 255
}

impl CPU {
    /// Takes a branch when the condition holds: the offset is a two's
    /// complement byte added to the counter. A taken branch costs a cycle,
    /// and one more when it moves the counter to another page.
    pub fn branch(&mut self, condition: bool, op: u8)
        ensures
            final(self)@ == old(self)@.branch(condition, op),
    {
        if condition {
            let overflow = if op > 0x7F {
                let amount: u8 = (255 - op) + 1;
                self.program_counter.decrease(amount)
            } else {
                self.program_counter.increase(op)
            };
            if overflow {
                self.sync();
            }
            self.sync();
        }
    }

    /// Compares a register value with a test value: zero is set exactly
    /// when they are equal, carry when the register is not below, negative
    /// when bit 7 of the difference is set.
    pub fn generic_compare(&mut self, test_value: u8, reg_value: u8)
        ensures
            final(self)@ == old(self)@.generic_compare(test_value, reg_value),
    {
        let result = reg_value.wrapping_sub(test_value);
        self.status_register.set_flag_to(StatusBit::Zero, result == 0);
        self.status_register.set_flag_to(StatusBit::Carry, reg_value >= test_value);
        self.status_register.set_flag_to(StatusBit::Negative, result >= 0x80);
    }

    /// Sets negative and zero from a register's new value; one cycle.
    pub fn register_operation(&mut self, value: u8, message: &str)
        ensures
            final(self)@ == old(self)@.register_operation(value),
    {
        self.status_register.handle_n_flag(value, message);
        self.status_register.handle_z_flag(value, message);
        self.sync();
    }

    /// Rotates right: the carry goes into bit 7, bit 0 into the carry.
    pub fn rotate_right(&mut self, value: u8) -> (r: u8)
        ensures
            r == old(self)@.rotate_right(value).0,
            final(self)@ == old(self)@.rotate_right(value).1,
    {
        let mut result = value / 2;
        if self.status_register.is_flag_set(StatusBit::Carry) {
            result = result + 0x80;
        }
        if value % 2 == 1 {
            self.status_register.set_flag(StatusBit::Carry);
        } else {
            self.status_register.clear_flag(StatusBit::Carry);
        }
        result
    }

    /// Shifts right: zero goes into bit 7, bit 0 into the carry.
    pub fn shift_right(&mut self, value: u8) -> (r: u8)
        ensures
            r == old(self)@.shift_right(value).0,
            final(self)@ == old(self)@.shift_right(value).1,
    {
        let result = value / 2;
        if value % 2 == 1 {
            self.status_register.set_flag(StatusBit::Carry);
        } else {
            self.status_register.clear_flag(StatusBit::Carry);
        }
        result
    }

    /// Rotates left: the carry goes into bit 0, bit 7 into the carry.
    pub fn rotate_left(&mut self, value: u8) -> (r: u8)
        ensures
            r == old(self)@.rotate_left(value).0,
            final(self)@ == old(self)@.rotate_left(value).1,
    {
        let mut result = value.wrapping_mul(2);
        if self.status_register.is_flag_set(StatusBit::Carry) {
            assert(result % 2 == 0);
            result = result + 1;
        }
        if value >= 0x80 {
            self.status_register.set_flag(StatusBit::Carry);
        } else {
            self.status_register.clear_flag(StatusBit::Carry);
        }
        result
    }

    /// Shifts left: zero goes into bit 0, bit 7 into the carry.
    pub fn shift_left(&mut self, value: u8) -> (r: u8)
        ensures
            r == old(self)@.shift_left(value).0,
            final(self)@ == old(self)@.shift_left(value).1,
    {
        let result = value.wrapping_mul(2);
        if value >= 0x80 {
            self.status_register.set_flag(StatusBit::Carry);
        } else {
            self.status_register.clear_flag(StatusBit::Carry);
        }
        result
    }

    /// Sets a flag; one cycle.
    pub fn set_flag(&mut self, flag: StatusBit)
        ensures
            final(self)@ == old(self)@.set_flag(flag),
    {
        self.status_register.set_flag(flag);
        self.sync();
    }

    /// Clears a flag; one cycle.
    pub fn clear_flag(&mut self, flag: StatusBit)
        ensures
            final(self)@ == old(self)@.clear_flag(flag),
    {
        self.status_register.clear_flag(flag);
        self.sync();
    }

    /// Reads a byte's two nibbles as decimal digits written one after the
    /// other, and gives that decimal number when it fits a byte.
    pub fn convert_num_to_decimal(value: u8) -> (r: Option<u8>)
        ensures
            r == (if nibble_digits(value) <= 255 {
                Some(nibble_digits(value) as u8)
            } else {
                None
            }),
    {
        let hi = value / 16;
        let lo = value % 16;
        let scale: u16 = if lo >= 10 {
            100
        } else {
            10
        };
        let n: u16 = hi as u16 * scale + lo as u16;
        if n <= 255 {
            Some(n as u8)
        } else {
            None
        }
    }

    /// Binary coded decimal addition of the accumulator value, a value and
    /// a carry-in. Sets negative and overflow from the unadjusted sum, then
    /// zero and carry from the adjusted one.
    pub fn decimal_addition(&mut self, acc_val: u8, val: u8, modifier: u8) -> (r: u8)
        ensures
            r == old(self)@.decimal_addition(acc_val, val, modifier).0,
            final(self)@ == old(self)@.decimal_addition(acc_val, val, modifier).1,
    {
        let message = "D ADC";
        let temp: u16 = (val % 16) as u16 + (acc_val % 16) as u16 + modifier as u16;
        let temp: u16 = if temp >= 0x0A {
            (temp + 0x06) % 16 + 0x10
        } else {
            temp
        };
        let result: u16 = (val - val % 16) as u16 + (acc_val - acc_val % 16) as u16 + temp;
        self.status_register.handle_n_flag((result % 256) as u8, message);
        let unadjusted = (result % 256) as u8;
        self.status_register.set_flag_to(
            StatusBit::Overflow,
            (acc_val >= 0x80) == (val >= 0x80) && (unadjusted >= 0x80) != (acc_val >= 0x80),
        );
        let result: u16 = if result >= 0xA0 {
            result + 0x60
        } else {
            result
        };
        let carry = result >= 0x100;
        let result = (result % 256) as u8;
        self.status_register.handle_z_flag(result, message);
        self.status_register.handle_c_flag(message, carry);
        result
    }

    /// Binary coded decimal subtraction of a value and a borrow `modifier`
    /// from the accumulator value: a digit that borrows is corrected by six.
    /// Negative and zero come from the result, overflow from the binary
    /// difference, and carry is set exactly when nothing was borrowed.
    #[verifier::spinoff_prover]
    #[verifier::rlimit(40)]
    pub fn decimal_subtraction(&mut self, acc_val: u8, val: u8, modifier: u8) -> (r: u8)
        ensures
            r == old(self)@.decimal_subtraction(acc_val, val, modifier).0,
            final(self)@ == old(self)@.decimal_subtraction(acc_val, val, modifier).1,
    {
        let message = "D SBC";
        let d_lo: i32 = (acc_val % 16) as i32 - (val % 16) as i32 - modifier as i32;
        let borrow_lo = d_lo < 0;
        let lo: i32 = if borrow_lo {
            (d_lo - 6 + 320) % 16
        } else {
            d_lo % 16
        };
        let d_hi: i32 = (acc_val / 16) as i32 - (val / 16) as i32 - (if borrow_lo {
            1i32
        } else {
            0i32
        });
        let borrow_hi = d_hi < 0;
        let hi: i32 = if borrow_hi {
            (d_hi - 6 + 32) % 16
        } else {
            d_hi % 16
        };
        assert(lo == dsub_lo(acc_val, val, modifier).0);
        assert(hi == dsub_hi(acc_val, val, modifier).0);
        let result = (16 * hi + lo) as u8;
        let diff: i32 = acc_val as i32 - val as i32 - modifier as i32;
        let binary = ((diff + 512) % 256) as u8;
        assert(binary == wrap8(acc_val - val - modifier));
        self.status_register.handle_n_flag(result, message);
        self.status_register.set_flag_to(
            StatusBit::Overflow,
            (acc_val >= 0x80) != (val >= 0x80) && (binary >= 0x80) != (acc_val >= 0x80),
        );
        self.status_register.handle_z_flag(result, message);
        self.status_register.handle_c_flag(message, !borrow_hi);
        result
    }
}

/// The decimal number written by a byte's high nibble followed by its low
/// nibble, each as a decimal numeral.
pub open spec fn nibble_digits(value: u8) -> int {
    let hi = value / 16;
    let lo = value % 16;
    if lo >= 10 {
        hi * 100 + lo
    } else {
        hi * 10 + lo
    }
}

} // verus!
