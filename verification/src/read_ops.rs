//! The instructions that take one byte read through an addressing mode,
//! and the addressing-mode drivers that feed them.
use crate::cpu::CPU;
use crate::model::{CpuView, ReadOp};
use crate::status_register::{lemma_flag_writes_commute, with_flag, with_nz, StatusBit};
use vstd::prelude::*;

verus! {

impl CPU {
    /// Illegal opcode. ANDs the byte into the accumulator; the carry becomes
    /// the new negative flag.
    ///
    /// Affects flags N Z C.
    pub fn aac(&mut self, value: u8)
        ensures
            final(self)@ == old(self)@.aac(value),
    {
        let message = "AAC";
        let result = value & self.accumulator.get();
        self.accumulator.set(result);
        self.status_register.handle_n_flag(result, message);
        self.status_register.handle_z_flag(result, message);
        let negative = self.status_register.is_flag_set(StatusBit::Negative);
        proof {
            crate::status_register::lemma_flag_read_after_write(
                with_flag(old(self).status_register.0, StatusBit::Negative, result >= 0x80),
                StatusBit::Zero,
                result == 0,
                StatusBit::Negative,
            );
            crate::status_register::lemma_flag_read_after_write(
                old(self).status_register.0,
                StatusBit::Negative,
                result >= 0x80,
                StatusBit::Negative,
            );
        }
        self.status_register.handle_c_flag(message, negative);
    }

    /// ADd with Carry. Adds the value and the carry to the accumulator, in
    /// binary coded decimal when the decimal flag is set.
    ///
    /// Affects flags N V Z C.
    #[verifier::spinoff_prover]
    #[verifier::rlimit(30)]
    pub fn adc(&mut self, value: u8)
        ensures
            final(self)@ == old(self)@.adc(value),
    {
        let message = "ADC";
        let modifier: u8 = if self.status_register.is_flag_set(StatusBit::Carry) {
            1
        } else {
            0
        };
        let result = if self.status_register.is_flag_set(StatusBit::Decimal) {
            self.decimal_addition(self.accumulator.get(), value, modifier)
        } else {
            let acc = self.accumulator.get();
            let first = acc.wrapping_add(value);
            let carry1 = acc > 255 - value;
            let second = first.wrapping_add(modifier);
            let carry2 = first > 255 - modifier;
            let result = second;
            let carry = carry1 || carry2;
            self.status_register.handle_n_flag(result, message);
            self.status_register.set_flag_to(
                StatusBit::Overflow,
                (acc >= 0x80) == (value >= 0x80) && (result >= 0x80) != (acc >= 0x80),
            );
            self.status_register.handle_z_flag(result, message);
            self.status_register.handle_c_flag(message, carry);
            result
        };
        self.accumulator.set(result);
    }

    /// AND with the accumulator.
    ///
    /// Affects flags N Z.
    pub fn and(&mut self, value: u8)
        ensures
            final(self)@ == old(self)@.and(value),
    {
        let message = "AND";
        let result = self.accumulator.get() & value;
        self.accumulator.set(result);
        self.status_register.handle_n_flag(result, message);
        self.status_register.handle_z_flag(result, message);
    }

    /// Illegal opcode. ANDs the byte into the accumulator, rotates it right,
    /// then sets carry from bit 6 and overflow when bits 5 and 6 differ.
    ///
    /// Affects flags N V Z C.
    #[verifier::spinoff_prover]
    #[verifier::rlimit(30)]
    pub fn arr(&mut self, value: u8)
        ensures
            final(self)@ == old(self)@.arr(value),
    {
        let message = "ARR";
        let result = self.accumulator.get() & value;
        let result = self.rotate_right(result);
        self.accumulator.set(result);
        let ghost p0 = self.status_register.0;
        let b5 = (result / 32) % 2;
        let b6 = (result / 64) % 2;
        if b5 == 1 && b6 == 1 {
            self.status_register.set_flag(StatusBit::Carry);
            self.status_register.clear_flag(StatusBit::Overflow);
        } else if b5 == 0 && b6 == 0 {
            self.status_register.clear_flag(StatusBit::Carry);
            self.status_register.clear_flag(StatusBit::Overflow);
        } else if b5 == 1 && b6 == 0 {
            self.status_register.set_flag(StatusBit::Overflow);
            self.status_register.clear_flag(StatusBit::Carry);
            proof {
                lemma_flag_writes_commute(p0, StatusBit::Overflow, true, StatusBit::Carry, false);
            }
        } else {
            self.status_register.set_flag(StatusBit::Overflow);
            self.status_register.set_flag(StatusBit::Carry);
            proof {
                lemma_flag_writes_commute(p0, StatusBit::Overflow, true, StatusBit::Carry, true);
            }
        }
        let ghost p1 = self.status_register.0;
        self.status_register.handle_z_flag(result, message);
        self.status_register.handle_n_flag(result, message);
        proof {
            lemma_flag_writes_commute(p1, StatusBit::Zero, result == 0, StatusBit::Negative, result >= 0x80);
        }
    }

    /// Illegal opcode. ANDs the byte into the accumulator, then shifts the
    /// accumulator right.
    ///
    /// Affects flags N Z C.
    pub fn asr(&mut self, value: u8)
        ensures
            final(self)@ == old(self)@.asr(value),
    {
        let message = "ASR";
        let result = self.accumulator.get() & value;
        let result = self.shift_right(result);
        self.accumulator.set(result);
        self.status_register.handle_n_flag(result, message);
        self.status_register.handle_z_flag(result, message);
    }

    /// Illegal opcode. ANDs the byte into the accumulator, then copies the
    /// accumulator to X.
    ///
    /// Affects flags N Z.
    pub fn atx(&mut self, value: u8)
        ensures
            final(self)@ == old(self)@.atx(value),
    {
        let message = "ATX";
        let result = self.accumulator.get() & value;
        self.accumulator.set(result);
        self.x_register.set(result);
        self.status_register.handle_n_flag(result, message);
        self.status_register.handle_z_flag(result, message);
    }

    /// Illegal opcode. ANDs X with the accumulator, subtracts the byte
    /// without borrow and stores the result in X; carry is set when nothing
    /// is borrowed, as a compare sets it.
    ///
    /// Affects flags N Z C.
    #[verifier::spinoff_prover]
    #[verifier::rlimit(30)]
    pub fn axs(&mut self, value: u8)
        ensures
            final(self)@ == old(self)@.axs(value),
    {
        let message = "AXS";
        let result = self.x_register.get() & self.accumulator.get();
        let carry = result >= value;
        let result = result.wrapping_sub(value);
        self.x_register.set(result);
        self.status_register.handle_n_flag(result, message);
        self.status_register.handle_z_flag(result, message);
        self.status_register.handle_c_flag(message, carry);
    }

    /// Tests a value: zero from the value AND the accumulator, negative and
    /// overflow from bits 7 and 6 of the value.
    ///
    /// Affects flags N V Z.
    pub fn bit(&mut self, value_to_test: u8)
        ensures
            final(self)@ == old(self)@.bit(value_to_test),
    {
        let n_result = self.accumulator.get() & value_to_test;
        self.status_register.handle_n_flag(value_to_test, "BIT");
        self.status_register.handle_z_flag(n_result, "BIT");
        if (value_to_test / 64) % 2 == 1 {
            self.status_register.set_flag(StatusBit::Overflow);
        } else {
            self.status_register.clear_flag(StatusBit::Overflow);
        }
    }

    /// CoMPare accumulator with a test value.
    pub fn cmp(&mut self, test_value: u8)
        ensures
            final(self)@ == old(self)@.cmp(test_value),
    {
        self.generic_compare(test_value, self.accumulator.get());
    }

    /// ComPare X register with a test value.
    pub fn cpx(&mut self, test_value: u8)
        ensures
            final(self)@ == old(self)@.cpx(test_value),
    {
        self.generic_compare(test_value, self.x_register.get());
    }

    /// ComPare Y register with a test value.
    pub fn cpy(&mut self, test_value: u8)
        ensures
            final(self)@ == old(self)@.cpy(test_value),
    {
        self.generic_compare(test_value, self.y_register.get());
    }

    /// Illegal opcode. No operation; the byte is ignored.
    pub fn dop(&mut self, _value: u8)
        ensures
            final(self)@ == old(self)@.nop(),
    {
        self.nop();
    }

    /// Illegal opcode. No operation; the byte is ignored.
    pub fn top(&mut self, _value: u8)
        ensures
            final(self)@ == old(self)@.nop(),
    {
        self.nop();
    }

    /// No OPeration; one cycle.
    pub fn nop(&mut self)
        ensures
            final(self)@ == old(self)@.nop(),
    {
        self.sync();
    }

    /// Exclusive OR with the accumulator.
    ///
    /// Affects flags N Z.
    pub fn eor(&mut self, value: u8)
        ensures
            final(self)@ == old(self)@.eor(value),
    {
        let message = "EOR";
        let result = self.accumulator.get() ^ value;
        self.accumulator.set(result);
        self.status_register.handle_n_flag(result, message);
        self.status_register.handle_z_flag(result, message);
    }

    /// Illegal opcode. Increments the byte, then subtracts it from the
    /// accumulator.
    ///
    /// Affects flags N V Z C.
    #[verifier::spinoff_prover]
    #[verifier::rlimit(30)]
    pub fn isc(&mut self, value: u8)
        ensures
            final(self)@ == old(self)@.isc(value),
    {
        let message = "ISC";
        let v = value.wrapping_add(1);
        let modifier: u8 = if self.status_register.is_flag_set(StatusBit::Carry) {
            0
        } else {
            1
        };
        let acc = self.accumulator.get();
        let borrow1 = acc < v;
        let first = acc.wrapping_sub(v);
        let borrow2 = first < modifier;
        let result = first.wrapping_sub(modifier);
        self.accumulator.set(result);
        self.status_register.handle_c_flag(message, !(borrow1 || borrow2));
        self.status_register.handle_n_flag(result, message);
        self.status_register.set_flag_to(
            StatusBit::Overflow,
            (acc >= 0x80) != (v >= 0x80) && (result >= 0x80) != (acc >= 0x80),
        );
        self.status_register.handle_z_flag(result, message);
    }

    /// Illegal opcode. ANDs the byte with the stack pointer and loads the
    /// result into the accumulator, X and the stack pointer.
    ///
    /// Affects flags N Z.
    pub fn lar(&mut self, value: u8)
        ensures
            final(self)@ == old(self)@.lar(value),
    {
        let message = "LAR";
        let result = value & self.memory.get_stack_pointer().get();
        self.accumulator.set(result);
        self.x_register.set(result);
        self.memory.set_stack_pointer(result);
        self.status_register.handle_n_flag(result, message);
        self.status_register.handle_z_flag(result, message);
    }

    /// Illegal opcode. Loads the accumulator and X with the byte.
    ///
    /// Affects flags N Z.
    pub fn lax(&mut self, value: u8)
        ensures
            final(self)@ == old(self)@.lax(value),
    {
        let message = "LAX";
        self.accumulator.set(value);
        self.x_register.set(value);
        self.status_register.handle_n_flag(value, message);
        self.status_register.handle_z_flag(value, message);
    }

    /// LoaD Accumulator.
    ///
    /// Affects flags N Z.
    pub fn lda(&mut self, value: u8)
        ensures
            final(self)@ == old(self)@.lda(value),
    {
        let message = "LDA";
        self.accumulator.set(value);
        self.status_register.handle_n_flag(value, message);
        self.status_register.handle_z_flag(value, message);
    }

    /// LoaD X register.
    ///
    /// Affects flags N Z.
    pub fn ldx(&mut self, value: u8)
        ensures
            final(self)@ == old(self)@.ldx(value),
    {
        let message = "LDX";
        self.x_register.set(value);
        self.status_register.handle_n_flag(value, message);
        self.status_register.handle_z_flag(value, message);
    }

    /// LoaD Y register.
    ///
    /// Affects flags N Z.
    pub fn ldy(&mut self, value: u8)
        ensures
            final(self)@ == old(self)@.ldy(value),
    {
        let message = "LDY";
        self.y_register.set(value);
        self.status_register.handle_n_flag(value, message);
        self.status_register.handle_z_flag(value, message);
    }

    /// OR with the Accumulator.
    ///
    /// Affects flags N Z.
    pub fn ora(&mut self, value: u8)
        ensures
            final(self)@ == old(self)@.ora(value),
    {
        let message = "ORA";
        let result = self.accumulator.get() | value;
        self.accumulator.set(result);
        self.status_register.handle_n_flag(result, message);
        self.status_register.handle_z_flag(result, message);
    }

    /// Illegal opcode. Rotates the byte left, then ANDs it into the
    /// accumulator.
    ///
    /// Affects flags N Z C.
    #[verifier::spinoff_prover]
    #[verifier::rlimit(30)]
    pub fn rla(&mut self, value: u8)
        ensures
            final(self)@ == old(self)@.rla(value),
    {
        let message = "RLA";
        let result = self.rotate_left(value);
        let result = self.accumulator.get() & result;
        self.accumulator.set(result);
        let ghost p1 = self.status_register.0;
        self.status_register.handle_z_flag(result, message);
        self.status_register.handle_n_flag(result, message);
        proof {
            lemma_flag_writes_commute(p1, StatusBit::Zero, result == 0, StatusBit::Negative, result >= 0x80);
        }
    }

    /// Illegal opcode. Rotates the byte right, then adds it and the new carry
    /// to the accumulator.
    ///
    /// Affects flags N V Z C.
    #[verifier::spinoff_prover]
    #[verifier::rlimit(40)]
    pub fn rra(&mut self, value: u8)
        ensures
            final(self)@ == old(self)@.rra(value),
    {
        let message = "RRA";
        let result = self.rotate_right(value);
        let modifier: u8 = if self.status_register.is_flag_set(StatusBit::Carry) {
            1
        } else {
            0
        };
        let rotated = result;
        let c1 = result > 255 - modifier;
        let result = result.wrapping_add(modifier);
        let acc = self.accumulator.get();
        let c2 = acc > 255 - result;
        let result = acc.wrapping_add(result);
        let carry = c1 || c2;
        self.accumulator.set(result);
        self.status_register.handle_c_flag(message, carry);
        self.status_register.set_flag_to(
            StatusBit::Overflow,
            (acc >= 0x80) == (rotated >= 0x80) && (result >= 0x80) != (acc >= 0x80),
        );
        self.status_register.handle_n_flag(result, message);
        self.status_register.handle_z_flag(result, message);
    }

    /// SuBtract with Carry. Subtracts the value and the borrow (the clear
    /// carry) from the accumulator, in binary coded decimal when the decimal
    /// flag is set. Carry is set when nothing is borrowed.
    ///
    /// Affects flags N V Z C.
    #[verifier::spinoff_prover]
    #[verifier::rlimit(30)]
    pub fn sbc(&mut self, value: u8)
        ensures
            final(self)@ == old(self)@.sbc(value),
    {
        let message = "SBC";
        let modifier: u8 = if self.status_register.is_flag_set(StatusBit::Carry) {
            0
        } else {
            1
        };
        let result = if self.status_register.is_flag_set(StatusBit::Decimal) {
            self.decimal_subtraction(self.accumulator.get(), value, modifier)
        } else {
            let acc = self.accumulator.get();
            let carry1 = acc < value;
            let first = acc.wrapping_sub(value);
            let carry2 = first < modifier;
            let second = first.wrapping_sub(modifier);
            let result = second;
            let carry = !(carry1 || carry2);
            self.status_register.handle_n_flag(result, message);
            self.status_register.set_flag_to(
                StatusBit::Overflow,
                (acc >= 0x80) != (value >= 0x80) && (result >= 0x80) != (acc >= 0x80),
            );
            self.status_register.handle_z_flag(result, message);
            self.status_register.handle_c_flag(message, carry);
            result
        };
        self.accumulator.set(result);
    }

    /// Illegal opcode. Shifts the byte left, then ORs it into the
    /// accumulator.
    ///
    /// Affects flags N Z C.
    #[verifier::spinoff_prover]
    #[verifier::rlimit(30)]
    pub fn slo(&mut self, value: u8)
        ensures
            final(self)@ == old(self)@.slo(value),
    {
        let message = "SLO";
        let result = self.shift_left(value);
        let result = self.accumulator.get() | result;
        self.accumulator.set(result);
        let ghost p1 = self.status_register.0;
        self.status_register.handle_z_flag(result, message);
        self.status_register.handle_n_flag(result, message);
        proof {
            lemma_flag_writes_commute(p1, StatusBit::Zero, result == 0, StatusBit::Negative, result >= 0x80);
        }
    }

    /// Illegal opcode. Shifts the byte right, then XORs it into the
    /// accumulator.
    ///
    /// Affects flags N Z C.
    #[verifier::spinoff_prover]
    #[verifier::rlimit(30)]
    pub fn sre(&mut self, value: u8)
        ensures
            final(self)@ == old(self)@.sre(value),
    {
        let message = "SRE";
        let result = self.shift_right(value);
        let result = self.accumulator.get() ^ result;
        self.accumulator.set(result);
        let ghost p1 = self.status_register.0;
        self.status_register.handle_z_flag(result, message);
        self.status_register.handle_n_flag(result, message);
        proof {
            lemma_flag_writes_commute(p1, StatusBit::Zero, result == 0, StatusBit::Negative, result >= 0x80);
        }
    }

    /// Applies a one-byte operation.
    pub fn apply(&mut self, op: ReadOp, value: u8)
        ensures
            final(self)@ == old(self)@.apply(op, value),
    {
        match op {
            ReadOp::Ora => self.ora(value),
            ReadOp::And => self.and(value),
            ReadOp::Eor => self.eor(value),
            ReadOp::Adc => self.adc(value),
            ReadOp::Sbc => self.sbc(value),
            ReadOp::Cmp => self.cmp(value),
            ReadOp::Cpx => self.cpx(value),
            ReadOp::Cpy => self.cpy(value),
            ReadOp::Lda => self.lda(value),
            ReadOp::Ldx => self.ldx(value),
            ReadOp::Ldy => self.ldy(value),
            ReadOp::Lax => self.lax(value),
            ReadOp::Bit => self.bit(value),
            ReadOp::Slo => self.slo(value),
            ReadOp::Rla => self.rla(value),
            ReadOp::Sre => self.sre(value),
            ReadOp::Rra => self.rra(value),
            ReadOp::Isc => self.isc(value),
            ReadOp::Dop => self.dop(value),
            ReadOp::Top => self.top(value),
            ReadOp::Aac => self.aac(value),
            ReadOp::Asr => self.asr(value),
            ReadOp::Arr => self.arr(value),
            ReadOp::Atx => self.atx(value),
            ReadOp::Axs => self.axs(value),
            ReadOp::Lar => self.lar(value),
        }
    }

    /// Immediate addressing feeding an operation.
    pub fn immediate_cb(&mut self, name: &str, op: ReadOp)
        ensures
            final(self)@ == old(self)@.immediate_cb(op),
    {
        let value = self.immediate(name);
        self.apply(op, value);
    }

    /// Zero page addressing feeding an operation.
    pub fn zero_page_cb(&mut self, name: &str, op: ReadOp)
        ensures
            final(self)@ == old(self)@.zero_page_cb(op),
    {
        let (_, value) = self.zero_page(name);
        self.apply(op, value);
    }

    /// Zero page X or Y addressing feeding an operation.
    pub fn zp_reg_cb(&mut self, name: &str, reg_val: u8, op: ReadOp)
        ensures
            final(self)@ == old(self)@.zp_reg_cb(reg_val, op),
    {
        let (_, value) = self.zp_reg(name, reg_val);
        self.apply(op, value);
    }

    /// Absolute addressing feeding an operation.
    pub fn absolute_cb(&mut self, name: &str, op: ReadOp)
        ensures
            final(self)@ == old(self)@.absolute_cb(op),
    {
        let (_, value) = self.absolute(name);
        self.apply(op, value);
    }

    /// Absolute X addressing feeding an operation.
    pub fn absolute_x_cb(&mut self, name: &str, op: ReadOp)
        ensures
            final(self)@ == old(self)@.absolute_x_cb(op),
    {
        let (_, value) = self.absolute_reg(name, self.x_register.get());
        self.apply(op, value);
    }

    /// Absolute Y addressing feeding an operation.
    pub fn absolute_y_cb(&mut self, name: &str, op: ReadOp)
        ensures
            final(self)@ == old(self)@.absolute_y_cb(op),
    {
        let (_, value) = self.absolute_reg(name, self.y_register.get());
        self.apply(op, value);
    }

    /// Indexed X addressing feeding an operation.
    pub fn indexed_x_cb(&mut self, name: &str, op: ReadOp)
        ensures
            final(self)@ == old(self)@.indexed_x_cb(op),
    {
        let (_, value) = self.indexed_x(name);
        self.apply(op, value);
    }

    /// Indexed Y addressing feeding an operation.
    pub fn indexed_y_cb(&mut self, name: &str, op: ReadOp)
        ensures
            final(self)@ == old(self)@.indexed_y_cb(op),
    {
        let (_, value) = self.indexed_y(name);
        self.apply(op, value);
    }
}

} // verus!
