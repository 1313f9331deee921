//! The meaning of every instruction of the processor, as a function on
//! `CpuView`. Each public instruction method of `CPU` is specified by the
//! function of the same name here.
use crate::general_register::{dec8, inc8};
use crate::model::{word, wrap8, CpuView, ReadOp};
use crate::program_counter::wrap16;
use crate::status_register::{add_overflow, sub_overflow, with_flag, StatusBit};
use vstd::prelude::*;

verus! {

impl CpuView {
    // ------------------------------------------------------------------
    // Operations on one byte
    // ------------------------------------------------------------------
    /// AND with the accumulator; carry becomes the new negative flag.
    pub open spec fn aac(self, value: u8) -> CpuView {
        let r = value & self.a;
        self.with_a(r).nz(r).set_flag_to(StatusBit::Carry, r >= 0x80)
    }

    /// Add with carry, in binary coded decimal when the decimal flag is set.
    pub open spec fn adc(self, value: u8) -> CpuView {
        let m: u8 = if self.flag(StatusBit::Carry) {
            1
        } else {
            0
        };
        if self.flag(StatusBit::Decimal) {
            let (r, s1) = self.decimal_addition(self.a, value, m);
            s1.with_a(r)
        } else {
            let sum = self.a + value + m;
            let r = wrap8(sum);
            let carry = sum > 255;
            self.with_p(
                with_flag(
                    with_flag(
                        with_flag(self.p, StatusBit::Negative, r >= 0x80),
                        StatusBit::Overflow,
                        add_overflow(self.a, value, r),
                    ),
                    StatusBit::Zero,
                    r == 0,
                ),
            ).set_flag_to(StatusBit::Carry, carry).with_a(r)
        }
    }

    pub open spec fn and(self, value: u8) -> CpuView {
        let r = self.a & value;
        self.with_a(r).nz(r)
    }

    /// AND, rotate right, then carry and overflow from bits 6 and 5.
    pub open spec fn arr(self, value: u8) -> CpuView {
        let (r, s1) = self.rotate_right(self.a & value);
        let b5 = (r / 32) % 2 == 1;
        let b6 = (r / 64) % 2 == 1;
        let s2 = s1.with_a(r).set_flag_to(StatusBit::Carry, b6).set_flag_to(
            StatusBit::Overflow,
            b5 != b6,
        );
        s2.nz(r)
    }

    pub open spec fn asr(self, value: u8) -> CpuView {
        let (r, s1) = self.shift_right(self.a & value);
        s1.with_a(r).nz(r)
    }

    pub open spec fn atx(self, value: u8) -> CpuView {
        let r = self.a & value;
        self.with_a(r).with_x(r).nz(r)
    }

    /// X AND A minus the value, into X; carry set when nothing is
    /// borrowed, as a compare sets it.
    pub open spec fn axs(self, value: u8) -> CpuView {
        let r0 = self.x & self.a;
        let r = wrap8(r0 - value);
        self.with_x(r).nz(r).set_flag_to(StatusBit::Carry, r0 >= value)
    }

    /// Negative from bit 7 of the value, zero from the value AND the
    /// accumulator, overflow from bit 6 of the value.
    pub open spec fn bit(self, value: u8) -> CpuView {
        self.with_p(
            with_flag(
                with_flag(self.p, StatusBit::Negative, value >= 0x80),
                StatusBit::Zero,
                self.a & value == 0,
            ),
        ).set_flag_to(StatusBit::Overflow, (value / 64) % 2 == 1)
    }

    pub open spec fn cmp(self, value: u8) -> CpuView {
        self.generic_compare(value, self.a)
    }

    pub open spec fn cpx(self, value: u8) -> CpuView {
        self.generic_compare(value, self.x)
    }

    pub open spec fn cpy(self, value: u8) -> CpuView {
        self.generic_compare(value, self.y)
    }

    /// No operation; one cycle.
    pub open spec fn nop(self) -> CpuView {
        self.tick()
    }

    pub open spec fn eor(self, value: u8) -> CpuView {
        let r = self.a ^ value;
        self.with_a(r).nz(r)
    }

    /// Increment the value, subtract it and the borrow (the clear carry)
    /// from the accumulator; carry is set when nothing is borrowed.
    pub open spec fn isc(self, value: u8) -> CpuView {
        let v = inc8(value);
        let m: u8 = if self.flag(StatusBit::Carry) {
            0
        } else {
            1
        };
        let d = self.a - v - m;
        let r = wrap8(d);
        self.with_a(r).set_flag_to(StatusBit::Carry, d >= 0).set_flag_to(
            StatusBit::Negative,
            r >= 0x80,
        ).set_flag_to(StatusBit::Overflow, sub_overflow(self.a, v, r)).set_flag_to(
            StatusBit::Zero,
            r == 0,
        )
    }

    /// Value AND stack pointer into the accumulator, X and the stack pointer.
    pub open spec fn lar(self, value: u8) -> CpuView {
        let r = value & self.sp;
        self.with_a(r).with_x(r).with_sp(r).nz(r)
    }

    pub open spec fn lax(self, value: u8) -> CpuView {
        self.with_a(value).with_x(value).nz(value)
    }

    pub open spec fn lda(self, value: u8) -> CpuView {
        self.with_a(value).nz(value)
    }

    pub open spec fn ldx(self, value: u8) -> CpuView {
        self.with_x(value).nz(value)
    }

    pub open spec fn ldy(self, value: u8) -> CpuView {
        self.with_y(value).nz(value)
    }

    pub open spec fn ora(self, value: u8) -> CpuView {
        let r = self.a | value;
        self.with_a(r).nz(r)
    }

    /// Rotate the value left, then AND it into the accumulator.
    pub open spec fn rla(self, value: u8) -> CpuView {
        let (v, s1) = self.rotate_left(value);
        let r = s1.a & v;
        s1.with_a(r).nz(r)
    }

    /// Rotate the value right, then add it and the new carry to the
    /// accumulator.
    pub open spec fn rra(self, value: u8) -> CpuView {
        let (v, s1) = self.rotate_right(value);
        let m: u8 = if s1.flag(StatusBit::Carry) {
            1
        } else {
            0
        };
        let v2 = wrap8(v + m);
        let r = wrap8(s1.a + v2);
        let carry = v + m > 255 || s1.a + v2 > 255;
        s1.with_a(r).set_flag_to(StatusBit::Carry, carry).set_flag_to(
            StatusBit::Overflow,
            add_overflow(s1.a, v, r),
        ).nz(r)
    }

    /// Subtract with borrow (the clear carry), in binary coded decimal when
    /// the decimal flag is set; carry is set when nothing is borrowed.
    pub open spec fn sbc(self, value: u8) -> CpuView {
        let m: u8 = if self.flag(StatusBit::Carry) {
            0
        } else {
            1
        };
        if self.flag(StatusBit::Decimal) {
            let (r, s1) = self.decimal_subtraction(self.a, value, m);
            s1.with_a(r)
        } else {
            let d = self.a - value - m;
            let r = wrap8(d);
            let carry = d >= 0;
            self.with_p(
                with_flag(
                    with_flag(
                        with_flag(self.p, StatusBit::Negative, r >= 0x80),
                        StatusBit::Overflow,
                        sub_overflow(self.a, value, r),
                    ),
                    StatusBit::Zero,
                    r == 0,
                ),
            ).set_flag_to(StatusBit::Carry, carry).with_a(r)
        }
    }

    /// Shift the value left, then OR it into the accumulator.
    pub open spec fn slo(self, value: u8) -> CpuView {
        let (v, s1) = self.shift_left(value);
        let r = s1.a | v;
        s1.with_a(r).nz(r)
    }

    /// Shift the value right, then XOR it into the accumulator.
    pub open spec fn sre(self, value: u8) -> CpuView {
        let (v, s1) = self.shift_right(value);
        let r = s1.a ^ v;
        s1.with_a(r).nz(r)
    }

    /// Applies a one-byte operation.
    pub open spec fn apply(self, op: ReadOp, v: u8) -> CpuView {
        match op {
            ReadOp::Ora => self.ora(v),
            ReadOp::And => self.and(v),
            ReadOp::Eor => self.eor(v),
            ReadOp::Adc => self.adc(v),
            ReadOp::Sbc => self.sbc(v),
            ReadOp::Cmp => self.cmp(v),
            ReadOp::Cpx => self.cpx(v),
            ReadOp::Cpy => self.cpy(v),
            ReadOp::Lda => self.lda(v),
            ReadOp::Ldx => self.ldx(v),
            ReadOp::Ldy => self.ldy(v),
            ReadOp::Lax => self.lax(v),
            ReadOp::Bit => self.bit(v),
            ReadOp::Slo => self.slo(v),
            ReadOp::Rla => self.rla(v),
            ReadOp::Sre => self.sre(v),
            ReadOp::Rra => self.rra(v),
            ReadOp::Isc => self.isc(v),
            ReadOp::Dop => self.nop(),
            ReadOp::Top => self.nop(),
            ReadOp::Aac => self.aac(v),
            ReadOp::Asr => self.asr(v),
            ReadOp::Arr => self.arr(v),
            ReadOp::Atx => self.atx(v),
            ReadOp::Axs => self.axs(v),
            ReadOp::Lar => self.lar(v),
        }
    }

    pub open spec fn immediate_cb(self, op: ReadOp) -> CpuView {
        let (v, s1) = self.immediate();
        s1.apply(op, v)
    }

    pub open spec fn zero_page_cb(self, op: ReadOp) -> CpuView {
        let (_i, v, s1) = self.zero_page();
        s1.apply(op, v)
    }

    pub open spec fn zp_reg_cb(self, reg: u8, op: ReadOp) -> CpuView {
        let (_i, v, s1) = self.zp_reg(reg);
        s1.apply(op, v)
    }

    pub open spec fn absolute_cb(self, op: ReadOp) -> CpuView {
        let (_i, v, s1) = self.absolute();
        s1.apply(op, v)
    }

    pub open spec fn absolute_x_cb(self, op: ReadOp) -> CpuView {
        let (_i, v, s1) = self.absolute_reg(self.x);
        s1.apply(op, v)
    }

    pub open spec fn absolute_y_cb(self, op: ReadOp) -> CpuView {
        let (_i, v, s1) = self.absolute_reg(self.y);
        s1.apply(op, v)
    }

    pub open spec fn indexed_x_cb(self, op: ReadOp) -> CpuView {
        let (_i, v, s1) = self.indexed_x();
        s1.apply(op, v)
    }

    pub open spec fn indexed_y_cb(self, op: ReadOp) -> CpuView {
        let (_i, v, s1) = self.indexed_y();
        s1.apply(op, v)
    }

    // ------------------------------------------------------------------
    // Read-modify-write and store operations
    // ------------------------------------------------------------------
    /// Stores X AND A, with negative and zero from it.
    pub open spec fn aax(self, index: u16) -> CpuView {
        let r = self.x & self.a;
        self.nz(r).set_u16(index, r)
    }

    pub open spec fn aax_zero_page(self) -> CpuView {
        let (i, s1) = self.zero_page_index();
        s1.aax(i as u16)
    }

    pub open spec fn aax_zero_page_y(self) -> CpuView {
        let (i, s1) = self.zp_reg_index(self.y);
        s1.aax(i as u16)
    }

    pub open spec fn aax_indirect_x(self) -> CpuView {
        let (i, _v, s1) = self.indexed_x();
        s1.aax(i)
    }

    pub open spec fn aax_absolute(self) -> CpuView {
        let (i, s1) = self.absolute_index();
        s1.aax(i)
    }

    /// Arithmetic shift left: bit 7 goes into the carry; one cycle.
    pub open spec fn asl(self, value: u8) -> (u8, CpuView) {
        let r = wrap8(value * 2);
        (r, self.tick().nz(r).set_flag_to(StatusBit::Carry, value >= 0x80))
    }

    pub open spec fn asl_accumulator(self) -> CpuView {
        let (r, s1) = self.asl(self.a);
        s1.with_a(r)
    }

    pub open spec fn asl_zero_page(self) -> CpuView {
        let (i, v, s1) = self.zero_page();
        let (r, s2) = s1.asl(v);
        s2.set_zero_page(i, r)
    }

    pub open spec fn asl_zero_page_x(self) -> CpuView {
        let (i, v, s1) = self.zp_reg(self.x);
        let (r, s2) = s1.asl(v);
        s2.set_zero_page(i, r)
    }

    pub open spec fn asl_absolute(self) -> CpuView {
        let (i, v, s1) = self.absolute();
        let (r, s2) = s1.asl(v);
        s2.set_u16(i, r)
    }

    pub open spec fn asl_absolute_x(self) -> CpuView {
        let (i, v, s1) = self.absolute_reg(self.x);
        let (r, s2) = s1.asl(v);
        s2.set_u16(i, r).tick()
    }

    /// Stores A AND X AND 7.
    pub open spec fn axa(self, index: u16) -> CpuView {
        self.set_u16(index, self.a & self.x & 7)
    }

    pub open spec fn axa_absolute_y(self) -> CpuView {
        let (lo, hi, s1) = self.get_two_operands();
        let i = wrap16(word(lo, hi) + self.y);
        s1.test_for_overflow(lo, self.y).axa(i)
    }

    pub open spec fn axa_indirect(self) -> CpuView {
        let (op, s1) = self.get_single_operand();
        let m = wrap8(op + self.x);
        let (lo, s2) = s1.get_zero_page(m);
        let (hi, s3) = s2.get_zero_page(wrap8(m + 1));
        s3.axa(word(lo, hi))
    }

    /// Decrements the value into memory; carry set when it wraps below zero.
    pub open spec fn dcp(self, index: u16, value: u8) -> CpuView {
        self.set_flag_to(StatusBit::Carry, value == 0).set_u16(index, dec8(value))
    }

    pub open spec fn dcp_zp(self) -> CpuView {
        let (i, v, s1) = self.zero_page();
        s1.dcp(i as u16, v)
    }

    pub open spec fn dcp_zp_reg(self) -> CpuView {
        let (i, v, s1) = self.zp_reg(self.x);
        s1.dcp(i as u16, v)
    }

    pub open spec fn dcp_absolute(self) -> CpuView {
        let (i, v, s1) = self.absolute();
        s1.dcp(i, v)
    }

    pub open spec fn dcp_abs_x(self) -> CpuView {
        let (i, v, s1) = self.absolute_reg(self.x);
        s1.dcp(i, v)
    }

    pub open spec fn dcp_abs_y(self) -> CpuView {
        let (i, v, s1) = self.absolute_reg(self.y);
        s1.dcp(i, v)
    }

    pub open spec fn dcp_indexed_x(self) -> CpuView {
        let (i, v, s1) = self.indexed_x();
        s1.dcp(i, v)
    }

    pub open spec fn dcp_indexed_y(self) -> CpuView {
        let (i, v, s1) = self.indexed_y();
        s1.dcp(i, v)
    }

    /// Decrements the value into memory; one cycle to modify.
    pub open spec fn dec(self, index: u16, value: u8) -> CpuView {
        let v = dec8(value);
        self.tick().set_u16(index, v).nz(v)
    }

    pub open spec fn dec_zp(self) -> CpuView {
        let (i, v, s1) = self.zero_page();
        s1.dec(i as u16, v)
    }

    pub open spec fn dec_zp_reg(self) -> CpuView {
        let (i, v, s1) = self.zp_reg(self.x);
        s1.dec(i as u16, v)
    }

    pub open spec fn dec_abs(self) -> CpuView {
        let (i, v, s1) = self.absolute();
        s1.dec(i, v)
    }

    pub open spec fn dec_abs_x(self) -> CpuView {
        let (i, v, s1) = self.absolute_reg(self.x);
        s1.dec(i, v).tick()
    }

    /// Increments the value into memory; one cycle to modify.
    pub open spec fn inc(self, index: u16, value: u8) -> CpuView {
        let v = inc8(value);
        self.tick().set_u16(index, v).nz(v)
    }

    pub open spec fn inc_zp(self) -> CpuView {
        let (i, v, s1) = self.zero_page();
        s1.inc(i as u16, v)
    }

    pub open spec fn inc_zp_reg(self) -> CpuView {
        let (i, v, s1) = self.zp_reg(self.x);
        s1.inc(i as u16, v)
    }

    pub open spec fn inc_abs(self) -> CpuView {
        let (i, v, s1) = self.absolute();
        s1.inc(i, v)
    }

    pub open spec fn inc_abs_x(self) -> CpuView {
        let (i, v, s1) = self.absolute_reg(self.x);
        s1.inc(i, v).tick()
    }

    /// Logical shift right: the carry is always cleared; one cycle.
    pub open spec fn lsr(self, value: u8) -> (u8, CpuView) {
        let r = (value / 2) as u8;
        (r, self.tick().nz(r).set_flag_to(StatusBit::Carry, value % 2 == 1))
    }

    pub open spec fn lsr_accumulator(self) -> CpuView {
        let (r, s1) = self.lsr(self.a);
        s1.with_a(r)
    }

    pub open spec fn lsr_zero_page(self) -> CpuView {
        let (i, v, s1) = self.zero_page();
        let (r, s2) = s1.lsr(v);
        s2.set_zero_page(i, r)
    }

    pub open spec fn lsr_zero_page_x(self) -> CpuView {
        let (i, v, s1) = self.zp_reg(self.x);
        let (r, s2) = s1.lsr(v);
        s2.set_zero_page(i, r)
    }

    pub open spec fn lsr_absolute(self) -> CpuView {
        let (i, v, s1) = self.absolute();
        let (r, s2) = s1.lsr(v);
        s2.set_u16(i, r)
    }

    pub open spec fn lsr_absolute_x(self) -> CpuView {
        let (i, v, s1) = self.absolute_reg(self.x);
        let (r, s2) = s1.lsr(v);
        s2.set_u16(i, r)
    }

    /// Rotate left with negative and zero; one cycle to modify.
    pub open spec fn rol(self, value: u8) -> (u8, CpuView) {
        let (r, s1) = self.rotate_left(value);
        (r, s1.tick().nz(r))
    }

    pub open spec fn rol_accumulator(self) -> CpuView {
        let (r, s1) = self.rol(self.a);
        s1.with_a(r)
    }

    pub open spec fn rol_zero_page(self) -> CpuView {
        let (i, v, s1) = self.zero_page();
        let (r, s2) = s1.rol(v);
        s2.set_zero_page(i, r)
    }

    pub open spec fn rol_zero_page_x(self) -> CpuView {
        let (i, v, s1) = self.zp_reg(self.x);
        let (r, s2) = s1.rol(v);
        s2.set_zero_page(i, r)
    }

    pub open spec fn rol_absolute(self) -> CpuView {
        let (i, v, s1) = self.absolute();
        let (r, s2) = s1.rol(v);
        s2.set_u16(i, r)
    }

    pub open spec fn rol_absolute_x(self) -> CpuView {
        let (i, v, s1) = self.absolute_reg(self.x);
        let (r, s2) = s1.rol(v);
        s2.set_u16(i, r)
    }

    /// Rotate right with negative and zero; one cycle to modify.
    pub open spec fn ror(self, value: u8) -> (u8, CpuView) {
        let (r, s1) = self.rotate_right(value);
        (r, s1.tick().nz(r))
    }

    pub open spec fn ror_accumulator(self) -> CpuView {
        let (r, s1) = self.ror(self.a);
        s1.with_a(r)
    }

    pub open spec fn ror_zero_page(self) -> CpuView {
        let (i, v, s1) = self.zero_page();
        let (r, s2) = s1.ror(v);
        s2.set_zero_page(i, r)
    }

    pub open spec fn ror_zero_page_x(self) -> CpuView {
        let (i, v, s1) = self.zp_reg(self.x);
        let (r, s2) = s1.ror(v);
        s2.set_zero_page(i, r)
    }

    pub open spec fn ror_absolute(self) -> CpuView {
        let (i, v, s1) = self.absolute();
        let (r, s2) = s1.ror(v);
        s2.set_u16(i, r)
    }

    pub open spec fn ror_absolute_x(self) -> CpuView {
        let (i, v, s1) = self.absolute_reg(self.x);
        let (r, s2) = s1.ror(v);
        s2.set_u16(i, r)
    }

    pub open spec fn sta_zero_page(self) -> CpuView {
        let (i, s1) = self.zero_page_index();
        s1.set_zero_page(i, s1.a)
    }

    pub open spec fn sta_zero_page_x(self) -> CpuView {
        let (i, s1) = self.zp_reg_index(self.x);
        s1.set_zero_page(i, s1.a)
    }

    pub open spec fn sta_absolute(self) -> CpuView {
        let (i, s1) = self.absolute_index();
        s1.set_u16(i, s1.a)
    }

    pub open spec fn sta_absolute_x(self) -> CpuView {
        let (i, _v, s1) = self.absolute_reg(self.x);
        s1.set_u16(i, s1.a)
    }

    pub open spec fn sta_absolute_y(self) -> CpuView {
        let (i, _v, s1) = self.absolute_reg(self.y);
        s1.set_u16(i, s1.a)
    }

    pub open spec fn sta_indexed_x(self) -> CpuView {
        let (i, _v, s1) = self.indexed_x();
        s1.set_u16(i, s1.a)
    }

    pub open spec fn sta_indexed_y(self) -> CpuView {
        let (i, _v, s1) = self.indexed_y();
        s1.set_u16(i, s1.a)
    }

    pub open spec fn stx_zero_page(self) -> CpuView {
        let (i, s1) = self.zero_page_index();
        s1.set_zero_page(i, s1.x)
    }

    pub open spec fn stx_zero_page_y(self) -> CpuView {
        let (i, s1) = self.zp_reg_index(self.y);
        s1.set_zero_page(i, s1.x)
    }

    pub open spec fn stx_absolute(self) -> CpuView {
        let (i, s1) = self.absolute_index();
        s1.set_u16(i, s1.x)
    }

    pub open spec fn sty_zero_page(self) -> CpuView {
        let (i, s1) = self.zero_page_index();
        s1.set_zero_page(i, s1.y)
    }

    pub open spec fn sty_zero_page_x(self) -> CpuView {
        let (i, s1) = self.zp_reg_index(self.x);
        s1.set_zero_page(i, s1.y)
    }

    pub open spec fn sty_absolute(self) -> CpuView {
        let (i, s1) = self.absolute_index();
        s1.set_u16(i, s1.y)
    }

    /// Stores X AND (the address's high byte plus one) at the address.
    pub open spec fn sxa(self) -> CpuView {
        let (lo, hi, s1) = self.get_two_operands();
        s1.set_u16(word(lo, hi), self.x & inc8(hi))
    }

    /// Stores Y AND (the address's high byte plus one) at the address.
    pub open spec fn sya(self) -> CpuView {
        let (lo, hi, s1) = self.get_two_operands();
        s1.set_u16(word(lo, hi), self.y & inc8(hi))
    }

    /// X AND A into the stack pointer, then that AND (the address's high
    /// byte plus one) stored at the address.
    pub open spec fn xas(self) -> CpuView {
        let r = self.x & self.a;
        let (lo, hi, s1) = self.with_sp(r).get_two_operands();
        s1.set_u16(word(lo, hi), r & inc8(hi))
    }

    // ------------------------------------------------------------------
    // Control flow
    // ------------------------------------------------------------------
    pub open spec fn branch_op(self, condition: bool) -> CpuView {
        let (op, s1) = self.get_single_operand();
        s1.branch(condition, op)
    }

    pub open spec fn bpl(self) -> CpuView {
        self.branch_op(!self.flag(StatusBit::Negative))
    }

    pub open spec fn bmi(self) -> CpuView {
        self.branch_op(self.flag(StatusBit::Negative))
    }

    pub open spec fn bvc(self) -> CpuView {
        self.branch_op(!self.flag(StatusBit::Overflow))
    }

    pub open spec fn bvs(self) -> CpuView {
        self.branch_op(self.flag(StatusBit::Overflow))
    }

    pub open spec fn bcc(self) -> CpuView {
        self.branch_op(!self.flag(StatusBit::Carry))
    }

    pub open spec fn bcs(self) -> CpuView {
        self.branch_op(self.flag(StatusBit::Carry))
    }

    pub open spec fn bne(self) -> CpuView {
        self.branch_op(!self.flag(StatusBit::Zero))
    }

    pub open spec fn beq(self) -> CpuView {
        self.branch_op(self.flag(StatusBit::Zero))
    }

    /// Sets break, moves the counter up one and services a maskable
    /// interrupt.
    pub open spec fn brk(self) -> CpuView {
        self.set_flag_to(StatusBit::Break, true).with_pc(wrap16(self.pc + 1)).irq_interrupt()
    }

    /// Continues execution at the operand address: the counter stops one
    /// before it, as the next fetch moves the counter up before reading.
    pub open spec fn jmp_absolute(self) -> CpuView {
        let (lo, hi, s1) = self.get_two_operands();
        s1.with_pc(wrap16(word(lo, hi) - 1))
    }

    /// Jumps through a pointer; the pointer's second byte is read from the
    /// same page, wrapping within it.
    pub open spec fn jmp_indirect(self) -> CpuView {
        let (lo, hi, s1) = self.get_two_operands();
        let (first, s2) = s1.get_u16(word(lo, hi));
        let (second, s3) = s2.get_u16(word(wrap8(lo + 1), hi));
        s3.with_pc(wrap16(word(first, second) - 1))
    }

    /// Pushes the address of its last byte less one, high byte first, and
    /// continues execution at the operand address.
    pub open spec fn jsr(self) -> CpuView {
        let (lo, hi, s1) = self.get_two_operands();
        let pc = wrap16(s1.pc - 1);
        let s2 = s1.with_pc(pc).push_raw((pc / 256) as u8);
        let s3 = s2.push_raw((pc % 256) as u8);
        s3.tick().with_pc(wrap16(word(lo, hi) - 1))
    }

    pub open spec fn rti(self) -> CpuView {
        self.return_from_interrupt()
    }

    /// Pops two bytes, the first as the low byte, and puts the counter one
    /// past that address, so that execution continues after the JSR.
    pub open spec fn rts(self) -> CpuView {
        let (lo, s1) = self.pop_from_stack();
        let (hi, s2) = s1.pop_from_stack();
        s2.tick().with_pc(wrap16(word(lo, hi) + 1)).tick()
    }

    // ------------------------------------------------------------------
    // Flags and registers
    // ------------------------------------------------------------------
    pub open spec fn clc(self) -> CpuView {
        self.clear_flag(StatusBit::Carry)
    }

    pub open spec fn cld(self) -> CpuView {
        self.clear_flag(StatusBit::Decimal)
    }

    pub open spec fn cli(self) -> CpuView {
        self.clear_flag(StatusBit::Interrupt)
    }

    pub open spec fn clv(self) -> CpuView {
        self.clear_flag(StatusBit::Overflow)
    }

    pub open spec fn sec(self) -> CpuView {
        self.set_flag(StatusBit::Carry)
    }

    pub open spec fn sed(self) -> CpuView {
        self.set_flag(StatusBit::Decimal)
    }

    pub open spec fn sei(self) -> CpuView {
        self.set_flag(StatusBit::Interrupt)
    }

    /// Loads X with the accumulator, with negative and zero from it.
    pub open spec fn tax(self) -> CpuView {
        self.with_x(self.a).register_operation(self.a)
    }

    pub open spec fn txa(self) -> CpuView {
        self.with_a(self.x).register_operation(self.x)
    }

    pub open spec fn dex(self) -> CpuView {
        let v = dec8(self.x);
        self.with_x(v).register_operation(v)
    }

    pub open spec fn inx(self) -> CpuView {
        let v = inc8(self.x);
        self.with_x(v).register_operation(v)
    }

    pub open spec fn tay(self) -> CpuView {
        self.with_y(self.a).register_operation(self.a)
    }

    pub open spec fn tya(self) -> CpuView {
        self.with_a(self.y).register_operation(self.y)
    }

    pub open spec fn dey(self) -> CpuView {
        let v = dec8(self.y);
        self.with_y(v).register_operation(v)
    }

    pub open spec fn iny(self) -> CpuView {
        let v = inc8(self.y);
        self.with_y(v).register_operation(v)
    }

    pub open spec fn txs(self) -> CpuView {
        self.with_sp(self.x).tick()
    }

    pub open spec fn tsx(self) -> CpuView {
        self.with_x(self.sp).tick()
    }

    pub open spec fn pha(self) -> CpuView {
        self.push_to_stack(self.a).tick()
    }

    pub open spec fn pla(self) -> CpuView {
        let (v, s1) = self.pop_from_stack();
        s1.with_a(v).tick()
    }

    pub open spec fn php(self) -> CpuView {
        self.push_to_stack(self.p).tick()
    }

    pub open spec fn plp(self) -> CpuView {
        let (v, s1) = self.pop_from_stack();
        s1.with_p(v).tick()
    }
}

} // verus!
