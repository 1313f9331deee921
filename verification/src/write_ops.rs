//! The instructions that write memory or registers, move the program
//! counter, or use the stack.
use crate::cpu::CPU;
use crate::model::{CpuView, StepResult};
use crate::status_register::{lemma_flag_writes_commute, StatusBit};
use vstd::prelude::*;

verus! {

impl CPU {
    /// Illegal opcode. Stores X AND the accumulator at the address.
    ///
    /// Affects flags N Z.
    pub fn aax(&mut self, index: u16)
        ensures
            final(self)@ == old(self)@.aax(index),
    {
        let message = "AAX";
        let result = self.x_register.get() & self.accumulator.get();
        self.status_register.handle_n_flag(result, message);
        self.status_register.handle_z_flag(result, message);
        self.set_u16(index, result);
    }

    /// AAX in zero page addressing mode.
    pub fn aax_zero_page(&mut self)
        ensures
            final(self)@ == old(self)@.aax_zero_page(),
    {
        let index = self.zero_page_index("AAX");
        self.aax(index as u16);
    }

    /// AAX in zero page Y addressing mode.
    pub fn aax_zero_page_y(&mut self)
        ensures
            final(self)@ == old(self)@.aax_zero_page_y(),
    {
        let index = self.zp_reg_index("AAX", self.y_register.get());
        self.aax(index as u16);
    }

    /// AAX in indexed X addressing mode.
    pub fn aax_indirect_x(&mut self)
        ensures
            final(self)@ == old(self)@.aax_indirect_x(),
    {
        let (index, _) = self.indexed_x("AAX");
        self.aax(index);
    }

    /// AAX in absolute addressing mode.
    pub fn aax_absolute(&mut self)
        ensures
            final(self)@ == old(self)@.aax_absolute(),
    {
        let index = self.absolute_index("AAX");
        self.aax(index);
    }

    /// Arithmetic Shift Left: zero goes into bit 0 and bit 7 into the carry;
    /// one cycle to modify.
    ///
    /// Affects flags N Z C.
    pub fn asl(&mut self, value: u8) -> (r: u8)
        ensures
            r == old(self)@.asl(value).0,
            final(self)@ == old(self)@.asl(value).1,
    {
        let message = "ASL";
        let result = value.wrapping_mul(2);
        self.sync();
        self.status_register.handle_n_flag(result, message);
        self.status_register.handle_z_flag(result, message);
        self.status_register.handle_c_flag(message, value >= 0x80);
        result
    }

    /// ASL in accumulator addressing mode.
    pub fn asl_accumulator(&mut self)
        ensures
            final(self)@ == old(self)@.asl_accumulator(),
    {
        let result = self.asl(self.accumulator.get());
        self.accumulator.set(result);
    }

    /// ASL in zero page addressing mode.
    pub fn asl_zero_page(&mut self)
        ensures
            final(self)@ == old(self)@.asl_zero_page(),
    {
        let (index, value) = self.zero_page("ASL");
        let result = self.asl(value);
        self.set_zero_page(index, result);
    }

    /// ASL in zero page X addressing mode.
    pub fn asl_zero_page_x(&mut self)
        ensures
            final(self)@ == old(self)@.asl_zero_page_x(),
    {
        let (index, value) = self.zp_reg("ASL", self.x_register.get());
        let result = self.asl(value);
        self.set_zero_page(index, result);
    }

    /// ASL in absolute addressing mode.
    pub fn asl_absolute(&mut self)
        ensures
            final(self)@ == old(self)@.asl_absolute(),
    {
        let (index, value) = self.absolute("ASL");
        let result = self.asl(value);
        self.set_u16(index, result);
    }

    /// ASL in absolute X addressing mode. One extra cycle.
    pub fn asl_absolute_x(&mut self)
        ensures
            final(self)@ == old(self)@.asl_absolute_x(),
    {
        let (index, value) = self.absolute_reg("ASL", self.x_register.get());
        let result = self.asl(value);
        self.set_u16(index, result);
        self.sync();
    }

    /// Illegal opcode. Stores the accumulator AND X AND 7 at the address.
    pub fn axa(&mut self, index: u16)
        ensures
            final(self)@ == old(self)@.axa(index),
    {
        let result = self.accumulator.get() & self.x_register.get();
        let result = result & 7;
        self.set_u16(index, result);
    }

    /// AXA in absolute Y addressing mode.
    pub fn axa_absolute_y(&mut self)
        ensures
            final(self)@ == old(self)@.axa_absolute_y(),
    {
        let ops = self.get_two_operands();
        let index = ops[1] as u16 * 256 + ops[0] as u16;
        let reg = self.y_register.get();
        let index = index.wrapping_add(reg as u16);
        self.test_for_overflow(ops[0], reg);
        self.axa(index);
    }

    /// AXA in indexed X addressing mode.
    pub fn axa_indirect(&mut self)
        ensures
            final(self)@ == old(self)@.axa_indirect(),
    {
        let op = self.get_single_operand();
        let modified_op = op.wrapping_add(self.x_register.get());
        let lo = self.get_zero_page(modified_op);
        let hi = self.get_zero_page(modified_op.wrapping_add(1));
        let index = hi as u16 * 256 + lo as u16;
        self.axa(index);
    }

    /// Branch on PLus: branches when the negative flag is clear.
    pub fn bpl(&mut self)
        ensures
            final(self)@ == old(self)@.bpl(),
    {
        let op = self.get_single_operand();
        self.branch(!self.status_register.is_flag_set(StatusBit::Negative), op);
    }

    /// Branch on MInus: branches when the negative flag is set.
    pub fn bmi(&mut self)
        ensures
            final(self)@ == old(self)@.bmi(),
    {
        let op = self.get_single_operand();
        self.branch(self.status_register.is_flag_set(StatusBit::Negative), op);
    }

    /// Branch on oVerflow Clear.
    pub fn bvc(&mut self)
        ensures
            final(self)@ == old(self)@.bvc(),
    {
        let op = self.get_single_operand();
        self.branch(!self.status_register.is_flag_set(StatusBit::Overflow), op);
    }

    /// Branch on oVerflow Set.
    pub fn bvs(&mut self)
        ensures
            final(self)@ == old(self)@.bvs(),
    {
        let op = self.get_single_operand();
        self.branch(self.status_register.is_flag_set(StatusBit::Overflow), op);
    }

    /// Branch on Carry Clear.
    pub fn bcc(&mut self)
        ensures
            final(self)@ == old(self)@.bcc(),
    {
        let op = self.get_single_operand();
        self.branch(!self.status_register.is_flag_set(StatusBit::Carry), op);
    }

    /// Branch on Carry Set.
    pub fn bcs(&mut self)
        ensures
            final(self)@ == old(self)@.bcs(),
    {
        let op = self.get_single_operand();
        self.branch(self.status_register.is_flag_set(StatusBit::Carry), op);
    }

    /// Branch on Not Equal: branches when the zero flag is clear.
    pub fn bne(&mut self)
        ensures
            final(self)@ == old(self)@.bne(),
    {
        let op = self.get_single_operand();
        self.branch(!self.status_register.is_flag_set(StatusBit::Zero), op);
    }

    /// Branch on EQual: branches when the zero flag is set.
    pub fn beq(&mut self)
        ensures
            final(self)@ == old(self)@.beq(),
    {
        let op = self.get_single_operand();
        self.branch(self.status_register.is_flag_set(StatusBit::Zero), op);
    }

    /// BReaK: sets the break flag, moves the counter up one and services
    /// a maskable interrupt.
    pub fn brk(&mut self)
        ensures
            final(self)@ == old(self)@.brk(),
    {
        self.status_register.set_flag(StatusBit::Break);
        self.program_counter.increase(1);
        self.irq_interrupt();
    }

    /// CLear Carry flag; one cycle.
    pub fn clc(&mut self)
        ensures
            final(self)@ == old(self)@.clc(),
    {
        self.clear_flag(StatusBit::Carry);
    }

    /// CLear Decimal flag; one cycle.
    pub fn cld(&mut self)
        ensures
            final(self)@ == old(self)@.cld(),
    {
        self.clear_flag(StatusBit::Decimal);
    }

    /// CLear Interrupt flag; one cycle.
    pub fn cli(&mut self)
        ensures
            final(self)@ == old(self)@.cli(),
    {
        self.clear_flag(StatusBit::Interrupt);
    }

    /// CLear oVerflow flag; one cycle.
    pub fn clv(&mut self)
        ensures
            final(self)@ == old(self)@.clv(),
    {
        self.clear_flag(StatusBit::Overflow);
    }

    /// Illegal opcode. Decrements the value into memory; carry is set when
    /// it wraps below zero.
    ///
    /// Affects flags C.
    pub fn dcp(&mut self, index: u16, value: u8)
        ensures
            final(self)@ == old(self)@.dcp(index, value),
    {
        let message = "DCP";
        let carry = value == 0;
        let result = value.wrapping_sub(1);
        self.status_register.handle_c_flag(message, carry);
        self.set_u16(index, result);
    }

    /// Zero page variant of DCP.
    pub fn dcp_zp(&mut self)
        ensures
            final(self)@ == old(self)@.dcp_zp(),
    {
        let (index, value) = self.zero_page("DCP");
        self.dcp(index as u16, value);
    }

    /// Zero page X variant of DCP.
    pub fn dcp_zp_reg(&mut self)
        ensures
            final(self)@ == old(self)@.dcp_zp_reg(),
    {
        let (index, value) = self.zp_reg("DEC", self.x_register.get());
        self.dcp(index as u16, value);
    }

    /// Absolute variant of DCP.
    pub fn dcp_absolute(&mut self)
        ensures
            final(self)@ == old(self)@.dcp_absolute(),
    {
        let (index, value) = self.absolute("DEC");
        self.dcp(index, value);
    }

    /// Absolute X variant of DCP.
    pub fn dcp_abs_x(&mut self)
        ensures
            final(self)@ == old(self)@.dcp_abs_x(),
    {
        let (index, value) = self.absolute_reg("DCP", self.x_register.get());
        self.dcp(index, value);
    }

    /// Absolute Y variant of DCP.
    pub fn dcp_abs_y(&mut self)
        ensures
            final(self)@ == old(self)@.dcp_abs_y(),
    {
        let (index, value) = self.absolute_reg("DCP", self.y_register.get());
        self.dcp(index, value);
    }

    /// Indexed X variant of DCP.
    pub fn dcp_indexed_x(&mut self)
        ensures
            final(self)@ == old(self)@.dcp_indexed_x(),
    {
        let (index, value) = self.indexed_x("DCP");
        self.dcp(index, value);
    }

    /// Indexed Y variant of DCP.
    pub fn dcp_indexed_y(&mut self)
        ensures
            final(self)@ == old(self)@.dcp_indexed_y(),
    {
        let (index, value) = self.indexed_y("DCP");
        self.dcp(index, value);
    }

    /// DECrement memory: one cycle to modify, then the new value is stored.
    ///
    /// Affects flags N Z.
    pub fn dec(&mut self, index: u16, value: u8)
        ensures
            final(self)@ == old(self)@.dec(index, value),
    {
        let value = value.wrapping_sub(1);
        self.sync();
        self.set_u16(index, value);
        self.status_register.handle_n_flag(value, "DEC");
        self.status_register.handle_z_flag(value, "DEC");
    }

    /// Zero page variant of DEC.
    pub fn dec_zp(&mut self)
        ensures
            final(self)@ == old(self)@.dec_zp(),
    {
        let (index, value) = self.zero_page("DEC");
        self.dec(index as u16, value);
    }

    /// Zero page X variant of DEC.
    pub fn dec_zp_reg(&mut self)
        ensures
            final(self)@ == old(self)@.dec_zp_reg(),
    {
        let (index, value) = self.zp_reg("DEC", self.x_register.get());
        self.dec(index as u16, value);
    }

    /// Absolute variant of DEC.
    pub fn dec_abs(&mut self)
        ensures
            final(self)@ == old(self)@.dec_abs(),
    {
        let (index, value) = self.absolute("DEC");
        self.dec(index, value);
    }

    /// Absolute X variant of DEC. One extra cycle.
    pub fn dec_abs_x(&mut self)
        ensures
            final(self)@ == old(self)@.dec_abs_x(),
    {
        let (index, value) = self.absolute_reg("DEC", self.x_register.get());
        self.dec(index, value);
        self.sync();
    }

    /// INCrement memory: one cycle to modify, then the new value is stored.
    ///
    /// Affects flags N Z.
    pub fn inc(&mut self, index: u16, value: u8)
        ensures
            final(self)@ == old(self)@.inc(index, value),
    {
        let value = value.wrapping_add(1);
        self.sync();
        self.set_u16(index, value);
        self.status_register.handle_n_flag(value, "INC");
        self.status_register.handle_z_flag(value, "INC");
    }

    /// Zero page variant of INC.
    pub fn inc_zp(&mut self)
        ensures
            final(self)@ == old(self)@.inc_zp(),
    {
        let (index, value) = self.zero_page("INC");
        self.inc(index as u16, value);
    }

    /// Zero page X variant of INC.
    pub fn inc_zp_reg(&mut self)
        ensures
            final(self)@ == old(self)@.inc_zp_reg(),
    {
        let (index, value) = self.zp_reg("INC", self.x_register.get());
        self.inc(index as u16, value);
    }

    /// Absolute variant of INC.
    pub fn inc_abs(&mut self)
        ensures
            final(self)@ == old(self)@.inc_abs(),
    {
        let (index, value) = self.absolute("INC");
        self.inc(index, value);
    }

    /// Absolute X variant of INC. One extra cycle.
    pub fn inc_abs_x(&mut self)
        ensures
            final(self)@ == old(self)@.inc_abs_x(),
    {
        let (index, value) = self.absolute_reg("INC", self.x_register.get());
        self.inc(index, value);
        self.sync();
    }

    /// Illegal opcode. Locks the processor: the step ends as `Locked`.
    pub fn kil(&self) -> (r: StepResult)
        ensures
            r == StepResult::Locked,
    {
        StepResult::Locked
    }

    /// Illegal opcode whose behavior is undefined: the step ends as
    /// `Undefined` and nothing changes.
    pub fn xaa(&mut self) -> (r: StepResult)
        ensures
            r == StepResult::Undefined,
            final(self)@ == old(self)@,
    {
        StepResult::Undefined
    }

    /// JuMP: execution continues at the absolute address. The counter is
    /// left one before it, as each fetch moves the counter up first.
    pub fn jmp_absolute(&mut self)
        ensures
            final(self)@ == old(self)@.jmp_absolute(),
    {
        let ops = self.get_two_operands();
        let index = ops[1] as u16 * 256 + ops[0] as u16;
        self.program_counter.jump(index.wrapping_sub(1));
    }

    /// JuMP through a pointer. The pointer's second byte is read from the
    /// same page: its low byte wraps from 0xFF to 0x00.
    pub fn jmp_indirect(&mut self)
        ensures
            final(self)@ == old(self)@.jmp_indirect(),
    {
        let ops = self.get_two_operands();
        let low_test = ops[0].wrapping_add(1);
        let hi = self.get_u16(ops[1] as u16 * 256 + ops[0] as u16);
        let lo = self.get_u16(ops[1] as u16 * 256 + low_test as u16);
        let index = lo as u16 * 256 + hi as u16;
        self.program_counter.jump(index.wrapping_sub(1));
    }

    /// Jump to SubRoutine: pushes the counter less one, high byte first,
    /// and continues execution at the operand address; one extra cycle.
    pub fn jsr(&mut self)
        ensures
            final(self)@ == old(self)@.jsr(),
    {
        let ops = self.get_two_operands();
        self.program_counter.decrease(1);
        let pc = self.program_counter.get();
        self.memory.push_to_stack((pc / 256) as u8);
        self.memory.push_to_stack((pc % 256) as u8);
        let index = ops[1] as u16 * 256 + ops[0] as u16;
        self.sync();
        self.program_counter.jump(index.wrapping_sub(1));
    }

    /// Logical Shift Right: zero goes into bit 7 and bit 0 into the carry;
    /// one cycle to modify.
    ///
    /// Affects flags N Z C.
    pub fn lsr(&mut self, value: u8) -> (r: u8)
        ensures
            r == old(self)@.lsr(value).0,
            final(self)@ == old(self)@.lsr(value).1,
    {
        let result = value / 2;
        self.sync();
        self.status_register.handle_n_flag(result, "LSR");
        self.status_register.handle_z_flag(result, "LSR");
        self.status_register.handle_c_flag("LSR", value % 2 == 1);
        result
    }

    /// LSR in accumulator addressing mode.
    pub fn lsr_accumulator(&mut self)
        ensures
            final(self)@ == old(self)@.lsr_accumulator(),
    {
        let result = self.lsr(self.accumulator.get());
        self.accumulator.set(result);
    }

    /// LSR in zero page addressing mode.
    pub fn lsr_zero_page(&mut self)
        ensures
            final(self)@ == old(self)@.lsr_zero_page(),
    {
        let (index, value) = self.zero_page("LSR");
        let result = self.lsr(value);
        self.set_zero_page(index, result);
    }

    /// LSR in zero page X addressing mode.
    pub fn lsr_zero_page_x(&mut self)
        ensures
            final(self)@ == old(self)@.lsr_zero_page_x(),
    {
        let (index, value) = self.zp_reg("LSR", self.x_register.get());
        let result = self.lsr(value);
        self.set_zero_page(index, result);
    }

    /// LSR in absolute addressing mode.
    pub fn lsr_absolute(&mut self)
        ensures
            final(self)@ == old(self)@.lsr_absolute(),
    {
        let (index, value) = self.absolute("LSR");
        let result = self.lsr(value);
        self.set_u16(index, result);
    }

    /// LSR in absolute X addressing mode.
    pub fn lsr_absolute_x(&mut self)
        ensures
            final(self)@ == old(self)@.lsr_absolute_x(),
    {
        let (index, value) = self.absolute_reg("LSR", self.x_register.get());
        let result = self.lsr(value);
        self.set_u16(index, result);
    }

    /// Transfer Accumulator to X: X is loaded with the accumulator; one
    /// cycle.
    ///
    /// Affects flags N Z.
    pub fn tax(&mut self)
        ensures
            final(self)@ == old(self)@.tax(),
    {
        self.x_register.set(self.accumulator.get());
        self.register_operation(self.accumulator.get(), "TAX");
    }

    /// Transfer X to Accumulator; one cycle.
    ///
    /// Affects flags N Z.
    pub fn txa(&mut self)
        ensures
            final(self)@ == old(self)@.txa(),
    {
        self.accumulator.set(self.x_register.get());
        self.register_operation(self.x_register.get(), "TXA");
    }

    /// Transfer Accumulator to Y; one cycle.
    ///
    /// Affects flags N Z.
    pub fn tay(&mut self)
        ensures
            final(self)@ == old(self)@.tay(),
    {
        self.y_register.set(self.accumulator.get());
        self.register_operation(self.accumulator.get(), "TAY");
    }

    /// Transfer Y to Accumulator; one cycle.
    ///
    /// Affects flags N Z.
    pub fn tya(&mut self)
        ensures
            final(self)@ == old(self)@.tya(),
    {
        self.accumulator.set(self.y_register.get());
        self.register_operation(self.y_register.get(), "TYA");
    }

    /// DEcrement X; one cycle.
    ///
    /// Affects flags N Z.
    pub fn dex(&mut self)
        ensures
            final(self)@ == old(self)@.dex(),
    {
        self.x_register.decrement();
        self.register_operation(self.x_register.get(), "DEX");
    }

    /// INcrement X; one cycle.
    ///
    /// Affects flags N Z.
    pub fn inx(&mut self)
        ensures
            final(self)@ == old(self)@.inx(),
    {
        self.x_register.increment();
        self.register_operation(self.x_register.get(), "INX");
    }

    /// DEcrement Y; one cycle.
    ///
    /// Affects flags N Z.
    pub fn dey(&mut self)
        ensures
            final(self)@ == old(self)@.dey(),
    {
        self.y_register.decrement();
        self.register_operation(self.y_register.get(), "DEY");
    }

    /// INcrement Y; one cycle.
    ///
    /// Affects flags N Z.
    pub fn iny(&mut self)
        ensures
            final(self)@ == old(self)@.iny(),
    {
        self.y_register.increment();
        self.register_operation(self.y_register.get(), "INY");
    }

    /// ROtate Left through the carry; one cycle to modify.
    ///
    /// Affects flags N Z C.
    pub fn rol(&mut self, value: u8) -> (r: u8)
        ensures
            r == old(self)@.rol(value).0,
            final(self)@ == old(self)@.rol(value).1,
    {
        let result = self.rotate_left(value);
        self.sync();
        self.status_register.handle_n_flag(result, "ROL");
        self.status_register.handle_z_flag(result, "ROL");
        result
    }

    /// ROL in accumulator addressing mode.
    pub fn rol_accumulator(&mut self)
        ensures
            final(self)@ == old(self)@.rol_accumulator(),
    {
        let result = self.rol(self.accumulator.get());
        self.accumulator.set(result);
    }

    /// ROL in zero page addressing mode.
    pub fn rol_zero_page(&mut self)
        ensures
            final(self)@ == old(self)@.rol_zero_page(),
    {
        let (index, value) = self.zero_page("ROL");
        let result = self.rol(value);
        self.set_zero_page(index, result);
    }

    /// ROL in zero page X addressing mode.
    pub fn rol_zero_page_x(&mut self)
        ensures
            final(self)@ == old(self)@.rol_zero_page_x(),
    {
        let (index, value) = self.zp_reg("ROL", self.x_register.get());
        let result = self.rol(value);
        self.set_zero_page(index, result);
    }

    /// ROL in absolute addressing mode.
    pub fn rol_absolute(&mut self)
        ensures
            final(self)@ == old(self)@.rol_absolute(),
    {
        let (index, value) = self.absolute("ROL");
        let result = self.rol(value);
        self.set_u16(index, result);
    }

    /// ROL in absolute X addressing mode.
    pub fn rol_absolute_x(&mut self)
        ensures
            final(self)@ == old(self)@.rol_absolute_x(),
    {
        let (index, value) = self.absolute_reg("ROL", self.x_register.get());
        let result = self.rol(value);
        self.set_u16(index, result);
    }

    /// ROtate Right through the carry; one cycle to modify.
    ///
    /// Affects flags N Z C.
    pub fn ror(&mut self, value: u8) -> (r: u8)
        ensures
            r == old(self)@.ror(value).0,
            final(self)@ == old(self)@.ror(value).1,
    {
        let result = self.rotate_right(value);
        self.sync();
        self.status_register.handle_n_flag(result, "ROR");
        self.status_register.handle_z_flag(result, "ROR");
        result
    }

    /// ROR in accumulator addressing mode.
    pub fn ror_accumulator(&mut self)
        ensures
            final(self)@ == old(self)@.ror_accumulator(),
    {
        let result = self.ror(self.accumulator.get());
        self.accumulator.set(result);
    }

    /// ROR in zero page addressing mode.
    pub fn ror_zero_page(&mut self)
        ensures
            final(self)@ == old(self)@.ror_zero_page(),
    {
        let (index, value) = self.zero_page("ROR");
        let result = self.ror(value);
        self.set_zero_page(index, result);
    }

    /// ROR in zero page X addressing mode.
    pub fn ror_zero_page_x(&mut self)
        ensures
            final(self)@ == old(self)@.ror_zero_page_x(),
    {
        let (index, value) = self.zp_reg("ROR", self.x_register.get());
        let result = self.ror(value);
        self.set_zero_page(index, result);
    }

    /// ROR in absolute addressing mode.
    pub fn ror_absolute(&mut self)
        ensures
            final(self)@ == old(self)@.ror_absolute(),
    {
        let (index, value) = self.absolute("ROR");
        let result = self.ror(value);
        self.set_u16(index, result);
    }

    /// ROR in absolute X addressing mode.
    pub fn ror_absolute_x(&mut self)
        ensures
            final(self)@ == old(self)@.ror_absolute_x(),
    {
        let (index, value) = self.absolute_reg("ROR", self.x_register.get());
        let result = self.ror(value);
        self.set_u16(index, result);
    }

    /// ReTurn from Interrupt.
    pub fn rti(&mut self)
        ensures
            final(self)@ == old(self)@.rti(),
    {
        self.return_from_interrupt();
    }

    /// ReTurn from Subroutine: pops the low byte, then the high byte, and
    /// puts the counter one past that address, so that execution continues
    /// after the JSR.
    pub fn rts(&mut self)
        ensures
            final(self)@ == old(self)@.rts(),
    {
        let lo = self.pop_from_stack();
        let hi = self.pop_from_stack();
        let index = (hi as u16 * 256 + lo as u16).wrapping_add(1);
        self.sync();
        self.program_counter.jump(index);
        self.sync();
    }

    /// SEt Carry flag; one cycle.
    pub fn sec(&mut self)
        ensures
            final(self)@ == old(self)@.sec(),
    {
        self.set_flag(StatusBit::Carry);
    }

    /// SEt Decimal flag; one cycle.
    pub fn sed(&mut self)
        ensures
            final(self)@ == old(self)@.sed(),
    {
        self.set_flag(StatusBit::Decimal);
    }

    /// SEt Interrupt flag; one cycle.
    pub fn sei(&mut self)
        ensures
            final(self)@ == old(self)@.sei(),
    {
        self.set_flag(StatusBit::Interrupt);
    }

    /// STore Accumulator, zero page variant.
    pub fn sta_zero_page(&mut self)
        ensures
            final(self)@ == old(self)@.sta_zero_page(),
    {
        let index = self.zero_page_index("STA");
        self.set_zero_page(index, self.accumulator.get());
    }

    /// STore Accumulator, zero page X variant.
    pub fn sta_zero_page_x(&mut self)
        ensures
            final(self)@ == old(self)@.sta_zero_page_x(),
    {
        let index = self.zp_reg_index("STA", self.x_register.get());
        self.set_zero_page(index, self.accumulator.get());
    }

    /// STore Accumulator, absolute variant.
    pub fn sta_absolute(&mut self)
        ensures
            final(self)@ == old(self)@.sta_absolute(),
    {
        let index = self.absolute_index("STA");
        self.set_u16(index, self.accumulator.get());
    }

    /// STore Accumulator, absolute X variant. The target is read first.
    pub fn sta_absolute_x(&mut self)
        ensures
            final(self)@ == old(self)@.sta_absolute_x(),
    {
        let (index, _) = self.absolute_reg("STA", self.x_register.get());
        self.set_u16(index, self.accumulator.get());
    }

    /// STore Accumulator, absolute Y variant. The target is read first.
    pub fn sta_absolute_y(&mut self)
        ensures
            final(self)@ == old(self)@.sta_absolute_y(),
    {
        let (index, _) = self.absolute_reg("STA", self.y_register.get());
        self.set_u16(index, self.accumulator.get());
    }

    /// STore Accumulator, indexed X variant. The target is read first.
    pub fn sta_indexed_x(&mut self)
        ensures
            final(self)@ == old(self)@.sta_indexed_x(),
    {
        let (index, _) = self.indexed_x("STA");
        self.set_u16(index, self.accumulator.get());
    }

    /// STore Accumulator, indexed Y variant. The target is read first.
    pub fn sta_indexed_y(&mut self)
        ensures
            final(self)@ == old(self)@.sta_indexed_y(),
    {
        let (index, _) = self.indexed_y("STA");
        self.set_u16(index, self.accumulator.get());
    }

    /// Illegal opcode. Stores X AND (the address's high byte plus one) at
    /// the address.
    pub fn sxa(&mut self)
        ensures
            final(self)@ == old(self)@.sxa(),
    {
        let ops = self.get_two_operands();
        let result = self.x_register.get() & ops[1].wrapping_add(1);
        let index = ops[1] as u16 * 256 + ops[0] as u16;
        self.set_u16(index, result);
    }

    /// Illegal opcode. Stores Y AND (the address's high byte plus one) at
    /// the address.
    pub fn sya(&mut self)
        ensures
            final(self)@ == old(self)@.sya(),
    {
        let ops = self.get_two_operands();
        let result = self.y_register.get() & ops[1].wrapping_add(1);
        let index = ops[1] as u16 * 256 + ops[0] as u16;
        self.set_u16(index, result);
    }

    /// Transfer X to the Stack pointer; one cycle.
    pub fn txs(&mut self)
        ensures
            final(self)@ == old(self)@.txs(),
    {
        self.memory.set_stack_pointer(self.x_register.get());
        self.sync();
    }

    /// Transfer the Stack pointer to X; one cycle.
    pub fn tsx(&mut self)
        ensures
            final(self)@ == old(self)@.tsx(),
    {
        self.x_register.set(self.memory.get_stack_pointer().get());
        self.sync();
    }

    /// PusH Accumulator; one more cycle.
    pub fn pha(&mut self)
        ensures
            final(self)@ == old(self)@.pha(),
    {
        self.push_to_stack(self.accumulator.get());
        self.sync();
    }

    /// PulL Accumulator; one more cycle. No flag changes.
    pub fn pla(&mut self)
        ensures
            final(self)@ == old(self)@.pla(),
    {
        let stack_value = self.pop_from_stack();
        self.accumulator.set(stack_value);
        self.sync();
    }

    /// PusH Processor status; one more cycle.
    pub fn php(&mut self)
        ensures
            final(self)@ == old(self)@.php(),
    {
        self.push_to_stack(self.status_register.get_register());
        self.sync();
    }

    /// PulL Processor status; one more cycle.
    pub fn plp(&mut self)
        ensures
            final(self)@ == old(self)@.plp(),
    {
        let stack = self.pop_from_stack();
        self.status_register.set(stack);
        self.sync();
    }

    /// STore X, zero page variant.
    pub fn stx_zero_page(&mut self)
        ensures
            final(self)@ == old(self)@.stx_zero_page(),
    {
        let index = self.zero_page_index("STX");
        self.set_zero_page(index, self.x_register.get());
    }

    /// STore X, zero page Y variant.
    pub fn stx_zero_page_y(&mut self)
        ensures
            final(self)@ == old(self)@.stx_zero_page_y(),
    {
        let index = self.zp_reg_index("STX", self.y_register.get());
        self.set_zero_page(index, self.x_register.get());
    }

    /// STore X, absolute variant.
    pub fn stx_absolute(&mut self)
        ensures
            final(self)@ == old(self)@.stx_absolute(),
    {
        let index = self.absolute_index("STX");
        self.set_u16(index, self.x_register.get());
    }

    /// STore Y, zero page variant.
    pub fn sty_zero_page(&mut self)
        ensures
            final(self)@ == old(self)@.sty_zero_page(),
    {
        let index = self.zero_page_index("STY");
        self.set_zero_page(index, self.y_register.get());
    }

    /// STore Y, zero page X variant.
    pub fn sty_zero_page_x(&mut self)
        ensures
            final(self)@ == old(self)@.sty_zero_page_x(),
    {
        let index = self.zp_reg_index("STY", self.x_register.get());
        self.set_zero_page(index, self.y_register.get());
    }

    /// STore Y, absolute variant.
    pub fn sty_absolute(&mut self)
        ensures
            final(self)@ == old(self)@.sty_absolute(),
    {
        let index = self.absolute_index("STY");
        self.set_u16(index, self.y_register.get());
    }

    /// Illegal opcode. Stores X AND the accumulator in the stack pointer,
    /// then stores that AND (the address's high byte plus one) at the
    /// address.
    pub fn xas(&mut self)
        ensures
            final(self)@ == old(self)@.xas(),
    {
        let result = self.x_register.get() & self.accumulator.get();
        self.memory.set_stack_pointer(result);
        let ops = self.get_two_operands();
        let result = result & ops[1].wrapping_add(1);
        let index = ops[1] as u16 * 256 + ops[0] as u16;
        self.set_u16(index, result);
    }

}

} // verus!
