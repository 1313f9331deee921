//! The abstract machine state of the processor and the meaning of every
//! operation on it. Each executable operation of `CPU` is specified by the
//! function of the same name here.
use crate::general_register::{dec8, inc8};
use crate::memory::stack_slot;
use crate::program_counter::{crosses_down, crosses_up, wrap16};
use crate::status_register::{add_overflow, flag_of, sub_overflow, with_flag, with_nz, StatusBit};
use vstd::prelude::*;

verus! {

/// An integer reduced to eight bits.
pub open spec fn wrap8(x: int) -> u8 {
    (x % 256) as u8
}

/// The little endian word made of two bytes.
pub open spec fn word(lo: u8, hi: u8) -> u16 {
    (hi * 256 + lo) as u16
}

/// The processor as a value: registers, memory, pins and the number of
/// machine cycles that have elapsed (saturating at `u64::MAX`).
#[verifier::ext_equal]
pub struct CpuView {
    pub pc: u16,
    pub pc_start: u16,
    pub a: u8,
    pub x: u8,
    pub y: u8,
    pub p: u8,
    pub sp: u8,
    pub mem: Seq<u8>,
    pub reset_pin: bool,
    pub nmi_pin: bool,
    pub irq_pin: bool,
    pub cycles: u64,
}

/// How a step of the processor ended.
#[derive(Copy, Clone, Debug, PartialEq, Eq, Structural)]
pub enum StepResult {
    /// The instruction completed and the processor can go on.
    Running,
    /// A KIL instruction locked the processor.
    Locked,
    /// The XAA instruction, whose behavior is undefined, was met.
    Undefined,
}

/// The operations that take one byte read through an addressing mode.
#[derive(Copy, Clone, Debug, PartialEq, Eq, Structural)]
pub enum ReadOp {
    Ora,
    And,
    Eor,
    Adc,
    Sbc,
    Cmp,
    Cpx,
    Cpy,
    Lda,
    Ldx,
    Ldy,
    Lax,
    Bit,
    Slo,
    Rla,
    Sre,
    Rra,
    Isc,
    Dop,
    Top,
    Aac,
    Asr,
    Arr,
    Atx,
    Axs,
    Lar,
}

/// Memory with every byte zero.
pub open spec fn zeroed() -> Seq<u8> {
    Seq::new(0x10000, |i: int| 0u8)
}

/// Memory with `program` written from address `block` on.
pub open spec fn loaded(mem: Seq<u8>, program: Seq<u8>, block: u16) -> Seq<u8> {
    Seq::new(
        mem.len(),
        |i: int|
            if block <= i < block + program.len() {
                program[i - block]
            } else {
                mem[i]
            },
    )
}

/// The machine a freshly created processor is: everything zero, the program
/// counter and its reset block at `STARTING_MEMORY_BLOCK`, the stack pointer
/// at 0xFF, no pin raised and no cycle elapsed.
pub open spec fn initial_view() -> CpuView {
    CpuView {
        pc: 0x8000,
        pc_start: 0x8000,
        a: 0,
        x: 0,
        y: 0,
        p: 0,
        sp: 0xFF,
        mem: zeroed(),
        reset_pin: false,
        nmi_pin: false,
        irq_pin: false,
        cycles: 0,
    }
}

/// The low digit of a decimal subtraction of `val` and a borrow `m` from
/// `acc`, and whether it borrows from the high digit.
pub open spec fn dsub_lo(acc: u8, val: u8, m: u8) -> (int, bool) {
    let d = acc % 16 - val % 16 - m;
    if d < 0 {
        ((d - 6) % 16, true)
    } else {
        (d % 16, false)
    }
}

/// The high digit of a decimal subtraction, and whether it borrows, which
/// is when the whole subtraction borrows.
pub open spec fn dsub_hi(acc: u8, val: u8, m: u8) -> (int, bool) {
    let d = acc / 16 - val / 16 - (if dsub_lo(acc, val, m).1 {
        1int
    } else {
        0int
    });
    if d < 0 {
        ((d - 6) % 16, true)
    } else {
        (d % 16, false)
    }
}

/// The result of a decimal subtraction: each digit that borrows is
/// corrected by six.
pub open spec fn dsub_result(acc: u8, val: u8, m: u8) -> u8 {
    (16 * dsub_hi(acc, val, m).0 + dsub_lo(acc, val, m).0) as u8
}

impl CpuView {
    /// One machine cycle elapses.
    pub open spec fn tick(self) -> CpuView {
        CpuView {
            cycles: if self.cycles < u64::MAX {
                (self.cycles + 1) as u64
            } else {
                self.cycles
            },
            ..self
        }
    }

    pub open spec fn with_a(self, v: u8) -> CpuView {
        CpuView { a: v, ..self }
    }

    pub open spec fn with_x(self, v: u8) -> CpuView {
        CpuView { x: v, ..self }
    }

    pub open spec fn with_y(self, v: u8) -> CpuView {
        CpuView { y: v, ..self }
    }

    pub open spec fn with_p(self, v: u8) -> CpuView {
        CpuView { p: v, ..self }
    }

    pub open spec fn with_sp(self, v: u8) -> CpuView {
        CpuView { sp: v, ..self }
    }

    pub open spec fn with_pc(self, v: u16) -> CpuView {
        CpuView { pc: v, ..self }
    }

    pub open spec fn with_mem(self, m: Seq<u8>) -> CpuView {
        CpuView { mem: m, ..self }
    }

    pub open spec fn with_cycles(self, c: u64) -> CpuView {
        CpuView { cycles: c, ..self }
    }

    pub open spec fn with_reset_pin(self, b: bool) -> CpuView {
        CpuView { reset_pin: b, ..self }
    }

    pub open spec fn with_nmi_pin(self, b: bool) -> CpuView {
        CpuView { nmi_pin: b, ..self }
    }

    pub open spec fn with_irq_pin(self, b: bool) -> CpuView {
        CpuView { irq_pin: b, ..self }
    }

    /// The memory with one byte replaced.
    pub open spec fn put(self, addr: int, v: u8) -> CpuView {
        CpuView { mem: self.mem.update(addr, v), ..self }
    }

    /// Whether a flag is set.
    pub open spec fn flag(self, f: StatusBit) -> bool {
        flag_of(self.p, f)
    }

    /// A flag set or cleared, with no cycle.
    pub open spec fn set_flag_to(self, f: StatusBit, on: bool) -> CpuView {
        self.with_p(with_flag(self.p, f, on))
    }

    /// The negative and zero flags set from a value, with no cycle.
    pub open spec fn nz(self, v: u8) -> CpuView {
        self.with_p(with_nz(self.p, v))
    }

    /// The reset state: registers, flags, memory and pins cleared, the
    /// program counter back at its start block. Cycles are kept.
    pub open spec fn reset(self) -> CpuView {
        CpuView {
            pc: self.pc_start,
            a: 0,
            x: 0,
            y: 0,
            p: 0,
            sp: 0xFF,
            mem: zeroed(),
            reset_pin: false,
            nmi_pin: false,
            irq_pin: false,
            ..self
        }
    }

    // ------------------------------------------------------------------
    // Memory and operand access
    // ------------------------------------------------------------------
    /// Reads an absolute address; one cycle.
    pub open spec fn get_u16(self, addr: u16) -> (u8, CpuView) {
        (self.mem[addr as int], self.tick())
    }

    /// Writes an absolute address; one cycle.
    pub open spec fn set_u16(self, addr: u16, v: u8) -> CpuView {
        self.put(addr as int, v).tick()
    }

    /// Reads a zero page address; one cycle.
    pub open spec fn get_zero_page(self, i: u8) -> (u8, CpuView) {
        (self.mem[i as int], self.tick())
    }

    /// Writes a zero page address; one cycle.
    pub open spec fn set_zero_page(self, i: u8, v: u8) -> CpuView {
        self.put(i as int, v).tick()
    }

    /// Pushes onto the stack, with no cycle.
    pub open spec fn push_raw(self, v: u8) -> CpuView {
        self.put(stack_slot(self.sp), v).with_sp(dec8(self.sp))
    }

    /// Pushes onto the stack; one cycle.
    pub open spec fn push_to_stack(self, v: u8) -> CpuView {
        self.push_raw(v).tick()
    }

    /// Pops from the stack; two cycles.
    pub open spec fn pop_from_stack(self) -> (u8, CpuView) {
        let sp = inc8(self.sp);
        (self.mem[stack_slot(sp)], self.with_sp(sp).tick().tick())
    }

    /// The next program byte: the counter moves up one, then the byte it
    /// names is read; one cycle.
    pub open spec fn get_single_operand(self) -> (u8, CpuView) {
        let pc = wrap16(self.pc + 1);
        (self.mem[pc as int], self.with_pc(pc).tick())
    }

    /// The next two program bytes, low byte first; two cycles.
    pub open spec fn get_two_operands(self) -> (u8, u8, CpuView) {
        let (lo, s1) = self.get_single_operand();
        let (hi, s2) = s1.get_single_operand();
        (lo, hi, s2)
    }

    /// One more cycle when adding the two bytes carries.
    pub open spec fn test_for_overflow(self, op1: u8, op2: u8) -> CpuView {
        if op1 + op2 > 255 {
            self.tick()
        } else {
            self
        }
    }

    // ------------------------------------------------------------------
    // Addressing modes
    // ------------------------------------------------------------------
    pub open spec fn immediate(self) -> (u8, CpuView) {
        self.get_single_operand()
    }

    pub open spec fn zero_page(self) -> (u8, u8, CpuView) {
        let (i, s1) = self.get_single_operand();
        let (v, s2) = s1.get_zero_page(i);
        (i, v, s2)
    }

    pub open spec fn zero_page_index(self) -> (u8, CpuView) {
        self.get_single_operand()
    }

    pub open spec fn zp_reg(self, reg: u8) -> (u8, u8, CpuView) {
        let (op, s1) = self.get_single_operand();
        let s2 = s1.get_zero_page(op).1;
        let i = wrap8(op + reg);
        let (v, s3) = s2.get_zero_page(i);
        (i, v, s3)
    }

    pub open spec fn zp_reg_index(self, reg: u8) -> (u8, CpuView) {
        let (op, s1) = self.get_single_operand();
        let s2 = s1.get_zero_page(op).1;
        (wrap8(op + reg), s2)
    }

    pub open spec fn absolute(self) -> (u16, u8, CpuView) {
        let (lo, hi, s1) = self.get_two_operands();
        let i = word(lo, hi);
        let (v, s2) = s1.get_u16(i);
        (i, v, s2)
    }

    pub open spec fn absolute_index(self) -> (u16, CpuView) {
        let (lo, hi, s1) = self.get_two_operands();
        (word(lo, hi), s1)
    }

    pub open spec fn absolute_reg(self, reg: u8) -> (u16, u8, CpuView) {
        let (lo, hi, s1) = self.get_two_operands();
        let i = wrap16(word(lo, hi) + reg);
        let s2 = s1.test_for_overflow(lo, reg);
        let (v, s3) = s2.get_u16(i);
        (i, v, s3)
    }

    pub open spec fn indexed_x(self) -> (u16, u8, CpuView) {
        let (op, s1) = self.get_single_operand();
        let m = wrap8(op + self.x);
        let (lo, s2) = s1.get_zero_page(m);
        let (hi, s3) = s2.get_zero_page(wrap8(m + 1));
        let i = word(lo, hi);
        let (v, s4) = s3.tick().get_u16(i);
        (i, v, s4)
    }

    pub open spec fn indexed_y(self) -> (u16, u8, CpuView) {
        let (op, s1) = self.get_single_operand();
        let (lo, s2) = s1.get_zero_page(op);
        let (hi, s3) = s2.get_zero_page(wrap8(op + 1));
        let i = wrap16(word(lo, hi) + self.y);
        let s4 = s3.test_for_overflow(lo, self.y);
        let (v, s5) = s4.get_u16(i);
        (i, v, s5)
    }

    // ------------------------------------------------------------------
    // Shared pieces of instructions
    // ------------------------------------------------------------------
    /// A taken branch moves the counter by the offset, a two's complement
    /// byte; one cycle, plus one when the counter's high byte changes.
    pub open spec fn branch(self, condition: bool, op: u8) -> CpuView {
        if condition {
            let crossed = if op > 0x7F {
                crosses_down(self.pc, (256 - op) as u8)
            } else {
                crosses_up(self.pc, op)
            };
            let pc = if op > 0x7F {
                wrap16(self.pc + op - 256)
            } else {
                wrap16(self.pc + op)
            };
            let s1 = self.with_pc(pc);
            let s2 = if crossed {
                s1.tick()
            } else {
                s1
            };
            s2.tick()
        } else {
            self
        }
    }

    /// Compares a register with a value: zero when they are equal, carry
    /// when the register is not below the value, negative from bit 7 of
    /// their difference.
    pub open spec fn generic_compare(self, test_value: u8, reg_value: u8) -> CpuView {
        let result = wrap8(reg_value - test_value);
        self.set_flag_to(StatusBit::Zero, result == 0).set_flag_to(
            StatusBit::Carry,
            reg_value >= test_value,
        ).set_flag_to(StatusBit::Negative, result >= 0x80)
    }

    /// Negative and zero from the value, then one cycle.
    pub open spec fn register_operation(self, value: u8) -> CpuView {
        self.nz(value).tick()
    }

    /// Carry into bit 7, bit 0 into carry.
    pub open spec fn rotate_right(self, value: u8) -> (u8, CpuView) {
        let result = if self.flag(StatusBit::Carry) {
            value / 2 + 0x80
        } else {
            value / 2 + 0
        };
        (result as u8, self.set_flag_to(StatusBit::Carry, value % 2 == 1))
    }

    /// Zero into bit 7, bit 0 into carry.
    pub open spec fn shift_right(self, value: u8) -> (u8, CpuView) {
        ((value / 2) as u8, self.set_flag_to(StatusBit::Carry, value % 2 == 1))
    }

    /// Carry into bit 0, bit 7 into carry.
    pub open spec fn rotate_left(self, value: u8) -> (u8, CpuView) {
        let result = if self.flag(StatusBit::Carry) {
            wrap8(value * 2) + 1
        } else {
            wrap8(value * 2) as int
        };
        (result as u8, self.set_flag_to(StatusBit::Carry, value >= 0x80))
    }

    /// Zero into bit 0, bit 7 into carry.
    pub open spec fn shift_left(self, value: u8) -> (u8, CpuView) {
        (wrap8(value * 2), self.set_flag_to(StatusBit::Carry, value >= 0x80))
    }

    /// A flag set; one cycle.
    pub open spec fn set_flag(self, f: StatusBit) -> CpuView {
        self.set_flag_to(f, true).tick()
    }

    /// A flag cleared; one cycle.
    pub open spec fn clear_flag(self, f: StatusBit) -> CpuView {
        self.set_flag_to(f, false).tick()
    }

    /// Binary coded decimal addition of two bytes and a carry in `m`.
    pub open spec fn decimal_addition(self, acc: u8, val: u8, m: u8) -> (u8, CpuView) {
        let lo = val % 16 + acc % 16 + m;
        let temp = if lo >= 10 {
            (lo + 6) % 16 + 16
        } else {
            lo
        };
        let sum = (val - val % 16) + (acc - acc % 16) + temp;
        let p1 = with_flag(self.p, StatusBit::Negative, sum % 256 >= 0x80);
        let p2 = with_flag(p1, StatusBit::Overflow, add_overflow(acc, val, wrap8(sum)));
        let adj = if sum >= 0xA0 {
            sum + 0x60
        } else {
            sum
        };
        let r = wrap8(adj);
        let p3 = with_flag(p2, StatusBit::Zero, r == 0);
        let p4 = with_flag(p3, StatusBit::Carry, adj >= 256);
        (r, self.with_p(p4))
    }

    /// Binary coded decimal subtraction of a byte and a borrow `m`.
    /// Negative and zero come from the result, overflow from the binary
    /// difference, and carry is set exactly when nothing was borrowed.
    pub open spec fn decimal_subtraction(self, acc: u8, val: u8, m: u8) -> (u8, CpuView) {
        let r = dsub_result(acc, val, m);
        let p1 = with_flag(self.p, StatusBit::Negative, r >= 0x80);
        let p2 = with_flag(p1, StatusBit::Overflow, sub_overflow(acc, val, wrap8(acc - val - m)));
        let p3 = with_flag(p2, StatusBit::Zero, r == 0);
        let p4 = with_flag(p3, StatusBit::Carry, !dsub_hi(acc, val, m).1);
        (r, self.with_p(p4))
    }

    // ------------------------------------------------------------------
    // Interrupts
    // ------------------------------------------------------------------
    /// Sets the interrupt flag, spends two cycles, pushes the counter's low
    /// byte, its high byte and the status, then reads the handler address
    /// from the two vector bytes.
    pub open spec fn interrupt(self, low_vec: u16, hi_vec: u16) -> (u16, CpuView) {
        let s1 = self.set_flag_to(StatusBit::Interrupt, true).tick().tick();
        let s2 = s1.push_to_stack((s1.pc % 256) as u8);
        let s3 = s2.push_to_stack((s1.pc / 256) as u8);
        let s4 = s3.push_to_stack(s3.p);
        let (lo, s5) = s4.get_u16(low_vec);
        let (hi, s6) = s5.get_u16(hi_vec);
        (word(lo, hi), s6)
    }

    /// Pops the status, then the counter's high and low bytes, and clears
    /// the interrupt and break flags.
    pub open spec fn return_from_interrupt(self) -> CpuView {
        let (status, s1) = self.pop_from_stack();
        let (hi, s2) = s1.with_p(status).pop_from_stack();
        let (lo, s3) = s2.pop_from_stack();
        s3.with_pc(word(lo, hi)).set_flag_to(StatusBit::Interrupt, false).set_flag_to(
            StatusBit::Break,
            false,
        )
    }

    pub open spec fn reset_interrupt(self) -> CpuView {
        let (index, s1) = self.interrupt(0xFFFC, 0xFFFD);
        s1.with_pc(index).reset()
    }

    pub open spec fn nmi_interrupt(self) -> CpuView {
        let (index, s1) = self.interrupt(0xFFFA, 0xFFFB);
        s1.with_pc(wrap16(index - 1))
    }

    pub open spec fn irq_interrupt(self) -> CpuView {
        let (index, s1) = self.interrupt(0xFFFE, 0xFFFF);
        s1.with_pc(wrap16(index - 1))
    }

    /// Services the raised pins in priority order: reset, then the non
    /// maskable interrupt, then the maskable one unless interrupts are off.
    pub open spec fn check_pins(self) -> CpuView {
        let s1 = if self.reset_pin {
            self.reset_interrupt()
        } else {
            self
        };
        let s2 = if s1.nmi_pin {
            s1.nmi_interrupt()
        } else {
            s1
        };
        if s2.irq_pin && !s2.flag(StatusBit::Interrupt) {
            s2.irq_interrupt()
        } else {
            s2
        }
    }
}

} // verus!
