//! The emulated 6502 processor: its state, machine cycles, memory access,
//! addressing modes, and interrupts.
use crate::general_register::GeneralRegister;
use crate::memory::Memory;
use crate::model::{initial_view, loaded, word, zeroed, CpuView, ReadOp};
use crate::program_counter::ProgramCounter;
use crate::status_register::{with_flag, StatusBit, StatusRegister};
use vstd::prelude::*;

verus! {

/// An emulated CPU for the 6502 processor.
///
/// The 6502 is a little endian machine. It has 3 general purpose registers,
/// X and Y and an Accumulator, a program counter to keep track of program
/// execution, a status register with 7 flags, and 16 bit memory. Three
/// interrupt pins are simulated. Every machine cycle an operation spends is
/// counted in `cycles`, so that a driver can pace the processor against a
/// clock.
pub struct CPU {
    pub program_counter: ProgramCounter,
    pub accumulator: GeneralRegister,
    pub x_register: GeneralRegister,
    pub y_register: GeneralRegister,
    pub status_register: StatusRegister,
    pub memory: Memory,
    pub reset_pin: bool,
    pub nmi_pin: bool,
    pub irq_pin: bool,
    pub cycles: u64,
}

impl View for CPU {
    type V = CpuView;

    open spec fn view(&self) -> CpuView {
        CpuView {
            pc: self.program_counter.value,
            pc_start: self.program_counter.start,
            a: self.accumulator.0,
            x: self.x_register.0,
            y: self.y_register.0,
            p: self.status_register.0,
            sp: self.memory.sp.0,
            mem: self.memory.mem@,
            reset_pin: self.reset_pin,
            nmi_pin: self.nmi_pin,
            irq_pin: self.irq_pin,
            cycles: self.cycles,
        }
    }
}

/// Why a program could not be loaded.
#[derive(Copy, Clone, Debug, PartialEq, Eq, Structural)]
pub enum LoadError {
    /// The program does not fit between its starting block and 0xFFFF.
    ProgramTooLarge,
}

impl CPU {
    /// A new CPU with every value at its default: registers and memory
    /// zero, the program counter at `STARTING_MEMORY_BLOCK`, the stack
    /// pointer at 0xFF, no pin raised, no cycle spent.
    pub fn new() -> (r: CPU)
        ensures
            r@ == initial_view(),
    {
        CPU {
            program_counter: ProgramCounter::new(),
            accumulator: GeneralRegister::new(),
            x_register: GeneralRegister::new(),
            y_register: GeneralRegister::new(),
            status_register: StatusRegister::new(),
            memory: Memory::new(),
            reset_pin: false,
            irq_pin: false,
            nmi_pin: false,
            cycles: 0,
        }
    }

    /// Resets registers, flags, memory and pins; the program counter goes
    /// back to its start block. The cycle count is kept.
    pub fn reset(&mut self)
        ensures
            final(self)@ == old(self)@.reset(),
    {
        self.program_counter.reset();
        self.accumulator.reset();
        self.x_register.reset();
        self.y_register.reset();
        self.status_register.reset();
        self.memory.reset();
        self.reset_pin = false;
        self.irq_pin = false;
        self.nmi_pin = false;
    }

    /// Loads a program into memory starting at `block`. Refused when the
    /// program's length plus the block exceeds 0xFFFF; memory is then left
    /// as it was.
    pub fn load_program_into_memory(&mut self, program: &Vec<u8>, block: u16) -> (r: Result<(), LoadError>)
        ensures
            r is Err <==> program.len() + block > 0xFFFF,
            r is Ok ==> final(self)@ == old(self)@.with_mem(loaded(old(self)@.mem, program@, block)),
            r is Err ==> final(self)@ == old(self)@,
    {
        if program.len() > 0xFFFF - block as usize {
            return Err(LoadError::ProgramTooLarge);
        }
        let mut memory_address: u16 = block;
        let mut i: usize = 0;
        while i < program.len()
            invariant
                i <= program.len(),
                program.len() + block <= 0xFFFF,
                memory_address == block + i,
                self@ == old(self)@.with_mem(
                    Seq::new(
                        0x10000,
                        |j: int|
                            if block <= j < block + i {
                                program@[j - block]
                            } else {
                                old(self)@.mem[j]
                            },
                    ),
                ),
            decreases program.len() - i,
        {
            self.memory.set(memory_address, program[i]);
            memory_address = memory_address + 1;
            i = i + 1;
            assert(self.memory.mem@ =~= Seq::new(
                0x10000,
                |j: int|
                    if block <= j < block + i {
                        program@[j - block]
                    } else {
                        old(self)@.mem[j]
                    },
            ));
        }
        assert(self.memory.mem@ =~= loaded(old(self)@.mem, program@, block));
        Ok(())
    }

    /// Records that one machine cycle has passed.
    pub fn sync(&mut self)
        ensures
            final(self)@ == old(self)@.tick(),
    {
        if self.cycles < u64::MAX {
            self.cycles = self.cycles + 1;
        }
    }

    /// Hands over the machine cycles counted so far and starts counting
    /// from zero.
    pub fn take_cycles(&mut self) -> (r: u64)
        ensures
            r == old(self).cycles,
            final(self)@ == old(self)@.with_cycles(0),
    {
        let c = self.cycles;
        self.cycles = 0;
        c
    }

    /// Raises the reset pin.
    pub fn set_reset(&mut self)
        ensures
            final(self)@ == old(self)@.with_reset_pin(true),
    {
        self.reset_pin = true;
    }

    /// Raises the non-maskable interrupt pin, which is serviced whatever the
    /// interrupt flag says.
    pub fn set_nmi(&mut self)
        ensures
            final(self)@ == old(self)@.with_nmi_pin(true),
    {
        self.nmi_pin = true;
    }

    /// Raises the maskable interrupt pin, which is serviced only while the
    /// interrupt flag is clear.
    pub fn set_irq(&mut self)
        ensures
            final(self)@ == old(self)@.with_irq_pin(true),
    {
        self.irq_pin = true;
    }

    /// Services the raised interrupt pins in priority order: reset, the non
    /// maskable interrupt, the maskable one.
    pub fn check_pins(&mut self)
        ensures
            final(self)@ == old(self)@.check_pins(),
    {
        if self.reset_pin {
            self.reset_interrupt();
        }
        if self.nmi_pin {
            self.nmi_interrupt();
        }
        if self.irq_pin && !self.status_register.is_flag_set(StatusBit::Interrupt) {
            self.irq_interrupt();
        }
    }

    /// Pushes a value to the stack; one cycle.
    pub fn push_to_stack(&mut self, value: u8)
        ensures
            final(self)@ == old(self)@.push_to_stack(value),
    {
        self.memory.push_to_stack(value);
        self.sync();
    }

    /// Pops (pulls) a value from the stack; two cycles.
    pub fn pop_from_stack(&mut self) -> (r: u8)
        ensures
            r == old(self)@.pop_from_stack().0,
            final(self)@ == old(self)@.pop_from_stack().1,
    {
        self.sync();
        let val = self.memory.pop_from_stack();
        self.sync();
        val
    }

    /// Reads a byte at a 16 bit address; one cycle.
    pub fn get_u16(&mut self, index: u16) -> (r: u8)
        ensures
            r == old(self)@.get_u16(index).0,
            final(self)@ == old(self)@.get_u16(index).1,
    {
        let val = self.memory.get_u16(index);
        self.sync();
        val
    }

    /// Writes a byte at a 16 bit address; one cycle.
    pub fn set_u16(&mut self, index: u16, value: u8)
        ensures
            final(self)@ == old(self)@.set_u16(index, value),
    {
        self.memory.set(index, value);
        self.sync();
    }

    /// Reads a byte in the zero page; one cycle.
    pub fn get_zero_page(&mut self, index: u8) -> (r: u8)
        ensures
            r == old(self)@.get_zero_page(index).0,
            final(self)@ == old(self)@.get_zero_page(index).1,
    {
        let val = self.memory.get_zero_page(index);
        self.sync();
        val
    }

    /// Writes a byte in the zero page; one cycle.
    pub fn set_zero_page(&mut self, index: u8, value: u8)
        ensures
            final(self)@ == old(self)@.set_zero_page(index, value),
    {
        self.memory.set_zero_page(index, value);
        self.sync();
    }

    /// Gets the next byte of the program: moves the counter up one and reads
    /// the byte there; one cycle.
    pub fn get_single_operand(&mut self) -> (r: u8)
        ensures
            r == old(self)@.get_single_operand().0,
            final(self)@ == old(self)@.get_single_operand().1,
    {
        let index = self.program_counter.get_and_increase();
        let op = self.memory.get_u16(index);
        self.sync();
        op
    }

    /// Gets the next two bytes of the program, low byte first; two cycles.
    pub fn get_two_operands(&mut self) -> (r: [u8; 2])
        ensures
            r@ == seq![old(self)@.get_two_operands().0, old(self)@.get_two_operands().1],
            final(self)@ == old(self)@.get_two_operands().2,
    {
        let lo = self.get_single_operand();
        let hi = self.get_single_operand();
        let r = [lo, hi];
        assert(r@ =~= seq![lo, hi]);
        r
    }

    /// Spends a cycle when adding the two bytes carries out of eight bits.
    pub fn test_for_overflow(&mut self, op1: u8, op2: u8)
        ensures
            final(self)@ == old(self)@.test_for_overflow(op1, op2),
    {
        if op1 > 255 - op2 {
            self.sync();
        }
    }

    // ------------------------------------------------------------------
    // Addressing modes. The name is that of the calling instruction.
    // ------------------------------------------------------------------
    /// Immediate addressing: the operand is the next program byte.
    pub fn immediate(&mut self, name: &str) -> (r: u8)
        ensures
            r == old(self)@.immediate().0,
            final(self)@ == old(self)@.immediate().1,
    {
        self.get_single_operand()
    }

    /// Zero page addressing: returns the index and the byte there.
    pub fn zero_page(&mut self, name: &str) -> (r: (u8, u8))
        ensures
            r.0 == old(self)@.zero_page().0,
            r.1 == old(self)@.zero_page().1,
            final(self)@ == old(self)@.zero_page().2,
    {
        let index = self.get_single_operand();
        let value = self.get_zero_page(index);
        (index, value)
    }

    /// Zero page addressing, index only.
    pub fn zero_page_index(&mut self, name: &str) -> (r: u8)
        ensures
            r == old(self)@.zero_page_index().0,
            final(self)@ == old(self)@.zero_page_index().1,
    {
        self.get_single_operand()
    }

    /// Zero page X or Y addressing: the operand plus the register, wrapping
    /// within the zero page. The operand's own byte is read first and
    /// discarded, as the processor does.
    pub fn zp_reg(&mut self, name: &str, reg_val: u8) -> (r: (u8, u8))
        ensures
            r.0 == old(self)@.zp_reg(reg_val).0,
            r.1 == old(self)@.zp_reg(reg_val).1,
            final(self)@ == old(self)@.zp_reg(reg_val).2,
    {
        let op = self.get_single_operand();
        self.get_zero_page(op);
        let index = op.wrapping_add(reg_val);
        let value = self.get_zero_page(index);
        (index, value)
    }

    /// Zero page X or Y addressing, index only.
    pub fn zp_reg_index(&mut self, name: &str, reg_val: u8) -> (r: u8)
        ensures
            r == old(self)@.zp_reg_index(reg_val).0,
            final(self)@ == old(self)@.zp_reg_index(reg_val).1,
    {
        let op = self.get_single_operand();
        self.get_zero_page(op);
        op.wrapping_add(reg_val)
    }

    /// Absolute addressing: returns the address and the byte there.
    pub fn absolute(&mut self, name: &str) -> (r: (u16, u8))
        ensures
            r.0 == old(self)@.absolute().0,
            r.1 == old(self)@.absolute().1,
            final(self)@ == old(self)@.absolute().2,
    {
        let ops = self.get_two_operands();
        let index = ops[1] as u16 * 256 + ops[0] as u16;
        let value = self.get_u16(index);
        (index, value)
    }

    /// Absolute addressing, address only.
    pub fn absolute_index(&mut self, name: &str) -> (r: u16)
        ensures
            r == old(self)@.absolute_index().0,
            final(self)@ == old(self)@.absolute_index().1,
    {
        let ops = self.get_two_operands();
        ops[1] as u16 * 256 + ops[0] as u16
    }

    /// Absolute X or Y addressing: the address plus the register, wrapping;
    /// one more cycle when the low byte plus the register crosses a page.
    pub fn absolute_reg(&mut self, name: &str, reg: u8) -> (r: (u16, u8))
        ensures
            r.0 == old(self)@.absolute_reg(reg).0,
            r.1 == old(self)@.absolute_reg(reg).1,
            final(self)@ == old(self)@.absolute_reg(reg).2,
    {
        let ops = self.get_two_operands();
        let index = ops[1] as u16 * 256 + ops[0] as u16;
        let index = index.wrapping_add(reg as u16);
        self.test_for_overflow(ops[0], reg);
        let value = self.get_u16(index);
        (index, value)
    }

    /// Indexed indirect (pre-indexed) addressing: the address is read from
    /// the zero page at the operand plus X.
    pub fn indexed_x(&mut self, name: &str) -> (r: (u16, u8))
        ensures
            r.0 == old(self)@.indexed_x().0,
            r.1 == old(self)@.indexed_x().1,
            final(self)@ == old(self)@.indexed_x().2,
    {
        let op = self.get_single_operand();
        let modified_op = op.wrapping_add(self.x_register.get());
        let lo = self.get_zero_page(modified_op);
        let hi = self.get_zero_page(modified_op.wrapping_add(1));
        let index = hi as u16 * 256 + lo as u16;
        self.sync();
        let value = self.get_u16(index);
        (index, value)
    }

    /// Indirect indexed (post-indexed) addressing: the address is read from
    /// the zero page at the operand, then Y is added.
    pub fn indexed_y(&mut self, name: &str) -> (r: (u16, u8))
        ensures
            r.0 == old(self)@.indexed_y().0,
            r.1 == old(self)@.indexed_y().1,
            final(self)@ == old(self)@.indexed_y().2,
    {
        let op = self.get_single_operand();
        let y_val = self.y_register.get();
        let lo = self.get_zero_page(op);
        let hi = self.get_zero_page(op.wrapping_add(1));
        let index = hi as u16 * 256 + lo as u16;
        let index = index.wrapping_add(y_val as u16);
        self.test_for_overflow(lo, y_val);
        let value = self.get_u16(index);
        (index, value)
    }

    // ------------------------------------------------------------------
    // Interrupts
    // ------------------------------------------------------------------
    /// Services an interrupt: sets the interrupt flag, spends two cycles,
    /// pushes the counter (low byte first) and the status, and returns the
    /// handler address read from the two vector bytes.
    pub fn interrupt(&mut self, low_vec: u16, hi_vec: u16) -> (r: u16)
        ensures
            r == old(self)@.interrupt(low_vec, hi_vec).0,
            final(self)@ == old(self)@.interrupt(low_vec, hi_vec).1,
    {
        self.status_register.set_flag(StatusBit::Interrupt);
        self.internal_operations();
        let pc = self.program_counter.get();
        self.push_to_stack((pc % 256) as u8);
        self.push_to_stack((pc / 256) as u8);
        self.push_to_stack(self.status_register.get_register());
        let lo = self.get_u16(low_vec);
        let hi = self.get_u16(hi_vec);
        hi as u16 * 256 + lo as u16
    }

    /// Returns from an interrupt: restores the status and the counter from
    /// the stack, then clears the interrupt and break flags.
    pub fn return_from_interrupt(&mut self)
        ensures
            final(self)@ == old(self)@.return_from_interrupt(),
    {
        let status_reg = self.pop_from_stack();
        self.status_register.set(status_reg);
        let hi_pc = self.pop_from_stack();
        let lo_pc = self.pop_from_stack();
        self.program_counter.jump(hi_pc as u16 * 256 + lo_pc as u16);
        self.status_register.clear_flag(StatusBit::Interrupt);
        self.status_register.clear_flag(StatusBit::Break);
    }

    /// Two cycles of internal work, spent by interrupts.
    pub fn internal_operations(&mut self)
        ensures
            final(self)@ == old(self)@.tick().tick(),
    {
        self.sync();
        self.sync();
    }

    /// The reset interrupt: services the interrupt through 0xFFFC/0xFFFD,
    /// then resets the processor.
    pub fn reset_interrupt(&mut self)
        ensures
            final(self)@ == old(self)@.reset_interrupt(),
    {
        let index = self.interrupt(0xFFFC, 0xFFFD);
        self.program_counter.jump(index);
        self.reset();
    }

    /// The non-maskable interrupt: execution continues at the address in
    /// 0xFFFA/0xFFFB.
    pub fn nmi_interrupt(&mut self)
        ensures
            final(self)@ == old(self)@.nmi_interrupt(),
    {
        let index = self.interrupt(0xFFFA, 0xFFFB);
        self.program_counter.jump(index.wrapping_sub(1));
    }

    /// The maskable interrupt: execution continues at the address in
    /// 0xFFFE/0xFFFF.
    pub fn irq_interrupt(&mut self)
        ensures
            final(self)@ == old(self)@.irq_interrupt(),
    {
        let index = self.interrupt(0xFFFE, 0xFFFF);
        self.program_counter.jump(index.wrapping_sub(1));
    }
}

} // verus!
