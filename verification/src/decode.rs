//! Instruction decoding: the opcode table and the fetch-execute step.
use crate::cpu::{LoadError, CPU};
use crate::model::{loaded, CpuView, ReadOp, StepResult};
use crate::program_counter::wrap16;
use crate::STARTING_MEMORY_BLOCK;
use crate::status_register::StatusBit;
use vstd::prelude::*;

verus! {

impl CpuView {
    /// The opcode table: what executing each opcode does. Official opcodes
    /// follow http://6502.org/tutorials/6502opcodes.html, illegal ones
    /// http://nesdev.com/undocumented_opcodes.txt.
    pub open spec fn execute(self, opcode: u8) -> (StepResult, CpuView) {
        if opcode < 0x40 {
            self.execute_00_3f(opcode)
        } else if opcode < 0x80 {
            self.execute_40_7f(opcode)
        } else if opcode < 0xC0 {
            self.execute_80_bf(opcode)
        } else {
            self.execute_c0_ff(opcode)
        }
    }

    /// The opcode table for opcodes 0x00 to 0x3F.
    pub open spec fn execute_00_3f(self, opcode: u8) -> (StepResult, CpuView)
        recommends
            0x00 <= opcode <= 0x3F,
    {
        match opcode {
            0x00 => (StepResult::Running, self.brk()),
            0x01 => (StepResult::Running, self.indexed_x_cb(ReadOp::Ora)),
            0x02 => (StepResult::Locked, self),
            0x03 => (StepResult::Running, self.indexed_x_cb(ReadOp::Slo)),
            0x04 => (StepResult::Running, self.zero_page_cb(ReadOp::Dop)),
            0x05 => (StepResult::Running, self.zero_page_cb(ReadOp::Ora)),
            0x06 => (StepResult::Running, self.asl_zero_page()),
            0x07 => (StepResult::Running, self.zero_page_cb(ReadOp::Slo)),
            0x08 => (StepResult::Running, self.php()),
            0x09 => (StepResult::Running, self.immediate_cb(ReadOp::Ora)),
            0x0A => (StepResult::Running, self.asl_accumulator()),
            0x0B => (StepResult::Running, self.immediate_cb(ReadOp::Aac)),
            0x0C => (StepResult::Running, self.absolute_cb(ReadOp::Top)),
            0x0D => (StepResult::Running, self.absolute_cb(ReadOp::Ora)),
            0x0E => (StepResult::Running, self.asl_absolute()),
            0x0F => (StepResult::Running, self.absolute_cb(ReadOp::Slo)),
            0x10 => (StepResult::Running, self.bpl()),
            0x11 => (StepResult::Running, self.indexed_y_cb(ReadOp::Ora)),
            0x12 => (StepResult::Locked, self),
            0x13 => (StepResult::Running, self.indexed_y_cb(ReadOp::Slo)),
            0x14 => (StepResult::Running, self.zp_reg_cb(self.x, ReadOp::Dop)),
            0x15 => (StepResult::Running, self.zp_reg_cb(self.x, ReadOp::Ora)),
            0x16 => (StepResult::Running, self.asl_zero_page_x()),
            0x17 => (StepResult::Running, self.zp_reg_cb(self.x, ReadOp::Slo)),
            0x18 => (StepResult::Running, self.clc()),
            0x19 => (StepResult::Running, self.absolute_y_cb(ReadOp::Ora)),
            0x1A => (StepResult::Running, self.nop()),
            0x1B => (StepResult::Running, self.absolute_y_cb(ReadOp::Slo)),
            0x1C => (StepResult::Running, self.absolute_x_cb(ReadOp::Top)),
            0x1D => (StepResult::Running, self.absolute_x_cb(ReadOp::Ora)),
            0x1E => (StepResult::Running, self.asl_absolute_x()),
            0x1F => (StepResult::Running, self.absolute_x_cb(ReadOp::Slo)),
            0x20 => (StepResult::Running, self.jsr()),
            0x21 => (StepResult::Running, self.indexed_x_cb(ReadOp::And)),
            0x22 => (StepResult::Locked, self),
            0x23 => (StepResult::Running, self.indexed_x_cb(ReadOp::Rla)),
            0x24 => (StepResult::Running, self.zero_page_cb(ReadOp::Bit)),
            0x25 => (StepResult::Running, self.zero_page_cb(ReadOp::And)),
            0x26 => (StepResult::Running, self.rol_zero_page()),
            0x27 => (StepResult::Running, self.zero_page_cb(ReadOp::Rla)),
            0x28 => (StepResult::Running, self.plp()),
            0x29 => (StepResult::Running, self.immediate_cb(ReadOp::And)),
            0x2A => (StepResult::Running, self.rol_accumulator()),
            0x2B => (StepResult::Running, self.immediate_cb(ReadOp::Aac)),
            0x2C => (StepResult::Running, self.absolute_cb(ReadOp::Bit)),
            0x2D => (StepResult::Running, self.absolute_cb(ReadOp::And)),
            0x2E => (StepResult::Running, self.rol_absolute()),
            0x2F => (StepResult::Running, self.absolute_cb(ReadOp::Rla)),
            0x30 => (StepResult::Running, self.bmi()),
            0x31 => (StepResult::Running, self.indexed_y_cb(ReadOp::And)),
            0x32 => (StepResult::Locked, self),
            0x33 => (StepResult::Running, self.indexed_y_cb(ReadOp::Rla)),
            0x34 => (StepResult::Running, self.zp_reg_cb(self.x, ReadOp::Dop)),
            0x35 => (StepResult::Running, self.zp_reg_cb(self.x, ReadOp::And)),
            0x36 => (StepResult::Running, self.rol_zero_page_x()),
            0x37 => (StepResult::Running, self.zp_reg_cb(self.x, ReadOp::Rla)),
            0x38 => (StepResult::Running, self.sec()),
            0x39 => (StepResult::Running, self.absolute_y_cb(ReadOp::And)),
            0x3A => (StepResult::Running, self.nop()),
            0x3B => (StepResult::Running, self.absolute_y_cb(ReadOp::Rla)),
            0x3C => (StepResult::Running, self.absolute_x_cb(ReadOp::Top)),
            0x3D => (StepResult::Running, self.absolute_x_cb(ReadOp::And)),
            0x3E => (StepResult::Running, self.rol_absolute_x()),
            0x3F => (StepResult::Running, self.absolute_x_cb(ReadOp::Rla)),
            _ => (StepResult::Running, self),
        }
    }

    /// The opcode table for opcodes 0x40 to 0x7F.
    pub open spec fn execute_40_7f(self, opcode: u8) -> (StepResult, CpuView)
        recommends
            0x40 <= opcode <= 0x7F,
    {
        match opcode {
            0x40 => (StepResult::Running, self.rti()),
            0x41 => (StepResult::Running, self.indexed_x_cb(ReadOp::Eor)),
            0x42 => (StepResult::Locked, self),
            0x43 => (StepResult::Running, self.indexed_x_cb(ReadOp::Sre)),
            0x44 => (StepResult::Running, self.zero_page_cb(ReadOp::Dop)),
            0x45 => (StepResult::Running, self.zero_page_cb(ReadOp::Eor)),
            0x46 => (StepResult::Running, self.lsr_zero_page()),
            0x47 => (StepResult::Running, self.zero_page_cb(ReadOp::Sre)),
            0x48 => (StepResult::Running, self.pha()),
            0x49 => (StepResult::Running, self.immediate_cb(ReadOp::Eor)),
            0x4A => (StepResult::Running, self.lsr_accumulator()),
            0x4B => (StepResult::Running, self.immediate_cb(ReadOp::Asr)),
            0x4C => (StepResult::Running, self.jmp_absolute()),
            0x4D => (StepResult::Running, self.absolute_cb(ReadOp::Eor)),
            0x4E => (StepResult::Running, self.lsr_absolute()),
            0x4F => (StepResult::Running, self.absolute_cb(ReadOp::Sre)),
            0x50 => (StepResult::Running, self.bvc()),
            0x51 => (StepResult::Running, self.indexed_y_cb(ReadOp::Eor)),
            0x52 => (StepResult::Locked, self),
            0x53 => (StepResult::Running, self.indexed_y_cb(ReadOp::Sre)),
            0x54 => (StepResult::Running, self.zp_reg_cb(self.x, ReadOp::Dop)),
            0x55 => (StepResult::Running, self.zp_reg_cb(self.x, ReadOp::Eor)),
            0x56 => (StepResult::Running, self.lsr_zero_page_x()),
            0x57 => (StepResult::Running, self.zp_reg_cb(self.x, ReadOp::Sre)),
            0x58 => (StepResult::Running, self.cli()),
            0x59 => (StepResult::Running, self.absolute_y_cb(ReadOp::Eor)),
            0x5A => (StepResult::Running, self.nop()),
            0x5B => (StepResult::Running, self.absolute_y_cb(ReadOp::Sre)),
            0x5C => (StepResult::Running, self.absolute_x_cb(ReadOp::Top)),
            0x5D => (StepResult::Running, self.absolute_x_cb(ReadOp::Eor)),
            0x5E => (StepResult::Running, self.lsr_absolute_x()),
            0x5F => (StepResult::Running, self.absolute_x_cb(ReadOp::Sre)),
            0x60 => (StepResult::Running, self.rts()),
            0x61 => (StepResult::Running, self.indexed_x_cb(ReadOp::Adc)),
            0x62 => (StepResult::Locked, self),
            0x63 => (StepResult::Running, self.indexed_x_cb(ReadOp::Rra)),
            0x64 => (StepResult::Running, self.zero_page_cb(ReadOp::Dop)),
            0x65 => (StepResult::Running, self.zero_page_cb(ReadOp::Adc)),
            0x66 => (StepResult::Running, self.ror_zero_page()),
            0x67 => (StepResult::Running, self.zero_page_cb(ReadOp::Rra)),
            0x68 => (StepResult::Running, self.pla()),
            0x69 => (StepResult::Running, self.immediate_cb(ReadOp::Adc)),
            0x6A => (StepResult::Running, self.ror_accumulator()),
            0x6B => (StepResult::Running, self.immediate_cb(ReadOp::Arr)),
            0x6C => (StepResult::Running, self.jmp_indirect()),
            0x6D => (StepResult::Running, self.absolute_cb(ReadOp::Adc)),
            0x6E => (StepResult::Running, self.ror_absolute()),
            0x6F => (StepResult::Running, self.absolute_cb(ReadOp::Rra)),
            0x70 => (StepResult::Running, self.bvs()),
            0x71 => (StepResult::Running, self.indexed_y_cb(ReadOp::Adc)),
            0x72 => (StepResult::Locked, self),
            0x73 => (StepResult::Running, self.indexed_y_cb(ReadOp::Rra)),
            0x74 => (StepResult::Running, self.zp_reg_cb(self.x, ReadOp::Dop)),
            0x75 => (StepResult::Running, self.zp_reg_cb(self.x, ReadOp::Adc)),
            0x76 => (StepResult::Running, self.ror_zero_page_x()),
            0x77 => (StepResult::Running, self.zp_reg_cb(self.x, ReadOp::Rra)),
            0x78 => (StepResult::Running, self.sei()),
            0x79 => (StepResult::Running, self.absolute_y_cb(ReadOp::Adc)),
            0x7A => (StepResult::Running, self.nop()),
            0x7B => (StepResult::Running, self.absolute_y_cb(ReadOp::Rra)),
            0x7C => (StepResult::Running, self.absolute_x_cb(ReadOp::Top)),
            0x7D => (StepResult::Running, self.absolute_x_cb(ReadOp::Adc)),
            0x7E => (StepResult::Running, self.ror_absolute_x()),
            0x7F => (StepResult::Running, self.absolute_x_cb(ReadOp::Rra)),
            _ => (StepResult::Running, self),
        }
    }

    /// The opcode table for opcodes 0x80 to 0xBF.
    pub open spec fn execute_80_bf(self, opcode: u8) -> (StepResult, CpuView)
        recommends
            0x80 <= opcode <= 0xBF,
    {
        match opcode {
            0x80 => (StepResult::Running, self.immediate_cb(ReadOp::Dop)),
            0x81 => (StepResult::Running, self.sta_indexed_x()),
            0x82 => (StepResult::Running, self.immediate_cb(ReadOp::Dop)),
            0x83 => (StepResult::Running, self.aax_indirect_x()),
            0x84 => (StepResult::Running, self.sty_zero_page()),
            0x85 => (StepResult::Running, self.sta_zero_page()),
            0x86 => (StepResult::Running, self.stx_zero_page()),
            0x87 => (StepResult::Running, self.aax_zero_page()),
            0x88 => (StepResult::Running, self.dey()),
            0x89 => (StepResult::Running, self.immediate_cb(ReadOp::Dop)),
            0x8A => (StepResult::Running, self.txa()),
            0x8B => (StepResult::Undefined, self),
            0x8C => (StepResult::Running, self.sty_absolute()),
            0x8D => (StepResult::Running, self.sta_absolute()),
            0x8E => (StepResult::Running, self.stx_absolute()),
            0x8F => (StepResult::Running, self.aax_absolute()),
            0x90 => (StepResult::Running, self.bcc()),
            0x91 => (StepResult::Running, self.sta_indexed_y()),
            0x92 => (StepResult::Locked, self),
            0x93 => (StepResult::Running, self.axa_indirect()),
            0x94 => (StepResult::Running, self.sty_zero_page_x()),
            0x95 => (StepResult::Running, self.sta_zero_page_x()),
            0x96 => (StepResult::Running, self.stx_zero_page_y()),
            0x97 => (StepResult::Running, self.aax_zero_page_y()),
            0x98 => (StepResult::Running, self.tya()),
            0x99 => (StepResult::Running, self.sta_absolute_y()),
            0x9A => (StepResult::Running, self.txs()),
            0x9B => (StepResult::Running, self.xas()),
            0x9C => (StepResult::Running, self.sya()),
            0x9D => (StepResult::Running, self.sta_absolute_x()),
            0x9E => (StepResult::Running, self.sxa()),
            0x9F => (StepResult::Running, self.axa_absolute_y()),
            0xA0 => (StepResult::Running, self.immediate_cb(ReadOp::Ldy)),
            0xA1 => (StepResult::Running, self.indexed_x_cb(ReadOp::Lda)),
            0xA2 => (StepResult::Running, self.immediate_cb(ReadOp::Ldx)),
            0xA3 => (StepResult::Running, self.indexed_x_cb(ReadOp::Lax)),
            0xA4 => (StepResult::Running, self.zero_page_cb(ReadOp::Ldy)),
            0xA5 => (StepResult::Running, self.zero_page_cb(ReadOp::Lda)),
            0xA7 => (StepResult::Running, self.zero_page_cb(ReadOp::Lax)),
            0xA6 => (StepResult::Running, self.zero_page_cb(ReadOp::Ldx)),
            0xA8 => (StepResult::Running, self.tay()),
            0xA9 => (StepResult::Running, self.immediate_cb(ReadOp::Lda)),
            0xAA => (StepResult::Running, self.tax()),
            0xAB => (StepResult::Running, self.immediate_cb(ReadOp::Atx)),
            0xAC => (StepResult::Running, self.absolute_cb(ReadOp::Ldy)),
            0xAD => (StepResult::Running, self.absolute_cb(ReadOp::Lda)),
            0xAE => (StepResult::Running, self.absolute_cb(ReadOp::Ldx)),
            0xAF => (StepResult::Running, self.absolute_cb(ReadOp::Lax)),
            0xB0 => (StepResult::Running, self.bcs()),
            0xB1 => (StepResult::Running, self.indexed_y_cb(ReadOp::Lda)),
            0xB2 => (StepResult::Locked, self),
            0xB3 => (StepResult::Running, self.indexed_y_cb(ReadOp::Lax)),
            0xB8 => (StepResult::Running, self.clv()),
            0xB4 => (StepResult::Running, self.zp_reg_cb(self.x, ReadOp::Ldy)),
            0xB5 => (StepResult::Running, self.zp_reg_cb(self.x, ReadOp::Lda)),
            0xB6 => (StepResult::Running, self.zp_reg_cb(self.y, ReadOp::Ldx)),
            0xB7 => (StepResult::Running, self.zp_reg_cb(self.y, ReadOp::Lax)),
            0xB9 => (StepResult::Running, self.absolute_y_cb(ReadOp::Lda)),
            0xBA => (StepResult::Running, self.tsx()),
            0xBB => (StepResult::Running, self.absolute_y_cb(ReadOp::Lar)),
            0xBC => (StepResult::Running, self.absolute_x_cb(ReadOp::Ldy)),
            0xBD => (StepResult::Running, self.absolute_x_cb(ReadOp::Lda)),
            0xBE => (StepResult::Running, self.absolute_y_cb(ReadOp::Ldx)),
            0xBF => (StepResult::Running, self.absolute_y_cb(ReadOp::Lax)),
            _ => (StepResult::Running, self),
        }
    }

    /// The opcode table for opcodes 0xC0 to 0xFF.
    pub open spec fn execute_c0_ff(self, opcode: u8) -> (StepResult, CpuView)
        recommends
            0xC0 <= opcode <= 0xFF,
    {
        match opcode {
            0xC0 => (StepResult::Running, self.immediate_cb(ReadOp::Cpy)),
            0xC1 => (StepResult::Running, self.indexed_x_cb(ReadOp::Cmp)),
            0xC2 => (StepResult::Running, self.immediate_cb(ReadOp::Dop)),
            0xC3 => (StepResult::Running, self.dcp_indexed_x()),
            0xC4 => (StepResult::Running, self.zero_page_cb(ReadOp::Cpy)),
            0xC5 => (StepResult::Running, self.zero_page_cb(ReadOp::Cmp)),
            0xC6 => (StepResult::Running, self.dec_zp()),
            0xC7 => (StepResult::Running, self.dcp_zp()),
            0xC8 => (StepResult::Running, self.iny()),
            0xC9 => (StepResult::Running, self.immediate_cb(ReadOp::Cmp)),
            0xCA => (StepResult::Running, self.dex()),
            0xCB => (StepResult::Running, self.immediate_cb(ReadOp::Axs)),
            0xCC => (StepResult::Running, self.absolute_cb(ReadOp::Cpy)),
            0xCD => (StepResult::Running, self.absolute_cb(ReadOp::Cmp)),
            0xCE => (StepResult::Running, self.dec_abs()),
            0xCF => (StepResult::Running, self.dcp_absolute()),
            0xD0 => (StepResult::Running, self.bne()),
            0xD1 => (StepResult::Running, self.indexed_y_cb(ReadOp::Cmp)),
            0xD2 => (StepResult::Locked, self),
            0xD3 => (StepResult::Running, self.dcp_indexed_y()),
            0xD4 => (StepResult::Running, self.zp_reg_cb(self.x, ReadOp::Dop)),
            0xD5 => (StepResult::Running, self.zp_reg_cb(self.x, ReadOp::Cmp)),
            0xD6 => (StepResult::Running, self.dec_zp_reg()),
            0xD7 => (StepResult::Running, self.dcp_zp_reg()),
            0xD8 => (StepResult::Running, self.cld()),
            0xD9 => (StepResult::Running, self.absolute_y_cb(ReadOp::Cmp)),
            0xDB => (StepResult::Running, self.dcp_abs_y()),
            0xDA => (StepResult::Running, self.nop()),
            0xDC => (StepResult::Running, self.absolute_x_cb(ReadOp::Top)),
            0xDD => (StepResult::Running, self.absolute_x_cb(ReadOp::Cmp)),
            0xDE => (StepResult::Running, self.dec_abs_x()),
            0xDF => (StepResult::Running, self.dcp_abs_x()),
            0xE0 => (StepResult::Running, self.immediate_cb(ReadOp::Cpx)),
            0xE1 => (StepResult::Running, self.indexed_x_cb(ReadOp::Sbc)),
            0xE2 => (StepResult::Running, self.immediate_cb(ReadOp::Dop)),
            0xE3 => (StepResult::Running, self.indexed_x_cb(ReadOp::Isc)),
            0xE4 => (StepResult::Running, self.zero_page_cb(ReadOp::Cpx)),
            0xE5 => (StepResult::Running, self.zero_page_cb(ReadOp::Sbc)),
            0xE6 => (StepResult::Running, self.inc_zp()),
            0xE7 => (StepResult::Running, self.zero_page_cb(ReadOp::Isc)),
            0xE8 => (StepResult::Running, self.inx()),
            0xE9 => (StepResult::Running, self.immediate_cb(ReadOp::Sbc)),
            0xEA => (StepResult::Running, self.nop()),
            0xEB => (StepResult::Running, self.immediate_cb(ReadOp::Sbc)),
            0xEC => (StepResult::Running, self.absolute_cb(ReadOp::Cpx)),
            0xED => (StepResult::Running, self.absolute_cb(ReadOp::Sbc)),
            0xEE => (StepResult::Running, self.inc_abs()),
            0xEF => (StepResult::Running, self.absolute_cb(ReadOp::Isc)),
            0xF0 => (StepResult::Running, self.beq()),
            0xF1 => (StepResult::Running, self.indexed_y_cb(ReadOp::Sbc)),
            0xF2 => (StepResult::Locked, self),
            0xF3 => (StepResult::Running, self.indexed_y_cb(ReadOp::Isc)),
            0xF4 => (StepResult::Running, self.zp_reg_cb(self.x, ReadOp::Dop)),
            0xF5 => (StepResult::Running, self.zp_reg_cb(self.x, ReadOp::Sbc)),
            0xF6 => (StepResult::Running, self.inc_zp_reg()),
            0xF7 => (StepResult::Running, self.zp_reg_cb(self.x, ReadOp::Isc)),
            0xF8 => (StepResult::Running, self.sed()),
            0xF9 => (StepResult::Running, self.absolute_y_cb(ReadOp::Sbc)),
            0xFA => (StepResult::Running, self.nop()),
            0xFB => (StepResult::Running, self.absolute_y_cb(ReadOp::Isc)),
            0xFC => (StepResult::Running, self.absolute_x_cb(ReadOp::Top)),
            0xFD => (StepResult::Running, self.absolute_x_cb(ReadOp::Sbc)),
            0xFE => (StepResult::Running, self.inc_abs_x()),
            0xFF => (StepResult::Running, self.absolute_x_cb(ReadOp::Isc)),
            _ => (StepResult::Running, self),
        }
    }

    /// One step: the opcode is fetched as the next program byte, then
    /// executed.
    pub open spec fn step(self) -> (StepResult, CpuView) {
        let (opcode, s1) = self.get_single_operand();
        s1.execute(opcode)
    }

    /// Up to `n` steps, stopping after the first one that does not leave the
    /// processor running: how the last step ended (`Running` when all `n`
    /// ran) and the state then.
    pub open spec fn run_steps(self, n: nat) -> (StepResult, CpuView)
        decreases n,
    {
        if n == 0 {
            (StepResult::Running, self)
        } else {
            let (r, s) = self.step();
            if r == StepResult::Running {
                s.run_steps((n - 1) as nat)
            } else {
                (r, s)
            }
        }
    }
}

/// Where a program is loaded and started: the given block, or
/// `STARTING_MEMORY_BLOCK`.
pub open spec fn start_block(start: Option<u16>) -> u16 {
    match start {
        Some(v) => v,
        None => STARTING_MEMORY_BLOCK,
    }
}

impl CPU {
    /// Executes one opcode, as the opcode table says.
    pub fn execute(&mut self, opcode: u8) -> (r: StepResult)
        ensures
            r == old(self)@.execute(opcode).0,
            final(self)@ == old(self)@.execute(opcode).1,
    {
        if opcode < 0x40 {
            self.execute_00_3f(opcode)
        } else if opcode < 0x80 {
            self.execute_40_7f(opcode)
        } else if opcode < 0xC0 {
            self.execute_80_bf(opcode)
        } else {
            self.execute_c0_ff(opcode)
        }
    }

    /// Executes an opcode from 0x00 to 0x3F.
    #[verifier::spinoff_prover]
    #[verifier::rlimit(60)]
    pub fn execute_00_3f(&mut self, opcode: u8) -> (r: StepResult)
        requires
            0x00 <= opcode <= 0x3F,
        ensures
            r == old(self)@.execute_00_3f(opcode).0,
            final(self)@ == old(self)@.execute_00_3f(opcode).1,
    {
        match opcode {
            0x00 => {
                self.brk();
                StepResult::Running
            },
            0x01 => {
                self.indexed_x_cb("ORA", ReadOp::Ora);
                StepResult::Running
            },
            0x02 => self.kil(),
            0x03 => {
                self.indexed_x_cb("SLO", ReadOp::Slo);
                StepResult::Running
            },
            0x04 => {
                self.zero_page_cb("DOP", ReadOp::Dop);
                StepResult::Running
            },
            0x05 => {
                self.zero_page_cb("ORA", ReadOp::Ora);
                StepResult::Running
            },
            0x06 => {
                self.asl_zero_page();
                StepResult::Running
            },
            0x07 => {
                self.zero_page_cb("SLO", ReadOp::Slo);
                StepResult::Running
            },
            0x08 => {
                self.php();
                StepResult::Running
            },
            0x09 => {
                self.immediate_cb("ORA", ReadOp::Ora);
                StepResult::Running
            },
            0x0A => {
                self.asl_accumulator();
                StepResult::Running
            },
            0x0B => {
                self.immediate_cb("AAC", ReadOp::Aac);
                StepResult::Running
            },
            0x0C => {
                self.absolute_cb("TOP", ReadOp::Top);
                StepResult::Running
            },
            0x0D => {
                self.absolute_cb("ORA", ReadOp::Ora);
                StepResult::Running
            },
            0x0E => {
                self.asl_absolute();
                StepResult::Running
            },
            0x0F => {
                self.absolute_cb("SLO", ReadOp::Slo);
                StepResult::Running
            },
            0x10 => {
                self.bpl();
                StepResult::Running
            },
            0x11 => {
                self.indexed_y_cb("ORA", ReadOp::Ora);
                StepResult::Running
            },
            0x12 => self.kil(),
            0x13 => {
                self.indexed_y_cb("SLO", ReadOp::Slo);
                StepResult::Running
            },
            0x14 => {
                self.zp_reg_cb("DOP", self.x_register.get(), ReadOp::Dop);
                StepResult::Running
            },
            0x15 => {
                self.zp_reg_cb("ORA", self.x_register.get(), ReadOp::Ora);
                StepResult::Running
            },
            0x16 => {
                self.asl_zero_page_x();
                StepResult::Running
            },
            0x17 => {
                self.zp_reg_cb("SLO", self.x_register.get(), ReadOp::Slo);
                StepResult::Running
            },
            0x18 => {
                self.clc();
                StepResult::Running
            },
            0x19 => {
                self.absolute_y_cb("ORA", ReadOp::Ora);
                StepResult::Running
            },
            0x1A => {
                self.nop();
                StepResult::Running
            },
            0x1B => {
                self.absolute_y_cb("SLO", ReadOp::Slo);
                StepResult::Running
            },
            0x1C => {
                self.absolute_x_cb("TOP", ReadOp::Top);
                StepResult::Running
            },
            0x1D => {
                self.absolute_x_cb("ORA", ReadOp::Ora);
                StepResult::Running
            },
            0x1E => {
                self.asl_absolute_x();
                StepResult::Running
            },
            0x1F => {
                self.absolute_x_cb("SLO", ReadOp::Slo);
                StepResult::Running
            },
            0x20 => {
                self.jsr();
                StepResult::Running
            },
            0x21 => {
                self.indexed_x_cb("AND", ReadOp::And);
                StepResult::Running
            },
            0x22 => self.kil(),
            0x23 => {
                self.indexed_x_cb("RLA", ReadOp::Rla);
                StepResult::Running
            },
            0x24 => {
                self.zero_page_cb("BIT", ReadOp::Bit);
                StepResult::Running
            },
            0x25 => {
                self.zero_page_cb("AND", ReadOp::And);
                StepResult::Running
            },
            0x26 => {
                self.rol_zero_page();
                StepResult::Running
            },
            0x27 => {
                self.zero_page_cb("RLA", ReadOp::Rla);
                StepResult::Running
            },
            0x28 => {
                self.plp();
                StepResult::Running
            },
            0x29 => {
                self.immediate_cb("AND", ReadOp::And);
                StepResult::Running
            },
            0x2A => {
                self.rol_accumulator();
                StepResult::Running
            },
            0x2B => {
                self.immediate_cb("AAC", ReadOp::Aac);
                StepResult::Running
            },
            0x2C => {
                self.absolute_cb("BIT", ReadOp::Bit);
                StepResult::Running
            },
            0x2D => {
                self.absolute_cb("AND", ReadOp::And);
                StepResult::Running
            },
            0x2E => {
                self.rol_absolute();
                StepResult::Running
            },
            0x2F => {
                self.absolute_cb("RLA", ReadOp::Rla);
                StepResult::Running
            },
            0x30 => {
                self.bmi();
                StepResult::Running
            },
            0x31 => {
                self.indexed_y_cb("AND", ReadOp::And);
                StepResult::Running
            },
            0x32 => self.kil(),
            0x33 => {
                self.indexed_y_cb("RLA", ReadOp::Rla);
                StepResult::Running
            },
            0x34 => {
                self.zp_reg_cb("DOP", self.x_register.get(), ReadOp::Dop);
                StepResult::Running
            },
            0x35 => {
                self.zp_reg_cb("AND", self.x_register.get(), ReadOp::And);
                StepResult::Running
            },
            0x36 => {
                self.rol_zero_page_x();
                StepResult::Running
            },
            0x37 => {
                self.zp_reg_cb("RLA", self.x_register.get(), ReadOp::Rla);
                StepResult::Running
            },
            0x38 => {
                self.sec();
                StepResult::Running
            },
            0x39 => {
                self.absolute_y_cb("AND", ReadOp::And);
                StepResult::Running
            },
            0x3A => {
                self.nop();
                StepResult::Running
            },
            0x3B => {
                self.absolute_y_cb("RLA", ReadOp::Rla);
                StepResult::Running
            },
            0x3C => {
                self.absolute_x_cb("TOP", ReadOp::Top);
                StepResult::Running
            },
            0x3D => {
                self.absolute_x_cb("AND", ReadOp::And);
                StepResult::Running
            },
            0x3E => {
                self.rol_absolute_x();
                StepResult::Running
            },
            0x3F => {
                self.absolute_x_cb("RLA", ReadOp::Rla);
                StepResult::Running
            },
            _ => StepResult::Running,
        }
    }

    /// Executes an opcode from 0x40 to 0x7F.
    #[verifier::spinoff_prover]
    #[verifier::rlimit(60)]
    pub fn execute_40_7f(&mut self, opcode: u8) -> (r: StepResult)
        requires
            0x40 <= opcode <= 0x7F,
        ensures
            r == old(self)@.execute_40_7f(opcode).0,
            final(self)@ == old(self)@.execute_40_7f(opcode).1,
    {
        match opcode {
            0x40 => {
                self.rti();
                StepResult::Running
            },
            0x41 => {
                self.indexed_x_cb("EOR", ReadOp::Eor);
                StepResult::Running
            },
            0x42 => self.kil(),
            0x43 => {
                self.indexed_x_cb("SRE", ReadOp::Sre);
                StepResult::Running
            },
            0x44 => {
                self.zero_page_cb("DOP", ReadOp::Dop);
                StepResult::Running
            },
            0x45 => {
                self.zero_page_cb("EOR", ReadOp::Eor);
                StepResult::Running
            },
            0x46 => {
                self.lsr_zero_page();
                StepResult::Running
            },
            0x47 => {
                self.zero_page_cb("SRE", ReadOp::Sre);
                StepResult::Running
            },
            0x48 => {
                self.pha();
                StepResult::Running
            },
            0x49 => {
                self.immediate_cb("EOR", ReadOp::Eor);
                StepResult::Running
            },
            0x4A => {
                self.lsr_accumulator();
                StepResult::Running
            },
            0x4B => {
                self.immediate_cb("ASR", ReadOp::Asr);
                StepResult::Running
            },
            0x4C => {
                self.jmp_absolute();
                StepResult::Running
            },
            0x4D => {
                self.absolute_cb("EOR", ReadOp::Eor);
                StepResult::Running
            },
            0x4E => {
                self.lsr_absolute();
                StepResult::Running
            },
            0x4F => {
                self.absolute_cb("SRE", ReadOp::Sre);
                StepResult::Running
            },
            0x50 => {
                self.bvc();
                StepResult::Running
            },
            0x51 => {
                self.indexed_y_cb("EOR", ReadOp::Eor);
                StepResult::Running
            },
            0x52 => self.kil(),
            0x53 => {
                self.indexed_y_cb("SRE", ReadOp::Sre);
                StepResult::Running
            },
            0x54 => {
                self.zp_reg_cb("DOP", self.x_register.get(), ReadOp::Dop);
                StepResult::Running
            },
            0x55 => {
                self.zp_reg_cb("EOR", self.x_register.get(), ReadOp::Eor);
                StepResult::Running
            },
            0x56 => {
                self.lsr_zero_page_x();
                StepResult::Running
            },
            0x57 => {
                self.zp_reg_cb("SRE", self.x_register.get(), ReadOp::Sre);
                StepResult::Running
            },
            0x58 => {
                self.cli();
                StepResult::Running
            },
            0x59 => {
                self.absolute_y_cb("EOR", ReadOp::Eor);
                StepResult::Running
            },
            0x5A => {
                self.nop();
                StepResult::Running
            },
            0x5B => {
                self.absolute_y_cb("SRE", ReadOp::Sre);
                StepResult::Running
            },
            0x5C => {
                self.absolute_x_cb("TOP", ReadOp::Top);
                StepResult::Running
            },
            0x5D => {
                self.absolute_x_cb("EOR", ReadOp::Eor);
                StepResult::Running
            },
            0x5E => {
                self.lsr_absolute_x();
                StepResult::Running
            },
            0x5F => {
                self.absolute_x_cb("SRE", ReadOp::Sre);
                StepResult::Running
            },
            0x60 => {
                self.rts();
                StepResult::Running
            },
            0x61 => {
                self.indexed_x_cb("ADC", ReadOp::Adc);
                StepResult::Running
            },
            0x62 => self.kil(),
            0x63 => {
                self.indexed_x_cb("RRA", ReadOp::Rra);
                StepResult::Running
            },
            0x64 => {
                self.zero_page_cb("DOP", ReadOp::Dop);
                StepResult::Running
            },
            0x65 => {
                self.zero_page_cb("ADC", ReadOp::Adc);
                StepResult::Running
            },
            0x66 => {
                self.ror_zero_page();
                StepResult::Running
            },
            0x67 => {
                self.zero_page_cb("RRA", ReadOp::Rra);
                StepResult::Running
            },
            0x68 => {
                self.pla();
                StepResult::Running
            },
            0x69 => {
                self.immediate_cb("ADC", ReadOp::Adc);
                StepResult::Running
            },
            0x6A => {
                self.ror_accumulator();
                StepResult::Running
            },
            0x6B => {
                self.immediate_cb("ARR", ReadOp::Arr);
                StepResult::Running
            },
            0x6C => {
                self.jmp_indirect();
                StepResult::Running
            },
            0x6D => {
                self.absolute_cb("ADC", ReadOp::Adc);
                StepResult::Running
            },
            0x6E => {
                self.ror_absolute();
                StepResult::Running
            },
            0x6F => {
                self.absolute_cb("RRA", ReadOp::Rra);
                StepResult::Running
            },
            0x70 => {
                self.bvs();
                StepResult::Running
            },
            0x71 => {
                self.indexed_y_cb("ADC", ReadOp::Adc);
                StepResult::Running
            },
            0x72 => self.kil(),
            0x73 => {
                self.indexed_y_cb("RRA", ReadOp::Rra);
                StepResult::Running
            },
            0x74 => {
                self.zp_reg_cb("DOP", self.x_register.get(), ReadOp::Dop);
                StepResult::Running
            },
            0x75 => {
                self.zp_reg_cb("ADC", self.x_register.get(), ReadOp::Adc);
                StepResult::Running
            },
            0x76 => {
                self.ror_zero_page_x();
                StepResult::Running
            },
            0x77 => {
                self.zp_reg_cb("RRA", self.x_register.get(), ReadOp::Rra);
                StepResult::Running
            },
            0x78 => {
                self.sei();
                StepResult::Running
            },
            0x79 => {
                self.absolute_y_cb("ADC", ReadOp::Adc);
                StepResult::Running
            },
            0x7A => {
                self.nop();
                StepResult::Running
            },
            0x7B => {
                self.absolute_y_cb("RRA", ReadOp::Rra);
                StepResult::Running
            },
            0x7C => {
                self.absolute_x_cb("TOP", ReadOp::Top);
                StepResult::Running
            },
            0x7D => {
                self.absolute_x_cb("ADC", ReadOp::Adc);
                StepResult::Running
            },
            0x7E => {
                self.ror_absolute_x();
                StepResult::Running
            },
            0x7F => {
                self.absolute_x_cb("RRA", ReadOp::Rra);
                StepResult::Running
            },
            _ => StepResult::Running,
        }
    }

    /// Executes an opcode from 0x80 to 0xBF.
    #[verifier::spinoff_prover]
    #[verifier::rlimit(60)]
    pub fn execute_80_bf(&mut self, opcode: u8) -> (r: StepResult)
        requires
            0x80 <= opcode <= 0xBF,
        ensures
            r == old(self)@.execute_80_bf(opcode).0,
            final(self)@ == old(self)@.execute_80_bf(opcode).1,
    {
        match opcode {
            0x80 => {
                self.immediate_cb("DOP", ReadOp::Dop);
                StepResult::Running
            },
            0x81 => {
                self.sta_indexed_x();
                StepResult::Running
            },
            0x82 => {
                self.immediate_cb("DOP", ReadOp::Dop);
                StepResult::Running
            },
            0x83 => {
                self.aax_indirect_x();
                StepResult::Running
            },
            0x84 => {
                self.sty_zero_page();
                StepResult::Running
            },
            0x85 => {
                self.sta_zero_page();
                StepResult::Running
            },
            0x86 => {
                self.stx_zero_page();
                StepResult::Running
            },
            0x87 => {
                self.aax_zero_page();
                StepResult::Running
            },
            0x88 => {
                self.dey();
                StepResult::Running
            },
            0x89 => {
                self.immediate_cb("DOP", ReadOp::Dop);
                StepResult::Running
            },
            0x8A => {
                self.txa();
                StepResult::Running
            },
            0x8B => self.xaa(),
            0x8C => {
                self.sty_absolute();
                StepResult::Running
            },
            0x8D => {
                self.sta_absolute();
                StepResult::Running
            },
            0x8E => {
                self.stx_absolute();
                StepResult::Running
            },
            0x8F => {
                self.aax_absolute();
                StepResult::Running
            },
            0x90 => {
                self.bcc();
                StepResult::Running
            },
            0x91 => {
                self.sta_indexed_y();
                StepResult::Running
            },
            0x92 => self.kil(),
            0x93 => {
                self.axa_indirect();
                StepResult::Running
            },
            0x94 => {
                self.sty_zero_page_x();
                StepResult::Running
            },
            0x95 => {
                self.sta_zero_page_x();
                StepResult::Running
            },
            0x96 => {
                self.stx_zero_page_y();
                StepResult::Running
            },
            0x97 => {
                self.aax_zero_page_y();
                StepResult::Running
            },
            0x98 => {
                self.tya();
                StepResult::Running
            },
            0x99 => {
                self.sta_absolute_y();
                StepResult::Running
            },
            0x9A => {
                self.txs();
                StepResult::Running
            },
            0x9B => {
                self.xas();
                StepResult::Running
            },
            0x9C => {
                self.sya();
                StepResult::Running
            },
            0x9D => {
                self.sta_absolute_x();
                StepResult::Running
            },
            0x9E => {
                self.sxa();
                StepResult::Running
            },
            0x9F => {
                self.axa_absolute_y();
                StepResult::Running
            },
            0xA0 => {
                self.immediate_cb("LDY", ReadOp::Ldy);
                StepResult::Running
            },
            0xA1 => {
                self.indexed_x_cb("LDA", ReadOp::Lda);
                StepResult::Running
            },
            0xA2 => {
                self.immediate_cb("LDX", ReadOp::Ldx);
                StepResult::Running
            },
            0xA3 => {
                self.indexed_x_cb("LAX", ReadOp::Lax);
                StepResult::Running
            },
            0xA4 => {
                self.zero_page_cb("LDY", ReadOp::Ldy);
                StepResult::Running
            },
            0xA5 => {
                self.zero_page_cb("LDA", ReadOp::Lda);
                StepResult::Running
            },
            0xA7 => {
                self.zero_page_cb("LAX", ReadOp::Lax);
                StepResult::Running
            },
            0xA6 => {
                self.zero_page_cb("LDX", ReadOp::Ldx);
                StepResult::Running
            },
            0xA8 => {
                self.tay();
                StepResult::Running
            },
            0xA9 => {
                self.immediate_cb("LDA", ReadOp::Lda);
                StepResult::Running
            },
            0xAA => {
                self.tax();
                StepResult::Running
            },
            0xAB => {
                self.immediate_cb("ATX", ReadOp::Atx);
                StepResult::Running
            },
            0xAC => {
                self.absolute_cb("LDY", ReadOp::Ldy);
                StepResult::Running
            },
            0xAD => {
                self.absolute_cb("LDA", ReadOp::Lda);
                StepResult::Running
            },
            0xAE => {
                self.absolute_cb("LDX", ReadOp::Ldx);
                StepResult::Running
            },
            0xAF => {
                self.absolute_cb("LAX", ReadOp::Lax);
                StepResult::Running
            },
            0xB0 => {
                self.bcs();
                StepResult::Running
            },
            0xB1 => {
                self.indexed_y_cb("LDA", ReadOp::Lda);
                StepResult::Running
            },
            0xB2 => self.kil(),
            0xB3 => {
                self.indexed_y_cb("LAX", ReadOp::Lax);
                StepResult::Running
            },
            0xB8 => {
                self.clv();
                StepResult::Running
            },
            0xB4 => {
                self.zp_reg_cb("LDY", self.x_register.get(), ReadOp::Ldy);
                StepResult::Running
            },
            0xB5 => {
                self.zp_reg_cb("LDA", self.x_register.get(), ReadOp::Lda);
                StepResult::Running
            },
            0xB6 => {
                self.zp_reg_cb("LDX", self.y_register.get(), ReadOp::Ldx);
                StepResult::Running
            },
            0xB7 => {
                self.zp_reg_cb("LAX", self.y_register.get(), ReadOp::Lax);
                StepResult::Running
            },
            0xB9 => {
                self.absolute_y_cb("LDA", ReadOp::Lda);
                StepResult::Running
            },
            0xBA => {
                self.tsx();
                StepResult::Running
            },
            0xBB => {
                self.absolute_y_cb("LAR", ReadOp::Lar);
                StepResult::Running
            },
            0xBC => {
                self.absolute_x_cb("LDY", ReadOp::Ldy);
                StepResult::Running
            },
            0xBD => {
                self.absolute_x_cb("LDA", ReadOp::Lda);
                StepResult::Running
            },
            0xBE => {
                self.absolute_y_cb("LDX", ReadOp::Ldx);
                StepResult::Running
            },
            0xBF => {
                self.absolute_y_cb("LAX", ReadOp::Lax);
                StepResult::Running
            },
            _ => StepResult::Running,
        }
    }

    /// Executes an opcode from 0xC0 to 0xFF.
    #[verifier::spinoff_prover]
    #[verifier::rlimit(60)]
    pub fn execute_c0_ff(&mut self, opcode: u8) -> (r: StepResult)
        requires
            0xC0 <= opcode <= 0xFF,
        ensures
            r == old(self)@.execute_c0_ff(opcode).0,
            final(self)@ == old(self)@.execute_c0_ff(opcode).1,
    {
        match opcode {
            0xC0 => {
                self.immediate_cb("CPY", ReadOp::Cpy);
                StepResult::Running
            },
            0xC1 => {
                self.indexed_x_cb("CMP", ReadOp::Cmp);
                StepResult::Running
            },
            0xC2 => {
                self.immediate_cb("DOP", ReadOp::Dop);
                StepResult::Running
            },
            0xC3 => {
                self.dcp_indexed_x();
                StepResult::Running
            },
            0xC4 => {
                self.zero_page_cb("CPY", ReadOp::Cpy);
                StepResult::Running
            },
            0xC5 => {
                self.zero_page_cb("CMP", ReadOp::Cmp);
                StepResult::Running
            },
            0xC6 => {
                self.dec_zp();
                StepResult::Running
            },
            0xC7 => {
                self.dcp_zp();
                StepResult::Running
            },
            0xC8 => {
                self.iny();
                StepResult::Running
            },
            0xC9 => {
                self.immediate_cb("CMP", ReadOp::Cmp);
                StepResult::Running
            },
            0xCA => {
                self.dex();
                StepResult::Running
            },
            0xCB => {
                self.immediate_cb("AXS", ReadOp::Axs);
                StepResult::Running
            },
            0xCC => {
                self.absolute_cb("CPY", ReadOp::Cpy);
                StepResult::Running
            },
            0xCD => {
                self.absolute_cb("CMP", ReadOp::Cmp);
                StepResult::Running
            },
            0xCE => {
                self.dec_abs();
                StepResult::Running
            },
            0xCF => {
                self.dcp_absolute();
                StepResult::Running
            },
            0xD0 => {
                self.bne();
                StepResult::Running
            },
            0xD1 => {
                self.indexed_y_cb("CMP", ReadOp::Cmp);
                StepResult::Running
            },
            0xD2 => self.kil(),
            0xD3 => {
                self.dcp_indexed_y();
                StepResult::Running
            },
            0xD4 => {
                self.zp_reg_cb("DOP", self.x_register.get(), ReadOp::Dop);
                StepResult::Running
            },
            0xD5 => {
                self.zp_reg_cb("CMP", self.x_register.get(), ReadOp::Cmp);
                StepResult::Running
            },
            0xD6 => {
                self.dec_zp_reg();
                StepResult::Running
            },
            0xD7 => {
                self.dcp_zp_reg();
                StepResult::Running
            },
            0xD8 => {
                self.cld();
                StepResult::Running
            },
            0xD9 => {
                self.absolute_y_cb("CMP", ReadOp::Cmp);
                StepResult::Running
            },
            0xDB => {
                self.dcp_abs_y();
                StepResult::Running
            },
            0xDA => {
                self.nop();
                StepResult::Running
            },
            0xDC => {
                self.absolute_x_cb("TOP", ReadOp::Top);
                StepResult::Running
            },
            0xDD => {
                self.absolute_x_cb("CMP", ReadOp::Cmp);
                StepResult::Running
            },
            0xDE => {
                self.dec_abs_x();
                StepResult::Running
            },
            0xDF => {
                self.dcp_abs_x();
                StepResult::Running
            },
            0xE0 => {
                self.immediate_cb("CPX", ReadOp::Cpx);
                StepResult::Running
            },
            0xE1 => {
                self.indexed_x_cb("SBC", ReadOp::Sbc);
                StepResult::Running
            },
            0xE2 => {
                self.immediate_cb("DOP", ReadOp::Dop);
                StepResult::Running
            },
            0xE3 => {
                self.indexed_x_cb("ISC", ReadOp::Isc);
                StepResult::Running
            },
            0xE4 => {
                self.zero_page_cb("CPX", ReadOp::Cpx);
                StepResult::Running
            },
            0xE5 => {
                self.zero_page_cb("SBC", ReadOp::Sbc);
                StepResult::Running
            },
            0xE6 => {
                self.inc_zp();
                StepResult::Running
            },
            0xE7 => {
                self.zero_page_cb("ISC", ReadOp::Isc);
                StepResult::Running
            },
            0xE8 => {
                self.inx();
                StepResult::Running
            },
            0xE9 => {
                self.immediate_cb("SBC", ReadOp::Sbc);
                StepResult::Running
            },
            0xEA => {
                self.nop();
                StepResult::Running
            },
            0xEB => {
                self.immediate_cb("SBC", ReadOp::Sbc);
                StepResult::Running
            },
            0xEC => {
                self.absolute_cb("CPX", ReadOp::Cpx);
                StepResult::Running
            },
            0xED => {
                self.absolute_cb("SBC", ReadOp::Sbc);
                StepResult::Running
            },
            0xEE => {
                self.inc_abs();
                StepResult::Running
            },
            0xEF => {
                self.absolute_cb("ISC", ReadOp::Isc);
                StepResult::Running
            },
            0xF0 => {
                self.beq();
                StepResult::Running
            },
            0xF1 => {
                self.indexed_y_cb("SBC", ReadOp::Sbc);
                StepResult::Running
            },
            0xF2 => self.kil(),
            0xF3 => {
                self.indexed_y_cb("ISC", ReadOp::Isc);
                StepResult::Running
            },
            0xF4 => {
                self.zp_reg_cb("DOP", self.x_register.get(), ReadOp::Dop);
                StepResult::Running
            },
            0xF5 => {
                self.zp_reg_cb("SBC", self.x_register.get(), ReadOp::Sbc);
                StepResult::Running
            },
            0xF6 => {
                self.inc_zp_reg();
                StepResult::Running
            },
            0xF7 => {
                self.zp_reg_cb("ISC", self.x_register.get(), ReadOp::Isc);
                StepResult::Running
            },
            0xF8 => {
                self.sed();
                StepResult::Running
            },
            0xF9 => {
                self.absolute_y_cb("SBC", ReadOp::Sbc);
                StepResult::Running
            },
            0xFA => {
                self.nop();
                StepResult::Running
            },
            0xFB => {
                self.absolute_y_cb("ISC", ReadOp::Isc);
                StepResult::Running
            },
            0xFC => {
                self.absolute_x_cb("TOP", ReadOp::Top);
                StepResult::Running
            },
            0xFD => {
                self.absolute_x_cb("SBC", ReadOp::Sbc);
                StepResult::Running
            },
            0xFE => {
                self.inc_abs_x();
                StepResult::Running
            },
            0xFF => {
                self.absolute_x_cb("ISC", ReadOp::Isc);
                StepResult::Running
            },
            _ => StepResult::Running,
        }
    }

    /// Fetches the next opcode and executes it. The cycles it spent are
    /// added to `cycles`.
    pub fn step(&mut self) -> (r: StepResult)
        ensures
            r == old(self)@.step().0,
            final(self)@ == old(self)@.step().1,
    {
        let opcode = self.get_single_operand();
        self.execute(opcode)
    }

    /// Executes up to `max_steps` instructions, stopping after the first one
    /// that does not leave the processor running, and says how that one
    /// ended (`Running` when all of them ran).
    pub fn run_steps(&mut self, max_steps: u64) -> (r: StepResult)
        ensures
            (r, final(self)@) == old(self)@.run_steps(max_steps as nat),
    {
        let mut i: u64 = 0;
        while i < max_steps
            invariant
                i <= max_steps,
                old(self)@.run_steps(max_steps as nat) == self@.run_steps((max_steps - i) as nat),
            decreases max_steps - i,
        {
            let r = self.step();
            match r {
                StepResult::Running => {},
                _ => {
                    return r;
                },
            }
            i = i + 1;
        }
        StepResult::Running
    }

    /// Loads the program at `start` (`STARTING_MEMORY_BLOCK` when none is
    /// given) and runs it from its first byte for up to `max_steps`
    /// instructions, as `run_steps` does: the counter is put one before the
    /// block, as each fetch moves the counter up before reading. A program
    /// that does not fit below 0xFFFF is refused and nothing runs.
    #[verifier::spinoff_prover]
    pub fn run(&mut self, program: &Vec<u8>, start: Option<u16>, max_steps: u64) -> (r: Result<
        StepResult,
        LoadError,
    >)
        ensures
            r is Err <==> program.len() + start_block(start) > 0xFFFF,
            r is Err ==> final(self)@ == old(self)@,
            r matches Ok(res) ==> (res, final(self)@) == old(self)@.with_mem(
                loaded(old(self)@.mem, program@, start_block(start)),
            ).with_pc(wrap16(start_block(start) - 1)).run_steps(max_steps as nat),
    {
        let block = match start {
            Some(v) => v,
            None => STARTING_MEMORY_BLOCK,
        };
        match self.load_program_into_memory(program, block) {
            Ok(()) => {
                let ghost loaded_view = self@;
                self.program_counter.jump(block.wrapping_sub(1));
                assert(self@ == loaded_view.with_pc(wrap16(block - 1)));
                Ok(self.run_steps(max_steps))
            },
            Err(e) => Err(e),
        }
    }
}

} // verus!
