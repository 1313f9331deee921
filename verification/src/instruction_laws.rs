//! Laws that pin each instruction to what the 6502 documents for it,
//! stated over the raw processor state: the bytes after the program
//! counter, the registers, memory and the flags.
use crate::general_register::dec8;
use crate::memory::stack_slot;
use crate::model::{word, wrap8, CpuView, ReadOp, StepResult};
use crate::program_counter::wrap16;
use crate::status_register::{
    add_overflow, flag_of, lemma_flag_read_after_write, sub_overflow, with_flag, with_nz, StatusBit,
};
use vstd::prelude::*;

verus! {

/// The byte `k` places after the program counter: the opcode is at 1, its
/// operands at 2 and 3.
pub open spec fn byte_after(s: CpuView, k: int) -> u8 {
    s.mem[wrap16(s.pc + k) as int]
}

/// A byte read as a two's complement number.
pub open spec fn signed8(b: u8) -> int {
    if b < 128 {
        b as int
    } else {
        b - 256
    }
}

/// The byte in memory at an address.
pub open spec fn at(s: CpuView, addr: int) -> u8 {
    s.mem[addr]
}

/// `t` is `s` after an instruction of `len` bytes that loaded `v` into the
/// accumulator (`r == 0`), X (`r == 1`) or Y (`r == 2`): negative and zero
/// come from `v`, the other flags, registers, the stack pointer and memory
/// are kept.
pub open spec fn loaded_into(s: CpuView, t: CpuView, r: int, v: u8, len: int) -> bool {
    &&& t.a == (if r == 0 { v } else { s.a })
    &&& t.x == (if r == 1 { v } else { s.x })
    &&& t.y == (if r == 2 { v } else { s.y })
    &&& flag_of(t.p, StatusBit::Negative) == (v >= 0x80)
    &&& flag_of(t.p, StatusBit::Zero) == (v == 0)
    &&& flag_of(t.p, StatusBit::Carry) == flag_of(s.p, StatusBit::Carry)
    &&& flag_of(t.p, StatusBit::Overflow) == flag_of(s.p, StatusBit::Overflow)
    &&& flag_of(t.p, StatusBit::Decimal) == flag_of(s.p, StatusBit::Decimal)
    &&& flag_of(t.p, StatusBit::Interrupt) == flag_of(s.p, StatusBit::Interrupt)
    &&& t.pc == wrap16(s.pc + len)
    &&& t.sp == s.sp
    &&& t.mem == s.mem
}

/// `t` is `s` after an instruction of `len` bytes that stored `v` at
/// `addr`: registers, flags and the stack pointer are kept.
pub open spec fn stored_at(s: CpuView, t: CpuView, addr: int, v: u8, len: int) -> bool {
    &&& t.mem == s.mem.update(addr, v)
    &&& t.a == s.a
    &&& t.x == s.x
    &&& t.y == s.y
    &&& t.p == s.p
    &&& t.pc == wrap16(s.pc + len)
    &&& t.sp == s.sp
}

/// A step fetches the opcode after the counter and runs the block of the
/// opcode table that holds it.
pub proof fn lemma_step_in_block(s: CpuView)
    ensures
        ({
            let (op, s1) = s.get_single_operand();
            &&& op == byte_after(s, 1)
            &&& op < 0x40 ==> s.step() == s1.execute_00_3f(op)
            &&& 0x40 <= op < 0x80 ==> s.step() == s1.execute_40_7f(op)
            &&& 0x80 <= op < 0xC0 ==> s.step() == s1.execute_80_bf(op)
            &&& 0xC0 <= op ==> s.step() == s1.execute_c0_ff(op)
        }),
{
}

/// Reading a flag after negative and zero are set from a value.
pub proof fn lemma_nz_reads(p: u8, v: u8, g: StatusBit)
    ensures
        flag_of(with_nz(p, v), g) == if g == StatusBit::Negative {
            v >= 0x80
        } else if g == StatusBit::Zero {
            v == 0
        } else {
            flag_of(p, g)
        },
{
    lemma_flag_read_after_write(p, StatusBit::Negative, v >= 0x80, g);
    lemma_flag_read_after_write(
        with_flag(p, StatusBit::Negative, v >= 0x80),
        StatusBit::Zero,
        v == 0,
        g,
    );
}

/// Reading all the flags after negative and zero are set from a value.
pub proof fn lemma_nz_reads_all(p: u8, v: u8)
    ensures
        flag_of(with_nz(p, v), StatusBit::Negative) == (v >= 0x80),
        flag_of(with_nz(p, v), StatusBit::Zero) == (v == 0),
        flag_of(with_nz(p, v), StatusBit::Carry) == flag_of(p, StatusBit::Carry),
        flag_of(with_nz(p, v), StatusBit::Overflow) == flag_of(p, StatusBit::Overflow),
        flag_of(with_nz(p, v), StatusBit::Decimal) == flag_of(p, StatusBit::Decimal),
        flag_of(with_nz(p, v), StatusBit::Interrupt) == flag_of(p, StatusBit::Interrupt),
{
    lemma_nz_reads(p, v, StatusBit::Negative);
    lemma_nz_reads(p, v, StatusBit::Zero);
    lemma_nz_reads(p, v, StatusBit::Carry);
    lemma_nz_reads(p, v, StatusBit::Overflow);
    lemma_nz_reads(p, v, StatusBit::Decimal);
    lemma_nz_reads(p, v, StatusBit::Interrupt);
}

/// The opcode table's entry for 0xA9.
proof fn entry_a9(s1: CpuView)
    ensures
        s1.execute_80_bf(0xA9) == (StepResult::Running, s1.immediate_cb(ReadOp::Lda)),
{
}

/// What the entry for 0xA9 does, after the fetch.
#[verifier::spinoff_prover]
proof fn effect_a9(s: CpuView)
    requires
        s.mem.len() == 0x10000,
    ensures
        loaded_into(s, s.get_single_operand().1.immediate_cb(ReadOp::Lda), 0, byte_after(s, 2), 2),
{
    lemma_nz_reads_all(s.p, byte_after(s, 2));
}

/// Opcode 0xA9 (LDA immediate) loads the accumulator with the byte after the opcode.
pub proof fn lemma_opcode_a9(s: CpuView)
    requires
        s.mem.len() == 0x10000,
        byte_after(s, 1) == 0xA9,
    ensures
        s.step().0 == StepResult::Running,
        loaded_into(s, s.step().1, 0, byte_after(s, 2), 2),
{
    lemma_step_in_block(s);
    entry_a9(s.get_single_operand().1);
    effect_a9(s);
}

/// The opcode table's entry for 0xA5.
proof fn entry_a5(s1: CpuView)
    ensures
        s1.execute_80_bf(0xA5) == (StepResult::Running, s1.zero_page_cb(ReadOp::Lda)),
{
}

/// What the entry for 0xA5 does, after the fetch.
#[verifier::spinoff_prover]
proof fn effect_a5(s: CpuView)
    requires
        s.mem.len() == 0x10000,
    ensures
        loaded_into(s, s.get_single_operand().1.zero_page_cb(ReadOp::Lda), 0, at(s, byte_after(s, 2) as int), 2),
{
    lemma_nz_reads_all(s.p, at(s, byte_after(s, 2) as int));
}

/// Opcode 0xA5 (LDA zero page) loads the accumulator with the zero page byte the operand names.
pub proof fn lemma_opcode_a5(s: CpuView)
    requires
        s.mem.len() == 0x10000,
        byte_after(s, 1) == 0xA5,
    ensures
        s.step().0 == StepResult::Running,
        loaded_into(s, s.step().1, 0, at(s, byte_after(s, 2) as int), 2),
{
    lemma_step_in_block(s);
    entry_a5(s.get_single_operand().1);
    effect_a5(s);
}

/// The opcode table's entry for 0xB5.
proof fn entry_b5(s1: CpuView)
    ensures
        s1.execute_80_bf(0xB5) == (StepResult::Running, s1.zp_reg_cb(s1.x, ReadOp::Lda)),
{
}

/// What the entry for 0xB5 does, after the fetch.
#[verifier::spinoff_prover]
proof fn effect_b5(s: CpuView)
    requires
        s.mem.len() == 0x10000,
    ensures
        loaded_into(s, s.get_single_operand().1.zp_reg_cb(s.get_single_operand().1.x, ReadOp::Lda), 0, at(s, wrap8(byte_after(s, 2) + s.x) as int), 2),
{
    lemma_nz_reads_all(s.p, at(s, wrap8(byte_after(s, 2) + s.x) as int));
}

/// Opcode 0xB5 (LDA zp x) loads the accumulator with the zero page byte at the operand plus X, wrapping in the zero page.
pub proof fn lemma_opcode_b5(s: CpuView)
    requires
        s.mem.len() == 0x10000,
        byte_after(s, 1) == 0xB5,
    ensures
        s.step().0 == StepResult::Running,
        loaded_into(s, s.step().1, 0, at(s, wrap8(byte_after(s, 2) + s.x) as int), 2),
{
    lemma_step_in_block(s);
    entry_b5(s.get_single_operand().1);
    effect_b5(s);
}

/// The opcode table's entry for 0xAD.
proof fn entry_ad(s1: CpuView)
    ensures
        s1.execute_80_bf(0xAD) == (StepResult::Running, s1.absolute_cb(ReadOp::Lda)),
{
}

/// What the entry for 0xAD does, after the fetch.
#[verifier::spinoff_prover]
proof fn effect_ad(s: CpuView)
    requires
        s.mem.len() == 0x10000,
    ensures
        loaded_into(s, s.get_single_operand().1.absolute_cb(ReadOp::Lda), 0, at(s, word(byte_after(s, 2), byte_after(s, 3)) as int), 3),
{
    lemma_nz_reads_all(s.p, at(s, word(byte_after(s, 2), byte_after(s, 3)) as int));
}

/// Opcode 0xAD (LDA absolute) loads the accumulator with the byte at the absolute address the operands name.
pub proof fn lemma_opcode_ad(s: CpuView)
    requires
        s.mem.len() == 0x10000,
        byte_after(s, 1) == 0xAD,
    ensures
        s.step().0 == StepResult::Running,
        loaded_into(s, s.step().1, 0, at(s, word(byte_after(s, 2), byte_after(s, 3)) as int), 3),
{
    lemma_step_in_block(s);
    entry_ad(s.get_single_operand().1);
    effect_ad(s);
}

/// The opcode table's entry for 0xBD.
proof fn entry_bd(s1: CpuView)
    ensures
        s1.execute_80_bf(0xBD) == (StepResult::Running, s1.absolute_x_cb(ReadOp::Lda)),
{
}

/// What the entry for 0xBD does, after the fetch.
#[verifier::spinoff_prover]
proof fn effect_bd(s: CpuView)
    requires
        s.mem.len() == 0x10000,
    ensures
        loaded_into(s, s.get_single_operand().1.absolute_x_cb(ReadOp::Lda), 0, at(s, wrap16(word(byte_after(s, 2), byte_after(s, 3)) + s.x) as int), 3),
{
    lemma_nz_reads_all(s.p, at(s, wrap16(word(byte_after(s, 2), byte_after(s, 3)) + s.x) as int));
}

/// Opcode 0xBD (LDA abs x) loads the accumulator with the byte at the absolute address plus X.
pub proof fn lemma_opcode_bd(s: CpuView)
    requires
        s.mem.len() == 0x10000,
        byte_after(s, 1) == 0xBD,
    ensures
        s.step().0 == StepResult::Running,
        loaded_into(s, s.step().1, 0, at(s, wrap16(word(byte_after(s, 2), byte_after(s, 3)) + s.x) as int), 3),
{
    lemma_step_in_block(s);
    entry_bd(s.get_single_operand().1);
    effect_bd(s);
}

/// The opcode table's entry for 0xB9.
proof fn entry_b9(s1: CpuView)
    ensures
        s1.execute_80_bf(0xB9) == (StepResult::Running, s1.absolute_y_cb(ReadOp::Lda)),
{
}

/// What the entry for 0xB9 does, after the fetch.
#[verifier::spinoff_prover]
proof fn effect_b9(s: CpuView)
    requires
        s.mem.len() == 0x10000,
    ensures
        loaded_into(s, s.get_single_operand().1.absolute_y_cb(ReadOp::Lda), 0, at(s, wrap16(word(byte_after(s, 2), byte_after(s, 3)) + s.y) as int), 3),
{
    lemma_nz_reads_all(s.p, at(s, wrap16(word(byte_after(s, 2), byte_after(s, 3)) + s.y) as int));
}

/// Opcode 0xB9 (LDA abs y) loads the accumulator with the byte at the absolute address plus Y.
pub proof fn lemma_opcode_b9(s: CpuView)
    requires
        s.mem.len() == 0x10000,
        byte_after(s, 1) == 0xB9,
    ensures
        s.step().0 == StepResult::Running,
        loaded_into(s, s.step().1, 0, at(s, wrap16(word(byte_after(s, 2), byte_after(s, 3)) + s.y) as int), 3),
{
    lemma_step_in_block(s);
    entry_b9(s.get_single_operand().1);
    effect_b9(s);
}

/// The opcode table's entry for 0xA1.
proof fn entry_a1(s1: CpuView)
    ensures
        s1.execute_80_bf(0xA1) == (StepResult::Running, s1.indexed_x_cb(ReadOp::Lda)),
{
}

/// What the entry for 0xA1 does, after the fetch.
#[verifier::spinoff_prover]
proof fn effect_a1(s: CpuView)
    requires
        s.mem.len() == 0x10000,
    ensures
        loaded_into(s, s.get_single_operand().1.indexed_x_cb(ReadOp::Lda), 0, at(s, word(at(s, wrap8(byte_after(s, 2) + s.x) as int), at(s, wrap8(byte_after(s, 2) + s.x + 1) as int)) as int), 2),
{
    lemma_nz_reads_all(s.p, at(s, word(at(s, wrap8(byte_after(s, 2) + s.x) as int), at(s, wrap8(byte_after(s, 2) + s.x + 1) as int)) as int));
}

/// Opcode 0xA1 (LDA ind x) loads the accumulator with the byte at the address read from the zero page at the operand plus X.
pub proof fn lemma_opcode_a1(s: CpuView)
    requires
        s.mem.len() == 0x10000,
        byte_after(s, 1) == 0xA1,
    ensures
        s.step().0 == StepResult::Running,
        loaded_into(s, s.step().1, 0, at(s, word(at(s, wrap8(byte_after(s, 2) + s.x) as int), at(s, wrap8(byte_after(s, 2) + s.x + 1) as int)) as int), 2),
{
    lemma_step_in_block(s);
    entry_a1(s.get_single_operand().1);
    effect_a1(s);
}

/// The opcode table's entry for 0xB1.
proof fn entry_b1(s1: CpuView)
    ensures
        s1.execute_80_bf(0xB1) == (StepResult::Running, s1.indexed_y_cb(ReadOp::Lda)),
{
}

/// What the entry for 0xB1 does, after the fetch.
#[verifier::spinoff_prover]
proof fn effect_b1(s: CpuView)
    requires
        s.mem.len() == 0x10000,
    ensures
        loaded_into(s, s.get_single_operand().1.indexed_y_cb(ReadOp::Lda), 0, at(s, wrap16(word(at(s, byte_after(s, 2) as int), at(s, wrap8(byte_after(s, 2) + 1) as int)) + s.y) as int), 2),
{
    lemma_nz_reads_all(s.p, at(s, wrap16(word(at(s, byte_after(s, 2) as int), at(s, wrap8(byte_after(s, 2) + 1) as int)) + s.y) as int));
}

/// Opcode 0xB1 (LDA ind y) loads the accumulator with the byte at the address read from the zero page at the operand, plus Y.
pub proof fn lemma_opcode_b1(s: CpuView)
    requires
        s.mem.len() == 0x10000,
        byte_after(s, 1) == 0xB1,
    ensures
        s.step().0 == StepResult::Running,
        loaded_into(s, s.step().1, 0, at(s, wrap16(word(at(s, byte_after(s, 2) as int), at(s, wrap8(byte_after(s, 2) + 1) as int)) + s.y) as int), 2),
{
    lemma_step_in_block(s);
    entry_b1(s.get_single_operand().1);
    effect_b1(s);
}

/// The opcode table's entry for 0xA2.
proof fn entry_a2(s1: CpuView)
    ensures
        s1.execute_80_bf(0xA2) == (StepResult::Running, s1.immediate_cb(ReadOp::Ldx)),
{
}

/// What the entry for 0xA2 does, after the fetch.
#[verifier::spinoff_prover]
proof fn effect_a2(s: CpuView)
    requires
        s.mem.len() == 0x10000,
    ensures
        loaded_into(s, s.get_single_operand().1.immediate_cb(ReadOp::Ldx), 1, byte_after(s, 2), 2),
{
    lemma_nz_reads_all(s.p, byte_after(s, 2));
}

/// Opcode 0xA2 (LDX immediate) loads X with the byte after the opcode.
pub proof fn lemma_opcode_a2(s: CpuView)
    requires
        s.mem.len() == 0x10000,
        byte_after(s, 1) == 0xA2,
    ensures
        s.step().0 == StepResult::Running,
        loaded_into(s, s.step().1, 1, byte_after(s, 2), 2),
{
    lemma_step_in_block(s);
    entry_a2(s.get_single_operand().1);
    effect_a2(s);
}

/// The opcode table's entry for 0xA6.
proof fn entry_a6(s1: CpuView)
    ensures
        s1.execute_80_bf(0xA6) == (StepResult::Running, s1.zero_page_cb(ReadOp::Ldx)),
{
}

/// What the entry for 0xA6 does, after the fetch.
#[verifier::spinoff_prover]
proof fn effect_a6(s: CpuView)
    requires
        s.mem.len() == 0x10000,
    ensures
        loaded_into(s, s.get_single_operand().1.zero_page_cb(ReadOp::Ldx), 1, at(s, byte_after(s, 2) as int), 2),
{
    lemma_nz_reads_all(s.p, at(s, byte_after(s, 2) as int));
}

/// Opcode 0xA6 (LDX zero page) loads X with the zero page byte the operand names.
pub proof fn lemma_opcode_a6(s: CpuView)
    requires
        s.mem.len() == 0x10000,
        byte_after(s, 1) == 0xA6,
    ensures
        s.step().0 == StepResult::Running,
        loaded_into(s, s.step().1, 1, at(s, byte_after(s, 2) as int), 2),
{
    lemma_step_in_block(s);
    entry_a6(s.get_single_operand().1);
    effect_a6(s);
}

/// The opcode table's entry for 0xB6.
proof fn entry_b6(s1: CpuView)
    ensures
        s1.execute_80_bf(0xB6) == (StepResult::Running, s1.zp_reg_cb(s1.y, ReadOp::Ldx)),
{
}

/// What the entry for 0xB6 does, after the fetch.
#[verifier::spinoff_prover]
proof fn effect_b6(s: CpuView)
    requires
        s.mem.len() == 0x10000,
    ensures
        loaded_into(s, s.get_single_operand().1.zp_reg_cb(s.get_single_operand().1.y, ReadOp::Ldx), 1, at(s, wrap8(byte_after(s, 2) + s.y) as int), 2),
{
    lemma_nz_reads_all(s.p, at(s, wrap8(byte_after(s, 2) + s.y) as int));
}

/// Opcode 0xB6 (LDX zp y) loads X with the zero page byte at the operand plus Y, wrapping in the zero page.
pub proof fn lemma_opcode_b6(s: CpuView)
    requires
        s.mem.len() == 0x10000,
        byte_after(s, 1) == 0xB6,
    ensures
        s.step().0 == StepResult::Running,
        loaded_into(s, s.step().1, 1, at(s, wrap8(byte_after(s, 2) + s.y) as int), 2),
{
    lemma_step_in_block(s);
    entry_b6(s.get_single_operand().1);
    effect_b6(s);
}

/// The opcode table's entry for 0xAE.
proof fn entry_ae(s1: CpuView)
    ensures
        s1.execute_80_bf(0xAE) == (StepResult::Running, s1.absolute_cb(ReadOp::Ldx)),
{
}

/// What the entry for 0xAE does, after the fetch.
#[verifier::spinoff_prover]
proof fn effect_ae(s: CpuView)
    requires
        s.mem.len() == 0x10000,
    ensures
        loaded_into(s, s.get_single_operand().1.absolute_cb(ReadOp::Ldx), 1, at(s, word(byte_after(s, 2), byte_after(s, 3)) as int), 3),
{
    lemma_nz_reads_all(s.p, at(s, word(byte_after(s, 2), byte_after(s, 3)) as int));
}

/// Opcode 0xAE (LDX absolute) loads X with the byte at the absolute address the operands name.
pub proof fn lemma_opcode_ae(s: CpuView)
    requires
        s.mem.len() == 0x10000,
        byte_after(s, 1) == 0xAE,
    ensures
        s.step().0 == StepResult::Running,
        loaded_into(s, s.step().1, 1, at(s, word(byte_after(s, 2), byte_after(s, 3)) as int), 3),
{
    lemma_step_in_block(s);
    entry_ae(s.get_single_operand().1);
    effect_ae(s);
}

/// The opcode table's entry for 0xBE.
proof fn entry_be(s1: CpuView)
    ensures
        s1.execute_80_bf(0xBE) == (StepResult::Running, s1.absolute_y_cb(ReadOp::Ldx)),
{
}

/// What the entry for 0xBE does, after the fetch.
#[verifier::spinoff_prover]
proof fn effect_be(s: CpuView)
    requires
        s.mem.len() == 0x10000,
    ensures
        loaded_into(s, s.get_single_operand().1.absolute_y_cb(ReadOp::Ldx), 1, at(s, wrap16(word(byte_after(s, 2), byte_after(s, 3)) + s.y) as int), 3),
{
    lemma_nz_reads_all(s.p, at(s, wrap16(word(byte_after(s, 2), byte_after(s, 3)) + s.y) as int));
}

/// Opcode 0xBE (LDX abs y) loads X with the byte at the absolute address plus Y.
pub proof fn lemma_opcode_be(s: CpuView)
    requires
        s.mem.len() == 0x10000,
        byte_after(s, 1) == 0xBE,
    ensures
        s.step().0 == StepResult::Running,
        loaded_into(s, s.step().1, 1, at(s, wrap16(word(byte_after(s, 2), byte_after(s, 3)) + s.y) as int), 3),
{
    lemma_step_in_block(s);
    entry_be(s.get_single_operand().1);
    effect_be(s);
}

/// The opcode table's entry for 0xA0.
proof fn entry_a0(s1: CpuView)
    ensures
        s1.execute_80_bf(0xA0) == (StepResult::Running, s1.immediate_cb(ReadOp::Ldy)),
{
}

/// What the entry for 0xA0 does, after the fetch.
#[verifier::spinoff_prover]
proof fn effect_a0(s: CpuView)
    requires
        s.mem.len() == 0x10000,
    ensures
        loaded_into(s, s.get_single_operand().1.immediate_cb(ReadOp::Ldy), 2, byte_after(s, 2), 2),
{
    lemma_nz_reads_all(s.p, byte_after(s, 2));
}

/// Opcode 0xA0 (LDY immediate) loads Y with the byte after the opcode.
pub proof fn lemma_opcode_a0(s: CpuView)
    requires
        s.mem.len() == 0x10000,
        byte_after(s, 1) == 0xA0,
    ensures
        s.step().0 == StepResult::Running,
        loaded_into(s, s.step().1, 2, byte_after(s, 2), 2),
{
    lemma_step_in_block(s);
    entry_a0(s.get_single_operand().1);
    effect_a0(s);
}

/// The opcode table's entry for 0xA4.
proof fn entry_a4(s1: CpuView)
    ensures
        s1.execute_80_bf(0xA4) == (StepResult::Running, s1.zero_page_cb(ReadOp::Ldy)),
{
}

/// What the entry for 0xA4 does, after the fetch.
#[verifier::spinoff_prover]
proof fn effect_a4(s: CpuView)
    requires
        s.mem.len() == 0x10000,
    ensures
        loaded_into(s, s.get_single_operand().1.zero_page_cb(ReadOp::Ldy), 2, at(s, byte_after(s, 2) as int), 2),
{
    lemma_nz_reads_all(s.p, at(s, byte_after(s, 2) as int));
}

/// Opcode 0xA4 (LDY zero page) loads Y with the zero page byte the operand names.
pub proof fn lemma_opcode_a4(s: CpuView)
    requires
        s.mem.len() == 0x10000,
        byte_after(s, 1) == 0xA4,
    ensures
        s.step().0 == StepResult::Running,
        loaded_into(s, s.step().1, 2, at(s, byte_after(s, 2) as int), 2),
{
    lemma_step_in_block(s);
    entry_a4(s.get_single_operand().1);
    effect_a4(s);
}

/// The opcode table's entry for 0xB4.
proof fn entry_b4(s1: CpuView)
    ensures
        s1.execute_80_bf(0xB4) == (StepResult::Running, s1.zp_reg_cb(s1.x, ReadOp::Ldy)),
{
}

/// What the entry for 0xB4 does, after the fetch.
#[verifier::spinoff_prover]
proof fn effect_b4(s: CpuView)
    requires
        s.mem.len() == 0x10000,
    ensures
        loaded_into(s, s.get_single_operand().1.zp_reg_cb(s.get_single_operand().1.x, ReadOp::Ldy), 2, at(s, wrap8(byte_after(s, 2) + s.x) as int), 2),
{
    lemma_nz_reads_all(s.p, at(s, wrap8(byte_after(s, 2) + s.x) as int));
}

/// Opcode 0xB4 (LDY zp x) loads Y with the zero page byte at the operand plus X, wrapping in the zero page.
pub proof fn lemma_opcode_b4(s: CpuView)
    requires
        s.mem.len() == 0x10000,
        byte_after(s, 1) == 0xB4,
    ensures
        s.step().0 == StepResult::Running,
        loaded_into(s, s.step().1, 2, at(s, wrap8(byte_after(s, 2) + s.x) as int), 2),
{
    lemma_step_in_block(s);
    entry_b4(s.get_single_operand().1);
    effect_b4(s);
}

/// The opcode table's entry for 0xAC.
proof fn entry_ac(s1: CpuView)
    ensures
        s1.execute_80_bf(0xAC) == (StepResult::Running, s1.absolute_cb(ReadOp::Ldy)),
{
}

/// What the entry for 0xAC does, after the fetch.
#[verifier::spinoff_prover]
proof fn effect_ac(s: CpuView)
    requires
        s.mem.len() == 0x10000,
    ensures
        loaded_into(s, s.get_single_operand().1.absolute_cb(ReadOp::Ldy), 2, at(s, word(byte_after(s, 2), byte_after(s, 3)) as int), 3),
{
    lemma_nz_reads_all(s.p, at(s, word(byte_after(s, 2), byte_after(s, 3)) as int));
}

/// Opcode 0xAC (LDY absolute) loads Y with the byte at the absolute address the operands name.
pub proof fn lemma_opcode_ac(s: CpuView)
    requires
        s.mem.len() == 0x10000,
        byte_after(s, 1) == 0xAC,
    ensures
        s.step().0 == StepResult::Running,
        loaded_into(s, s.step().1, 2, at(s, word(byte_after(s, 2), byte_after(s, 3)) as int), 3),
{
    lemma_step_in_block(s);
    entry_ac(s.get_single_operand().1);
    effect_ac(s);
}

/// The opcode table's entry for 0xBC.
proof fn entry_bc(s1: CpuView)
    ensures
        s1.execute_80_bf(0xBC) == (StepResult::Running, s1.absolute_x_cb(ReadOp::Ldy)),
{
}

/// What the entry for 0xBC does, after the fetch.
#[verifier::spinoff_prover]
proof fn effect_bc(s: CpuView)
    requires
        s.mem.len() == 0x10000,
    ensures
        loaded_into(s, s.get_single_operand().1.absolute_x_cb(ReadOp::Ldy), 2, at(s, wrap16(word(byte_after(s, 2), byte_after(s, 3)) + s.x) as int), 3),
{
    lemma_nz_reads_all(s.p, at(s, wrap16(word(byte_after(s, 2), byte_after(s, 3)) + s.x) as int));
}

/// Opcode 0xBC (LDY abs x) loads Y with the byte at the absolute address plus X.
pub proof fn lemma_opcode_bc(s: CpuView)
    requires
        s.mem.len() == 0x10000,
        byte_after(s, 1) == 0xBC,
    ensures
        s.step().0 == StepResult::Running,
        loaded_into(s, s.step().1, 2, at(s, wrap16(word(byte_after(s, 2), byte_after(s, 3)) + s.x) as int), 3),
{
    lemma_step_in_block(s);
    entry_bc(s.get_single_operand().1);
    effect_bc(s);
}

/// The opcode table's entry for 0x85.
proof fn entry_85(s1: CpuView)
    ensures
        s1.execute_80_bf(0x85) == (StepResult::Running, s1.sta_zero_page()),
{
}

/// What the entry for 0x85 does, after the fetch.
#[verifier::spinoff_prover]
proof fn effect_85(s: CpuView)
    requires
        s.mem.len() == 0x10000,
    ensures
        stored_at(s, s.get_single_operand().1.sta_zero_page(), byte_after(s, 2) as int, s.a, 2),
{
    let s1 = s.get_single_operand().1;
    let (lo, hi, s2) = s1.get_two_operands();
    assert(lo == byte_after(s, 2) && hi == byte_after(s, 3));
}

/// Opcode 0x85 (STA zero page) stores the accumulator at the zero page address the operand names.
pub proof fn lemma_opcode_85(s: CpuView)
    requires
        s.mem.len() == 0x10000,
        byte_after(s, 1) == 0x85,
    ensures
        s.step().0 == StepResult::Running,
        stored_at(s, s.step().1, byte_after(s, 2) as int, s.a, 2),
{
    lemma_step_in_block(s);
    entry_85(s.get_single_operand().1);
    effect_85(s);
}

/// The opcode table's entry for 0x95.
proof fn entry_95(s1: CpuView)
    ensures
        s1.execute_80_bf(0x95) == (StepResult::Running, s1.sta_zero_page_x()),
{
}

/// What the entry for 0x95 does, after the fetch.
#[verifier::spinoff_prover]
proof fn effect_95(s: CpuView)
    requires
        s.mem.len() == 0x10000,
    ensures
        stored_at(s, s.get_single_operand().1.sta_zero_page_x(), wrap8(byte_after(s, 2) + s.x) as int, s.a, 2),
{
    let s1 = s.get_single_operand().1;
    let (lo, hi, s2) = s1.get_two_operands();
    assert(lo == byte_after(s, 2) && hi == byte_after(s, 3));
}

/// Opcode 0x95 (STA zp x) stores the accumulator at the zero page address at the operand plus X, wrapping in the zero page.
pub proof fn lemma_opcode_95(s: CpuView)
    requires
        s.mem.len() == 0x10000,
        byte_after(s, 1) == 0x95,
    ensures
        s.step().0 == StepResult::Running,
        stored_at(s, s.step().1, wrap8(byte_after(s, 2) + s.x) as int, s.a, 2),
{
    lemma_step_in_block(s);
    entry_95(s.get_single_operand().1);
    effect_95(s);
}

/// The opcode table's entry for 0x8D.
proof fn entry_8d(s1: CpuView)
    ensures
        s1.execute_80_bf(0x8D) == (StepResult::Running, s1.sta_absolute()),
{
}

/// What the entry for 0x8D does, after the fetch.
#[verifier::spinoff_prover]
proof fn effect_8d(s: CpuView)
    requires
        s.mem.len() == 0x10000,
    ensures
        stored_at(s, s.get_single_operand().1.sta_absolute(), word(byte_after(s, 2), byte_after(s, 3)) as int, s.a, 3),
{
    let s1 = s.get_single_operand().1;
    let (lo, hi, s2) = s1.get_two_operands();
    assert(lo == byte_after(s, 2) && hi == byte_after(s, 3));
}

/// Opcode 0x8D (STA absolute) stores the accumulator at the absolute address the operands name.
pub proof fn lemma_opcode_8d(s: CpuView)
    requires
        s.mem.len() == 0x10000,
        byte_after(s, 1) == 0x8D,
    ensures
        s.step().0 == StepResult::Running,
        stored_at(s, s.step().1, word(byte_after(s, 2), byte_after(s, 3)) as int, s.a, 3),
{
    lemma_step_in_block(s);
    entry_8d(s.get_single_operand().1);
    effect_8d(s);
}

/// The opcode table's entry for 0x9D.
proof fn entry_9d(s1: CpuView)
    ensures
        s1.execute_80_bf(0x9D) == (StepResult::Running, s1.sta_absolute_x()),
{
}

/// What the entry for 0x9D does, after the fetch.
#[verifier::spinoff_prover]
proof fn effect_9d(s: CpuView)
    requires
        s.mem.len() == 0x10000,
    ensures
        stored_at(s, s.get_single_operand().1.sta_absolute_x(), wrap16(word(byte_after(s, 2), byte_after(s, 3)) + s.x) as int, s.a, 3),
{
    let s1 = s.get_single_operand().1;
    let (lo, hi, s2) = s1.get_two_operands();
    assert(lo == byte_after(s, 2) && hi == byte_after(s, 3));
}

/// Opcode 0x9D (STA abs x) stores the accumulator at the absolute address plus X.
pub proof fn lemma_opcode_9d(s: CpuView)
    requires
        s.mem.len() == 0x10000,
        byte_after(s, 1) == 0x9D,
    ensures
        s.step().0 == StepResult::Running,
        stored_at(s, s.step().1, wrap16(word(byte_after(s, 2), byte_after(s, 3)) + s.x) as int, s.a, 3),
{
    lemma_step_in_block(s);
    entry_9d(s.get_single_operand().1);
    effect_9d(s);
}

/// The opcode table's entry for 0x99.
proof fn entry_99(s1: CpuView)
    ensures
        s1.execute_80_bf(0x99) == (StepResult::Running, s1.sta_absolute_y()),
{
}

/// What the entry for 0x99 does, after the fetch.
#[verifier::spinoff_prover]
proof fn effect_99(s: CpuView)
    requires
        s.mem.len() == 0x10000,
    ensures
        stored_at(s, s.get_single_operand().1.sta_absolute_y(), wrap16(word(byte_after(s, 2), byte_after(s, 3)) + s.y) as int, s.a, 3),
{
    let s1 = s.get_single_operand().1;
    let (lo, hi, s2) = s1.get_two_operands();
    assert(lo == byte_after(s, 2) && hi == byte_after(s, 3));
}

/// Opcode 0x99 (STA abs y) stores the accumulator at the absolute address plus Y.
pub proof fn lemma_opcode_99(s: CpuView)
    requires
        s.mem.len() == 0x10000,
        byte_after(s, 1) == 0x99,
    ensures
        s.step().0 == StepResult::Running,
        stored_at(s, s.step().1, wrap16(word(byte_after(s, 2), byte_after(s, 3)) + s.y) as int, s.a, 3),
{
    lemma_step_in_block(s);
    entry_99(s.get_single_operand().1);
    effect_99(s);
}

/// The opcode table's entry for 0x81.
proof fn entry_81(s1: CpuView)
    ensures
        s1.execute_80_bf(0x81) == (StepResult::Running, s1.sta_indexed_x()),
{
}

/// What the entry for 0x81 does, after the fetch.
#[verifier::spinoff_prover]
proof fn effect_81(s: CpuView)
    requires
        s.mem.len() == 0x10000,
    ensures
        stored_at(s, s.get_single_operand().1.sta_indexed_x(), word(at(s, wrap8(byte_after(s, 2) + s.x) as int), at(s, wrap8(byte_after(s, 2) + s.x + 1) as int)) as int, s.a, 2),
{
    let s1 = s.get_single_operand().1;
    let (lo, hi, s2) = s1.get_two_operands();
    assert(lo == byte_after(s, 2) && hi == byte_after(s, 3));
}

/// Opcode 0x81 (STA ind x) stores the accumulator at the address read from the zero page at the operand plus X.
pub proof fn lemma_opcode_81(s: CpuView)
    requires
        s.mem.len() == 0x10000,
        byte_after(s, 1) == 0x81,
    ensures
        s.step().0 == StepResult::Running,
        stored_at(s, s.step().1, word(at(s, wrap8(byte_after(s, 2) + s.x) as int), at(s, wrap8(byte_after(s, 2) + s.x + 1) as int)) as int, s.a, 2),
{
    lemma_step_in_block(s);
    entry_81(s.get_single_operand().1);
    effect_81(s);
}

/// The opcode table's entry for 0x91.
proof fn entry_91(s1: CpuView)
    ensures
        s1.execute_80_bf(0x91) == (StepResult::Running, s1.sta_indexed_y()),
{
}

/// What the entry for 0x91 does, after the fetch.
#[verifier::spinoff_prover]
proof fn effect_91(s: CpuView)
    requires
        s.mem.len() == 0x10000,
    ensures
        stored_at(s, s.get_single_operand().1.sta_indexed_y(), wrap16(word(at(s, byte_after(s, 2) as int), at(s, wrap8(byte_after(s, 2) + 1) as int)) + s.y) as int, s.a, 2),
{
    let s1 = s.get_single_operand().1;
    let (lo, hi, s2) = s1.get_two_operands();
    assert(lo == byte_after(s, 2) && hi == byte_after(s, 3));
}

/// Opcode 0x91 (STA ind y) stores the accumulator at the address read from the zero page at the operand, plus Y.
pub proof fn lemma_opcode_91(s: CpuView)
    requires
        s.mem.len() == 0x10000,
        byte_after(s, 1) == 0x91,
    ensures
        s.step().0 == StepResult::Running,
        stored_at(s, s.step().1, wrap16(word(at(s, byte_after(s, 2) as int), at(s, wrap8(byte_after(s, 2) + 1) as int)) + s.y) as int, s.a, 2),
{
    lemma_step_in_block(s);
    entry_91(s.get_single_operand().1);
    effect_91(s);
}

/// The opcode table's entry for 0x86.
proof fn entry_86(s1: CpuView)
    ensures
        s1.execute_80_bf(0x86) == (StepResult::Running, s1.stx_zero_page()),
{
}

/// What the entry for 0x86 does, after the fetch.
#[verifier::spinoff_prover]
proof fn effect_86(s: CpuView)
    requires
        s.mem.len() == 0x10000,
    ensures
        stored_at(s, s.get_single_operand().1.stx_zero_page(), byte_after(s, 2) as int, s.x, 2),
{
    let s1 = s.get_single_operand().1;
    let (lo, hi, s2) = s1.get_two_operands();
    assert(lo == byte_after(s, 2) && hi == byte_after(s, 3));
}

/// Opcode 0x86 (STX zero page) stores X at the zero page address the operand names.
pub proof fn lemma_opcode_86(s: CpuView)
    requires
        s.mem.len() == 0x10000,
        byte_after(s, 1) == 0x86,
    ensures
        s.step().0 == StepResult::Running,
        stored_at(s, s.step().1, byte_after(s, 2) as int, s.x, 2),
{
    lemma_step_in_block(s);
    entry_86(s.get_single_operand().1);
    effect_86(s);
}

/// The opcode table's entry for 0x96.
proof fn entry_96(s1: CpuView)
    ensures
        s1.execute_80_bf(0x96) == (StepResult::Running, s1.stx_zero_page_y()),
{
}

/// What the entry for 0x96 does, after the fetch.
#[verifier::spinoff_prover]
proof fn effect_96(s: CpuView)
    requires
        s.mem.len() == 0x10000,
    ensures
        stored_at(s, s.get_single_operand().1.stx_zero_page_y(), wrap8(byte_after(s, 2) + s.y) as int, s.x, 2),
{
    let s1 = s.get_single_operand().1;
    let (lo, hi, s2) = s1.get_two_operands();
    assert(lo == byte_after(s, 2) && hi == byte_after(s, 3));
}

/// Opcode 0x96 (STX zp y) stores X at the zero page address at the operand plus Y, wrapping in the zero page.
pub proof fn lemma_opcode_96(s: CpuView)
    requires
        s.mem.len() == 0x10000,
        byte_after(s, 1) == 0x96,
    ensures
        s.step().0 == StepResult::Running,
        stored_at(s, s.step().1, wrap8(byte_after(s, 2) + s.y) as int, s.x, 2),
{
    lemma_step_in_block(s);
    entry_96(s.get_single_operand().1);
    effect_96(s);
}

/// The opcode table's entry for 0x8E.
proof fn entry_8e(s1: CpuView)
    ensures
        s1.execute_80_bf(0x8E) == (StepResult::Running, s1.stx_absolute()),
{
}

/// What the entry for 0x8E does, after the fetch.
#[verifier::spinoff_prover]
proof fn effect_8e(s: CpuView)
    requires
        s.mem.len() == 0x10000,
    ensures
        stored_at(s, s.get_single_operand().1.stx_absolute(), word(byte_after(s, 2), byte_after(s, 3)) as int, s.x, 3),
{
    let s1 = s.get_single_operand().1;
    let (lo, hi, s2) = s1.get_two_operands();
    assert(lo == byte_after(s, 2) && hi == byte_after(s, 3));
}

/// Opcode 0x8E (STX absolute) stores X at the absolute address the operands name.
pub proof fn lemma_opcode_8e(s: CpuView)
    requires
        s.mem.len() == 0x10000,
        byte_after(s, 1) == 0x8E,
    ensures
        s.step().0 == StepResult::Running,
        stored_at(s, s.step().1, word(byte_after(s, 2), byte_after(s, 3)) as int, s.x, 3),
{
    lemma_step_in_block(s);
    entry_8e(s.get_single_operand().1);
    effect_8e(s);
}

/// The opcode table's entry for 0x84.
proof fn entry_84(s1: CpuView)
    ensures
        s1.execute_80_bf(0x84) == (StepResult::Running, s1.sty_zero_page()),
{
}

/// What the entry for 0x84 does, after the fetch.
#[verifier::spinoff_prover]
proof fn effect_84(s: CpuView)
    requires
        s.mem.len() == 0x10000,
    ensures
        stored_at(s, s.get_single_operand().1.sty_zero_page(), byte_after(s, 2) as int, s.y, 2),
{
    let s1 = s.get_single_operand().1;
    let (lo, hi, s2) = s1.get_two_operands();
    assert(lo == byte_after(s, 2) && hi == byte_after(s, 3));
}

/// Opcode 0x84 (STY zero page) stores Y at the zero page address the operand names.
pub proof fn lemma_opcode_84(s: CpuView)
    requires
        s.mem.len() == 0x10000,
        byte_after(s, 1) == 0x84,
    ensures
        s.step().0 == StepResult::Running,
        stored_at(s, s.step().1, byte_after(s, 2) as int, s.y, 2),
{
    lemma_step_in_block(s);
    entry_84(s.get_single_operand().1);
    effect_84(s);
}

/// The opcode table's entry for 0x94.
proof fn entry_94(s1: CpuView)
    ensures
        s1.execute_80_bf(0x94) == (StepResult::Running, s1.sty_zero_page_x()),
{
}

/// What the entry for 0x94 does, after the fetch.
#[verifier::spinoff_prover]
proof fn effect_94(s: CpuView)
    requires
        s.mem.len() == 0x10000,
    ensures
        stored_at(s, s.get_single_operand().1.sty_zero_page_x(), wrap8(byte_after(s, 2) + s.x) as int, s.y, 2),
{
    let s1 = s.get_single_operand().1;
    let (lo, hi, s2) = s1.get_two_operands();
    assert(lo == byte_after(s, 2) && hi == byte_after(s, 3));
}

/// Opcode 0x94 (STY zp x) stores Y at the zero page address at the operand plus X, wrapping in the zero page.
pub proof fn lemma_opcode_94(s: CpuView)
    requires
        s.mem.len() == 0x10000,
        byte_after(s, 1) == 0x94,
    ensures
        s.step().0 == StepResult::Running,
        stored_at(s, s.step().1, wrap8(byte_after(s, 2) + s.x) as int, s.y, 2),
{
    lemma_step_in_block(s);
    entry_94(s.get_single_operand().1);
    effect_94(s);
}

/// The opcode table's entry for 0x8C.
proof fn entry_8c(s1: CpuView)
    ensures
        s1.execute_80_bf(0x8C) == (StepResult::Running, s1.sty_absolute()),
{
}

/// What the entry for 0x8C does, after the fetch.
#[verifier::spinoff_prover]
proof fn effect_8c(s: CpuView)
    requires
        s.mem.len() == 0x10000,
    ensures
        stored_at(s, s.get_single_operand().1.sty_absolute(), word(byte_after(s, 2), byte_after(s, 3)) as int, s.y, 3),
{
    let s1 = s.get_single_operand().1;
    let (lo, hi, s2) = s1.get_two_operands();
    assert(lo == byte_after(s, 2) && hi == byte_after(s, 3));
}

/// Opcode 0x8C (STY absolute) stores Y at the absolute address the operands name.
pub proof fn lemma_opcode_8c(s: CpuView)
    requires
        s.mem.len() == 0x10000,
        byte_after(s, 1) == 0x8C,
    ensures
        s.step().0 == StepResult::Running,
        stored_at(s, s.step().1, word(byte_after(s, 2), byte_after(s, 3)) as int, s.y, 3),
{
    lemma_step_in_block(s);
    entry_8c(s.get_single_operand().1);
    effect_8c(s);
}

/// Writing one flag sets that flag and leaves every other flag as it was.
pub proof fn lemma_flag_write(p: u8, f: StatusBit, on: bool)
    ensures
        forall|g: StatusBit| #[trigger]
            flag_of(with_flag(p, f, on), g) == if f == g {
                on
            } else {
                flag_of(p, g)
            },
{
    assert forall|g: StatusBit| #[trigger]
        flag_of(with_flag(p, f, on), g) == if f == g {
            on
        } else {
            flag_of(p, g)
        } by {
        lemma_flag_read_after_write(p, f, on, g);
    }
}

/// Whether a signed byte sum or difference falls outside -128 to 127.
pub open spec fn out_of_signed_range(n: int) -> bool {
    n < -128 || n > 127
}

/// What binary ADC of `v` leaves in `t`: the accumulator is the old one
/// plus `v` plus the carry, modulo 256; carry is the carry out of bit 7,
/// overflow says the signed sum does not fit a signed byte, negative and
/// zero come from the new accumulator; the other registers, memory and the
/// decimal and interrupt flags are kept.
pub open spec fn added(s: CpuView, t: CpuView, v: u8) -> bool {
    let c: int = if flag_of(s.p, StatusBit::Carry) {
        1
    } else {
        0
    };
    let sum = s.a + v + c;
    &&& t.a == sum % 256
    &&& flag_of(t.p, StatusBit::Carry) == (sum > 255)
    &&& flag_of(t.p, StatusBit::Overflow) == out_of_signed_range(signed8(s.a) + signed8(v) + c)
    &&& flag_of(t.p, StatusBit::Negative) == (t.a >= 0x80)
    &&& flag_of(t.p, StatusBit::Zero) == (t.a == 0)
    &&& flag_of(t.p, StatusBit::Decimal) == flag_of(s.p, StatusBit::Decimal)
    &&& flag_of(t.p, StatusBit::Interrupt) == flag_of(s.p, StatusBit::Interrupt)
    &&& t.x == s.x && t.y == s.y && t.sp == s.sp && t.mem == s.mem
}

/// What binary SBC of `v` leaves in `t`: the accumulator is the old one
/// less `v` less the borrow (the clear carry), modulo 256; carry is set
/// exactly when nothing is borrowed, overflow says the signed difference
/// does not fit a signed byte, negative and zero come from the new
/// accumulator; the other registers, memory and the decimal and interrupt
/// flags are kept.
pub open spec fn subtracted(s: CpuView, t: CpuView, v: u8) -> bool {
    let b: int = if flag_of(s.p, StatusBit::Carry) {
        0
    } else {
        1
    };
    let d = s.a - v - b;
    &&& t.a == d % 256
    &&& flag_of(t.p, StatusBit::Carry) == (d >= 0)
    &&& flag_of(t.p, StatusBit::Overflow) == out_of_signed_range(signed8(s.a) - signed8(v) - b)
    &&& flag_of(t.p, StatusBit::Negative) == (t.a >= 0x80)
    &&& flag_of(t.p, StatusBit::Zero) == (t.a == 0)
    &&& flag_of(t.p, StatusBit::Decimal) == flag_of(s.p, StatusBit::Decimal)
    &&& flag_of(t.p, StatusBit::Interrupt) == flag_of(s.p, StatusBit::Interrupt)
    &&& t.x == s.x && t.y == s.y && t.sp == s.sp && t.mem == s.mem
}

/// Binary ADC adds as `added` says, and leaves the counter.
pub proof fn lemma_adc_binary(s: CpuView, v: u8)
    requires
        !flag_of(s.p, StatusBit::Decimal),
    ensures
        added(s, s.adc(v), v),
        s.adc(v).pc == s.pc,
{
    let c: int = if flag_of(s.p, StatusBit::Carry) {
        1
    } else {
        0
    };
    let sum = s.a + v + c;
    let r = wrap8(sum);
    let p1 = with_flag(s.p, StatusBit::Negative, r >= 0x80);
    let p2 = with_flag(p1, StatusBit::Overflow, add_overflow(s.a, v, r));
    let p3 = with_flag(p2, StatusBit::Zero, r == 0);
    lemma_flag_write(s.p, StatusBit::Negative, r >= 0x80);
    lemma_flag_write(p1, StatusBit::Overflow, add_overflow(s.a, v, r));
    lemma_flag_write(p2, StatusBit::Zero, r == 0);
    lemma_flag_write(p3, StatusBit::Carry, sum > 255);
}

/// Binary SBC subtracts as `subtracted` says, and leaves the counter.
pub proof fn lemma_sbc_binary(s: CpuView, v: u8)
    requires
        !flag_of(s.p, StatusBit::Decimal),
    ensures
        subtracted(s, s.sbc(v), v),
        s.sbc(v).pc == s.pc,
{
    let b: int = if flag_of(s.p, StatusBit::Carry) {
        0
    } else {
        1
    };
    let d = s.a - v - b;
    let r = wrap8(d);
    let p1 = with_flag(s.p, StatusBit::Negative, r >= 0x80);
    let p2 = with_flag(p1, StatusBit::Overflow, sub_overflow(s.a, v, r));
    let p3 = with_flag(p2, StatusBit::Zero, r == 0);
    lemma_flag_write(s.p, StatusBit::Negative, r >= 0x80);
    lemma_flag_write(p1, StatusBit::Overflow, sub_overflow(s.a, v, r));
    lemma_flag_write(p2, StatusBit::Zero, r == 0);
    lemma_flag_write(p3, StatusBit::Carry, d >= 0);
}

/// What a logical operation leaves in `t` when its result is `r`: the
/// accumulator holds `r`, negative and zero come from it, and the other
/// registers, memory and the other flags are kept.
pub open spec fn logic_result(s: CpuView, t: CpuView, r: u8) -> bool {
    &&& t.a == r
    &&& flag_of(t.p, StatusBit::Negative) == (r >= 0x80)
    &&& flag_of(t.p, StatusBit::Zero) == (r == 0)
    &&& flag_of(t.p, StatusBit::Carry) == flag_of(s.p, StatusBit::Carry)
    &&& flag_of(t.p, StatusBit::Overflow) == flag_of(s.p, StatusBit::Overflow)
    &&& flag_of(t.p, StatusBit::Decimal) == flag_of(s.p, StatusBit::Decimal)
    &&& flag_of(t.p, StatusBit::Interrupt) == flag_of(s.p, StatusBit::Interrupt)
    &&& t.x == s.x && t.y == s.y && t.sp == s.sp && t.mem == s.mem
}

/// AND, ORA and EOR put the bitwise AND, OR and exclusive OR of the
/// accumulator and the value into the accumulator; none moves the counter.
pub proof fn lemma_logic(s: CpuView, v: u8)
    ensures
        logic_result(s, s.and(v), s.a & v),
        logic_result(s, s.ora(v), s.a | v),
        logic_result(s, s.eor(v), s.a ^ v),
        s.and(v).pc == s.pc && s.ora(v).pc == s.pc && s.eor(v).pc == s.pc,
{
    lemma_nz_reads_all(s.p, s.a & v);
    lemma_nz_reads_all(s.p, s.a | v);
    lemma_nz_reads_all(s.p, s.a ^ v);
}

/// What a compare of register value `reg` with `v` leaves: zero exactly
/// when they are equal, carry exactly when the register is not below the
/// value, negative from bit 7 of their difference modulo 256, and the
/// registers, memory and the other flags as they were.
pub open spec fn compared(s: CpuView, t: CpuView, reg: u8, v: u8) -> bool {
    &&& flag_of(t.p, StatusBit::Zero) == (reg == v)
    &&& flag_of(t.p, StatusBit::Carry) == (reg >= v)
    &&& flag_of(t.p, StatusBit::Negative) == ((reg - v) % 256 >= 0x80)
    &&& flag_of(t.p, StatusBit::Overflow) == flag_of(s.p, StatusBit::Overflow)
    &&& flag_of(t.p, StatusBit::Decimal) == flag_of(s.p, StatusBit::Decimal)
    &&& flag_of(t.p, StatusBit::Interrupt) == flag_of(s.p, StatusBit::Interrupt)
    &&& t.a == s.a && t.x == s.x && t.y == s.y && t.sp == s.sp
    &&& t.mem == s.mem
}

proof fn lemma_compare_flags(s: CpuView, v: u8, reg: u8)
    ensures
        compared(s, s.generic_compare(v, reg), reg, v),
        s.generic_compare(v, reg).pc == s.pc,
{
    let r = wrap8(reg - v);
    let p1 = with_flag(s.p, StatusBit::Zero, r == 0);
    let p2 = with_flag(p1, StatusBit::Carry, reg >= v);
    lemma_flag_write(s.p, StatusBit::Zero, r == 0);
    lemma_flag_write(p1, StatusBit::Carry, reg >= v);
    lemma_flag_write(p2, StatusBit::Negative, r >= 0x80);
}

/// CMP compares the accumulator, CPX the X register and CPY the Y
/// register with the value; none moves the counter.
pub proof fn lemma_compares(s: CpuView, v: u8)
    ensures
        compared(s, s.cmp(v), s.a, v),
        compared(s, s.cpx(v), s.x, v),
        compared(s, s.cpy(v), s.y, v),
        s.cmp(v).pc == s.pc && s.cpx(v).pc == s.pc && s.cpy(v).pc == s.pc,
{
    lemma_compare_flags(s, v, s.a);
    lemma_compare_flags(s, v, s.x);
    lemma_compare_flags(s, v, s.y);
}

/// Whether the branch opcode `op` is taken with the flags `p`: BPL on
/// negative clear, BMI on negative set, BVC and BVS on overflow, BCC and
/// BCS on carry, BNE and BEQ on zero.
pub open spec fn branch_taken(op: u8, p: u8) -> bool {
    ||| op == 0x10 && !flag_of(p, StatusBit::Negative)
    ||| op == 0x30 && flag_of(p, StatusBit::Negative)
    ||| op == 0x50 && !flag_of(p, StatusBit::Overflow)
    ||| op == 0x70 && flag_of(p, StatusBit::Overflow)
    ||| op == 0x90 && !flag_of(p, StatusBit::Carry)
    ||| op == 0xB0 && flag_of(p, StatusBit::Carry)
    ||| op == 0xD0 && !flag_of(p, StatusBit::Zero)
    ||| op == 0xF0 && flag_of(p, StatusBit::Zero)
}

/// `t` is `s` after a branch whose offset is the byte `k` places after the
/// counter: the counter moves onto the offset, and on by the signed offset
/// when the branch is taken; registers, flags and memory are kept.
pub open spec fn branched(s: CpuView, t: CpuView, taken: bool, k: int) -> bool {
    &&& t.pc == (if taken {
        wrap16(s.pc + k + signed8(byte_after(s, k)))
    } else {
        wrap16(s.pc + k)
    })
    &&& t.a == s.a && t.x == s.x && t.y == s.y && t.sp == s.sp
    &&& t.p == s.p && t.mem == s.mem
}

/// Moving the counter up one and then by `n` is moving it by `n + 1`.
proof fn lemma_wrap16_shift(pc: u16, n: int)
    ensures
        wrap16(wrap16(pc + 1) + n) == wrap16(pc + 1 + n),
{
    let w = wrap16(pc + 1);
    assert(w == (pc + 1) % 0x10000);
    assert((w + n) % 0x10000 == (pc + 1 + n) % 0x10000) by (nonlinear_arith)
        requires
            w == (pc + 1) % 0x10000,
    ;
}

/// The opcode table's entry for 0x10.
proof fn entry_10(s1: CpuView)
    ensures
        s1.execute_00_3f(0x10) == (StepResult::Running, s1.bpl()),
{
}

/// BPL reads its offset after the counter and branches when
/// `branch_taken` says so.
pub proof fn lemma_bpl_branches(s: CpuView)
    ensures
        branched(s, s.bpl(), branch_taken(0x10, s.p), 1),
{
}

/// Opcode 0x10 (BPL) branches as `branch_taken` says.
#[verifier::spinoff_prover]
#[verifier::rlimit(30)]
pub proof fn lemma_opcode_10(s: CpuView)
    requires
        s.mem.len() == 0x10000,
        byte_after(s, 1) == 0x10,
    ensures
        s.step().0 == StepResult::Running,
        branched(s, s.step().1, branch_taken(0x10, s.p), 2),
{
    let s1 = s.get_single_operand().1;
    lemma_step_in_block(s);
    entry_10(s1);
    lemma_bpl_branches(s1);
    lemma_wrap16_shift(s.pc, 1);
    lemma_wrap16_shift(s.pc, 1 + signed8(byte_after(s, 2)));
    assert(byte_after(s1, 1) == byte_after(s, 2));
    assert(s1.p == s.p);
}

/// The opcode table's entry for 0x30.
proof fn entry_30(s1: CpuView)
    ensures
        s1.execute_00_3f(0x30) == (StepResult::Running, s1.bmi()),
{
}

/// BMI reads its offset after the counter and branches when
/// `branch_taken` says so.
pub proof fn lemma_bmi_branches(s: CpuView)
    ensures
        branched(s, s.bmi(), branch_taken(0x30, s.p), 1),
{
}

/// Opcode 0x30 (BMI) branches as `branch_taken` says.
#[verifier::spinoff_prover]
#[verifier::rlimit(30)]
pub proof fn lemma_opcode_30(s: CpuView)
    requires
        s.mem.len() == 0x10000,
        byte_after(s, 1) == 0x30,
    ensures
        s.step().0 == StepResult::Running,
        branched(s, s.step().1, branch_taken(0x30, s.p), 2),
{
    let s1 = s.get_single_operand().1;
    lemma_step_in_block(s);
    entry_30(s1);
    lemma_bmi_branches(s1);
    lemma_wrap16_shift(s.pc, 1);
    lemma_wrap16_shift(s.pc, 1 + signed8(byte_after(s, 2)));
    assert(byte_after(s1, 1) == byte_after(s, 2));
    assert(s1.p == s.p);
}

/// The opcode table's entry for 0x50.
proof fn entry_50(s1: CpuView)
    ensures
        s1.execute_40_7f(0x50) == (StepResult::Running, s1.bvc()),
{
}

/// BVC reads its offset after the counter and branches when
/// `branch_taken` says so.
pub proof fn lemma_bvc_branches(s: CpuView)
    ensures
        branched(s, s.bvc(), branch_taken(0x50, s.p), 1),
{
}

/// Opcode 0x50 (BVC) branches as `branch_taken` says.
#[verifier::spinoff_prover]
#[verifier::rlimit(30)]
pub proof fn lemma_opcode_50(s: CpuView)
    requires
        s.mem.len() == 0x10000,
        byte_after(s, 1) == 0x50,
    ensures
        s.step().0 == StepResult::Running,
        branched(s, s.step().1, branch_taken(0x50, s.p), 2),
{
    let s1 = s.get_single_operand().1;
    lemma_step_in_block(s);
    entry_50(s1);
    lemma_bvc_branches(s1);
    lemma_wrap16_shift(s.pc, 1);
    lemma_wrap16_shift(s.pc, 1 + signed8(byte_after(s, 2)));
    assert(byte_after(s1, 1) == byte_after(s, 2));
    assert(s1.p == s.p);
}

/// The opcode table's entry for 0x70.
proof fn entry_70(s1: CpuView)
    ensures
        s1.execute_40_7f(0x70) == (StepResult::Running, s1.bvs()),
{
}

/// BVS reads its offset after the counter and branches when
/// `branch_taken` says so.
pub proof fn lemma_bvs_branches(s: CpuView)
    ensures
        branched(s, s.bvs(), branch_taken(0x70, s.p), 1),
{
}

/// Opcode 0x70 (BVS) branches as `branch_taken` says.
#[verifier::spinoff_prover]
#[verifier::rlimit(30)]
pub proof fn lemma_opcode_70(s: CpuView)
    requires
        s.mem.len() == 0x10000,
        byte_after(s, 1) == 0x70,
    ensures
        s.step().0 == StepResult::Running,
        branched(s, s.step().1, branch_taken(0x70, s.p), 2),
{
    let s1 = s.get_single_operand().1;
    lemma_step_in_block(s);
    entry_70(s1);
    lemma_bvs_branches(s1);
    lemma_wrap16_shift(s.pc, 1);
    lemma_wrap16_shift(s.pc, 1 + signed8(byte_after(s, 2)));
    assert(byte_after(s1, 1) == byte_after(s, 2));
    assert(s1.p == s.p);
}

/// The opcode table's entry for 0x90.
proof fn entry_90(s1: CpuView)
    ensures
        s1.execute_80_bf(0x90) == (StepResult::Running, s1.bcc()),
{
}

/// BCC reads its offset after the counter and branches when
/// `branch_taken` says so.
pub proof fn lemma_bcc_branches(s: CpuView)
    ensures
        branched(s, s.bcc(), branch_taken(0x90, s.p), 1),
{
}

/// Opcode 0x90 (BCC) branches as `branch_taken` says.
#[verifier::spinoff_prover]
#[verifier::rlimit(30)]
pub proof fn lemma_opcode_90(s: CpuView)
    requires
        s.mem.len() == 0x10000,
        byte_after(s, 1) == 0x90,
    ensures
        s.step().0 == StepResult::Running,
        branched(s, s.step().1, branch_taken(0x90, s.p), 2),
{
    let s1 = s.get_single_operand().1;
    lemma_step_in_block(s);
    entry_90(s1);
    lemma_bcc_branches(s1);
    lemma_wrap16_shift(s.pc, 1);
    lemma_wrap16_shift(s.pc, 1 + signed8(byte_after(s, 2)));
    assert(byte_after(s1, 1) == byte_after(s, 2));
    assert(s1.p == s.p);
}

/// The opcode table's entry for 0xB0.
proof fn entry_b0(s1: CpuView)
    ensures
        s1.execute_80_bf(0xB0) == (StepResult::Running, s1.bcs()),
{
}

/// BCS reads its offset after the counter and branches when
/// `branch_taken` says so.
pub proof fn lemma_bcs_branches(s: CpuView)
    ensures
        branched(s, s.bcs(), branch_taken(0xB0, s.p), 1),
{
}

/// Opcode 0xB0 (BCS) branches as `branch_taken` says.
#[verifier::spinoff_prover]
#[verifier::rlimit(30)]
pub proof fn lemma_opcode_b0(s: CpuView)
    requires
        s.mem.len() == 0x10000,
        byte_after(s, 1) == 0xB0,
    ensures
        s.step().0 == StepResult::Running,
        branched(s, s.step().1, branch_taken(0xB0, s.p), 2),
{
    let s1 = s.get_single_operand().1;
    lemma_step_in_block(s);
    entry_b0(s1);
    lemma_bcs_branches(s1);
    lemma_wrap16_shift(s.pc, 1);
    lemma_wrap16_shift(s.pc, 1 + signed8(byte_after(s, 2)));
    assert(byte_after(s1, 1) == byte_after(s, 2));
    assert(s1.p == s.p);
}

/// The opcode table's entry for 0xD0.
proof fn entry_d0(s1: CpuView)
    ensures
        s1.execute_c0_ff(0xD0) == (StepResult::Running, s1.bne()),
{
}

/// BNE reads its offset after the counter and branches when
/// `branch_taken` says so.
pub proof fn lemma_bne_branches(s: CpuView)
    ensures
        branched(s, s.bne(), branch_taken(0xD0, s.p), 1),
{
}

/// Opcode 0xD0 (BNE) branches as `branch_taken` says.
#[verifier::spinoff_prover]
#[verifier::rlimit(30)]
pub proof fn lemma_opcode_d0(s: CpuView)
    requires
        s.mem.len() == 0x10000,
        byte_after(s, 1) == 0xD0,
    ensures
        s.step().0 == StepResult::Running,
        branched(s, s.step().1, branch_taken(0xD0, s.p), 2),
{
    let s1 = s.get_single_operand().1;
    lemma_step_in_block(s);
    entry_d0(s1);
    lemma_bne_branches(s1);
    lemma_wrap16_shift(s.pc, 1);
    lemma_wrap16_shift(s.pc, 1 + signed8(byte_after(s, 2)));
    assert(byte_after(s1, 1) == byte_after(s, 2));
    assert(s1.p == s.p);
}

/// The opcode table's entry for 0xF0.
proof fn entry_f0(s1: CpuView)
    ensures
        s1.execute_c0_ff(0xF0) == (StepResult::Running, s1.beq()),
{
}

/// BEQ reads its offset after the counter and branches when
/// `branch_taken` says so.
pub proof fn lemma_beq_branches(s: CpuView)
    ensures
        branched(s, s.beq(), branch_taken(0xF0, s.p), 1),
{
}

/// Opcode 0xF0 (BEQ) branches as `branch_taken` says.
#[verifier::spinoff_prover]
#[verifier::rlimit(30)]
pub proof fn lemma_opcode_f0(s: CpuView)
    requires
        s.mem.len() == 0x10000,
        byte_after(s, 1) == 0xF0,
    ensures
        s.step().0 == StepResult::Running,
        branched(s, s.step().1, branch_taken(0xF0, s.p), 2),
{
    let s1 = s.get_single_operand().1;
    lemma_step_in_block(s);
    entry_f0(s1);
    lemma_beq_branches(s1);
    lemma_wrap16_shift(s.pc, 1);
    lemma_wrap16_shift(s.pc, 1 + signed8(byte_after(s, 2)));
    assert(byte_after(s1, 1) == byte_after(s, 2));
    assert(s1.p == s.p);
}

/// The opcode table's entry for 0x01.
proof fn entry_01(s1: CpuView)
    ensures
        s1.execute_00_3f(0x01) == (StepResult::Running, s1.indexed_x_cb(ReadOp::Ora)),
{
}

/// What the entry for 0x01 does, after the fetch.
#[verifier::spinoff_prover]
#[verifier::rlimit(40)]
proof fn effect_01(s: CpuView)
    requires
        s.mem.len() == 0x10000,
        true,
    ensures
        logic_result(s, s.get_single_operand().1.indexed_x_cb(ReadOp::Ora), s.a | at(s, word(at(s, wrap8(byte_after(s, 2) + s.x) as int), at(s, wrap8(byte_after(s, 2) + s.x + 1) as int)) as int)),
        s.get_single_operand().1.indexed_x_cb(ReadOp::Ora).pc == wrap16(s.pc + 2),
{
    let s1 = s.get_single_operand().1;
    let (_i, v, s2) = s1.indexed_x();
    let op = s1.get_single_operand().0;
    assert(op == byte_after(s, 2));
    assert(wrap8(wrap8(op + s.x) + 1) == wrap8(op + s.x + 1));
    assert(v == at(s, word(at(s, wrap8(byte_after(s, 2) + s.x) as int), at(s, wrap8(byte_after(s, 2) + s.x + 1) as int)) as int));
    lemma_logic(s2, v);
}

/// Opcode 0x01 (ORA indexed x) ORs the byte at the address read from the zero page at the operand plus X into the accumulator.
pub proof fn lemma_opcode_01(s: CpuView)
    requires
        s.mem.len() == 0x10000,
        byte_after(s, 1) == 0x01,
        true,
    ensures
        s.step().0 == StepResult::Running,
        logic_result(s, s.step().1, s.a | at(s, word(at(s, wrap8(byte_after(s, 2) + s.x) as int), at(s, wrap8(byte_after(s, 2) + s.x + 1) as int)) as int)),
        s.step().1.pc == wrap16(s.pc + 2),
{
    lemma_step_in_block(s);
    entry_01(s.get_single_operand().1);
    effect_01(s);
}

/// The opcode table's entry for 0x05.
proof fn entry_05(s1: CpuView)
    ensures
        s1.execute_00_3f(0x05) == (StepResult::Running, s1.zero_page_cb(ReadOp::Ora)),
{
}

/// What the entry for 0x05 does, after the fetch.
#[verifier::spinoff_prover]
#[verifier::rlimit(40)]
proof fn effect_05(s: CpuView)
    requires
        s.mem.len() == 0x10000,
        true,
    ensures
        logic_result(s, s.get_single_operand().1.zero_page_cb(ReadOp::Ora), s.a | at(s, byte_after(s, 2) as int)),
        s.get_single_operand().1.zero_page_cb(ReadOp::Ora).pc == wrap16(s.pc + 2),
{
    let s1 = s.get_single_operand().1;
    let (_i, v, s2) = s1.zero_page();
    lemma_logic(s2, v);
}

/// Opcode 0x05 (ORA zero page) ORs the zero page byte the operand names into the accumulator.
pub proof fn lemma_opcode_05(s: CpuView)
    requires
        s.mem.len() == 0x10000,
        byte_after(s, 1) == 0x05,
        true,
    ensures
        s.step().0 == StepResult::Running,
        logic_result(s, s.step().1, s.a | at(s, byte_after(s, 2) as int)),
        s.step().1.pc == wrap16(s.pc + 2),
{
    lemma_step_in_block(s);
    entry_05(s.get_single_operand().1);
    effect_05(s);
}

/// The opcode table's entry for 0x09.
proof fn entry_09(s1: CpuView)
    ensures
        s1.execute_00_3f(0x09) == (StepResult::Running, s1.immediate_cb(ReadOp::Ora)),
{
}

/// What the entry for 0x09 does, after the fetch.
#[verifier::spinoff_prover]
#[verifier::rlimit(40)]
proof fn effect_09(s: CpuView)
    requires
        s.mem.len() == 0x10000,
        true,
    ensures
        logic_result(s, s.get_single_operand().1.immediate_cb(ReadOp::Ora), s.a | byte_after(s, 2)),
        s.get_single_operand().1.immediate_cb(ReadOp::Ora).pc == wrap16(s.pc + 2),
{
    let s1 = s.get_single_operand().1;
    let (v, s2) = s1.immediate();
    lemma_logic(s2, v);
}

/// Opcode 0x09 (ORA immediate) ORs the byte after the opcode into the accumulator.
pub proof fn lemma_opcode_09(s: CpuView)
    requires
        s.mem.len() == 0x10000,
        byte_after(s, 1) == 0x09,
        true,
    ensures
        s.step().0 == StepResult::Running,
        logic_result(s, s.step().1, s.a | byte_after(s, 2)),
        s.step().1.pc == wrap16(s.pc + 2),
{
    lemma_step_in_block(s);
    entry_09(s.get_single_operand().1);
    effect_09(s);
}

/// The opcode table's entry for 0x0D.
proof fn entry_0d(s1: CpuView)
    ensures
        s1.execute_00_3f(0x0D) == (StepResult::Running, s1.absolute_cb(ReadOp::Ora)),
{
}

/// What the entry for 0x0D does, after the fetch.
#[verifier::spinoff_prover]
#[verifier::rlimit(40)]
proof fn effect_0d(s: CpuView)
    requires
        s.mem.len() == 0x10000,
        true,
    ensures
        logic_result(s, s.get_single_operand().1.absolute_cb(ReadOp::Ora), s.a | at(s, word(byte_after(s, 2), byte_after(s, 3)) as int)),
        s.get_single_operand().1.absolute_cb(ReadOp::Ora).pc == wrap16(s.pc + 3),
{
    let s1 = s.get_single_operand().1;
    let (_i, v, s2) = s1.absolute();
    let (lo, hi, s3) = s1.get_two_operands();
    assert(lo == byte_after(s, 2) && hi == byte_after(s, 3));
    lemma_logic(s2, v);
}

/// Opcode 0x0D (ORA absolute) ORs the byte at the absolute address into the accumulator.
pub proof fn lemma_opcode_0d(s: CpuView)
    requires
        s.mem.len() == 0x10000,
        byte_after(s, 1) == 0x0D,
        true,
    ensures
        s.step().0 == StepResult::Running,
        logic_result(s, s.step().1, s.a | at(s, word(byte_after(s, 2), byte_after(s, 3)) as int)),
        s.step().1.pc == wrap16(s.pc + 3),
{
    lemma_step_in_block(s);
    entry_0d(s.get_single_operand().1);
    effect_0d(s);
}

/// The opcode table's entry for 0x11.
proof fn entry_11(s1: CpuView)
    ensures
        s1.execute_00_3f(0x11) == (StepResult::Running, s1.indexed_y_cb(ReadOp::Ora)),
{
}

/// What the entry for 0x11 does, after the fetch.
#[verifier::spinoff_prover]
#[verifier::rlimit(40)]
proof fn effect_11(s: CpuView)
    requires
        s.mem.len() == 0x10000,
        true,
    ensures
        logic_result(s, s.get_single_operand().1.indexed_y_cb(ReadOp::Ora), s.a | at(s, wrap16(word(at(s, byte_after(s, 2) as int), at(s, wrap8(byte_after(s, 2) + 1) as int)) + s.y) as int)),
        s.get_single_operand().1.indexed_y_cb(ReadOp::Ora).pc == wrap16(s.pc + 2),
{
    let s1 = s.get_single_operand().1;
    let (_i, v, s2) = s1.indexed_y();
    let op = s1.get_single_operand().0;
    assert(op == byte_after(s, 2));
    assert(v == at(s, wrap16(word(at(s, byte_after(s, 2) as int), at(s, wrap8(byte_after(s, 2) + 1) as int)) + s.y) as int));
    lemma_logic(s2, v);
}

/// Opcode 0x11 (ORA indexed y) ORs the byte at the address read from the zero page at the operand, plus Y into the accumulator.
pub proof fn lemma_opcode_11(s: CpuView)
    requires
        s.mem.len() == 0x10000,
        byte_after(s, 1) == 0x11,
        true,
    ensures
        s.step().0 == StepResult::Running,
        logic_result(s, s.step().1, s.a | at(s, wrap16(word(at(s, byte_after(s, 2) as int), at(s, wrap8(byte_after(s, 2) + 1) as int)) + s.y) as int)),
        s.step().1.pc == wrap16(s.pc + 2),
{
    lemma_step_in_block(s);
    entry_11(s.get_single_operand().1);
    effect_11(s);
}

/// The opcode table's entry for 0x15.
proof fn entry_15(s1: CpuView)
    ensures
        s1.execute_00_3f(0x15) == (StepResult::Running, s1.zp_reg_cb(s1.x, ReadOp::Ora)),
{
}

/// What the entry for 0x15 does, after the fetch.
#[verifier::spinoff_prover]
#[verifier::rlimit(40)]
proof fn effect_15(s: CpuView)
    requires
        s.mem.len() == 0x10000,
        true,
    ensures
        logic_result(s, s.get_single_operand().1.zp_reg_cb(s.get_single_operand().1.x, ReadOp::Ora), s.a | at(s, wrap8(byte_after(s, 2) + s.x) as int)),
        s.get_single_operand().1.zp_reg_cb(s.get_single_operand().1.x, ReadOp::Ora).pc == wrap16(s.pc + 2),
{
    let s1 = s.get_single_operand().1;
    let (_i, v, s2) = s1.zp_reg(s1.x);
    lemma_logic(s2, v);
}

/// Opcode 0x15 (ORA zp x) ORs the zero page byte at the operand plus X into the accumulator.
pub proof fn lemma_opcode_15(s: CpuView)
    requires
        s.mem.len() == 0x10000,
        byte_after(s, 1) == 0x15,
        true,
    ensures
        s.step().0 == StepResult::Running,
        logic_result(s, s.step().1, s.a | at(s, wrap8(byte_after(s, 2) + s.x) as int)),
        s.step().1.pc == wrap16(s.pc + 2),
{
    lemma_step_in_block(s);
    entry_15(s.get_single_operand().1);
    effect_15(s);
}

/// The opcode table's entry for 0x19.
proof fn entry_19(s1: CpuView)
    ensures
        s1.execute_00_3f(0x19) == (StepResult::Running, s1.absolute_y_cb(ReadOp::Ora)),
{
}

/// What the entry for 0x19 does, after the fetch.
#[verifier::spinoff_prover]
#[verifier::rlimit(40)]
proof fn effect_19(s: CpuView)
    requires
        s.mem.len() == 0x10000,
        true,
    ensures
        logic_result(s, s.get_single_operand().1.absolute_y_cb(ReadOp::Ora), s.a | at(s, wrap16(word(byte_after(s, 2), byte_after(s, 3)) + s.y) as int)),
        s.get_single_operand().1.absolute_y_cb(ReadOp::Ora).pc == wrap16(s.pc + 3),
{
    let s1 = s.get_single_operand().1;
    let (_i, v, s2) = s1.absolute_reg(s1.y);
    let (lo, hi, s3) = s1.get_two_operands();
    assert(lo == byte_after(s, 2) && hi == byte_after(s, 3));
    lemma_logic(s2, v);
}

/// Opcode 0x19 (ORA absolute y) ORs the byte at the absolute address plus Y into the accumulator.
pub proof fn lemma_opcode_19(s: CpuView)
    requires
        s.mem.len() == 0x10000,
        byte_after(s, 1) == 0x19,
        true,
    ensures
        s.step().0 == StepResult::Running,
        logic_result(s, s.step().1, s.a | at(s, wrap16(word(byte_after(s, 2), byte_after(s, 3)) + s.y) as int)),
        s.step().1.pc == wrap16(s.pc + 3),
{
    lemma_step_in_block(s);
    entry_19(s.get_single_operand().1);
    effect_19(s);
}

/// The opcode table's entry for 0x1D.
proof fn entry_1d(s1: CpuView)
    ensures
        s1.execute_00_3f(0x1D) == (StepResult::Running, s1.absolute_x_cb(ReadOp::Ora)),
{
}

/// What the entry for 0x1D does, after the fetch.
#[verifier::spinoff_prover]
#[verifier::rlimit(40)]
proof fn effect_1d(s: CpuView)
    requires
        s.mem.len() == 0x10000,
        true,
    ensures
        logic_result(s, s.get_single_operand().1.absolute_x_cb(ReadOp::Ora), s.a | at(s, wrap16(word(byte_after(s, 2), byte_after(s, 3)) + s.x) as int)),
        s.get_single_operand().1.absolute_x_cb(ReadOp::Ora).pc == wrap16(s.pc + 3),
{
    let s1 = s.get_single_operand().1;
    let (_i, v, s2) = s1.absolute_reg(s1.x);
    let (lo, hi, s3) = s1.get_two_operands();
    assert(lo == byte_after(s, 2) && hi == byte_after(s, 3));
    lemma_logic(s2, v);
}

/// Opcode 0x1D (ORA absolute x) ORs the byte at the absolute address plus X into the accumulator.
pub proof fn lemma_opcode_1d(s: CpuView)
    requires
        s.mem.len() == 0x10000,
        byte_after(s, 1) == 0x1D,
        true,
    ensures
        s.step().0 == StepResult::Running,
        logic_result(s, s.step().1, s.a | at(s, wrap16(word(byte_after(s, 2), byte_after(s, 3)) + s.x) as int)),
        s.step().1.pc == wrap16(s.pc + 3),
{
    lemma_step_in_block(s);
    entry_1d(s.get_single_operand().1);
    effect_1d(s);
}

/// The opcode table's entry for 0x21.
proof fn entry_21(s1: CpuView)
    ensures
        s1.execute_00_3f(0x21) == (StepResult::Running, s1.indexed_x_cb(ReadOp::And)),
{
}

/// What the entry for 0x21 does, after the fetch.
#[verifier::spinoff_prover]
#[verifier::rlimit(40)]
proof fn effect_21(s: CpuView)
    requires
        s.mem.len() == 0x10000,
        true,
    ensures
        logic_result(s, s.get_single_operand().1.indexed_x_cb(ReadOp::And), s.a & at(s, word(at(s, wrap8(byte_after(s, 2) + s.x) as int), at(s, wrap8(byte_after(s, 2) + s.x + 1) as int)) as int)),
        s.get_single_operand().1.indexed_x_cb(ReadOp::And).pc == wrap16(s.pc + 2),
{
    let s1 = s.get_single_operand().1;
    let (_i, v, s2) = s1.indexed_x();
    let op = s1.get_single_operand().0;
    assert(op == byte_after(s, 2));
    assert(wrap8(wrap8(op + s.x) + 1) == wrap8(op + s.x + 1));
    assert(v == at(s, word(at(s, wrap8(byte_after(s, 2) + s.x) as int), at(s, wrap8(byte_after(s, 2) + s.x + 1) as int)) as int));
    lemma_logic(s2, v);
}

/// Opcode 0x21 (AND indexed x) ANDs the byte at the address read from the zero page at the operand plus X into the accumulator.
pub proof fn lemma_opcode_21(s: CpuView)
    requires
        s.mem.len() == 0x10000,
        byte_after(s, 1) == 0x21,
        true,
    ensures
        s.step().0 == StepResult::Running,
        logic_result(s, s.step().1, s.a & at(s, word(at(s, wrap8(byte_after(s, 2) + s.x) as int), at(s, wrap8(byte_after(s, 2) + s.x + 1) as int)) as int)),
        s.step().1.pc == wrap16(s.pc + 2),
{
    lemma_step_in_block(s);
    entry_21(s.get_single_operand().1);
    effect_21(s);
}

/// The opcode table's entry for 0x25.
proof fn entry_25(s1: CpuView)
    ensures
        s1.execute_00_3f(0x25) == (StepResult::Running, s1.zero_page_cb(ReadOp::And)),
{
}

/// What the entry for 0x25 does, after the fetch.
#[verifier::spinoff_prover]
#[verifier::rlimit(40)]
proof fn effect_25(s: CpuView)
    requires
        s.mem.len() == 0x10000,
        true,
    ensures
        logic_result(s, s.get_single_operand().1.zero_page_cb(ReadOp::And), s.a & at(s, byte_after(s, 2) as int)),
        s.get_single_operand().1.zero_page_cb(ReadOp::And).pc == wrap16(s.pc + 2),
{
    let s1 = s.get_single_operand().1;
    let (_i, v, s2) = s1.zero_page();
    lemma_logic(s2, v);
}

/// Opcode 0x25 (AND zero page) ANDs the zero page byte the operand names into the accumulator.
pub proof fn lemma_opcode_25(s: CpuView)
    requires
        s.mem.len() == 0x10000,
        byte_after(s, 1) == 0x25,
        true,
    ensures
        s.step().0 == StepResult::Running,
        logic_result(s, s.step().1, s.a & at(s, byte_after(s, 2) as int)),
        s.step().1.pc == wrap16(s.pc + 2),
{
    lemma_step_in_block(s);
    entry_25(s.get_single_operand().1);
    effect_25(s);
}

/// The opcode table's entry for 0x29.
proof fn entry_29(s1: CpuView)
    ensures
        s1.execute_00_3f(0x29) == (StepResult::Running, s1.immediate_cb(ReadOp::And)),
{
}

/// What the entry for 0x29 does, after the fetch.
#[verifier::spinoff_prover]
#[verifier::rlimit(40)]
proof fn effect_29(s: CpuView)
    requires
        s.mem.len() == 0x10000,
        true,
    ensures
        logic_result(s, s.get_single_operand().1.immediate_cb(ReadOp::And), s.a & byte_after(s, 2)),
        s.get_single_operand().1.immediate_cb(ReadOp::And).pc == wrap16(s.pc + 2),
{
    let s1 = s.get_single_operand().1;
    let (v, s2) = s1.immediate();
    lemma_logic(s2, v);
}

/// Opcode 0x29 (AND immediate) ANDs the byte after the opcode into the accumulator.
pub proof fn lemma_opcode_29(s: CpuView)
    requires
        s.mem.len() == 0x10000,
        byte_after(s, 1) == 0x29,
        true,
    ensures
        s.step().0 == StepResult::Running,
        logic_result(s, s.step().1, s.a & byte_after(s, 2)),
        s.step().1.pc == wrap16(s.pc + 2),
{
    lemma_step_in_block(s);
    entry_29(s.get_single_operand().1);
    effect_29(s);
}

/// The opcode table's entry for 0x2D.
proof fn entry_2d(s1: CpuView)
    ensures
        s1.execute_00_3f(0x2D) == (StepResult::Running, s1.absolute_cb(ReadOp::And)),
{
}

/// What the entry for 0x2D does, after the fetch.
#[verifier::spinoff_prover]
#[verifier::rlimit(40)]
proof fn effect_2d(s: CpuView)
    requires
        s.mem.len() == 0x10000,
        true,
    ensures
        logic_result(s, s.get_single_operand().1.absolute_cb(ReadOp::And), s.a & at(s, word(byte_after(s, 2), byte_after(s, 3)) as int)),
        s.get_single_operand().1.absolute_cb(ReadOp::And).pc == wrap16(s.pc + 3),
{
    let s1 = s.get_single_operand().1;
    let (_i, v, s2) = s1.absolute();
    let (lo, hi, s3) = s1.get_two_operands();
    assert(lo == byte_after(s, 2) && hi == byte_after(s, 3));
    lemma_logic(s2, v);
}

/// Opcode 0x2D (AND absolute) ANDs the byte at the absolute address into the accumulator.
pub proof fn lemma_opcode_2d(s: CpuView)
    requires
        s.mem.len() == 0x10000,
        byte_after(s, 1) == 0x2D,
        true,
    ensures
        s.step().0 == StepResult::Running,
        logic_result(s, s.step().1, s.a & at(s, word(byte_after(s, 2), byte_after(s, 3)) as int)),
        s.step().1.pc == wrap16(s.pc + 3),
{
    lemma_step_in_block(s);
    entry_2d(s.get_single_operand().1);
    effect_2d(s);
}

/// The opcode table's entry for 0x31.
proof fn entry_31(s1: CpuView)
    ensures
        s1.execute_00_3f(0x31) == (StepResult::Running, s1.indexed_y_cb(ReadOp::And)),
{
}

/// What the entry for 0x31 does, after the fetch.
#[verifier::spinoff_prover]
#[verifier::rlimit(40)]
proof fn effect_31(s: CpuView)
    requires
        s.mem.len() == 0x10000,
        true,
    ensures
        logic_result(s, s.get_single_operand().1.indexed_y_cb(ReadOp::And), s.a & at(s, wrap16(word(at(s, byte_after(s, 2) as int), at(s, wrap8(byte_after(s, 2) + 1) as int)) + s.y) as int)),
        s.get_single_operand().1.indexed_y_cb(ReadOp::And).pc == wrap16(s.pc + 2),
{
    let s1 = s.get_single_operand().1;
    let (_i, v, s2) = s1.indexed_y();
    let op = s1.get_single_operand().0;
    assert(op == byte_after(s, 2));
    assert(v == at(s, wrap16(word(at(s, byte_after(s, 2) as int), at(s, wrap8(byte_after(s, 2) + 1) as int)) + s.y) as int));
    lemma_logic(s2, v);
}

/// Opcode 0x31 (AND indexed y) ANDs the byte at the address read from the zero page at the operand, plus Y into the accumulator.
pub proof fn lemma_opcode_31(s: CpuView)
    requires
        s.mem.len() == 0x10000,
        byte_after(s, 1) == 0x31,
        true,
    ensures
        s.step().0 == StepResult::Running,
        logic_result(s, s.step().1, s.a & at(s, wrap16(word(at(s, byte_after(s, 2) as int), at(s, wrap8(byte_after(s, 2) + 1) as int)) + s.y) as int)),
        s.step().1.pc == wrap16(s.pc + 2),
{
    lemma_step_in_block(s);
    entry_31(s.get_single_operand().1);
    effect_31(s);
}

/// The opcode table's entry for 0x35.
proof fn entry_35(s1: CpuView)
    ensures
        s1.execute_00_3f(0x35) == (StepResult::Running, s1.zp_reg_cb(s1.x, ReadOp::And)),
{
}

/// What the entry for 0x35 does, after the fetch.
#[verifier::spinoff_prover]
#[verifier::rlimit(40)]
proof fn effect_35(s: CpuView)
    requires
        s.mem.len() == 0x10000,
        true,
    ensures
        logic_result(s, s.get_single_operand().1.zp_reg_cb(s.get_single_operand().1.x, ReadOp::And), s.a & at(s, wrap8(byte_after(s, 2) + s.x) as int)),
        s.get_single_operand().1.zp_reg_cb(s.get_single_operand().1.x, ReadOp::And).pc == wrap16(s.pc + 2),
{
    let s1 = s.get_single_operand().1;
    let (_i, v, s2) = s1.zp_reg(s1.x);
    lemma_logic(s2, v);
}

/// Opcode 0x35 (AND zp x) ANDs the zero page byte at the operand plus X into the accumulator.
pub proof fn lemma_opcode_35(s: CpuView)
    requires
        s.mem.len() == 0x10000,
        byte_after(s, 1) == 0x35,
        true,
    ensures
        s.step().0 == StepResult::Running,
        logic_result(s, s.step().1, s.a & at(s, wrap8(byte_after(s, 2) + s.x) as int)),
        s.step().1.pc == wrap16(s.pc + 2),
{
    lemma_step_in_block(s);
    entry_35(s.get_single_operand().1);
    effect_35(s);
}

/// The opcode table's entry for 0x39.
proof fn entry_39(s1: CpuView)
    ensures
        s1.execute_00_3f(0x39) == (StepResult::Running, s1.absolute_y_cb(ReadOp::And)),
{
}

/// What the entry for 0x39 does, after the fetch.
#[verifier::spinoff_prover]
#[verifier::rlimit(40)]
proof fn effect_39(s: CpuView)
    requires
        s.mem.len() == 0x10000,
        true,
    ensures
        logic_result(s, s.get_single_operand().1.absolute_y_cb(ReadOp::And), s.a & at(s, wrap16(word(byte_after(s, 2), byte_after(s, 3)) + s.y) as int)),
        s.get_single_operand().1.absolute_y_cb(ReadOp::And).pc == wrap16(s.pc + 3),
{
    let s1 = s.get_single_operand().1;
    let (_i, v, s2) = s1.absolute_reg(s1.y);
    let (lo, hi, s3) = s1.get_two_operands();
    assert(lo == byte_after(s, 2) && hi == byte_after(s, 3));
    lemma_logic(s2, v);
}

/// Opcode 0x39 (AND absolute y) ANDs the byte at the absolute address plus Y into the accumulator.
pub proof fn lemma_opcode_39(s: CpuView)
    requires
        s.mem.len() == 0x10000,
        byte_after(s, 1) == 0x39,
        true,
    ensures
        s.step().0 == StepResult::Running,
        logic_result(s, s.step().1, s.a & at(s, wrap16(word(byte_after(s, 2), byte_after(s, 3)) + s.y) as int)),
        s.step().1.pc == wrap16(s.pc + 3),
{
    lemma_step_in_block(s);
    entry_39(s.get_single_operand().1);
    effect_39(s);
}

/// The opcode table's entry for 0x3D.
proof fn entry_3d(s1: CpuView)
    ensures
        s1.execute_00_3f(0x3D) == (StepResult::Running, s1.absolute_x_cb(ReadOp::And)),
{
}

/// What the entry for 0x3D does, after the fetch.
#[verifier::spinoff_prover]
#[verifier::rlimit(40)]
proof fn effect_3d(s: CpuView)
    requires
        s.mem.len() == 0x10000,
        true,
    ensures
        logic_result(s, s.get_single_operand().1.absolute_x_cb(ReadOp::And), s.a & at(s, wrap16(word(byte_after(s, 2), byte_after(s, 3)) + s.x) as int)),
        s.get_single_operand().1.absolute_x_cb(ReadOp::And).pc == wrap16(s.pc + 3),
{
    let s1 = s.get_single_operand().1;
    let (_i, v, s2) = s1.absolute_reg(s1.x);
    let (lo, hi, s3) = s1.get_two_operands();
    assert(lo == byte_after(s, 2) && hi == byte_after(s, 3));
    lemma_logic(s2, v);
}

/// Opcode 0x3D (AND absolute x) ANDs the byte at the absolute address plus X into the accumulator.
pub proof fn lemma_opcode_3d(s: CpuView)
    requires
        s.mem.len() == 0x10000,
        byte_after(s, 1) == 0x3D,
        true,
    ensures
        s.step().0 == StepResult::Running,
        logic_result(s, s.step().1, s.a & at(s, wrap16(word(byte_after(s, 2), byte_after(s, 3)) + s.x) as int)),
        s.step().1.pc == wrap16(s.pc + 3),
{
    lemma_step_in_block(s);
    entry_3d(s.get_single_operand().1);
    effect_3d(s);
}

/// The opcode table's entry for 0x41.
proof fn entry_41(s1: CpuView)
    ensures
        s1.execute_40_7f(0x41) == (StepResult::Running, s1.indexed_x_cb(ReadOp::Eor)),
{
}

/// What the entry for 0x41 does, after the fetch.
#[verifier::spinoff_prover]
#[verifier::rlimit(40)]
proof fn effect_41(s: CpuView)
    requires
        s.mem.len() == 0x10000,
        true,
    ensures
        logic_result(s, s.get_single_operand().1.indexed_x_cb(ReadOp::Eor), s.a ^ at(s, word(at(s, wrap8(byte_after(s, 2) + s.x) as int), at(s, wrap8(byte_after(s, 2) + s.x + 1) as int)) as int)),
        s.get_single_operand().1.indexed_x_cb(ReadOp::Eor).pc == wrap16(s.pc + 2),
{
    let s1 = s.get_single_operand().1;
    let (_i, v, s2) = s1.indexed_x();
    let op = s1.get_single_operand().0;
    assert(op == byte_after(s, 2));
    assert(wrap8(wrap8(op + s.x) + 1) == wrap8(op + s.x + 1));
    assert(v == at(s, word(at(s, wrap8(byte_after(s, 2) + s.x) as int), at(s, wrap8(byte_after(s, 2) + s.x + 1) as int)) as int));
    lemma_logic(s2, v);
}

/// Opcode 0x41 (EOR indexed x) exclusive-ORs the byte at the address read from the zero page at the operand plus X into the accumulator.
pub proof fn lemma_opcode_41(s: CpuView)
    requires
        s.mem.len() == 0x10000,
        byte_after(s, 1) == 0x41,
        true,
    ensures
        s.step().0 == StepResult::Running,
        logic_result(s, s.step().1, s.a ^ at(s, word(at(s, wrap8(byte_after(s, 2) + s.x) as int), at(s, wrap8(byte_after(s, 2) + s.x + 1) as int)) as int)),
        s.step().1.pc == wrap16(s.pc + 2),
{
    lemma_step_in_block(s);
    entry_41(s.get_single_operand().1);
    effect_41(s);
}

/// The opcode table's entry for 0x45.
proof fn entry_45(s1: CpuView)
    ensures
        s1.execute_40_7f(0x45) == (StepResult::Running, s1.zero_page_cb(ReadOp::Eor)),
{
}

/// What the entry for 0x45 does, after the fetch.
#[verifier::spinoff_prover]
#[verifier::rlimit(40)]
proof fn effect_45(s: CpuView)
    requires
        s.mem.len() == 0x10000,
        true,
    ensures
        logic_result(s, s.get_single_operand().1.zero_page_cb(ReadOp::Eor), s.a ^ at(s, byte_after(s, 2) as int)),
        s.get_single_operand().1.zero_page_cb(ReadOp::Eor).pc == wrap16(s.pc + 2),
{
    let s1 = s.get_single_operand().1;
    let (_i, v, s2) = s1.zero_page();
    lemma_logic(s2, v);
}

/// Opcode 0x45 (EOR zero page) exclusive-ORs the zero page byte the operand names into the accumulator.
pub proof fn lemma_opcode_45(s: CpuView)
    requires
        s.mem.len() == 0x10000,
        byte_after(s, 1) == 0x45,
        true,
    ensures
        s.step().0 == StepResult::Running,
        logic_result(s, s.step().1, s.a ^ at(s, byte_after(s, 2) as int)),
        s.step().1.pc == wrap16(s.pc + 2),
{
    lemma_step_in_block(s);
    entry_45(s.get_single_operand().1);
    effect_45(s);
}

/// The opcode table's entry for 0x49.
proof fn entry_49(s1: CpuView)
    ensures
        s1.execute_40_7f(0x49) == (StepResult::Running, s1.immediate_cb(ReadOp::Eor)),
{
}

/// What the entry for 0x49 does, after the fetch.
#[verifier::spinoff_prover]
#[verifier::rlimit(40)]
proof fn effect_49(s: CpuView)
    requires
        s.mem.len() == 0x10000,
        true,
    ensures
        logic_result(s, s.get_single_operand().1.immediate_cb(ReadOp::Eor), s.a ^ byte_after(s, 2)),
        s.get_single_operand().1.immediate_cb(ReadOp::Eor).pc == wrap16(s.pc + 2),
{
    let s1 = s.get_single_operand().1;
    let (v, s2) = s1.immediate();
    lemma_logic(s2, v);
}

/// Opcode 0x49 (EOR immediate) exclusive-ORs the byte after the opcode into the accumulator.
pub proof fn lemma_opcode_49(s: CpuView)
    requires
        s.mem.len() == 0x10000,
        byte_after(s, 1) == 0x49,
        true,
    ensures
        s.step().0 == StepResult::Running,
        logic_result(s, s.step().1, s.a ^ byte_after(s, 2)),
        s.step().1.pc == wrap16(s.pc + 2),
{
    lemma_step_in_block(s);
    entry_49(s.get_single_operand().1);
    effect_49(s);
}

/// The opcode table's entry for 0x4D.
proof fn entry_4d(s1: CpuView)
    ensures
        s1.execute_40_7f(0x4D) == (StepResult::Running, s1.absolute_cb(ReadOp::Eor)),
{
}

/// What the entry for 0x4D does, after the fetch.
#[verifier::spinoff_prover]
#[verifier::rlimit(40)]
proof fn effect_4d(s: CpuView)
    requires
        s.mem.len() == 0x10000,
        true,
    ensures
        logic_result(s, s.get_single_operand().1.absolute_cb(ReadOp::Eor), s.a ^ at(s, word(byte_after(s, 2), byte_after(s, 3)) as int)),
        s.get_single_operand().1.absolute_cb(ReadOp::Eor).pc == wrap16(s.pc + 3),
{
    let s1 = s.get_single_operand().1;
    let (_i, v, s2) = s1.absolute();
    let (lo, hi, s3) = s1.get_two_operands();
    assert(lo == byte_after(s, 2) && hi == byte_after(s, 3));
    lemma_logic(s2, v);
}

/// Opcode 0x4D (EOR absolute) exclusive-ORs the byte at the absolute address into the accumulator.
pub proof fn lemma_opcode_4d(s: CpuView)
    requires
        s.mem.len() == 0x10000,
        byte_after(s, 1) == 0x4D,
        true,
    ensures
        s.step().0 == StepResult::Running,
        logic_result(s, s.step().1, s.a ^ at(s, word(byte_after(s, 2), byte_after(s, 3)) as int)),
        s.step().1.pc == wrap16(s.pc + 3),
{
    lemma_step_in_block(s);
    entry_4d(s.get_single_operand().1);
    effect_4d(s);
}

/// The opcode table's entry for 0x51.
proof fn entry_51(s1: CpuView)
    ensures
        s1.execute_40_7f(0x51) == (StepResult::Running, s1.indexed_y_cb(ReadOp::Eor)),
{
}

/// What the entry for 0x51 does, after the fetch.
#[verifier::spinoff_prover]
#[verifier::rlimit(40)]
proof fn effect_51(s: CpuView)
    requires
        s.mem.len() == 0x10000,
        true,
    ensures
        logic_result(s, s.get_single_operand().1.indexed_y_cb(ReadOp::Eor), s.a ^ at(s, wrap16(word(at(s, byte_after(s, 2) as int), at(s, wrap8(byte_after(s, 2) + 1) as int)) + s.y) as int)),
        s.get_single_operand().1.indexed_y_cb(ReadOp::Eor).pc == wrap16(s.pc + 2),
{
    let s1 = s.get_single_operand().1;
    let (_i, v, s2) = s1.indexed_y();
    let op = s1.get_single_operand().0;
    assert(op == byte_after(s, 2));
    assert(v == at(s, wrap16(word(at(s, byte_after(s, 2) as int), at(s, wrap8(byte_after(s, 2) + 1) as int)) + s.y) as int));
    lemma_logic(s2, v);
}

/// Opcode 0x51 (EOR indexed y) exclusive-ORs the byte at the address read from the zero page at the operand, plus Y into the accumulator.
pub proof fn lemma_opcode_51(s: CpuView)
    requires
        s.mem.len() == 0x10000,
        byte_after(s, 1) == 0x51,
        true,
    ensures
        s.step().0 == StepResult::Running,
        logic_result(s, s.step().1, s.a ^ at(s, wrap16(word(at(s, byte_after(s, 2) as int), at(s, wrap8(byte_after(s, 2) + 1) as int)) + s.y) as int)),
        s.step().1.pc == wrap16(s.pc + 2),
{
    lemma_step_in_block(s);
    entry_51(s.get_single_operand().1);
    effect_51(s);
}

/// The opcode table's entry for 0x55.
proof fn entry_55(s1: CpuView)
    ensures
        s1.execute_40_7f(0x55) == (StepResult::Running, s1.zp_reg_cb(s1.x, ReadOp::Eor)),
{
}

/// What the entry for 0x55 does, after the fetch.
#[verifier::spinoff_prover]
#[verifier::rlimit(40)]
proof fn effect_55(s: CpuView)
    requires
        s.mem.len() == 0x10000,
        true,
    ensures
        logic_result(s, s.get_single_operand().1.zp_reg_cb(s.get_single_operand().1.x, ReadOp::Eor), s.a ^ at(s, wrap8(byte_after(s, 2) + s.x) as int)),
        s.get_single_operand().1.zp_reg_cb(s.get_single_operand().1.x, ReadOp::Eor).pc == wrap16(s.pc + 2),
{
    let s1 = s.get_single_operand().1;
    let (_i, v, s2) = s1.zp_reg(s1.x);
    lemma_logic(s2, v);
}

/// Opcode 0x55 (EOR zp x) exclusive-ORs the zero page byte at the operand plus X into the accumulator.
pub proof fn lemma_opcode_55(s: CpuView)
    requires
        s.mem.len() == 0x10000,
        byte_after(s, 1) == 0x55,
        true,
    ensures
        s.step().0 == StepResult::Running,
        logic_result(s, s.step().1, s.a ^ at(s, wrap8(byte_after(s, 2) + s.x) as int)),
        s.step().1.pc == wrap16(s.pc + 2),
{
    lemma_step_in_block(s);
    entry_55(s.get_single_operand().1);
    effect_55(s);
}

/// The opcode table's entry for 0x59.
proof fn entry_59(s1: CpuView)
    ensures
        s1.execute_40_7f(0x59) == (StepResult::Running, s1.absolute_y_cb(ReadOp::Eor)),
{
}

/// What the entry for 0x59 does, after the fetch.
#[verifier::spinoff_prover]
#[verifier::rlimit(40)]
proof fn effect_59(s: CpuView)
    requires
        s.mem.len() == 0x10000,
        true,
    ensures
        logic_result(s, s.get_single_operand().1.absolute_y_cb(ReadOp::Eor), s.a ^ at(s, wrap16(word(byte_after(s, 2), byte_after(s, 3)) + s.y) as int)),
        s.get_single_operand().1.absolute_y_cb(ReadOp::Eor).pc == wrap16(s.pc + 3),
{
    let s1 = s.get_single_operand().1;
    let (_i, v, s2) = s1.absolute_reg(s1.y);
    let (lo, hi, s3) = s1.get_two_operands();
    assert(lo == byte_after(s, 2) && hi == byte_after(s, 3));
    lemma_logic(s2, v);
}

/// Opcode 0x59 (EOR absolute y) exclusive-ORs the byte at the absolute address plus Y into the accumulator.
pub proof fn lemma_opcode_59(s: CpuView)
    requires
        s.mem.len() == 0x10000,
        byte_after(s, 1) == 0x59,
        true,
    ensures
        s.step().0 == StepResult::Running,
        logic_result(s, s.step().1, s.a ^ at(s, wrap16(word(byte_after(s, 2), byte_after(s, 3)) + s.y) as int)),
        s.step().1.pc == wrap16(s.pc + 3),
{
    lemma_step_in_block(s);
    entry_59(s.get_single_operand().1);
    effect_59(s);
}

/// The opcode table's entry for 0x5D.
proof fn entry_5d(s1: CpuView)
    ensures
        s1.execute_40_7f(0x5D) == (StepResult::Running, s1.absolute_x_cb(ReadOp::Eor)),
{
}

/// What the entry for 0x5D does, after the fetch.
#[verifier::spinoff_prover]
#[verifier::rlimit(40)]
proof fn effect_5d(s: CpuView)
    requires
        s.mem.len() == 0x10000,
        true,
    ensures
        logic_result(s, s.get_single_operand().1.absolute_x_cb(ReadOp::Eor), s.a ^ at(s, wrap16(word(byte_after(s, 2), byte_after(s, 3)) + s.x) as int)),
        s.get_single_operand().1.absolute_x_cb(ReadOp::Eor).pc == wrap16(s.pc + 3),
{
    let s1 = s.get_single_operand().1;
    let (_i, v, s2) = s1.absolute_reg(s1.x);
    let (lo, hi, s3) = s1.get_two_operands();
    assert(lo == byte_after(s, 2) && hi == byte_after(s, 3));
    lemma_logic(s2, v);
}

/// Opcode 0x5D (EOR absolute x) exclusive-ORs the byte at the absolute address plus X into the accumulator.
pub proof fn lemma_opcode_5d(s: CpuView)
    requires
        s.mem.len() == 0x10000,
        byte_after(s, 1) == 0x5D,
        true,
    ensures
        s.step().0 == StepResult::Running,
        logic_result(s, s.step().1, s.a ^ at(s, wrap16(word(byte_after(s, 2), byte_after(s, 3)) + s.x) as int)),
        s.step().1.pc == wrap16(s.pc + 3),
{
    lemma_step_in_block(s);
    entry_5d(s.get_single_operand().1);
    effect_5d(s);
}

/// The opcode table's entry for 0x61.
proof fn entry_61(s1: CpuView)
    ensures
        s1.execute_40_7f(0x61) == (StepResult::Running, s1.indexed_x_cb(ReadOp::Adc)),
{
}

/// What the entry for 0x61 does, after the fetch.
#[verifier::spinoff_prover]
#[verifier::rlimit(40)]
proof fn effect_61(s: CpuView)
    requires
        s.mem.len() == 0x10000,
        !flag_of(s.p, StatusBit::Decimal),
    ensures
        added(s, s.get_single_operand().1.indexed_x_cb(ReadOp::Adc), at(s, word(at(s, wrap8(byte_after(s, 2) + s.x) as int), at(s, wrap8(byte_after(s, 2) + s.x + 1) as int)) as int)),
        s.get_single_operand().1.indexed_x_cb(ReadOp::Adc).pc == wrap16(s.pc + 2),
{
    let s1 = s.get_single_operand().1;
    let (_i, v, s2) = s1.indexed_x();
    let op = s1.get_single_operand().0;
    assert(op == byte_after(s, 2));
    assert(wrap8(wrap8(op + s.x) + 1) == wrap8(op + s.x + 1));
    assert(v == at(s, word(at(s, wrap8(byte_after(s, 2) + s.x) as int), at(s, wrap8(byte_after(s, 2) + s.x + 1) as int)) as int));
    lemma_adc_binary(s2, v);
}

/// Opcode 0x61 (ADC indexed x) adds the byte at the address read from the zero page at the operand plus X, with the carry, to the accumulator in binary mode.
pub proof fn lemma_opcode_61(s: CpuView)
    requires
        s.mem.len() == 0x10000,
        byte_after(s, 1) == 0x61,
        !flag_of(s.p, StatusBit::Decimal),
    ensures
        s.step().0 == StepResult::Running,
        added(s, s.step().1, at(s, word(at(s, wrap8(byte_after(s, 2) + s.x) as int), at(s, wrap8(byte_after(s, 2) + s.x + 1) as int)) as int)),
        s.step().1.pc == wrap16(s.pc + 2),
{
    lemma_step_in_block(s);
    entry_61(s.get_single_operand().1);
    effect_61(s);
}

/// The opcode table's entry for 0x65.
proof fn entry_65(s1: CpuView)
    ensures
        s1.execute_40_7f(0x65) == (StepResult::Running, s1.zero_page_cb(ReadOp::Adc)),
{
}

/// What the entry for 0x65 does, after the fetch.
#[verifier::spinoff_prover]
#[verifier::rlimit(40)]
proof fn effect_65(s: CpuView)
    requires
        s.mem.len() == 0x10000,
        !flag_of(s.p, StatusBit::Decimal),
    ensures
        added(s, s.get_single_operand().1.zero_page_cb(ReadOp::Adc), at(s, byte_after(s, 2) as int)),
        s.get_single_operand().1.zero_page_cb(ReadOp::Adc).pc == wrap16(s.pc + 2),
{
    let s1 = s.get_single_operand().1;
    let (_i, v, s2) = s1.zero_page();
    lemma_adc_binary(s2, v);
}

/// Opcode 0x65 (ADC zero page) adds the zero page byte the operand names, with the carry, to the accumulator in binary mode.
pub proof fn lemma_opcode_65(s: CpuView)
    requires
        s.mem.len() == 0x10000,
        byte_after(s, 1) == 0x65,
        !flag_of(s.p, StatusBit::Decimal),
    ensures
        s.step().0 == StepResult::Running,
        added(s, s.step().1, at(s, byte_after(s, 2) as int)),
        s.step().1.pc == wrap16(s.pc + 2),
{
    lemma_step_in_block(s);
    entry_65(s.get_single_operand().1);
    effect_65(s);
}

/// The opcode table's entry for 0x69.
proof fn entry_69(s1: CpuView)
    ensures
        s1.execute_40_7f(0x69) == (StepResult::Running, s1.immediate_cb(ReadOp::Adc)),
{
}

/// What the entry for 0x69 does, after the fetch.
#[verifier::spinoff_prover]
#[verifier::rlimit(40)]
proof fn effect_69(s: CpuView)
    requires
        s.mem.len() == 0x10000,
        !flag_of(s.p, StatusBit::Decimal),
    ensures
        added(s, s.get_single_operand().1.immediate_cb(ReadOp::Adc), byte_after(s, 2)),
        s.get_single_operand().1.immediate_cb(ReadOp::Adc).pc == wrap16(s.pc + 2),
{
    let s1 = s.get_single_operand().1;
    let (v, s2) = s1.immediate();
    lemma_adc_binary(s2, v);
}

/// Opcode 0x69 (ADC immediate) adds the byte after the opcode, with the carry, to the accumulator in binary mode.
pub proof fn lemma_opcode_69(s: CpuView)
    requires
        s.mem.len() == 0x10000,
        byte_after(s, 1) == 0x69,
        !flag_of(s.p, StatusBit::Decimal),
    ensures
        s.step().0 == StepResult::Running,
        added(s, s.step().1, byte_after(s, 2)),
        s.step().1.pc == wrap16(s.pc + 2),
{
    lemma_step_in_block(s);
    entry_69(s.get_single_operand().1);
    effect_69(s);
}

/// The opcode table's entry for 0x6D.
proof fn entry_6d(s1: CpuView)
    ensures
        s1.execute_40_7f(0x6D) == (StepResult::Running, s1.absolute_cb(ReadOp::Adc)),
{
}

/// What the entry for 0x6D does, after the fetch.
#[verifier::spinoff_prover]
#[verifier::rlimit(40)]
proof fn effect_6d(s: CpuView)
    requires
        s.mem.len() == 0x10000,
        !flag_of(s.p, StatusBit::Decimal),
    ensures
        added(s, s.get_single_operand().1.absolute_cb(ReadOp::Adc), at(s, word(byte_after(s, 2), byte_after(s, 3)) as int)),
        s.get_single_operand().1.absolute_cb(ReadOp::Adc).pc == wrap16(s.pc + 3),
{
    let s1 = s.get_single_operand().1;
    let (_i, v, s2) = s1.absolute();
    let (lo, hi, s3) = s1.get_two_operands();
    assert(lo == byte_after(s, 2) && hi == byte_after(s, 3));
    lemma_adc_binary(s2, v);
}

/// Opcode 0x6D (ADC absolute) adds the byte at the absolute address, with the carry, to the accumulator in binary mode.
pub proof fn lemma_opcode_6d(s: CpuView)
    requires
        s.mem.len() == 0x10000,
        byte_after(s, 1) == 0x6D,
        !flag_of(s.p, StatusBit::Decimal),
    ensures
        s.step().0 == StepResult::Running,
        added(s, s.step().1, at(s, word(byte_after(s, 2), byte_after(s, 3)) as int)),
        s.step().1.pc == wrap16(s.pc + 3),
{
    lemma_step_in_block(s);
    entry_6d(s.get_single_operand().1);
    effect_6d(s);
}

/// The opcode table's entry for 0x71.
proof fn entry_71(s1: CpuView)
    ensures
        s1.execute_40_7f(0x71) == (StepResult::Running, s1.indexed_y_cb(ReadOp::Adc)),
{
}

/// What the entry for 0x71 does, after the fetch.
#[verifier::spinoff_prover]
#[verifier::rlimit(40)]
proof fn effect_71(s: CpuView)
    requires
        s.mem.len() == 0x10000,
        !flag_of(s.p, StatusBit::Decimal),
    ensures
        added(s, s.get_single_operand().1.indexed_y_cb(ReadOp::Adc), at(s, wrap16(word(at(s, byte_after(s, 2) as int), at(s, wrap8(byte_after(s, 2) + 1) as int)) + s.y) as int)),
        s.get_single_operand().1.indexed_y_cb(ReadOp::Adc).pc == wrap16(s.pc + 2),
{
    let s1 = s.get_single_operand().1;
    let (_i, v, s2) = s1.indexed_y();
    let op = s1.get_single_operand().0;
    assert(op == byte_after(s, 2));
    assert(v == at(s, wrap16(word(at(s, byte_after(s, 2) as int), at(s, wrap8(byte_after(s, 2) + 1) as int)) + s.y) as int));
    lemma_adc_binary(s2, v);
}

/// Opcode 0x71 (ADC indexed y) adds the byte at the address read from the zero page at the operand, plus Y, with the carry, to the accumulator in binary mode.
pub proof fn lemma_opcode_71(s: CpuView)
    requires
        s.mem.len() == 0x10000,
        byte_after(s, 1) == 0x71,
        !flag_of(s.p, StatusBit::Decimal),
    ensures
        s.step().0 == StepResult::Running,
        added(s, s.step().1, at(s, wrap16(word(at(s, byte_after(s, 2) as int), at(s, wrap8(byte_after(s, 2) + 1) as int)) + s.y) as int)),
        s.step().1.pc == wrap16(s.pc + 2),
{
    lemma_step_in_block(s);
    entry_71(s.get_single_operand().1);
    effect_71(s);
}

/// The opcode table's entry for 0x75.
proof fn entry_75(s1: CpuView)
    ensures
        s1.execute_40_7f(0x75) == (StepResult::Running, s1.zp_reg_cb(s1.x, ReadOp::Adc)),
{
}

/// What the entry for 0x75 does, after the fetch.
#[verifier::spinoff_prover]
#[verifier::rlimit(40)]
proof fn effect_75(s: CpuView)
    requires
        s.mem.len() == 0x10000,
        !flag_of(s.p, StatusBit::Decimal),
    ensures
        added(s, s.get_single_operand().1.zp_reg_cb(s.get_single_operand().1.x, ReadOp::Adc), at(s, wrap8(byte_after(s, 2) + s.x) as int)),
        s.get_single_operand().1.zp_reg_cb(s.get_single_operand().1.x, ReadOp::Adc).pc == wrap16(s.pc + 2),
{
    let s1 = s.get_single_operand().1;
    let (_i, v, s2) = s1.zp_reg(s1.x);
    lemma_adc_binary(s2, v);
}

/// Opcode 0x75 (ADC zp x) adds the zero page byte at the operand plus X, with the carry, to the accumulator in binary mode.
pub proof fn lemma_opcode_75(s: CpuView)
    requires
        s.mem.len() == 0x10000,
        byte_after(s, 1) == 0x75,
        !flag_of(s.p, StatusBit::Decimal),
    ensures
        s.step().0 == StepResult::Running,
        added(s, s.step().1, at(s, wrap8(byte_after(s, 2) + s.x) as int)),
        s.step().1.pc == wrap16(s.pc + 2),
{
    lemma_step_in_block(s);
    entry_75(s.get_single_operand().1);
    effect_75(s);
}

/// The opcode table's entry for 0x79.
proof fn entry_79(s1: CpuView)
    ensures
        s1.execute_40_7f(0x79) == (StepResult::Running, s1.absolute_y_cb(ReadOp::Adc)),
{
}

/// What the entry for 0x79 does, after the fetch.
#[verifier::spinoff_prover]
#[verifier::rlimit(40)]
proof fn effect_79(s: CpuView)
    requires
        s.mem.len() == 0x10000,
        !flag_of(s.p, StatusBit::Decimal),
    ensures
        added(s, s.get_single_operand().1.absolute_y_cb(ReadOp::Adc), at(s, wrap16(word(byte_after(s, 2), byte_after(s, 3)) + s.y) as int)),
        s.get_single_operand().1.absolute_y_cb(ReadOp::Adc).pc == wrap16(s.pc + 3),
{
    let s1 = s.get_single_operand().1;
    let (_i, v, s2) = s1.absolute_reg(s1.y);
    let (lo, hi, s3) = s1.get_two_operands();
    assert(lo == byte_after(s, 2) && hi == byte_after(s, 3));
    lemma_adc_binary(s2, v);
}

/// Opcode 0x79 (ADC absolute y) adds the byte at the absolute address plus Y, with the carry, to the accumulator in binary mode.
pub proof fn lemma_opcode_79(s: CpuView)
    requires
        s.mem.len() == 0x10000,
        byte_after(s, 1) == 0x79,
        !flag_of(s.p, StatusBit::Decimal),
    ensures
        s.step().0 == StepResult::Running,
        added(s, s.step().1, at(s, wrap16(word(byte_after(s, 2), byte_after(s, 3)) + s.y) as int)),
        s.step().1.pc == wrap16(s.pc + 3),
{
    lemma_step_in_block(s);
    entry_79(s.get_single_operand().1);
    effect_79(s);
}

/// The opcode table's entry for 0x7D.
proof fn entry_7d(s1: CpuView)
    ensures
        s1.execute_40_7f(0x7D) == (StepResult::Running, s1.absolute_x_cb(ReadOp::Adc)),
{
}

/// What the entry for 0x7D does, after the fetch.
#[verifier::spinoff_prover]
#[verifier::rlimit(40)]
proof fn effect_7d(s: CpuView)
    requires
        s.mem.len() == 0x10000,
        !flag_of(s.p, StatusBit::Decimal),
    ensures
        added(s, s.get_single_operand().1.absolute_x_cb(ReadOp::Adc), at(s, wrap16(word(byte_after(s, 2), byte_after(s, 3)) + s.x) as int)),
        s.get_single_operand().1.absolute_x_cb(ReadOp::Adc).pc == wrap16(s.pc + 3),
{
    let s1 = s.get_single_operand().1;
    let (_i, v, s2) = s1.absolute_reg(s1.x);
    let (lo, hi, s3) = s1.get_two_operands();
    assert(lo == byte_after(s, 2) && hi == byte_after(s, 3));
    lemma_adc_binary(s2, v);
}

/// Opcode 0x7D (ADC absolute x) adds the byte at the absolute address plus X, with the carry, to the accumulator in binary mode.
pub proof fn lemma_opcode_7d(s: CpuView)
    requires
        s.mem.len() == 0x10000,
        byte_after(s, 1) == 0x7D,
        !flag_of(s.p, StatusBit::Decimal),
    ensures
        s.step().0 == StepResult::Running,
        added(s, s.step().1, at(s, wrap16(word(byte_after(s, 2), byte_after(s, 3)) + s.x) as int)),
        s.step().1.pc == wrap16(s.pc + 3),
{
    lemma_step_in_block(s);
    entry_7d(s.get_single_operand().1);
    effect_7d(s);
}

/// The opcode table's entry for 0xC0.
proof fn entry_c0(s1: CpuView)
    ensures
        s1.execute_c0_ff(0xC0) == (StepResult::Running, s1.immediate_cb(ReadOp::Cpy)),
{
}

/// What the entry for 0xC0 does, after the fetch.
#[verifier::spinoff_prover]
#[verifier::rlimit(40)]
proof fn effect_c0(s: CpuView)
    requires
        s.mem.len() == 0x10000,
        true,
    ensures
        compared(s, s.get_single_operand().1.immediate_cb(ReadOp::Cpy), s.y, byte_after(s, 2)),
        s.get_single_operand().1.immediate_cb(ReadOp::Cpy).pc == wrap16(s.pc + 2),
{
    let s1 = s.get_single_operand().1;
    let (v, s2) = s1.immediate();
    lemma_compares(s2, v);
}

/// Opcode 0xC0 (CPY immediate) compares Y with the byte after the opcode.
pub proof fn lemma_opcode_c0(s: CpuView)
    requires
        s.mem.len() == 0x10000,
        byte_after(s, 1) == 0xC0,
        true,
    ensures
        s.step().0 == StepResult::Running,
        compared(s, s.step().1, s.y, byte_after(s, 2)),
        s.step().1.pc == wrap16(s.pc + 2),
{
    lemma_step_in_block(s);
    entry_c0(s.get_single_operand().1);
    effect_c0(s);
}

/// The opcode table's entry for 0xC1.
proof fn entry_c1(s1: CpuView)
    ensures
        s1.execute_c0_ff(0xC1) == (StepResult::Running, s1.indexed_x_cb(ReadOp::Cmp)),
{
}

/// What the entry for 0xC1 does, after the fetch.
#[verifier::spinoff_prover]
#[verifier::rlimit(40)]
proof fn effect_c1(s: CpuView)
    requires
        s.mem.len() == 0x10000,
        true,
    ensures
        compared(s, s.get_single_operand().1.indexed_x_cb(ReadOp::Cmp), s.a, at(s, word(at(s, wrap8(byte_after(s, 2) + s.x) as int), at(s, wrap8(byte_after(s, 2) + s.x + 1) as int)) as int)),
        s.get_single_operand().1.indexed_x_cb(ReadOp::Cmp).pc == wrap16(s.pc + 2),
{
    let s1 = s.get_single_operand().1;
    let (_i, v, s2) = s1.indexed_x();
    let op = s1.get_single_operand().0;
    assert(op == byte_after(s, 2));
    assert(wrap8(wrap8(op + s.x) + 1) == wrap8(op + s.x + 1));
    assert(v == at(s, word(at(s, wrap8(byte_after(s, 2) + s.x) as int), at(s, wrap8(byte_after(s, 2) + s.x + 1) as int)) as int));
    lemma_compares(s2, v);
}

/// Opcode 0xC1 (CMP indexed x) compares the accumulator with the byte at the address read from the zero page at the operand plus X.
pub proof fn lemma_opcode_c1(s: CpuView)
    requires
        s.mem.len() == 0x10000,
        byte_after(s, 1) == 0xC1,
        true,
    ensures
        s.step().0 == StepResult::Running,
        compared(s, s.step().1, s.a, at(s, word(at(s, wrap8(byte_after(s, 2) + s.x) as int), at(s, wrap8(byte_after(s, 2) + s.x + 1) as int)) as int)),
        s.step().1.pc == wrap16(s.pc + 2),
{
    lemma_step_in_block(s);
    entry_c1(s.get_single_operand().1);
    effect_c1(s);
}

/// The opcode table's entry for 0xC4.
proof fn entry_c4(s1: CpuView)
    ensures
        s1.execute_c0_ff(0xC4) == (StepResult::Running, s1.zero_page_cb(ReadOp::Cpy)),
{
}

/// What the entry for 0xC4 does, after the fetch.
#[verifier::spinoff_prover]
#[verifier::rlimit(40)]
proof fn effect_c4(s: CpuView)
    requires
        s.mem.len() == 0x10000,
        true,
    ensures
        compared(s, s.get_single_operand().1.zero_page_cb(ReadOp::Cpy), s.y, at(s, byte_after(s, 2) as int)),
        s.get_single_operand().1.zero_page_cb(ReadOp::Cpy).pc == wrap16(s.pc + 2),
{
    let s1 = s.get_single_operand().1;
    let (_i, v, s2) = s1.zero_page();
    lemma_compares(s2, v);
}

/// Opcode 0xC4 (CPY zero page) compares Y with the zero page byte the operand names.
pub proof fn lemma_opcode_c4(s: CpuView)
    requires
        s.mem.len() == 0x10000,
        byte_after(s, 1) == 0xC4,
        true,
    ensures
        s.step().0 == StepResult::Running,
        compared(s, s.step().1, s.y, at(s, byte_after(s, 2) as int)),
        s.step().1.pc == wrap16(s.pc + 2),
{
    lemma_step_in_block(s);
    entry_c4(s.get_single_operand().1);
    effect_c4(s);
}

/// The opcode table's entry for 0xC5.
proof fn entry_c5(s1: CpuView)
    ensures
        s1.execute_c0_ff(0xC5) == (StepResult::Running, s1.zero_page_cb(ReadOp::Cmp)),
{
}

/// What the entry for 0xC5 does, after the fetch.
#[verifier::spinoff_prover]
#[verifier::rlimit(40)]
proof fn effect_c5(s: CpuView)
    requires
        s.mem.len() == 0x10000,
        true,
    ensures
        compared(s, s.get_single_operand().1.zero_page_cb(ReadOp::Cmp), s.a, at(s, byte_after(s, 2) as int)),
        s.get_single_operand().1.zero_page_cb(ReadOp::Cmp).pc == wrap16(s.pc + 2),
{
    let s1 = s.get_single_operand().1;
    let (_i, v, s2) = s1.zero_page();
    lemma_compares(s2, v);
}

/// Opcode 0xC5 (CMP zero page) compares the accumulator with the zero page byte the operand names.
pub proof fn lemma_opcode_c5(s: CpuView)
    requires
        s.mem.len() == 0x10000,
        byte_after(s, 1) == 0xC5,
        true,
    ensures
        s.step().0 == StepResult::Running,
        compared(s, s.step().1, s.a, at(s, byte_after(s, 2) as int)),
        s.step().1.pc == wrap16(s.pc + 2),
{
    lemma_step_in_block(s);
    entry_c5(s.get_single_operand().1);
    effect_c5(s);
}

/// The opcode table's entry for 0xC9.
proof fn entry_c9(s1: CpuView)
    ensures
        s1.execute_c0_ff(0xC9) == (StepResult::Running, s1.immediate_cb(ReadOp::Cmp)),
{
}

/// What the entry for 0xC9 does, after the fetch.
#[verifier::spinoff_prover]
#[verifier::rlimit(40)]
proof fn effect_c9(s: CpuView)
    requires
        s.mem.len() == 0x10000,
        true,
    ensures
        compared(s, s.get_single_operand().1.immediate_cb(ReadOp::Cmp), s.a, byte_after(s, 2)),
        s.get_single_operand().1.immediate_cb(ReadOp::Cmp).pc == wrap16(s.pc + 2),
{
    let s1 = s.get_single_operand().1;
    let (v, s2) = s1.immediate();
    lemma_compares(s2, v);
}

/// Opcode 0xC9 (CMP immediate) compares the accumulator with the byte after the opcode.
pub proof fn lemma_opcode_c9(s: CpuView)
    requires
        s.mem.len() == 0x10000,
        byte_after(s, 1) == 0xC9,
        true,
    ensures
        s.step().0 == StepResult::Running,
        compared(s, s.step().1, s.a, byte_after(s, 2)),
        s.step().1.pc == wrap16(s.pc + 2),
{
    lemma_step_in_block(s);
    entry_c9(s.get_single_operand().1);
    effect_c9(s);
}

/// The opcode table's entry for 0xCC.
proof fn entry_cc(s1: CpuView)
    ensures
        s1.execute_c0_ff(0xCC) == (StepResult::Running, s1.absolute_cb(ReadOp::Cpy)),
{
}

/// What the entry for 0xCC does, after the fetch.
#[verifier::spinoff_prover]
#[verifier::rlimit(40)]
proof fn effect_cc(s: CpuView)
    requires
        s.mem.len() == 0x10000,
        true,
    ensures
        compared(s, s.get_single_operand().1.absolute_cb(ReadOp::Cpy), s.y, at(s, word(byte_after(s, 2), byte_after(s, 3)) as int)),
        s.get_single_operand().1.absolute_cb(ReadOp::Cpy).pc == wrap16(s.pc + 3),
{
    let s1 = s.get_single_operand().1;
    let (_i, v, s2) = s1.absolute();
    let (lo, hi, s3) = s1.get_two_operands();
    assert(lo == byte_after(s, 2) && hi == byte_after(s, 3));
    lemma_compares(s2, v);
}

/// Opcode 0xCC (CPY absolute) compares Y with the byte at the absolute address.
pub proof fn lemma_opcode_cc(s: CpuView)
    requires
        s.mem.len() == 0x10000,
        byte_after(s, 1) == 0xCC,
        true,
    ensures
        s.step().0 == StepResult::Running,
        compared(s, s.step().1, s.y, at(s, word(byte_after(s, 2), byte_after(s, 3)) as int)),
        s.step().1.pc == wrap16(s.pc + 3),
{
    lemma_step_in_block(s);
    entry_cc(s.get_single_operand().1);
    effect_cc(s);
}

/// The opcode table's entry for 0xCD.
proof fn entry_cd(s1: CpuView)
    ensures
        s1.execute_c0_ff(0xCD) == (StepResult::Running, s1.absolute_cb(ReadOp::Cmp)),
{
}

/// What the entry for 0xCD does, after the fetch.
#[verifier::spinoff_prover]
#[verifier::rlimit(40)]
proof fn effect_cd(s: CpuView)
    requires
        s.mem.len() == 0x10000,
        true,
    ensures
        compared(s, s.get_single_operand().1.absolute_cb(ReadOp::Cmp), s.a, at(s, word(byte_after(s, 2), byte_after(s, 3)) as int)),
        s.get_single_operand().1.absolute_cb(ReadOp::Cmp).pc == wrap16(s.pc + 3),
{
    let s1 = s.get_single_operand().1;
    let (_i, v, s2) = s1.absolute();
    let (lo, hi, s3) = s1.get_two_operands();
    assert(lo == byte_after(s, 2) && hi == byte_after(s, 3));
    lemma_compares(s2, v);
}

/// Opcode 0xCD (CMP absolute) compares the accumulator with the byte at the absolute address.
pub proof fn lemma_opcode_cd(s: CpuView)
    requires
        s.mem.len() == 0x10000,
        byte_after(s, 1) == 0xCD,
        true,
    ensures
        s.step().0 == StepResult::Running,
        compared(s, s.step().1, s.a, at(s, word(byte_after(s, 2), byte_after(s, 3)) as int)),
        s.step().1.pc == wrap16(s.pc + 3),
{
    lemma_step_in_block(s);
    entry_cd(s.get_single_operand().1);
    effect_cd(s);
}

/// The opcode table's entry for 0xD1.
proof fn entry_d1(s1: CpuView)
    ensures
        s1.execute_c0_ff(0xD1) == (StepResult::Running, s1.indexed_y_cb(ReadOp::Cmp)),
{
}

/// What the entry for 0xD1 does, after the fetch.
#[verifier::spinoff_prover]
#[verifier::rlimit(40)]
proof fn effect_d1(s: CpuView)
    requires
        s.mem.len() == 0x10000,
        true,
    ensures
        compared(s, s.get_single_operand().1.indexed_y_cb(ReadOp::Cmp), s.a, at(s, wrap16(word(at(s, byte_after(s, 2) as int), at(s, wrap8(byte_after(s, 2) + 1) as int)) + s.y) as int)),
        s.get_single_operand().1.indexed_y_cb(ReadOp::Cmp).pc == wrap16(s.pc + 2),
{
    let s1 = s.get_single_operand().1;
    let (_i, v, s2) = s1.indexed_y();
    let op = s1.get_single_operand().0;
    assert(op == byte_after(s, 2));
    assert(v == at(s, wrap16(word(at(s, byte_after(s, 2) as int), at(s, wrap8(byte_after(s, 2) + 1) as int)) + s.y) as int));
    lemma_compares(s2, v);
}

/// Opcode 0xD1 (CMP indexed y) compares the accumulator with the byte at the address read from the zero page at the operand, plus Y.
pub proof fn lemma_opcode_d1(s: CpuView)
    requires
        s.mem.len() == 0x10000,
        byte_after(s, 1) == 0xD1,
        true,
    ensures
        s.step().0 == StepResult::Running,
        compared(s, s.step().1, s.a, at(s, wrap16(word(at(s, byte_after(s, 2) as int), at(s, wrap8(byte_after(s, 2) + 1) as int)) + s.y) as int)),
        s.step().1.pc == wrap16(s.pc + 2),
{
    lemma_step_in_block(s);
    entry_d1(s.get_single_operand().1);
    effect_d1(s);
}

/// The opcode table's entry for 0xD5.
proof fn entry_d5(s1: CpuView)
    ensures
        s1.execute_c0_ff(0xD5) == (StepResult::Running, s1.zp_reg_cb(s1.x, ReadOp::Cmp)),
{
}

/// What the entry for 0xD5 does, after the fetch.
#[verifier::spinoff_prover]
#[verifier::rlimit(40)]
proof fn effect_d5(s: CpuView)
    requires
        s.mem.len() == 0x10000,
        true,
    ensures
        compared(s, s.get_single_operand().1.zp_reg_cb(s.get_single_operand().1.x, ReadOp::Cmp), s.a, at(s, wrap8(byte_after(s, 2) + s.x) as int)),
        s.get_single_operand().1.zp_reg_cb(s.get_single_operand().1.x, ReadOp::Cmp).pc == wrap16(s.pc + 2),
{
    let s1 = s.get_single_operand().1;
    let (_i, v, s2) = s1.zp_reg(s1.x);
    lemma_compares(s2, v);
}

/// Opcode 0xD5 (CMP zp x) compares the accumulator with the zero page byte at the operand plus X.
pub proof fn lemma_opcode_d5(s: CpuView)
    requires
        s.mem.len() == 0x10000,
        byte_after(s, 1) == 0xD5,
        true,
    ensures
        s.step().0 == StepResult::Running,
        compared(s, s.step().1, s.a, at(s, wrap8(byte_after(s, 2) + s.x) as int)),
        s.step().1.pc == wrap16(s.pc + 2),
{
    lemma_step_in_block(s);
    entry_d5(s.get_single_operand().1);
    effect_d5(s);
}

/// The opcode table's entry for 0xD9.
proof fn entry_d9(s1: CpuView)
    ensures
        s1.execute_c0_ff(0xD9) == (StepResult::Running, s1.absolute_y_cb(ReadOp::Cmp)),
{
}

/// What the entry for 0xD9 does, after the fetch.
#[verifier::spinoff_prover]
#[verifier::rlimit(40)]
proof fn effect_d9(s: CpuView)
    requires
        s.mem.len() == 0x10000,
        true,
    ensures
        compared(s, s.get_single_operand().1.absolute_y_cb(ReadOp::Cmp), s.a, at(s, wrap16(word(byte_after(s, 2), byte_after(s, 3)) + s.y) as int)),
        s.get_single_operand().1.absolute_y_cb(ReadOp::Cmp).pc == wrap16(s.pc + 3),
{
    let s1 = s.get_single_operand().1;
    let (_i, v, s2) = s1.absolute_reg(s1.y);
    let (lo, hi, s3) = s1.get_two_operands();
    assert(lo == byte_after(s, 2) && hi == byte_after(s, 3));
    lemma_compares(s2, v);
}

/// Opcode 0xD9 (CMP absolute y) compares the accumulator with the byte at the absolute address plus Y.
pub proof fn lemma_opcode_d9(s: CpuView)
    requires
        s.mem.len() == 0x10000,
        byte_after(s, 1) == 0xD9,
        true,
    ensures
        s.step().0 == StepResult::Running,
        compared(s, s.step().1, s.a, at(s, wrap16(word(byte_after(s, 2), byte_after(s, 3)) + s.y) as int)),
        s.step().1.pc == wrap16(s.pc + 3),
{
    lemma_step_in_block(s);
    entry_d9(s.get_single_operand().1);
    effect_d9(s);
}

/// The opcode table's entry for 0xDD.
proof fn entry_dd(s1: CpuView)
    ensures
        s1.execute_c0_ff(0xDD) == (StepResult::Running, s1.absolute_x_cb(ReadOp::Cmp)),
{
}

/// What the entry for 0xDD does, after the fetch.
#[verifier::spinoff_prover]
#[verifier::rlimit(40)]
proof fn effect_dd(s: CpuView)
    requires
        s.mem.len() == 0x10000,
        true,
    ensures
        compared(s, s.get_single_operand().1.absolute_x_cb(ReadOp::Cmp), s.a, at(s, wrap16(word(byte_after(s, 2), byte_after(s, 3)) + s.x) as int)),
        s.get_single_operand().1.absolute_x_cb(ReadOp::Cmp).pc == wrap16(s.pc + 3),
{
    let s1 = s.get_single_operand().1;
    let (_i, v, s2) = s1.absolute_reg(s1.x);
    let (lo, hi, s3) = s1.get_two_operands();
    assert(lo == byte_after(s, 2) && hi == byte_after(s, 3));
    lemma_compares(s2, v);
}

/// Opcode 0xDD (CMP absolute x) compares the accumulator with the byte at the absolute address plus X.
pub proof fn lemma_opcode_dd(s: CpuView)
    requires
        s.mem.len() == 0x10000,
        byte_after(s, 1) == 0xDD,
        true,
    ensures
        s.step().0 == StepResult::Running,
        compared(s, s.step().1, s.a, at(s, wrap16(word(byte_after(s, 2), byte_after(s, 3)) + s.x) as int)),
        s.step().1.pc == wrap16(s.pc + 3),
{
    lemma_step_in_block(s);
    entry_dd(s.get_single_operand().1);
    effect_dd(s);
}

/// The opcode table's entry for 0xE0.
proof fn entry_e0(s1: CpuView)
    ensures
        s1.execute_c0_ff(0xE0) == (StepResult::Running, s1.immediate_cb(ReadOp::Cpx)),
{
}

/// What the entry for 0xE0 does, after the fetch.
#[verifier::spinoff_prover]
#[verifier::rlimit(40)]
proof fn effect_e0(s: CpuView)
    requires
        s.mem.len() == 0x10000,
        true,
    ensures
        compared(s, s.get_single_operand().1.immediate_cb(ReadOp::Cpx), s.x, byte_after(s, 2)),
        s.get_single_operand().1.immediate_cb(ReadOp::Cpx).pc == wrap16(s.pc + 2),
{
    let s1 = s.get_single_operand().1;
    let (v, s2) = s1.immediate();
    lemma_compares(s2, v);
}

/// Opcode 0xE0 (CPX immediate) compares X with the byte after the opcode.
pub proof fn lemma_opcode_e0(s: CpuView)
    requires
        s.mem.len() == 0x10000,
        byte_after(s, 1) == 0xE0,
        true,
    ensures
        s.step().0 == StepResult::Running,
        compared(s, s.step().1, s.x, byte_after(s, 2)),
        s.step().1.pc == wrap16(s.pc + 2),
{
    lemma_step_in_block(s);
    entry_e0(s.get_single_operand().1);
    effect_e0(s);
}

/// The opcode table's entry for 0xE1.
proof fn entry_e1(s1: CpuView)
    ensures
        s1.execute_c0_ff(0xE1) == (StepResult::Running, s1.indexed_x_cb(ReadOp::Sbc)),
{
}

/// What the entry for 0xE1 does, after the fetch.
#[verifier::spinoff_prover]
#[verifier::rlimit(40)]
proof fn effect_e1(s: CpuView)
    requires
        s.mem.len() == 0x10000,
        !flag_of(s.p, StatusBit::Decimal),
    ensures
        subtracted(s, s.get_single_operand().1.indexed_x_cb(ReadOp::Sbc), at(s, word(at(s, wrap8(byte_after(s, 2) + s.x) as int), at(s, wrap8(byte_after(s, 2) + s.x + 1) as int)) as int)),
        s.get_single_operand().1.indexed_x_cb(ReadOp::Sbc).pc == wrap16(s.pc + 2),
{
    let s1 = s.get_single_operand().1;
    let (_i, v, s2) = s1.indexed_x();
    let op = s1.get_single_operand().0;
    assert(op == byte_after(s, 2));
    assert(wrap8(wrap8(op + s.x) + 1) == wrap8(op + s.x + 1));
    assert(v == at(s, word(at(s, wrap8(byte_after(s, 2) + s.x) as int), at(s, wrap8(byte_after(s, 2) + s.x + 1) as int)) as int));
    lemma_sbc_binary(s2, v);
}

/// Opcode 0xE1 (SBC indexed x) subtracts the byte at the address read from the zero page at the operand plus X, with the borrow, from the accumulator in binary mode.
pub proof fn lemma_opcode_e1(s: CpuView)
    requires
        s.mem.len() == 0x10000,
        byte_after(s, 1) == 0xE1,
        !flag_of(s.p, StatusBit::Decimal),
    ensures
        s.step().0 == StepResult::Running,
        subtracted(s, s.step().1, at(s, word(at(s, wrap8(byte_after(s, 2) + s.x) as int), at(s, wrap8(byte_after(s, 2) + s.x + 1) as int)) as int)),
        s.step().1.pc == wrap16(s.pc + 2),
{
    lemma_step_in_block(s);
    entry_e1(s.get_single_operand().1);
    effect_e1(s);
}

/// The opcode table's entry for 0xE4.
proof fn entry_e4(s1: CpuView)
    ensures
        s1.execute_c0_ff(0xE4) == (StepResult::Running, s1.zero_page_cb(ReadOp::Cpx)),
{
}

/// What the entry for 0xE4 does, after the fetch.
#[verifier::spinoff_prover]
#[verifier::rlimit(40)]
proof fn effect_e4(s: CpuView)
    requires
        s.mem.len() == 0x10000,
        true,
    ensures
        compared(s, s.get_single_operand().1.zero_page_cb(ReadOp::Cpx), s.x, at(s, byte_after(s, 2) as int)),
        s.get_single_operand().1.zero_page_cb(ReadOp::Cpx).pc == wrap16(s.pc + 2),
{
    let s1 = s.get_single_operand().1;
    let (_i, v, s2) = s1.zero_page();
    lemma_compares(s2, v);
}

/// Opcode 0xE4 (CPX zero page) compares X with the zero page byte the operand names.
pub proof fn lemma_opcode_e4(s: CpuView)
    requires
        s.mem.len() == 0x10000,
        byte_after(s, 1) == 0xE4,
        true,
    ensures
        s.step().0 == StepResult::Running,
        compared(s, s.step().1, s.x, at(s, byte_after(s, 2) as int)),
        s.step().1.pc == wrap16(s.pc + 2),
{
    lemma_step_in_block(s);
    entry_e4(s.get_single_operand().1);
    effect_e4(s);
}

/// The opcode table's entry for 0xE5.
proof fn entry_e5(s1: CpuView)
    ensures
        s1.execute_c0_ff(0xE5) == (StepResult::Running, s1.zero_page_cb(ReadOp::Sbc)),
{
}

/// What the entry for 0xE5 does, after the fetch.
#[verifier::spinoff_prover]
#[verifier::rlimit(40)]
proof fn effect_e5(s: CpuView)
    requires
        s.mem.len() == 0x10000,
        !flag_of(s.p, StatusBit::Decimal),
    ensures
        subtracted(s, s.get_single_operand().1.zero_page_cb(ReadOp::Sbc), at(s, byte_after(s, 2) as int)),
        s.get_single_operand().1.zero_page_cb(ReadOp::Sbc).pc == wrap16(s.pc + 2),
{
    let s1 = s.get_single_operand().1;
    let (_i, v, s2) = s1.zero_page();
    lemma_sbc_binary(s2, v);
}

/// Opcode 0xE5 (SBC zero page) subtracts the zero page byte the operand names, with the borrow, from the accumulator in binary mode.
pub proof fn lemma_opcode_e5(s: CpuView)
    requires
        s.mem.len() == 0x10000,
        byte_after(s, 1) == 0xE5,
        !flag_of(s.p, StatusBit::Decimal),
    ensures
        s.step().0 == StepResult::Running,
        subtracted(s, s.step().1, at(s, byte_after(s, 2) as int)),
        s.step().1.pc == wrap16(s.pc + 2),
{
    lemma_step_in_block(s);
    entry_e5(s.get_single_operand().1);
    effect_e5(s);
}

/// The opcode table's entry for 0xE9.
proof fn entry_e9(s1: CpuView)
    ensures
        s1.execute_c0_ff(0xE9) == (StepResult::Running, s1.immediate_cb(ReadOp::Sbc)),
{
}

/// What the entry for 0xE9 does, after the fetch.
#[verifier::spinoff_prover]
#[verifier::rlimit(40)]
proof fn effect_e9(s: CpuView)
    requires
        s.mem.len() == 0x10000,
        !flag_of(s.p, StatusBit::Decimal),
    ensures
        subtracted(s, s.get_single_operand().1.immediate_cb(ReadOp::Sbc), byte_after(s, 2)),
        s.get_single_operand().1.immediate_cb(ReadOp::Sbc).pc == wrap16(s.pc + 2),
{
    let s1 = s.get_single_operand().1;
    let (v, s2) = s1.immediate();
    lemma_sbc_binary(s2, v);
}

/// Opcode 0xE9 (SBC immediate) subtracts the byte after the opcode, with the borrow, from the accumulator in binary mode.
pub proof fn lemma_opcode_e9(s: CpuView)
    requires
        s.mem.len() == 0x10000,
        byte_after(s, 1) == 0xE9,
        !flag_of(s.p, StatusBit::Decimal),
    ensures
        s.step().0 == StepResult::Running,
        subtracted(s, s.step().1, byte_after(s, 2)),
        s.step().1.pc == wrap16(s.pc + 2),
{
    lemma_step_in_block(s);
    entry_e9(s.get_single_operand().1);
    effect_e9(s);
}

/// The opcode table's entry for 0xEB.
proof fn entry_eb(s1: CpuView)
    ensures
        s1.execute_c0_ff(0xEB) == (StepResult::Running, s1.immediate_cb(ReadOp::Sbc)),
{
}

/// What the entry for 0xEB does, after the fetch.
#[verifier::spinoff_prover]
#[verifier::rlimit(40)]
proof fn effect_eb(s: CpuView)
    requires
        s.mem.len() == 0x10000,
        !flag_of(s.p, StatusBit::Decimal),
    ensures
        subtracted(s, s.get_single_operand().1.immediate_cb(ReadOp::Sbc), byte_after(s, 2)),
        s.get_single_operand().1.immediate_cb(ReadOp::Sbc).pc == wrap16(s.pc + 2),
{
    let s1 = s.get_single_operand().1;
    let (v, s2) = s1.immediate();
    lemma_sbc_binary(s2, v);
}

/// Opcode 0xEB (SBC immediate) subtracts the byte after the opcode, with the borrow, from the accumulator in binary mode.
pub proof fn lemma_opcode_eb(s: CpuView)
    requires
        s.mem.len() == 0x10000,
        byte_after(s, 1) == 0xEB,
        !flag_of(s.p, StatusBit::Decimal),
    ensures
        s.step().0 == StepResult::Running,
        subtracted(s, s.step().1, byte_after(s, 2)),
        s.step().1.pc == wrap16(s.pc + 2),
{
    lemma_step_in_block(s);
    entry_eb(s.get_single_operand().1);
    effect_eb(s);
}

/// The opcode table's entry for 0xEC.
proof fn entry_ec(s1: CpuView)
    ensures
        s1.execute_c0_ff(0xEC) == (StepResult::Running, s1.absolute_cb(ReadOp::Cpx)),
{
}

/// What the entry for 0xEC does, after the fetch.
#[verifier::spinoff_prover]
#[verifier::rlimit(40)]
proof fn effect_ec(s: CpuView)
    requires
        s.mem.len() == 0x10000,
        true,
    ensures
        compared(s, s.get_single_operand().1.absolute_cb(ReadOp::Cpx), s.x, at(s, word(byte_after(s, 2), byte_after(s, 3)) as int)),
        s.get_single_operand().1.absolute_cb(ReadOp::Cpx).pc == wrap16(s.pc + 3),
{
    let s1 = s.get_single_operand().1;
    let (_i, v, s2) = s1.absolute();
    let (lo, hi, s3) = s1.get_two_operands();
    assert(lo == byte_after(s, 2) && hi == byte_after(s, 3));
    lemma_compares(s2, v);
}

/// Opcode 0xEC (CPX absolute) compares X with the byte at the absolute address.
pub proof fn lemma_opcode_ec(s: CpuView)
    requires
        s.mem.len() == 0x10000,
        byte_after(s, 1) == 0xEC,
        true,
    ensures
        s.step().0 == StepResult::Running,
        compared(s, s.step().1, s.x, at(s, word(byte_after(s, 2), byte_after(s, 3)) as int)),
        s.step().1.pc == wrap16(s.pc + 3),
{
    lemma_step_in_block(s);
    entry_ec(s.get_single_operand().1);
    effect_ec(s);
}

/// The opcode table's entry for 0xED.
proof fn entry_ed(s1: CpuView)
    ensures
        s1.execute_c0_ff(0xED) == (StepResult::Running, s1.absolute_cb(ReadOp::Sbc)),
{
}

/// What the entry for 0xED does, after the fetch.
#[verifier::spinoff_prover]
#[verifier::rlimit(40)]
proof fn effect_ed(s: CpuView)
    requires
        s.mem.len() == 0x10000,
        !flag_of(s.p, StatusBit::Decimal),
    ensures
        subtracted(s, s.get_single_operand().1.absolute_cb(ReadOp::Sbc), at(s, word(byte_after(s, 2), byte_after(s, 3)) as int)),
        s.get_single_operand().1.absolute_cb(ReadOp::Sbc).pc == wrap16(s.pc + 3),
{
    let s1 = s.get_single_operand().1;
    let (_i, v, s2) = s1.absolute();
    let (lo, hi, s3) = s1.get_two_operands();
    assert(lo == byte_after(s, 2) && hi == byte_after(s, 3));
    lemma_sbc_binary(s2, v);
}

/// Opcode 0xED (SBC absolute) subtracts the byte at the absolute address, with the borrow, from the accumulator in binary mode.
pub proof fn lemma_opcode_ed(s: CpuView)
    requires
        s.mem.len() == 0x10000,
        byte_after(s, 1) == 0xED,
        !flag_of(s.p, StatusBit::Decimal),
    ensures
        s.step().0 == StepResult::Running,
        subtracted(s, s.step().1, at(s, word(byte_after(s, 2), byte_after(s, 3)) as int)),
        s.step().1.pc == wrap16(s.pc + 3),
{
    lemma_step_in_block(s);
    entry_ed(s.get_single_operand().1);
    effect_ed(s);
}

/// The opcode table's entry for 0xF1.
proof fn entry_f1(s1: CpuView)
    ensures
        s1.execute_c0_ff(0xF1) == (StepResult::Running, s1.indexed_y_cb(ReadOp::Sbc)),
{
}

/// What the entry for 0xF1 does, after the fetch.
#[verifier::spinoff_prover]
#[verifier::rlimit(40)]
proof fn effect_f1(s: CpuView)
    requires
        s.mem.len() == 0x10000,
        !flag_of(s.p, StatusBit::Decimal),
    ensures
        subtracted(s, s.get_single_operand().1.indexed_y_cb(ReadOp::Sbc), at(s, wrap16(word(at(s, byte_after(s, 2) as int), at(s, wrap8(byte_after(s, 2) + 1) as int)) + s.y) as int)),
        s.get_single_operand().1.indexed_y_cb(ReadOp::Sbc).pc == wrap16(s.pc + 2),
{
    let s1 = s.get_single_operand().1;
    let (_i, v, s2) = s1.indexed_y();
    let op = s1.get_single_operand().0;
    assert(op == byte_after(s, 2));
    assert(v == at(s, wrap16(word(at(s, byte_after(s, 2) as int), at(s, wrap8(byte_after(s, 2) + 1) as int)) + s.y) as int));
    lemma_sbc_binary(s2, v);
}

/// Opcode 0xF1 (SBC indexed y) subtracts the byte at the address read from the zero page at the operand, plus Y, with the borrow, from the accumulator in binary mode.
pub proof fn lemma_opcode_f1(s: CpuView)
    requires
        s.mem.len() == 0x10000,
        byte_after(s, 1) == 0xF1,
        !flag_of(s.p, StatusBit::Decimal),
    ensures
        s.step().0 == StepResult::Running,
        subtracted(s, s.step().1, at(s, wrap16(word(at(s, byte_after(s, 2) as int), at(s, wrap8(byte_after(s, 2) + 1) as int)) + s.y) as int)),
        s.step().1.pc == wrap16(s.pc + 2),
{
    lemma_step_in_block(s);
    entry_f1(s.get_single_operand().1);
    effect_f1(s);
}

/// The opcode table's entry for 0xF5.
proof fn entry_f5(s1: CpuView)
    ensures
        s1.execute_c0_ff(0xF5) == (StepResult::Running, s1.zp_reg_cb(s1.x, ReadOp::Sbc)),
{
}

/// What the entry for 0xF5 does, after the fetch.
#[verifier::spinoff_prover]
#[verifier::rlimit(40)]
proof fn effect_f5(s: CpuView)
    requires
        s.mem.len() == 0x10000,
        !flag_of(s.p, StatusBit::Decimal),
    ensures
        subtracted(s, s.get_single_operand().1.zp_reg_cb(s.get_single_operand().1.x, ReadOp::Sbc), at(s, wrap8(byte_after(s, 2) + s.x) as int)),
        s.get_single_operand().1.zp_reg_cb(s.get_single_operand().1.x, ReadOp::Sbc).pc == wrap16(s.pc + 2),
{
    let s1 = s.get_single_operand().1;
    let (_i, v, s2) = s1.zp_reg(s1.x);
    lemma_sbc_binary(s2, v);
}

/// Opcode 0xF5 (SBC zp x) subtracts the zero page byte at the operand plus X, with the borrow, from the accumulator in binary mode.
pub proof fn lemma_opcode_f5(s: CpuView)
    requires
        s.mem.len() == 0x10000,
        byte_after(s, 1) == 0xF5,
        !flag_of(s.p, StatusBit::Decimal),
    ensures
        s.step().0 == StepResult::Running,
        subtracted(s, s.step().1, at(s, wrap8(byte_after(s, 2) + s.x) as int)),
        s.step().1.pc == wrap16(s.pc + 2),
{
    lemma_step_in_block(s);
    entry_f5(s.get_single_operand().1);
    effect_f5(s);
}

/// The opcode table's entry for 0xF9.
proof fn entry_f9(s1: CpuView)
    ensures
        s1.execute_c0_ff(0xF9) == (StepResult::Running, s1.absolute_y_cb(ReadOp::Sbc)),
{
}

/// What the entry for 0xF9 does, after the fetch.
#[verifier::spinoff_prover]
#[verifier::rlimit(40)]
proof fn effect_f9(s: CpuView)
    requires
        s.mem.len() == 0x10000,
        !flag_of(s.p, StatusBit::Decimal),
    ensures
        subtracted(s, s.get_single_operand().1.absolute_y_cb(ReadOp::Sbc), at(s, wrap16(word(byte_after(s, 2), byte_after(s, 3)) + s.y) as int)),
        s.get_single_operand().1.absolute_y_cb(ReadOp::Sbc).pc == wrap16(s.pc + 3),
{
    let s1 = s.get_single_operand().1;
    let (_i, v, s2) = s1.absolute_reg(s1.y);
    let (lo, hi, s3) = s1.get_two_operands();
    assert(lo == byte_after(s, 2) && hi == byte_after(s, 3));
    lemma_sbc_binary(s2, v);
}

/// Opcode 0xF9 (SBC absolute y) subtracts the byte at the absolute address plus Y, with the borrow, from the accumulator in binary mode.
pub proof fn lemma_opcode_f9(s: CpuView)
    requires
        s.mem.len() == 0x10000,
        byte_after(s, 1) == 0xF9,
        !flag_of(s.p, StatusBit::Decimal),
    ensures
        s.step().0 == StepResult::Running,
        subtracted(s, s.step().1, at(s, wrap16(word(byte_after(s, 2), byte_after(s, 3)) + s.y) as int)),
        s.step().1.pc == wrap16(s.pc + 3),
{
    lemma_step_in_block(s);
    entry_f9(s.get_single_operand().1);
    effect_f9(s);
}

/// The opcode table's entry for 0xFD.
proof fn entry_fd(s1: CpuView)
    ensures
        s1.execute_c0_ff(0xFD) == (StepResult::Running, s1.absolute_x_cb(ReadOp::Sbc)),
{
}

/// What the entry for 0xFD does, after the fetch.
#[verifier::spinoff_prover]
#[verifier::rlimit(40)]
proof fn effect_fd(s: CpuView)
    requires
        s.mem.len() == 0x10000,
        !flag_of(s.p, StatusBit::Decimal),
    ensures
        subtracted(s, s.get_single_operand().1.absolute_x_cb(ReadOp::Sbc), at(s, wrap16(word(byte_after(s, 2), byte_after(s, 3)) + s.x) as int)),
        s.get_single_operand().1.absolute_x_cb(ReadOp::Sbc).pc == wrap16(s.pc + 3),
{
    let s1 = s.get_single_operand().1;
    let (_i, v, s2) = s1.absolute_reg(s1.x);
    let (lo, hi, s3) = s1.get_two_operands();
    assert(lo == byte_after(s, 2) && hi == byte_after(s, 3));
    lemma_sbc_binary(s2, v);
}

/// Opcode 0xFD (SBC absolute x) subtracts the byte at the absolute address plus X, with the borrow, from the accumulator in binary mode.
pub proof fn lemma_opcode_fd(s: CpuView)
    requires
        s.mem.len() == 0x10000,
        byte_after(s, 1) == 0xFD,
        !flag_of(s.p, StatusBit::Decimal),
    ensures
        s.step().0 == StepResult::Running,
        subtracted(s, s.step().1, at(s, wrap16(word(byte_after(s, 2), byte_after(s, 3)) + s.x) as int)),
        s.step().1.pc == wrap16(s.pc + 3),
{
    lemma_step_in_block(s);
    entry_fd(s.get_single_operand().1);
    effect_fd(s);
}

/// A raised reset pin resets the processor: registers, flags, memory and
/// pins are cleared, the stack pointer is 0xFF, and the counter is back at
/// its start block.
pub proof fn lemma_reset_pin_serviced(s: CpuView)
    requires
        s.mem.len() == 0x10000,
        s.reset_pin,
    ensures
        ({
            let t = s.check_pins();
            &&& t.pc == s.pc_start && t.pc_start == s.pc_start
            &&& t.a == 0 && t.x == 0 && t.y == 0 && t.p == 0 && t.sp == 0xFF
            &&& t.mem.len() == 0x10000
            &&& forall|i: int| 0 <= i < 0x10000 ==> #[trigger] t.mem[i] == 0
            &&& !t.reset_pin && !t.nmi_pin && !t.irq_pin
        }),
{
}

/// A raised non-maskable interrupt pin is serviced whatever the interrupt
/// flag says, once no reset is pending: the counter's low byte, its high
/// byte and the status with the interrupt flag set are pushed, the
/// interrupt flag is set, and execution continues at the address stored in
/// 0xFFFA and 0xFFFB. A raised maskable pin then waits.
pub proof fn lemma_nmi_serviced(s: CpuView)
    requires
        s.mem.len() == 0x10000,
        s.nmi_pin,
        !s.reset_pin,
    ensures
        ({
            let t = s.check_pins();
            &&& t.pc == wrap16(word(s.mem[0xFFFA], s.mem[0xFFFB]) - 1)
            &&& flag_of(t.p, StatusBit::Interrupt)
            &&& t.sp == dec8(dec8(dec8(s.sp)))
            &&& t.mem[stack_slot(s.sp)] == s.pc % 256
            &&& t.mem[stack_slot(dec8(s.sp))] == s.pc / 256
            &&& t.mem[stack_slot(dec8(dec8(s.sp)))] == with_flag(s.p, StatusBit::Interrupt, true)
            &&& t.a == s.a && t.x == s.x && t.y == s.y
        }),
{
    lemma_flag_write(s.p, StatusBit::Interrupt, true);
    let (index, s1) = s.interrupt(0xFFFA, 0xFFFB);
    assert(flag_of(s1.p, StatusBit::Interrupt));
}

/// A raised maskable interrupt pin, with no reset or non-maskable interrupt
/// pending, is serviced exactly when the interrupt flag is clear: then the
/// interrupt flag is set and execution continues at the address stored in
/// 0xFFFE and 0xFFFF; otherwise nothing changes.
pub proof fn lemma_irq_serviced_when_unmasked(s: CpuView)
    requires
        s.mem.len() == 0x10000,
        s.irq_pin,
        !s.nmi_pin,
        !s.reset_pin,
    ensures
        flag_of(s.p, StatusBit::Interrupt) ==> s.check_pins() == s,
        !flag_of(s.p, StatusBit::Interrupt) ==> s.check_pins().pc == wrap16(
            word(s.mem[0xFFFE], s.mem[0xFFFF]) - 1,
        ) && flag_of(s.check_pins().p, StatusBit::Interrupt),
{
    lemma_flag_write(s.p, StatusBit::Interrupt, true);
}

/// With no pin raised, servicing the pins changes nothing.
pub proof fn lemma_no_pin_no_change(s: CpuView)
    requires
        !s.irq_pin,
        !s.nmi_pin,
        !s.reset_pin,
    ensures
        s.check_pins() == s,
{
}

/// INX, DEX, INY and DEY count X or Y up or down by one, wrapping, with
/// negative and zero from the new value.
pub proof fn lemma_counters(s: CpuView)
    ensures
        loaded_into(s, s.inx(), 1, ((s.x + 1) % 256) as u8, 0),
        loaded_into(s, s.dex(), 1, ((s.x + 255) % 256) as u8, 0),
        loaded_into(s, s.iny(), 2, ((s.y + 1) % 256) as u8, 0),
        loaded_into(s, s.dey(), 2, ((s.y + 255) % 256) as u8, 0),
{
    lemma_nz_reads_all(s.p, ((s.x + 1) % 256) as u8);
    lemma_nz_reads_all(s.p, ((s.x + 255) % 256) as u8);
    lemma_nz_reads_all(s.p, ((s.y + 1) % 256) as u8);
    lemma_nz_reads_all(s.p, ((s.y + 255) % 256) as u8);
}

/// TAX, TXA, TAY and TYA copy one register into the other, with negative
/// and zero from the value copied.
pub proof fn lemma_transfers(s: CpuView)
    ensures
        loaded_into(s, s.tax(), 1, s.a, 0),
        loaded_into(s, s.txa(), 0, s.x, 0),
        loaded_into(s, s.tay(), 2, s.a, 0),
        loaded_into(s, s.tya(), 0, s.y, 0),
        s.tsx().x == s.sp && s.tsx().a == s.a && s.tsx().y == s.y && s.tsx().p == s.p,
        s.txs().sp == s.x && s.txs().a == s.a && s.txs().x == s.x && s.txs().p == s.p,
{
    lemma_nz_reads_all(s.p, s.a);
    lemma_nz_reads_all(s.p, s.x);
    lemma_nz_reads_all(s.p, s.y);
}

/// `t` is `s` with flag `f` made `on` and every other flag, the registers
/// and memory kept.
pub open spec fn flag_changed(s: CpuView, t: CpuView, f: StatusBit, on: bool) -> bool {
    &&& flag_of(t.p, f) == on
    &&& forall|g: StatusBit| g != f ==> #[trigger] flag_of(t.p, g) == flag_of(s.p, g)
    &&& t.a == s.a && t.x == s.x && t.y == s.y && t.sp == s.sp && t.mem == s.mem && t.pc == s.pc
}

/// CLC and SEC clear and set carry, CLI and SEI the interrupt flag, CLD and
/// SED the decimal flag, and CLV clears overflow.
pub proof fn lemma_flag_instructions(s: CpuView)
    ensures
        flag_changed(s, s.clc(), StatusBit::Carry, false),
        flag_changed(s, s.sec(), StatusBit::Carry, true),
        flag_changed(s, s.cli(), StatusBit::Interrupt, false),
        flag_changed(s, s.sei(), StatusBit::Interrupt, true),
        flag_changed(s, s.cld(), StatusBit::Decimal, false),
        flag_changed(s, s.sed(), StatusBit::Decimal, true),
        flag_changed(s, s.clv(), StatusBit::Overflow, false),
{
    lemma_flag_write(s.p, StatusBit::Carry, false);
    lemma_flag_write(s.p, StatusBit::Carry, true);
    lemma_flag_write(s.p, StatusBit::Interrupt, false);
    lemma_flag_write(s.p, StatusBit::Interrupt, true);
    lemma_flag_write(s.p, StatusBit::Decimal, false);
    lemma_flag_write(s.p, StatusBit::Decimal, true);
    lemma_flag_write(s.p, StatusBit::Overflow, false);
}

/// What a shift or rotate of the accumulator leaves: the accumulator holds
/// `r`, carry is `c`, negative and zero come from `r`, and the other
/// registers, memory and the overflow, decimal and interrupt flags are
/// kept.
pub open spec fn shifted(s: CpuView, t: CpuView, r: u8, c: bool) -> bool {
    &&& t.a == r
    &&& flag_of(t.p, StatusBit::Carry) == c
    &&& flag_of(t.p, StatusBit::Negative) == (r >= 0x80)
    &&& flag_of(t.p, StatusBit::Zero) == (r == 0)
    &&& flag_of(t.p, StatusBit::Overflow) == flag_of(s.p, StatusBit::Overflow)
    &&& flag_of(t.p, StatusBit::Decimal) == flag_of(s.p, StatusBit::Decimal)
    &&& flag_of(t.p, StatusBit::Interrupt) == flag_of(s.p, StatusBit::Interrupt)
    &&& t.x == s.x && t.y == s.y && t.sp == s.sp && t.mem == s.mem && t.pc == s.pc
}

/// Flag reads after negative and zero are set from `r` and carry is set to
/// `c`, in either order.
proof fn lemma_nzc_reads(p: u8, r: u8, c: bool)
    ensures
        forall|g: StatusBit| #[trigger]
            flag_of(with_flag(with_nz(p, r), StatusBit::Carry, c), g) == flag_of(
                with_nz(with_flag(p, StatusBit::Carry, c), r),
                g,
            ),
        flag_of(with_flag(with_nz(p, r), StatusBit::Carry, c), StatusBit::Carry) == c,
        flag_of(with_flag(with_nz(p, r), StatusBit::Carry, c), StatusBit::Negative) == (r >= 0x80),
        flag_of(with_flag(with_nz(p, r), StatusBit::Carry, c), StatusBit::Zero) == (r == 0),
        flag_of(with_flag(with_nz(p, r), StatusBit::Carry, c), StatusBit::Overflow) == flag_of(
            p,
            StatusBit::Overflow,
        ),
        flag_of(with_flag(with_nz(p, r), StatusBit::Carry, c), StatusBit::Decimal) == flag_of(
            p,
            StatusBit::Decimal,
        ),
        flag_of(with_flag(with_nz(p, r), StatusBit::Carry, c), StatusBit::Interrupt) == flag_of(
            p,
            StatusBit::Interrupt,
        ),
{
    lemma_nz_reads_all(p, r);
    lemma_flag_write(with_nz(p, r), StatusBit::Carry, c);
    lemma_flag_write(p, StatusBit::Carry, c);
    lemma_nz_reads_all(with_flag(p, StatusBit::Carry, c), r);
    assert forall|g: StatusBit| #[trigger]
        flag_of(with_flag(with_nz(p, r), StatusBit::Carry, c), g) == flag_of(
            with_nz(with_flag(p, StatusBit::Carry, c), r),
            g,
        ) by {
        lemma_nz_reads(p, r, g);
        lemma_nz_reads(with_flag(p, StatusBit::Carry, c), r, g);
    }
}

/// ASL moves the accumulator left one bit with bit 7 going into carry, LSR
/// right one bit with bit 0 into carry; ROL and ROR do the same with the
/// old carry coming in at the other end.
pub proof fn lemma_shifts(s: CpuView)
    ensures
        shifted(s, s.asl_accumulator(), ((s.a * 2) % 256) as u8, s.a >= 0x80),
        shifted(s, s.lsr_accumulator(), (s.a / 2) as u8, s.a % 2 == 1),
        shifted(
            s,
            s.rol_accumulator(),
            ((s.a * 2 + (if flag_of(s.p, StatusBit::Carry) {
                1int
            } else {
                0
            })) % 256) as u8,
            s.a >= 0x80,
        ),
        shifted(
            s,
            s.ror_accumulator(),
            (s.a / 2 + (if flag_of(s.p, StatusBit::Carry) {
                128int
            } else {
                0
            })) as u8,
            s.a % 2 == 1,
        ),
{
    let c = flag_of(s.p, StatusBit::Carry);
    let rl = ((s.a * 2 + (if c {
        1int
    } else {
        0
    })) % 256) as u8;
    let rr = (s.a / 2 + (if c {
        128int
    } else {
        0
    })) as u8;
    lemma_nzc_reads(s.p, ((s.a * 2) % 256) as u8, s.a >= 0x80);
    lemma_nzc_reads(s.p, (s.a / 2) as u8, s.a % 2 == 1);
    lemma_nzc_reads(s.p, rl, s.a >= 0x80);
    lemma_nzc_reads(s.p, rr, s.a % 2 == 1);
}

} // verus!
