//! Properties of the processor that span several operations.
use crate::general_register::{dec8, inc8};
use crate::lexer::{
    end_of_input, lemma_scan_bounds, lemma_skip_lands, lex_next, skip, LexState, StopSet,
};
use crate::memory::stack_slot;
use crate::model::{dsub_hi, dsub_lo, dsub_result, initial_view, word, wrap8, CpuView, StepResult};
use crate::program_counter::wrap16;
use crate::status_register::{
    flag_of, lemma_flag_read_after_write, lemma_flag_writes_commute, sub_overflow, with_flag,
    StatusBit,
};
use crate::token::TokenType;
use vstd::prelude::*;

verus! {

/// Whether both nibbles of a byte are decimal digits.
pub open spec fn is_bcd(b: u8) -> bool {
    b / 16 <= 9 && b % 16 <= 9
}

/// The number a binary coded decimal byte stands for.
pub open spec fn bcd_value(b: u8) -> int {
    (b / 16) * 10 + b % 16
}

/// The binary coded decimal byte of a number below 100.
pub open spec fn to_bcd(n: int) -> u8 {
    ((n / 10) * 16 + n % 10) as u8
}

/// The cycle count after `n` more cycles, when it does not saturate.
pub open spec fn plus(s: CpuView, n: int) -> u64 {
    (s.cycles + n) as u64
}

/// Each addressing mode costs the cycles its documentation gives:
/// immediate one, zero page two, zero page X or Y three, absolute three,
/// absolute X or Y three plus one when the low byte and the register cross
/// a page, indexed indirect five, indirect indexed four plus one when the
/// pointer's low byte and Y cross a page.
pub proof fn lemma_addressing_cycles(s: CpuView, reg: u8)
    requires
        s.cycles + 8 <= u64::MAX,
    ensures
        s.immediate().1.cycles == plus(s, 1),
        s.zero_page().2.cycles == plus(s, 2),
        s.zp_reg(reg).2.cycles == plus(s, 3),
        s.absolute().2.cycles == plus(s, 3),
        s.absolute_reg(reg).2.cycles == plus(
            s,
            if s.get_two_operands().0 + reg > 255 {
                4
            } else {
                3
            },
        ),
        s.indexed_x().2.cycles == plus(s, 5),
        s.indexed_y().2.cycles == plus(
            s,
            if s.mem[s.get_single_operand().0 as int] + s.y > 255 {
                5
            } else {
                4
            },
        ),
{
}

/// Returning from an interrupt undoes servicing it: the program counter
/// and the stack pointer come back, and the status comes back with the
/// interrupt and break flags clear. Registers are untouched throughout.
pub proof fn lemma_interrupt_then_return(s: CpuView, low_vec: u16, hi_vec: u16)
    requires
        s.mem.len() == 0x10000,
    ensures
        ({
            let s2 = s.interrupt(low_vec, hi_vec).1.return_from_interrupt();
            &&& s2.pc == s.pc
            &&& s2.sp == s.sp
            &&& s2.p == with_flag(
                with_flag(s.p, StatusBit::Interrupt, false),
                StatusBit::Break,
                false,
            )
            &&& s2.a == s.a
            &&& s2.x == s.x
            &&& s2.y == s.y
        }),
{
    let sp0 = s.sp;
    let sp1 = dec8(sp0);
    let sp2 = dec8(sp1);
    let sp3 = dec8(sp2);
    let p1 = with_flag(s.p, StatusBit::Interrupt, true);
    let lo = (s.pc % 256) as u8;
    let hi = (s.pc / 256) as u8;
    let t1 = s.set_flag_to(StatusBit::Interrupt, true).tick().tick();
    let t2 = t1.push_to_stack(lo);
    let t3 = t2.push_to_stack(hi);
    let t4 = t3.push_to_stack(t3.p);
    assert(t4.mem == s.mem.update(stack_slot(sp0), lo).update(stack_slot(sp1), hi).update(
        stack_slot(sp2),
        p1,
    ));
    assert(t4.sp == sp3);
    let s1 = s.interrupt(low_vec, hi_vec).1;
    assert(s1.mem == t4.mem);
    assert(s1.sp == sp3);
    assert(s1.p == p1);
    assert(inc8(sp3) == sp2);
    assert(inc8(sp2) == sp1);
    assert(inc8(sp1) == sp0);
    assert(s1.mem[stack_slot(sp2)] == p1);
    assert(s1.mem[stack_slot(sp1)] == hi);
    assert(s1.mem[stack_slot(sp0)] == lo);
    assert(word(lo, hi) == s.pc);
    lemma_flag_writes_commute(s.p, StatusBit::Interrupt, true, StatusBit::Interrupt, false);
}

/// Pulling the accumulator right after pushing it gives it back and puts
/// the stack pointer back.
pub proof fn lemma_pha_then_pla(s: CpuView)
    requires
        s.mem.len() == 0x10000,
    ensures
        s.pha().pla().a == s.a,
        s.pha().pla().sp == s.sp,
{
}

/// Pulling the status right after pushing it gives it back and puts the
/// stack pointer back.
pub proof fn lemma_php_then_plp(s: CpuView)
    requires
        s.mem.len() == 0x10000,
    ensures
        s.php().plp().p == s.p,
        s.php().plp().sp == s.sp,
{
}

/// The return address that JSR pushes: the counter after its two operand
/// bytes, less one.
pub open spec fn jsr_return_address(s: CpuView) -> u16 {
    wrap16(s.get_two_operands().2.pc - 1)
}

/// RTS right after JSR puts the counter one past the pushed return
/// address, that is on the JSR's last byte, so that execution continues
/// with the instruction after it; the stack pointer comes back.
pub proof fn lemma_jsr_then_rts(s: CpuView)
    requires
        s.mem.len() == 0x10000,
    ensures
        s.jsr().rts().pc == wrap16(jsr_return_address(s) + 1),
        s.jsr().rts().pc == wrap16(s.pc + 2),
        s.jsr().rts().sp == s.sp,
{
    let r = jsr_return_address(s);
    let s1 = s.get_two_operands().2;
    let sp0 = s.sp;
    let sp1 = dec8(sp0);
    let hi = (r / 256) as u8;
    let lo = (r % 256) as u8;
    let j = s.jsr();
    assert(j.sp == dec8(sp1));
    assert(j.mem == s1.mem.update(stack_slot(sp0), hi).update(stack_slot(sp1), lo));
    assert(s1.mem == s.mem);
    assert(inc8(dec8(sp1)) == sp1);
    assert(inc8(sp1) == sp0);
    assert(stack_slot(sp1) != stack_slot(sp0));
    assert(j.mem[stack_slot(sp1)] == lo);
    assert(j.mem[stack_slot(sp0)] == hi);
    assert(word(lo, hi) == r);
}

/// Decimal addition of two binary coded decimal bytes and a carry-in gives
/// the decimal sum modulo 100, and sets the carry exactly when the sum
/// reaches 100.
pub proof fn lemma_decimal_addition_is_bcd(s: CpuView, a: u8, v: u8, m: u8)
    requires
        is_bcd(a),
        is_bcd(v),
        m <= 1,
    ensures
        s.decimal_addition(a, v, m).0 == to_bcd((bcd_value(a) + bcd_value(v) + m) % 100),
        flag_of(s.decimal_addition(a, v, m).1.p, StatusBit::Carry) == (bcd_value(a) + bcd_value(
            v,
        ) + m >= 100),
{
    let ha = a / 16;
    let la = a % 16;
    let hv = v / 16;
    let lv = v % 16;
    assert(a == ha * 16 + la);
    assert(v == hv * 16 + lv);
    let lo = v % 16 + a % 16 + m;
    let temp = if lo >= 10 {
        (lo + 6) % 16 + 16
    } else {
        lo
    };
    let sum = (v - v % 16) + (a - a % 16) + temp;
    let adj = if sum >= 0xA0 {
        sum + 0x60
    } else {
        sum
    };
    let d: int = if lo >= 10 {
        ha + hv + 1
    } else {
        ha + hv
    };
    let l: int = if lo >= 10 {
        lo - 10
    } else {
        lo
    };
    assert(lo >= 10 ==> (lo + 6) % 16 == lo - 10);
    assert(temp == l + (if lo >= 10 {
        16int
    } else {
        0int
    }));
    assert(sum == 16 * d + l);
    assert(0 <= l <= 9);
    assert(0 <= d <= 19);
    let n = bcd_value(a) + bcd_value(v) + m;
    assert(n == 10 * d + l);
    if d >= 10 {
        assert(adj == 16 * (d - 10) + l + 256);
        assert(wrap8(adj) == 16 * (d - 10) + l);
        assert(n % 100 == 10 * (d - 10) + l);
        assert((n % 100) / 10 == d - 10);
        assert((n % 100) % 10 == l);
    } else {
        assert(adj == 16 * d + l);
        assert(wrap8(adj) == 16 * d + l);
        assert(n % 100 == 10 * d + l);
        assert((n % 100) / 10 == d);
        assert((n % 100) % 10 == l);
    }
    let p1 = with_flag(s.p, StatusBit::Negative, sum % 256 >= 0x80);
    let p2 = with_flag(
        p1,
        StatusBit::Overflow,
        crate::status_register::add_overflow(a, v, wrap8(sum)),
    );
    let r = wrap8(adj);
    let p3 = with_flag(p2, StatusBit::Zero, r == 0);
    lemma_flag_read_after_write(p3, StatusBit::Carry, adj >= 256, StatusBit::Carry);
}

/// Once the lexer gives the end of input, it gives it again on every
/// further call, without moving.
pub proof fn lemma_end_of_input_is_final(text: Seq<char>, st: LexState)
    requires
        0 <= st.pos <= text.len(),
        lex_next(text, st).0.token_type == TokenType::EndOfInput,
    ensures
        lex_next(text, lex_next(text, st).1).0 == end_of_input(),
        lex_next(text, lex_next(text, st).1).1 == lex_next(text, st).1,
{
    lemma_skip_settles(text, st);
    let s1 = skip(text, st);
    lemma_skip_settles(text, s1);
}

/// Skipping stops at the end of the text or at a character that starts a
/// token, and skipping again from there does not move.
pub proof fn lemma_skip_settles(text: Seq<char>, st: LexState)
    requires
        0 <= st.pos <= text.len(),
    ensures
        skip(text, skip(text, st)) == skip(text, st),
        0 <= skip(text, st).pos <= text.len(),
{
    lemma_skip_lands(text, st);
}

/// The lexer gives the end of input exactly when nothing but whitespace,
/// line breaks, comments and characters that start no token is left, and
/// every other token moves it forward by at least one character; so a loop
/// that asks for tokens until the end of input ends after at most one call
/// per character, plus one.
pub proof fn lemma_lexer_progress(text: Seq<char>, st: LexState)
    requires
        0 <= st.pos <= text.len(),
    ensures
        (lex_next(text, st).0.token_type == TokenType::EndOfInput) == (skip(text, st).pos
            == text.len()),
        lex_next(text, st).0.token_type != TokenType::EndOfInput ==> lex_next(text, st).1.pos
            > st.pos,
        lex_next(text, st).1.pos <= text.len(),
{
    lemma_skip_lands(text, st);
    let s1 = skip(text, st);
    if s1.pos < text.len() {
        let p = s1.pos;
        lemma_scan_bounds(text, p + 1, StopSet::Identifier);
        lemma_scan_bounds(text, p + 1, StopSet::Number);
        lemma_scan_bounds(text, p + 1, StopSet::Command);
        lemma_scan_bounds(text, p + 1, StopSet::Quote);
    }
}

/// A reset puts the processor in the state a new one starts in, but for
/// the cycle count and the program counter's start block.
pub proof fn lemma_reset_is_initial(s: CpuView)
    ensures
        s.reset().with_cycles(0) == (CpuView { pc: s.pc_start, pc_start: s.pc_start, ..initial_view() }),
{
}

/// Running a program in pieces is running it at once: `a` steps, then `b`
/// more while the processor is still running, end where `a + b` steps end.
pub proof fn lemma_run_steps_split(v: CpuView, a: nat, b: nat)
    ensures
        v.run_steps(a + b) == (if v.run_steps(a).0 == StepResult::Running {
            v.run_steps(a).1.run_steps(b)
        } else {
            v.run_steps(a)
        }),
    decreases a,
{
    if a > 0 {
        let (r, s) = v.step();
        if r == StepResult::Running {
            lemma_run_steps_split(s, (a - 1) as nat, b);
            assert((a + b - 1) as nat == (a - 1) as nat + b);
        }
    }
}

/// A step that leaves the processor locked or undefined ends every
/// run from there: running on gives the same outcome and state.
pub proof fn lemma_stopped_run_stays(v: CpuView, n: nat, m: nat)
    requires
        v.run_steps(n).0 != StepResult::Running,
        n <= m,
    ensures
        v.run_steps(m) == v.run_steps(n),
{
    lemma_run_steps_split(v, n, (m - n) as nat);
    assert(n + (m - n) as nat == m);
}

/// The binary coded decimal byte of a two digit number has its digits as
/// nibbles.
proof fn lemma_to_bcd_digits(h: int, l: int)
    requires
        0 <= h <= 9,
        0 <= l <= 9,
    ensures
        to_bcd(10 * h + l) == 16 * h + l,
{
    assert((10 * h + l) / 10 == h) by (nonlinear_arith)
        requires
            0 <= h <= 9,
            0 <= l <= 9,
    ;
    assert((10 * h + l) % 10 == l) by (nonlinear_arith)
        requires
            0 <= h <= 9,
            0 <= l <= 9,
    ;
}

/// The digits of a binary coded decimal byte.
proof fn lemma_bcd_digits(b: u8)
    requires
        is_bcd(b),
    ensures
        b == 16 * (b / 16) + b % 16,
        bcd_value(b) == 10 * (b / 16) + b % 16,
        0 <= b / 16 <= 9,
        0 <= b % 16 <= 9,
{
}

/// Decimal subtraction of a binary coded decimal byte and a borrow from
/// another gives the decimal difference modulo 100, and sets the carry
/// exactly when nothing is borrowed.
pub proof fn lemma_decimal_subtraction_is_bcd(s: CpuView, a: u8, v: u8, m: u8)
    requires
        is_bcd(a),
        is_bcd(v),
        m <= 1,
    ensures
        s.decimal_subtraction(a, v, m).0 == to_bcd((bcd_value(a) - bcd_value(v) - m) % 100),
        flag_of(s.decimal_subtraction(a, v, m).1.p, StatusBit::Carry) == (bcd_value(a)
            - bcd_value(v) - m >= 0),
{
    lemma_bcd_digits(a);
    lemma_bcd_digits(v);
    let ha: int = (a / 16) as int;
    let la: int = (a % 16) as int;
    let hv: int = (v / 16) as int;
    let lv: int = (v % 16) as int;
    let d: int = la - lv - m;
    let n: int = bcd_value(a) - bcd_value(v) - m;
    assert(n == 10 * (ha - hv) + d);
    let l: int = if d < 0 {
        d + 10
    } else {
        d
    };
    let h0: int = if d < 0 {
        ha - hv - 1
    } else {
        ha - hv
    };
    assert(dsub_lo(a, v, m) == (l, d < 0));
    assert(dsub_hi(a, v, m).1 == (h0 < 0));
    let h: int = if h0 < 0 {
        h0 + 10
    } else {
        h0
    };
    assert(dsub_hi(a, v, m).0 == h);
    assert(n == 10 * h0 + l);
    assert(0 <= l <= 9);
    assert(0 <= h <= 9);
    assert(n % 100 == 10 * h + l);
    lemma_to_bcd_digits(h, l);
    assert(dsub_result(a, v, m) == 16 * h + l);
    let r = dsub_result(a, v, m);
    let p1 = with_flag(s.p, StatusBit::Negative, r >= 0x80);
    let p2 = with_flag(p1, StatusBit::Overflow, sub_overflow(a, v, wrap8(a - v - m)));
    let p3 = with_flag(p2, StatusBit::Zero, r == 0);
    lemma_flag_read_after_write(p3, StatusBit::Carry, !dsub_hi(a, v, m).1, StatusBit::Carry);
}

/// Every opcode from 0x00 to 0x0F keeps the start block, and spends at least
/// one machine cycle beyond its fetch when it leaves the processor running.
#[verifier::spinoff_prover]
#[verifier::rlimit(50)]
proof fn lemma_execute_00_0f_ticks(s: CpuView, opcode: u8)
    requires
        0x00 <= opcode < 0x10,
    ensures
        s.execute_00_3f(opcode).1.pc_start == s.pc_start,
        s.cycles + 100 <= u64::MAX && s.execute_00_3f(opcode).0 == StepResult::Running ==> s.execute_00_3f(
            opcode,
        ).1.cycles >= s.cycles + 1,
{
}

/// Every opcode from 0x10 to 0x1F keeps the start block, and spends at least
/// one machine cycle beyond its fetch when it leaves the processor running.
#[verifier::spinoff_prover]
#[verifier::rlimit(50)]
proof fn lemma_execute_10_1f_ticks(s: CpuView, opcode: u8)
    requires
        0x10 <= opcode < 0x20,
    ensures
        s.execute_00_3f(opcode).1.pc_start == s.pc_start,
        s.cycles + 100 <= u64::MAX && s.execute_00_3f(opcode).0 == StepResult::Running ==> s.execute_00_3f(
            opcode,
        ).1.cycles >= s.cycles + 1,
{
}

/// Every opcode from 0x20 to 0x2F keeps the start block, and spends at least
/// one machine cycle beyond its fetch when it leaves the processor running.
#[verifier::spinoff_prover]
#[verifier::rlimit(50)]
proof fn lemma_execute_20_2f_ticks(s: CpuView, opcode: u8)
    requires
        0x20 <= opcode < 0x30,
    ensures
        s.execute_00_3f(opcode).1.pc_start == s.pc_start,
        s.cycles + 100 <= u64::MAX && s.execute_00_3f(opcode).0 == StepResult::Running ==> s.execute_00_3f(
            opcode,
        ).1.cycles >= s.cycles + 1,
{
}

/// Every opcode from 0x30 to 0x3F keeps the start block, and spends at least
/// one machine cycle beyond its fetch when it leaves the processor running.
#[verifier::spinoff_prover]
#[verifier::rlimit(50)]
proof fn lemma_execute_30_3f_ticks(s: CpuView, opcode: u8)
    requires
        0x30 <= opcode < 0x40,
    ensures
        s.execute_00_3f(opcode).1.pc_start == s.pc_start,
        s.cycles + 100 <= u64::MAX && s.execute_00_3f(opcode).0 == StepResult::Running ==> s.execute_00_3f(
            opcode,
        ).1.cycles >= s.cycles + 1,
{
}

/// Every opcode from 0x40 to 0x4F keeps the start block, and spends at least
/// one machine cycle beyond its fetch when it leaves the processor running.
#[verifier::spinoff_prover]
#[verifier::rlimit(50)]
proof fn lemma_execute_40_4f_ticks(s: CpuView, opcode: u8)
    requires
        0x40 <= opcode < 0x50,
    ensures
        s.execute_40_7f(opcode).1.pc_start == s.pc_start,
        s.cycles + 100 <= u64::MAX && s.execute_40_7f(opcode).0 == StepResult::Running ==> s.execute_40_7f(
            opcode,
        ).1.cycles >= s.cycles + 1,
{
}

/// Every opcode from 0x50 to 0x5F keeps the start block, and spends at least
/// one machine cycle beyond its fetch when it leaves the processor running.
#[verifier::spinoff_prover]
#[verifier::rlimit(50)]
proof fn lemma_execute_50_5f_ticks(s: CpuView, opcode: u8)
    requires
        0x50 <= opcode < 0x60,
    ensures
        s.execute_40_7f(opcode).1.pc_start == s.pc_start,
        s.cycles + 100 <= u64::MAX && s.execute_40_7f(opcode).0 == StepResult::Running ==> s.execute_40_7f(
            opcode,
        ).1.cycles >= s.cycles + 1,
{
}

/// Every opcode from 0x60 to 0x6F keeps the start block, and spends at least
/// one machine cycle beyond its fetch when it leaves the processor running.
#[verifier::spinoff_prover]
#[verifier::rlimit(50)]
proof fn lemma_execute_60_6f_ticks(s: CpuView, opcode: u8)
    requires
        0x60 <= opcode < 0x70,
    ensures
        s.execute_40_7f(opcode).1.pc_start == s.pc_start,
        s.cycles + 100 <= u64::MAX && s.execute_40_7f(opcode).0 == StepResult::Running ==> s.execute_40_7f(
            opcode,
        ).1.cycles >= s.cycles + 1,
{
}

/// Every opcode from 0x70 to 0x73 keeps the start block, and spends at least
/// one machine cycle beyond its fetch when it leaves the processor running.
#[verifier::spinoff_prover]
#[verifier::rlimit(100)]
proof fn lemma_execute_70_73_ticks(s: CpuView, opcode: u8)
    requires
        0x70 <= opcode < 0x74,
    ensures
        s.execute_40_7f(opcode).1.pc_start == s.pc_start,
        s.cycles + 100 <= u64::MAX && s.execute_40_7f(opcode).0 == StepResult::Running ==> s.execute_40_7f(
            opcode,
        ).1.cycles >= s.cycles + 1,
{
}

/// Every opcode from 0x74 to 0x77 keeps the start block, and spends at least
/// one machine cycle beyond its fetch when it leaves the processor running.
#[verifier::spinoff_prover]
#[verifier::rlimit(100)]
proof fn lemma_execute_74_77_ticks(s: CpuView, opcode: u8)
    requires
        0x74 <= opcode < 0x78,
    ensures
        s.execute_40_7f(opcode).1.pc_start == s.pc_start,
        s.cycles + 100 <= u64::MAX && s.execute_40_7f(opcode).0 == StepResult::Running ==> s.execute_40_7f(
            opcode,
        ).1.cycles >= s.cycles + 1,
{
}

/// Every opcode from 0x78 to 0x7B keeps the start block, and spends at least
/// one machine cycle beyond its fetch when it leaves the processor running.
#[verifier::spinoff_prover]
#[verifier::rlimit(100)]
proof fn lemma_execute_78_7b_ticks(s: CpuView, opcode: u8)
    requires
        0x78 <= opcode < 0x7C,
    ensures
        s.execute_40_7f(opcode).1.pc_start == s.pc_start,
        s.cycles + 100 <= u64::MAX && s.execute_40_7f(opcode).0 == StepResult::Running ==> s.execute_40_7f(
            opcode,
        ).1.cycles >= s.cycles + 1,
{
}

/// Every opcode from 0x7C to 0x7F keeps the start block, and spends at least
/// one machine cycle beyond its fetch when it leaves the processor running.
#[verifier::spinoff_prover]
#[verifier::rlimit(100)]
proof fn lemma_execute_7c_7f_ticks(s: CpuView, opcode: u8)
    requires
        0x7C <= opcode < 0x80,
    ensures
        s.execute_40_7f(opcode).1.pc_start == s.pc_start,
        s.cycles + 100 <= u64::MAX && s.execute_40_7f(opcode).0 == StepResult::Running ==> s.execute_40_7f(
            opcode,
        ).1.cycles >= s.cycles + 1,
{
}

/// Every opcode from 0x80 to 0x8F keeps the start block, and spends at least
/// one machine cycle beyond its fetch when it leaves the processor running.
#[verifier::spinoff_prover]
#[verifier::rlimit(50)]
proof fn lemma_execute_80_8f_ticks(s: CpuView, opcode: u8)
    requires
        0x80 <= opcode < 0x90,
    ensures
        s.execute_80_bf(opcode).1.pc_start == s.pc_start,
        s.cycles + 100 <= u64::MAX && s.execute_80_bf(opcode).0 == StepResult::Running ==> s.execute_80_bf(
            opcode,
        ).1.cycles >= s.cycles + 1,
{
}

/// Every opcode from 0x90 to 0x9F keeps the start block, and spends at least
/// one machine cycle beyond its fetch when it leaves the processor running.
#[verifier::spinoff_prover]
#[verifier::rlimit(50)]
proof fn lemma_execute_90_9f_ticks(s: CpuView, opcode: u8)
    requires
        0x90 <= opcode < 0xA0,
    ensures
        s.execute_80_bf(opcode).1.pc_start == s.pc_start,
        s.cycles + 100 <= u64::MAX && s.execute_80_bf(opcode).0 == StepResult::Running ==> s.execute_80_bf(
            opcode,
        ).1.cycles >= s.cycles + 1,
{
}

/// Every opcode from 0xA0 to 0xAF keeps the start block, and spends at least
/// one machine cycle beyond its fetch when it leaves the processor running.
#[verifier::spinoff_prover]
#[verifier::rlimit(50)]
proof fn lemma_execute_a0_af_ticks(s: CpuView, opcode: u8)
    requires
        0xA0 <= opcode < 0xB0,
    ensures
        s.execute_80_bf(opcode).1.pc_start == s.pc_start,
        s.cycles + 100 <= u64::MAX && s.execute_80_bf(opcode).0 == StepResult::Running ==> s.execute_80_bf(
            opcode,
        ).1.cycles >= s.cycles + 1,
{
}

/// Every opcode from 0xB0 to 0xBF keeps the start block, and spends at least
/// one machine cycle beyond its fetch when it leaves the processor running.
#[verifier::spinoff_prover]
#[verifier::rlimit(50)]
proof fn lemma_execute_b0_bf_ticks(s: CpuView, opcode: u8)
    requires
        0xB0 <= opcode < 0xC0,
    ensures
        s.execute_80_bf(opcode).1.pc_start == s.pc_start,
        s.cycles + 100 <= u64::MAX && s.execute_80_bf(opcode).0 == StepResult::Running ==> s.execute_80_bf(
            opcode,
        ).1.cycles >= s.cycles + 1,
{
}

/// Every opcode from 0xC0 to 0xCF keeps the start block, and spends at least
/// one machine cycle beyond its fetch when it leaves the processor running.
#[verifier::spinoff_prover]
#[verifier::rlimit(50)]
proof fn lemma_execute_c0_cf_ticks(s: CpuView, opcode: u8)
    requires
        0xC0 <= opcode < 0xD0,
    ensures
        s.execute_c0_ff(opcode).1.pc_start == s.pc_start,
        s.cycles + 100 <= u64::MAX && s.execute_c0_ff(opcode).0 == StepResult::Running ==> s.execute_c0_ff(
            opcode,
        ).1.cycles >= s.cycles + 1,
{
}

/// Every opcode from 0xD0 to 0xDF keeps the start block, and spends at least
/// one machine cycle beyond its fetch when it leaves the processor running.
#[verifier::spinoff_prover]
#[verifier::rlimit(50)]
proof fn lemma_execute_d0_df_ticks(s: CpuView, opcode: u8)
    requires
        0xD0 <= opcode < 0xE0,
    ensures
        s.execute_c0_ff(opcode).1.pc_start == s.pc_start,
        s.cycles + 100 <= u64::MAX && s.execute_c0_ff(opcode).0 == StepResult::Running ==> s.execute_c0_ff(
            opcode,
        ).1.cycles >= s.cycles + 1,
{
}

/// Every opcode from 0xE0 to 0xEF keeps the start block, and spends at least
/// one machine cycle beyond its fetch when it leaves the processor running.
#[verifier::spinoff_prover]
#[verifier::rlimit(50)]
proof fn lemma_execute_e0_ef_ticks(s: CpuView, opcode: u8)
    requires
        0xE0 <= opcode < 0xF0,
    ensures
        s.execute_c0_ff(opcode).1.pc_start == s.pc_start,
        s.cycles + 100 <= u64::MAX && s.execute_c0_ff(opcode).0 == StepResult::Running ==> s.execute_c0_ff(
            opcode,
        ).1.cycles >= s.cycles + 1,
{
}

/// Every opcode from 0xF0 to 0xFF keeps the start block, and spends at least
/// one machine cycle beyond its fetch when it leaves the processor running.
#[verifier::spinoff_prover]
#[verifier::rlimit(50)]
proof fn lemma_execute_f0_ff_ticks(s: CpuView, opcode: u8)
    requires
        0xF0 <= opcode,
    ensures
        s.execute_c0_ff(opcode).1.pc_start == s.pc_start,
        s.cycles + 100 <= u64::MAX && s.execute_c0_ff(opcode).0 == StepResult::Running ==> s.execute_c0_ff(
            opcode,
        ).1.cycles >= s.cycles + 1,
{
}

/// Every instruction that leaves the processor running costs at least two
/// machine cycles: the fetch of its opcode and at least one more.
pub proof fn lemma_step_costs_two_cycles(s: CpuView)
    requires
        s.cycles + 101 <= u64::MAX,
    ensures
        s.step().0 == StepResult::Running ==> s.step().1.cycles >= s.cycles + 2,
{
    let (opcode, s1) = s.get_single_operand();
    if opcode < 0x10 {
        lemma_execute_00_0f_ticks(s1, opcode);
    } else if opcode < 0x20 {
        lemma_execute_10_1f_ticks(s1, opcode);
    } else if opcode < 0x30 {
        lemma_execute_20_2f_ticks(s1, opcode);
    } else if opcode < 0x40 {
        lemma_execute_30_3f_ticks(s1, opcode);
    } else if opcode < 0x50 {
        lemma_execute_40_4f_ticks(s1, opcode);
    } else if opcode < 0x60 {
        lemma_execute_50_5f_ticks(s1, opcode);
    } else if opcode < 0x70 {
        lemma_execute_60_6f_ticks(s1, opcode);
    } else if opcode < 0x74 {
        lemma_execute_70_73_ticks(s1, opcode);
    } else if opcode < 0x78 {
        lemma_execute_74_77_ticks(s1, opcode);
    } else if opcode < 0x7C {
        lemma_execute_78_7b_ticks(s1, opcode);
    } else if opcode < 0x80 {
        lemma_execute_7c_7f_ticks(s1, opcode);
    } else if opcode < 0x90 {
        lemma_execute_80_8f_ticks(s1, opcode);
    } else if opcode < 0xA0 {
        lemma_execute_90_9f_ticks(s1, opcode);
    } else if opcode < 0xB0 {
        lemma_execute_a0_af_ticks(s1, opcode);
    } else if opcode < 0xC0 {
        lemma_execute_b0_bf_ticks(s1, opcode);
    } else if opcode < 0xD0 {
        lemma_execute_c0_cf_ticks(s1, opcode);
    } else if opcode < 0xE0 {
        lemma_execute_d0_df_ticks(s1, opcode);
    } else if opcode < 0xF0 {
        lemma_execute_e0_ef_ticks(s1, opcode);
    } else {
        lemma_execute_f0_ff_ticks(s1, opcode);
    }
}

/// No instruction moves the block that a reset sends the counter back to.
pub proof fn lemma_step_keeps_start_block(s: CpuView)
    ensures
        s.step().1.pc_start == s.pc_start,
{
    let (opcode, s1) = s.get_single_operand();
    if opcode < 0x10 {
        lemma_execute_00_0f_ticks(s1, opcode);
    } else if opcode < 0x20 {
        lemma_execute_10_1f_ticks(s1, opcode);
    } else if opcode < 0x30 {
        lemma_execute_20_2f_ticks(s1, opcode);
    } else if opcode < 0x40 {
        lemma_execute_30_3f_ticks(s1, opcode);
    } else if opcode < 0x50 {
        lemma_execute_40_4f_ticks(s1, opcode);
    } else if opcode < 0x60 {
        lemma_execute_50_5f_ticks(s1, opcode);
    } else if opcode < 0x70 {
        lemma_execute_60_6f_ticks(s1, opcode);
    } else if opcode < 0x74 {
        lemma_execute_70_73_ticks(s1, opcode);
    } else if opcode < 0x78 {
        lemma_execute_74_77_ticks(s1, opcode);
    } else if opcode < 0x7C {
        lemma_execute_78_7b_ticks(s1, opcode);
    } else if opcode < 0x80 {
        lemma_execute_7c_7f_ticks(s1, opcode);
    } else if opcode < 0x90 {
        lemma_execute_80_8f_ticks(s1, opcode);
    } else if opcode < 0xA0 {
        lemma_execute_90_9f_ticks(s1, opcode);
    } else if opcode < 0xB0 {
        lemma_execute_a0_af_ticks(s1, opcode);
    } else if opcode < 0xC0 {
        lemma_execute_b0_bf_ticks(s1, opcode);
    } else if opcode < 0xD0 {
        lemma_execute_c0_cf_ticks(s1, opcode);
    } else if opcode < 0xE0 {
        lemma_execute_d0_df_ticks(s1, opcode);
    } else if opcode < 0xF0 {
        lemma_execute_e0_ef_ticks(s1, opcode);
    } else {
        lemma_execute_f0_ff_ticks(s1, opcode);
    }
}

/// Running keeps the start block; so a processor made by `CPU::new`, after
/// any run, resets to `STARTING_MEMORY_BLOCK`.
pub proof fn lemma_run_keeps_start_block(v: CpuView, n: nat)
    ensures
        v.run_steps(n).1.pc_start == v.pc_start,
        v.run_steps(n).1.reset().pc == v.pc_start,
    decreases n,
{
    if n > 0 {
        lemma_step_keeps_start_block(v);
        let (r, s) = v.step();
        if r == StepResult::Running {
            lemma_run_keeps_start_block(s, (n - 1) as nat);
        }
    }
}

} // verus!
