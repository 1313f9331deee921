//! Readable descriptions of the processor's state, as text.
use crate::cpu::CPU;
use crate::lexer::push_char;
use crate::model::CpuView;
use crate::repl::chars_of;
use crate::status_register::{flag_of, StatusBit, StatusRegister};
use vstd::prelude::*;

verus! {

/// `true` or `false`, as the debug form of a boolean reads.
pub open spec fn bool_text(b: bool) -> Seq<char> {
    if b {
        "true"@
    } else {
        "false"@
    }
}

/// The upper case hexadecimal digit of a value below 16.
pub open spec fn hex_digit_char(d: nat) -> char {
    if d < 10 {
        ('0' as nat + d) as char
    } else {
        ('A' as nat + (d - 10)) as char
    }
}

/// A number in upper case hexadecimal, without leading zeros.
pub open spec fn hex_text(n: nat) -> Seq<char>
    decreases n,
{
    if n < 16 {
        seq![hex_digit_char(n)]
    } else {
        hex_text(n / 16).push(hex_digit_char(n % 16))
    }
}

/// The description of a status register: one line per flag, each
/// indented by a tab, saying whether the flag is set.
pub open spec fn status_text(p: u8) -> Seq<char> {
    "\n\tCarryBit: "@ + bool_text(flag_of(p, StatusBit::Carry)) + "\n\tZeroBit: "@ + bool_text(
        flag_of(p, StatusBit::Zero),
    ) + "\n\tInterruptBit: "@ + bool_text(flag_of(p, StatusBit::Interrupt))
        + "\n\tDecimalBit: "@ + bool_text(flag_of(p, StatusBit::Decimal)) + "\n\tBreakBit: "@
        + bool_text(flag_of(p, StatusBit::Break)) + "\n\tOverflowBit: "@ + bool_text(
        flag_of(p, StatusBit::Overflow),
    ) + "\n\tNegativeBit: "@ + bool_text(flag_of(p, StatusBit::Negative))
}

/// The description of a processor: its registers in hexadecimal, one per
/// line, and its status register's flags.
pub open spec fn cpu_text(v: CpuView) -> Seq<char> {
    "program_counter: 0x"@ + hex_text(v.pc as nat) + "\nstack_pointer: 0x"@ + hex_text(
        v.sp as nat,
    ) + "\naccumulator: 0x"@ + hex_text(v.a as nat) + "\nstatus_register: "@ + status_text(v.p)
        + "\nx_register: 0x"@ + hex_text(v.x as nat) + "\ny_register: 0x"@ + hex_text(
        v.y as nat,
    ) + "\n"@
}

/// Appends the text to the string.
fn push_text(s: &mut String, t: &str)
    ensures
        final(s)@ == old(s)@ + t@,
{
    let chars = chars_of(t);
    let mut i: usize = 0;
    while i < chars.len()
        invariant
            i <= chars.len(),
            chars@ == t@,
            s@ == old(s)@ + t@.subrange(0, i as int),
        decreases chars.len() - i,
    {
        push_char(s, chars[i]);
        i = i + 1;
        assert(s@ =~= old(s)@ + t@.subrange(0, i as int));
    }
    assert(t@.subrange(0, i as int) =~= t@);
}

/// Appends `true` or `false`.
fn push_bool(s: &mut String, b: bool)
    ensures
        final(s)@ == old(s)@ + bool_text(b),
{
    if b {
        push_text(s, "true");
    } else {
        push_text(s, "false");
    }
}

/// The upper case hexadecimal digit of a value below 16.
fn hex_digit_of(d: u16) -> (r: char)
    requires
        d < 16,
    ensures
        r == hex_digit_char(d as nat),
{
    if d < 10 {
        ((0x30u16 + d) as u8) as char
    } else {
        ((0x41u16 + (d - 10)) as u8) as char
    }
}

/// Appends the number in upper case hexadecimal.
fn push_hex(s: &mut String, n: u16)
    ensures
        final(s)@ == old(s)@ + hex_text(n as nat),
    decreases n,
{
    if n >= 16 {
        push_hex(s, n / 16);
    }
    let d = hex_digit_of(n % 16);
    push_char(s, d);
    assert(final(s)@ =~= old(s)@ + hex_text(n as nat));
}

impl StatusRegister {
    /// Describes the register: whether each flag is set, one per line.
    pub fn to_string(&self) -> (r: String)
        ensures
            r@ == status_text(self.0),
    {
        let mut s = String::new();
        push_text(&mut s, "\n\tCarryBit: ");
        push_bool(&mut s, self.is_flag_set(StatusBit::Carry));
        push_text(&mut s, "\n\tZeroBit: ");
        push_bool(&mut s, self.is_flag_set(StatusBit::Zero));
        push_text(&mut s, "\n\tInterruptBit: ");
        push_bool(&mut s, self.is_flag_set(StatusBit::Interrupt));
        push_text(&mut s, "\n\tDecimalBit: ");
        push_bool(&mut s, self.is_flag_set(StatusBit::Decimal));
        push_text(&mut s, "\n\tBreakBit: ");
        push_bool(&mut s, self.is_flag_set(StatusBit::Break));
        push_text(&mut s, "\n\tOverflowBit: ");
        push_bool(&mut s, self.is_flag_set(StatusBit::Overflow));
        push_text(&mut s, "\n\tNegativeBit: ");
        push_bool(&mut s, self.is_flag_set(StatusBit::Negative));
        assert(s@ =~= status_text(self.0));
        s
    }
}

impl CPU {
    /// Describes the processor: the program counter, stack pointer,
    /// accumulator, status flags and index registers.
    pub fn to_string(&self) -> (r: String)
        ensures
            r@ == cpu_text(self@),
    {
        let mut s = String::new();
        push_text(&mut s, "program_counter: 0x");
        push_hex(&mut s, self.program_counter.value);
        push_text(&mut s, "\nstack_pointer: 0x");
        push_hex(&mut s, self.memory.get_stack_pointer().get() as u16);
        push_text(&mut s, "\naccumulator: 0x");
        push_hex(&mut s, self.accumulator.get() as u16);
        push_text(&mut s, "\nstatus_register: ");
        let status = self.status_register.to_string();
        push_text(&mut s, status.as_str());
        push_text(&mut s, "\nx_register: 0x");
        push_hex(&mut s, self.x_register.get() as u16);
        push_text(&mut s, "\ny_register: 0x");
        push_hex(&mut s, self.y_register.get() as u16);
        push_text(&mut s, "\n");
        assert(s@ =~= cpu_text(self@));
        s
    }
}

} // verus!
