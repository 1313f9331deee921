//! Operand parsing for the interactive prompt: the addressing mode an
//! operand is written in, and its hexadecimal value.
use vstd::prelude::*;
use vstd::utf8::encode_utf8;

verus! {

/// The value of a hexadecimal digit, in either case.
pub open spec fn hex_digit(c: char) -> Option<int> {
    if '0' <= c && c <= '9' {
        Some(c as int - '0' as int)
    } else if 'a' <= c && c <= 'f' {
        Some(c as int - 'a' as int + 10)
    } else if 'A' <= c && c <= 'F' {
        Some(c as int - 'A' as int + 10)
    } else {
        None
    }
}

/// The value of a string of hexadecimal digits, if every character is one.
pub open spec fn hex_value(s: Seq<char>) -> Option<int>
    decreases s.len(),
{
    if s.len() == 0 {
        Some(0)
    } else {
        match (hex_value(s.drop_last()), hex_digit(s.last())) {
            (Some(v), Some(d)) => Some(v * 16 + d),
            _ => None,
        }
    }
}

/// What `from_str_radix` with radix 16 gives for an unsigned type whose
/// largest value is `max`: an optional `+` then at least one hexadecimal
/// digit, with a value that fits.
pub open spec fn parse_hex(s: Seq<char>, max: int) -> Option<int> {
    let digits = if s.len() > 0 && s[0] == '+' {
        s.drop_first()
    } else {
        s
    };
    if digits.len() == 0 {
        None
    } else {
        match hex_value(digits) {
            Some(v) => if v <= max {
                Some(v)
            } else {
                None
            },
            None => None,
        }
    }
}

/// The characters from index `from` up to `to`, both clamped to the
/// sequence: what skipping `from` characters and then taking `to - from`
/// gives.
pub open spec fn clamped(s: Seq<char>, from: int, to: int) -> Seq<char> {
    let a = if from < s.len() {
        from
    } else {
        s.len() as int
    };
    let b = if to < s.len() {
        to
    } else {
        s.len() as int
    };
    if a < b {
        s.subrange(a, b)
    } else {
        Seq::empty()
    }
}

/// The characters of a string, in order.
pub fn chars_of(s: &str) -> (r: Vec<char>)
    ensures
        r@ == s@,
{
    let mut text: Vec<char> = Vec::new();
    broadcast use vstd::string::axiom_spec_iter;
    for c in it: s.chars()
        invariant
            text@ == it.seq().take(it.index() as int),
            it.seq() == s@,
    {
        text.push(c);
    }
    text
}

/// The value of a hexadecimal digit.
fn hex_digit_value(c: char) -> (r: Option<u32>)
    ensures
        r matches Some(d) ==> hex_digit(c) == Some(d as int),
        r is None ==> hex_digit(c) is None,
{
    if '0' <= c && c <= '9' {
        Some(c as u32 - '0' as u32)
    } else if 'a' <= c && c <= 'f' {
        Some(c as u32 - 'a' as u32 + 10)
    } else if 'A' <= c && c <= 'F' {
        Some(c as u32 - 'A' as u32 + 10)
    } else {
        None
    }
}

/// Parses hexadecimal digits, with an optional leading `+`, as a value no
/// larger than `max`, as `from_str_radix(.., 16)` does for unsigned types.
pub fn parse_hex_digits(s: &[char], max: u32) -> (r: Option<u32>)
    requires
        max < 0x1000_0000,
    ensures
        r matches Some(v) ==> parse_hex(s@, max as int) == Some(v as int),
        r is None ==> parse_hex(s@, max as int) is None,
{
    let start: usize = if s.len() > 0 && s[0] == '+' {
        1
    } else {
        0
    };
    if start >= s.len() {
        return None;
    }
    let ghost digits = if s@.len() > 0 && s@[0] == '+' {
        s@.drop_first()
    } else {
        s@
    };
    assert(digits =~= s@.subrange(start as int, s@.len() as int));
    let mut acc: u32 = 0;
    let mut over = false;
    let mut i = start;
    while i < s.len()
        invariant
            start <= i <= s.len(),
            max < 0x1000_0000,
            digits =~= s@.subrange(start as int, s@.len() as int),
            digits == (if s@.len() > 0 && s@[0] == '+' {
                s@.drop_first()
            } else {
                s@
            }),
            !over ==> acc <= max && hex_value(s@.subrange(start as int, i as int)) == Some(
                acc as int,
            ),
            over ==> (hex_value(s@.subrange(start as int, i as int)) matches Some(v) ==> v > max),
        decreases s.len() - i,
    {
        let ghost prefix = s@.subrange(start as int, i as int);
        let ghost next = s@.subrange(start as int, i + 1);
        assert(next.drop_last() =~= prefix);
        assert(next.last() == s@[i as int]);
        match hex_digit_value(s[i]) {
            Some(d) => {
                if !over {
                    let v = acc * 16 + d;
                    if v > max {
                        over = true;
                    } else {
                        acc = v;
                    }
                }
            },
            None => {
                proof {
                    lemma_hex_invalid_suffix(s@, start as int, i as int);
                    assert(hex_value(digits) is None);
                    assert(digits.len() > 0);
                }
                return None;
            },
        }
        i = i + 1;
    }
    assert(s@.subrange(start as int, s@.len() as int) =~= digits);
    if over {
        None
    } else {
        Some(acc)
    }
}

/// A string whose digit at `i` is not hexadecimal has no hexadecimal
/// value, however it goes on.
proof fn lemma_hex_invalid_suffix(s: Seq<char>, start: int, i: int)
    requires
        0 <= start <= i < s.len(),
        hex_digit(s[i]) is None,
    ensures
        hex_value(s.subrange(start, s.len() as int)) is None,
    decreases s.len() - i,
{
    lemma_hex_invalid_from(s.subrange(start, s.len() as int), i - start);
}

/// Once a prefix has no hexadecimal value, no longer prefix has one.
proof fn lemma_hex_invalid_from(t: Seq<char>, k: int)
    requires
        0 <= k < t.len(),
        hex_digit(t[k]) is None,
    ensures
        hex_value(t) is None,
    decreases t.len(),
{
    if k == t.len() - 1 {
    } else {
        lemma_hex_invalid_from(t.drop_last(), k);
    }
}

/// The operand of an immediate instruction, `#$hh`: the digits after the
/// first two characters, as a byte.
pub fn parse_immediate(operand: &str) -> (r: Option<u8>)
    ensures
        r matches Some(v) ==> parse_hex(clamped(operand@, 2, operand@.len() as int), 0xFF) == Some(v as int),
        r is None ==> parse_hex(clamped(operand@, 2, operand@.len() as int), 0xFF) is None,
{
    let chars = chars_of(operand);
    let digits = slice_between(&chars, 2, chars.len());
    assert(digits@ =~= clamped(operand@, 2, operand@.len() as int));
    match parse_hex_digits(digits.as_slice(), 0xFF) {
        Some(v) => Some(v as u8),
        None => None,
    }
}

/// The operand of a zero page instruction, `$hh`: the digits after the
/// first character, as a byte.
pub fn parse_zero_page(operand: &str) -> (r: Option<u8>)
    ensures
        r matches Some(v) ==> parse_hex(clamped(operand@, 1, operand@.len() as int), 0xFF) == Some(v as int),
        r is None ==> parse_hex(clamped(operand@, 1, operand@.len() as int), 0xFF) is None,
{
    let chars = chars_of(operand);
    let digits = slice_between(&chars, 1, chars.len());
    assert(digits@ =~= clamped(operand@, 1, operand@.len() as int));
    match parse_hex_digits(digits.as_slice(), 0xFF) {
        Some(v) => Some(v as u8),
        None => None,
    }
}

/// The operand of a zero page X instruction, `$hh,X`: the two characters
/// after the first, as a byte.
pub fn parse_zero_page_x(operand: &str) -> (r: Option<u8>)
    ensures
        r matches Some(v) ==> parse_hex(clamped(operand@, 1, 3), 0xFF) == Some(v as int),
        r is None ==> parse_hex(clamped(operand@, 1, 3), 0xFF) is None,
{
    let chars = chars_of(operand);
    let digits = slice_between(&chars, 1, 3);
    assert(digits@ =~= clamped(operand@, 1, 3));
    match parse_hex_digits(digits.as_slice(), 0xFF) {
        Some(v) => Some(v as u8),
        None => None,
    }
}

/// The operand of an absolute instruction, `$hhll`: after the first
/// character, the two characters after the next two are the high digits,
/// and those two the low ones; as a word.
pub fn parse_absolute(operand: &str) -> (r: Option<u16>)
    ensures
        r matches Some(v) ==> parse_hex(absolute_digits(operand@), 0xFFFF) == Some(v as int),
        r is None ==> parse_hex(absolute_digits(operand@), 0xFFFF) is None,
{
    let chars = chars_of(operand);
    let first_two = slice_between(&chars, 1, 3);
    let mut digits = slice_between(&chars, 3, chars.len());
    let mut k: usize = 0;
    let ghost last = digits@;
    while k < first_two.len()
        invariant
            k <= first_two.len(),
            digits@ =~= last + first_two@.subrange(0, k as int),
        decreases first_two.len() - k,
    {
        digits.push(first_two[k]);
        k = k + 1;
    }
    assert(digits@ =~= absolute_digits(operand@));
    match parse_hex_digits(digits.as_slice(), 0xFFFF) {
        Some(v) => Some(v as u16),
        None => None,
    }
}

/// The digits of an absolute operand in value order: after the leading
/// character, everything from the fourth character on, then the second and
/// third characters.
pub open spec fn absolute_digits(s: Seq<char>) -> Seq<char> {
    clamped(s, 3, s.len() as int) + clamped(s, 1, 3)
}

/// The characters from index `from` up to `to`, both clamped.
fn slice_between(chars: &Vec<char>, from: usize, to: usize) -> (r: Vec<char>)
    ensures
        r@ == clamped(chars@, from as int, to as int),
{
    let a = if from < chars.len() {
        from
    } else {
        chars.len()
    };
    let b = if to < chars.len() {
        to
    } else {
        chars.len()
    };
    let mut r: Vec<char> = Vec::new();
    let mut i = a;
    while i < b
        invariant
            a <= i,
            i <= b || a >= b,
            a >= b ==> i == a,
            b <= chars.len(),
            r@ =~= chars@.subrange(a as int, i as int),
        decreases b - i,
    {
        r.push(chars[i]);
        i = i + 1;
    }
    assert(a < b ==> r@ =~= chars@.subrange(a as int, b as int));
    assert(a >= b ==> r@ =~= Seq::<char>::empty());
    r
}

/// The addressing mode of an operand, by its length in bytes: three bytes
/// is zero page, four immediate, five zero page X when it holds an `X` and
/// absolute otherwise, seven indirect (with a parenthesis) or absolute,
/// X or Y by whether it holds an `X`.
pub open spec fn mode_name(s: Seq<char>) -> Seq<char> {
    let n = encode_utf8(s).len();
    if n == 3 {
        "zero page"@
    } else if n == 4 {
        "immediate"@
    } else if n == 5 {
        if s.contains('X') {
            "zero page x"@
        } else {
            "absolute"@
        }
    } else if n == 7 {
        if s.contains('(') {
            if s.contains('X') {
                "indirect X"@
            } else {
                "indirect Y"@
            }
        } else {
            if s.contains('X') {
                "absolute X"@
            } else {
                "absolute Y"@
            }
        }
    } else {
        "Invalid value"@
    }
}

/// Whether the characters hold `c`.
fn holds(chars: &Vec<char>, c: char) -> (r: bool)
    ensures
        r == chars@.contains(c),
{
    let mut i: usize = 0;
    while i < chars.len()
        invariant
            i <= chars.len(),
            forall|j: int| 0 <= j < i ==> chars@[j] != c,
        decreases chars.len() - i,
    {
        if chars[i] == c {
            return true;
        }
        i = i + 1;
    }
    false
}

/// Names the addressing mode that an operand is written in.
pub fn determine_mode(string: &str) -> (r: String)
    requires
        encode_utf8(string@).len() <= usize::MAX,
    ensures
        r@ == mode_name(string@),
{
    let chars = chars_of(string);
    let n = string.len();
    let result = if n == 3 {
        "zero page"
    } else if n == 4 {
        "immediate"
    } else if n == 5 {
        if holds(&chars, 'X') {
            "zero page x"
        } else {
            "absolute"
        }
    } else if n == 7 {
        if holds(&chars, '(') {
            if holds(&chars, 'X') {
                "indirect X"
            } else {
                "indirect Y"
            }
        } else {
            if holds(&chars, 'X') {
                "absolute X"
            } else {
                "absolute Y"
            }
        }
    } else {
        "Invalid value"
    };
    result.to_owned()
}

} // verus!
