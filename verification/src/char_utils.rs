//! Character classes of the assembly lexer.
use vstd::prelude::*;

verus! {

/// Whether a character has the Unicode Alphabetic property, as
/// `char::is_alphabetic` reports it.
pub uninterp spec fn alphabetic(c: char) -> bool;

/// `char::is_alphabetic` from std: whether the character has the Unicode
/// Alphabetic property (DerivedCoreProperties.txt). The result is named
/// `alphabetic(c)`; which characters have the property is not restated.
#[verifier::external_body]
fn char_is_alphabetic(c: char) -> (r: bool)
    ensures
        r == alphabetic(c),
{
    c.is_alphabetic()
}

/// Characters that start an operator token.
pub open spec fn operator_char(c: char) -> bool {
    c == '=' || c == ':' || c == '<' || c == '>' || c == '#' || c == ',' || c == '(' || c == ')'
}

/// Characters that start a number token: a radix sign or a decimal digit.
pub open spec fn number_char(c: char) -> bool {
    c == '$' || c == '%' || ('0' <= c && c <= '9')
}

/// Characters that start a string literal.
pub open spec fn string_char(c: char) -> bool {
    c == '"' || c == '\''
}

/// Whether the character is a letter.
pub fn is_letter(c: &char) -> (r: bool)
    ensures
        r == alphabetic(*c),
{
    char_is_alphabetic(*c)
}

/// Whether the character starts an operator.
pub fn is_operator(c: &char) -> (r: bool)
    ensures
        r == operator_char(*c),
{
    match *c {
        '=' | ':' | '<' | '>' | '#' | ',' | '(' | ')' => true,
        _ => false,
    }
}

/// Whether the character starts a number: `$`, `%` or a decimal digit.
pub fn is_number(c: &char) -> (r: bool)
    ensures
        r == number_char(*c),
{
    match *c {
        '$' | '%' => true,
        _ => '0' <= *c && *c <= '9',
    }
}

/// Whether the character opens a string literal.
pub fn is_string(c: &char) -> (r: bool)
    ensures
        r == string_char(*c),
{
    match *c {
        '"' | '\'' => true,
        _ => false,
    }
}

/// Whether the character is the decimal point that starts an assembler
/// command.
pub fn is_decimal(c: &char) -> (r: bool)
    ensures
        r == (*c == '.'),
{
    match *c {
        '.' => true,
        _ => false,
    }
}

} // verus!
