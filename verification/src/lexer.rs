//! A lexer for ca65 6502 assembly.
//!
//! Takes in a string and hands out tokens carrying their type, text, line
//! and column. Whitespace, line breaks (`\n`, `\r\n` or `\r`), `;`
//! comments and characters that start no token are discarded.
use crate::char_utils::{
    alphabetic, is_decimal, is_letter, is_number, is_operator, is_string, number_char,
    operator_char, string_char,
};
use crate::token::{operator_type, Token, TokenType, TokenView};
use vstd::prelude::*;
use vstd::utf8::encode_utf8;

verus! {

/// The characters that end the rest of a token.
#[derive(Copy, Clone, Debug, PartialEq, Eq, Structural)]
pub enum StopSet {
    /// Whitespace, a newline or the colon that makes a label.
    Identifier,
    /// A comma, whitespace or a line break.
    Number,
    /// Whitespace or a line break.
    Command,
    /// Either quote.
    Quote,
    /// A newline.
    Newline,
}

/// Whether `c` is in the stop set.
pub open spec fn stops(set: StopSet, c: char) -> bool {
    match set {
        StopSet::Identifier => c == ' ' || c == '\t' || c == '\n' || c == '\r' || c == ':',
        StopSet::Number => c == ',' || c == ' ' || c == '\t' || c == '\n' || c == '\r',
        StopSet::Command => c == ' ' || c == '\t' || c == '\n' || c == '\r',
        StopSet::Quote => c == '\'' || c == '"',
        StopSet::Newline => c == '\n',
    }
}

/// The first index at or after `i` whose character is in the stop set, or
/// the end of the text.
pub open spec fn scan(text: Seq<char>, i: int, set: StopSet) -> int
    decreases text.len() - i,
{
    if i < 0 || i >= text.len() || stops(set, text[i]) {
        i
    } else {
        scan(text, i + 1, set)
    }
}

/// Where the lexer stands in its text.
pub struct LexState {
    pub pos: int,
    pub line: int,
    pub column: int,
}

/// The lexer as a value: its text and where it stands.
pub struct LexerView {
    pub text: Seq<char>,
    pub state: LexState,
}

/// Where a `;` comment ends: after its newline, which starts a new line at
/// column 0, or at the end of the text, one column past it.
pub open spec fn comment_end(text: Seq<char>, st: LexState) -> LexState {
    let e = scan(text, st.pos, StopSet::Newline);
    if e < text.len() {
        LexState { pos: e + 1, line: st.line + 1, column: 0 }
    } else {
        LexState { pos: text.len() as int, line: st.line, column: st.column + (text.len() - st.pos) + 1 }
    }
}

/// Whether a character starts a token, given whether it is a letter: a
/// letter, an operator character, a number's first character, the point of
/// an assembler command or a quote.
pub open spec fn starts_token_as(c: char, letter: bool) -> bool {
    letter || operator_char(c) || number_char(c) || c == '.' || string_char(c)
}

/// Whether a character starts a token.
pub open spec fn starts_token(c: char) -> bool {
    starts_token_as(c, alphabetic(c))
}

/// Whether the character at `i` ends a line: a newline, or a carriage return
/// that no newline follows (a carriage return before a newline is part of
/// that line break).
pub open spec fn line_break_at(text: Seq<char>, i: int) -> bool {
    text[i] == '\n' || (text[i] == '\r' && !(i + 1 < text.len() && text[i + 1] == '\n'))
}

/// Skips comments, line breaks (each starts a new line at column 0),
/// spaces, tabs and characters that start no token, up to the first
/// character that starts a token, or the end.
pub open spec fn skip(text: Seq<char>, st: LexState) -> LexState
    decreases text.len() - st.pos,
{
    if 0 <= st.pos < text.len() {
        let c = text[st.pos];
        if c == ';' {
            let n = comment_end(text, st);
            if st.pos < n.pos {
                skip(text, n)
            } else {
                n
            }
        } else if line_break_at(text, st.pos) {
            skip(text, LexState { pos: st.pos + 1, line: st.line + 1, column: 0 })
        } else if c == ' ' || c == '\t' || c == '\r' || !starts_token(c) {
            skip(text, LexState { pos: st.pos + 1, line: st.line, column: st.column + 1 })
        } else {
            st
        }
    } else {
        st
    }
}

/// The end of input token: line 0, column 0, no text.
pub open spec fn end_of_input() -> TokenView {
    TokenView { token_type: TokenType::EndOfInput, line: 0, value: Seq::empty(), column: 0 }
}

/// A token whose characters run from `st.pos` to `end`: it is on the
/// current line, and its column is the column after it less the length of
/// its text in UTF-8 bytes.
pub open spec fn make_token(t: TokenType, value: Seq<char>, st: LexState, end: int) -> (
    TokenView,
    LexState,
) {
    let column = st.column + (end - st.pos);
    (
        TokenView {
            token_type: t,
            line: st.line,
            value: value,
            column: column - encode_utf8(value).len(),
        },
        LexState { pos: end, line: st.line, column: column },
    )
}

/// The token that starts at `st.pos`, by its first character, given
/// whether that character is a letter: a letter starts an identifier (a
/// label when a colon ends it), an operator character an operator, `$`, `%`
/// or a digit a number, `.` an assembler command (without the dot), a quote
/// a string (without the quotes). Skipping never stops at any other
/// character; there the end of input is given and nothing is consumed.
pub open spec fn lex_token_as(text: Seq<char>, st: LexState, letter: bool) -> (TokenView, LexState) {
    let p = st.pos;
    let ch = text[p];
    if letter {
        let j = scan(text, p + 1, StopSet::Identifier);
        let label = j < text.len() && text[j] == ':';
        make_token(
            if label {
                TokenType::Label
            } else {
                TokenType::Identifier
            },
            text.subrange(p, j),
            st,
            if label {
                j + 1
            } else {
                j
            },
        )
    } else if operator_char(ch) {
        make_token(operator_type(ch), seq![ch], st, p + 1)
    } else if number_char(ch) {
        let j = scan(text, p + 1, StopSet::Number);
        make_token(TokenType::Number, text.subrange(p, j), st, j)
    } else if ch == '.' {
        let j = scan(text, p + 1, StopSet::Command);
        make_token(TokenType::Command, text.subrange(p + 1, j), st, j)
    } else if string_char(ch) {
        let j = scan(text, p + 1, StopSet::Quote);
        make_token(
            TokenType::String,
            text.subrange(p + 1, j),
            st,
            if j < text.len() {
                j + 1
            } else {
                j
            },
        )
    } else {
        (end_of_input(), st)
    }
}

/// The token that starts at `st.pos`.
pub open spec fn lex_token(text: Seq<char>, st: LexState) -> (TokenView, LexState) {
    lex_token_as(text, st, alphabetic(text[st.pos]))
}

/// The next token and the state after it: irrelevant text is skipped, then
/// a token is read, or the end of input is given when nothing is left.
pub open spec fn lex_next(text: Seq<char>, st: LexState) -> (TokenView, LexState) {
    let s1 = skip(text, st);
    if s1.pos < text.len() {
        lex_token(text, s1)
    } else {
        (end_of_input(), s1)
    }
}

/// Whether the next token can be built: its column, the column after it
/// less its length in UTF-8 bytes, is not negative. It can be negative only
/// for text outside ASCII.
pub open spec fn next_token_defined(text: Seq<char>, st: LexState) -> bool {
    lex_next(text, st).0.column >= 0
}

/// A 6502 ca65 lexer.
///
/// Takes in a string and hands out tokens containing line info, column
/// info, and token type info.
pub struct Lexer {
    text: Vec<char>,
    pos: usize,
    line: usize,
    column: usize,
}

impl View for Lexer {
    type V = LexerView;

    closed spec fn view(&self) -> LexerView {
        LexerView {
            text: self.text@,
            state: LexState {
                pos: self.pos as int,
                line: self.line as int,
                column: self.column as int,
            },
        }
    }
}

/// Whether the stop set holds the character.
pub fn stops_at(set: StopSet, c: char) -> (r: bool)
    ensures
        r == stops(set, c),
{
    match set {
        StopSet::Identifier => c == ' ' || c == '\t' || c == '\n' || c == '\r' || c == ':',
        StopSet::Number => c == ',' || c == ' ' || c == '\t' || c == '\n' || c == '\r',
        StopSet::Command => c == ' ' || c == '\t' || c == '\n' || c == '\r',
        StopSet::Quote => c == '\'' || c == '"',
        StopSet::Newline => c == '\n',
    }
}

/// A scan from within the text ends within the text, at or after where it
/// started.
pub proof fn lemma_scan_bounds(text: Seq<char>, i: int, set: StopSet)
    requires
        0 <= i <= text.len(),
    ensures
        i <= scan(text, i, set) <= text.len(),
    decreases text.len() - i,
{
    if i < text.len() && !stops(set, text[i]) {
        lemma_scan_bounds(text, i + 1, set);
    }
}

/// A UTF-8 encoding takes at most four bytes per character.
pub proof fn lemma_utf8_len_bound(s: Seq<char>)
    ensures
        encode_utf8(s).len() <= 4 * s.len(),
    decreases s.len(),
{
    if s.len() > 0 {
        lemma_utf8_len_bound(s.drop_first());
    }
}

/// Skipping stops at the end of the text or at a character that starts a
/// token, and never before where it began.
pub proof fn lemma_skip_lands(text: Seq<char>, st: LexState)
    requires
        0 <= st.pos <= text.len(),
    ensures
        st.pos <= skip(text, st).pos <= text.len(),
        skip(text, st).pos < text.len() ==> ({
            let c = text[skip(text, st).pos];
            &&& starts_token(c)
            &&& c != ';' && c != ' ' && c != '\t' && c != '\r'
            &&& !line_break_at(text, skip(text, st).pos)
        }),
    decreases text.len() - st.pos,
{
    if 0 <= st.pos < text.len() {
        let c = text[st.pos];
        if c == ';' {
            lemma_scan_bounds(text, st.pos, StopSet::Newline);
            let n = comment_end(text, st);
            lemma_skip_lands(text, n);
        } else if line_break_at(text, st.pos) {
            lemma_skip_lands(text, LexState { pos: st.pos + 1, line: st.line + 1, column: 0 });
        } else if c == ' ' || c == '\t' || c == '\r' || !starts_token(c) {
            lemma_skip_lands(
                text,
                LexState { pos: st.pos + 1, line: st.line, column: st.column + 1 },
            );
        }
    }
}

/// `String::push` from std: appends the character to the end of the string.
#[verifier::external_body]
pub(crate) fn push_char(s: &mut String, c: char)
    ensures
        final(s)@ == old(s)@.push(c),
{
    s.push(c)
}

impl Lexer {
    /// The lexer's invariant: it stands within its text, its column and
    /// line are bounded by how far it has read, and the text is short enough
    /// for every count to fit.
    pub closed spec fn wf(&self) -> bool {
        &&& self.pos <= self.text.len()
        &&& self.text.len() <= usize::MAX / 4
        &&& self.column <= self.pos + 1
        &&& self.pos < self.text.len() ==> self.column <= self.pos
        &&& self.line <= self.pos
    }

    /// A new lexer on the string, at line 0, column 0.
    pub fn new(input: &String) -> (r: Lexer)
        requires
            input@.len() <= usize::MAX / 4,
        ensures
            r.wf(),
            r@.text == input@,
            r@.state == (LexState { pos: 0, line: 0, column: 0 }),
    {
        let mut text: Vec<char> = Vec::new();
        broadcast use vstd::string::axiom_spec_iter;
        for c in it: input.as_str().chars()
            invariant
                text@ == it.seq().take(it.index() as int),
                it.seq() == input@,
        {
            text.push(c);
        }
        Lexer { text: text, pos: 0, line: 0, column: 0 }
    }

    /// The next character, without consuming it.
    fn peek(&self) -> (r: Option<char>)
        requires
            self.pos <= self.text.len(),
        ensures
            r == (if self.pos < self.text.len() {
                Some(self.text@[self.pos as int])
            } else {
                None
            }),
    {
        if self.pos < self.text.len() {
            Some(self.text[self.pos])
        } else {
            None
        }
    }

    /// Consumes the next character, if any; the column moves on either way.
    fn get_next_char(&mut self) -> (r: Option<char>)
        requires
            old(self).pos <= old(self).text.len(),
            old(self).column < usize::MAX,
        ensures
            final(self).text == old(self).text,
            final(self).line == old(self).line,
            final(self).column == old(self).column + 1,
            old(self).pos < old(self).text.len() ==> final(self).pos == old(self).pos + 1 && r
                == Some(old(self).text@[old(self).pos as int]),
            old(self).pos >= old(self).text.len() ==> final(self).pos == old(self).pos && r
                == None::<char>,
    {
        self.column = self.column + 1;
        if self.pos < self.text.len() {
            let c = self.text[self.pos];
            self.pos = self.pos + 1;
            Some(c)
        } else {
            None
        }
    }

    /// Consumes characters up to the first one in the stop set, appending
    /// them to `acc`.
    fn take_until(&mut self, set: StopSet, acc: &mut String)
        requires
            old(self).pos <= old(self).text.len(),
            old(self).column + (old(self).text.len() - old(self).pos) < usize::MAX,
        ensures
            final(self).text == old(self).text,
            final(self).line == old(self).line,
            final(self).pos == scan(old(self).text@, old(self).pos as int, set),
            final(self).column == old(self).column + (final(self).pos - old(self).pos),
            final(acc)@ == old(acc)@ + old(self).text@.subrange(
                old(self).pos as int,
                final(self).pos as int,
            ),
    {
        proof {
            lemma_scan_bounds(self.text@, self.pos as int, set);
        }
        loop
            invariant_except_break
                self.text == old(self).text,
                self.line == old(self).line,
                old(self).pos <= self.pos <= self.text.len(),
                scan(self.text@, self.pos as int, set) == scan(
                    old(self).text@,
                    old(self).pos as int,
                    set,
                ),
                self.column == old(self).column + (self.pos - old(self).pos),
                old(self).column + (old(self).text.len() - old(self).pos) < usize::MAX,
                acc@ == old(acc)@ + old(self).text@.subrange(old(self).pos as int, self.pos as int),
            ensures
                self.text == old(self).text,
                self.line == old(self).line,
                self.pos == scan(old(self).text@, old(self).pos as int, set),
                self.column == old(self).column + (self.pos - old(self).pos),
                acc@ == old(acc)@ + old(self).text@.subrange(old(self).pos as int, self.pos as int),
            decreases self.text.len() - self.pos,
        {
            match self.peek() {
                Some(ch) => {
                    if stops_at(set, ch) {
                        break ;
                    }
                    let c = self.get_next_char().unwrap();
                    push_char(acc, c);
                    assert(acc@ =~= old(acc)@ + old(self).text@.subrange(
                        old(self).pos as int,
                        self.pos as int,
                    ));
                },
                None => {
                    break ;
                },
            }
        }
    }

    /// Builds a token of the value ending at the current position: its
    /// column is the current column less the value's length in UTF-8 bytes,
    /// and there is no token when that would be negative.
    fn build_new_token(&mut self, t: TokenType, val: String) -> (r: Option<Token>)
        requires
            val@.len() <= usize::MAX / 4,
        ensures
            *final(self) == *old(self),
            r is Some <==> encode_utf8(val@).len() <= old(self).column,
            r is Some ==> r->0@ == (TokenView {
                token_type: t,
                line: old(self).line as int,
                value: val@,
                column: old(self).column - encode_utf8(val@).len(),
            }),
    {
        proof {
            lemma_utf8_len_bound(val@);
        }
        let n = val.as_str().len();
        if n > self.column {
            None
        } else {
            Some(Token::new(t).column(self.column - n).line(self.line).value(val).build())
        }
    }

    /// Skips whitespace, line breaks, comments and characters that start no
    /// token, keeping track of the line and column.
    fn remove_irrelevant(&mut self)
        requires
            old(self).wf(),
        ensures
            final(self).wf(),
            final(self)@.text == old(self)@.text,
            final(self)@.state == skip(old(self)@.text, old(self)@.state),
    {
        loop
            invariant_except_break
                self.wf(),
                self@.text == old(self)@.text,
                skip(self@.text, self@.state) == skip(old(self)@.text, old(self)@.state),
            ensures
                self.wf(),
                self@.text == old(self)@.text,
                self@.state == skip(old(self)@.text, old(self)@.state),
            decreases self.text.len() - self.pos,
        {
            match self.peek() {
                Some(c) => {
                    match c {
                        ';' => {
                            self.handle_comment();
                        },
                        _ => {
                            if c == '\n' || (c == '\r' && !self.newline_follows()) {
                                self.get_next_char();
                                self.handle_newline();
                            } else if c == ' ' || c == '\t' || c == '\r' {
                                self.handle_whitespace();
                            } else if is_letter(&c) || is_operator(&c) || is_number(&c)
                                || is_decimal(&c) || is_string(&c) {
                                break ;
                            } else {
                                self.handle_whitespace();
                            }
                        },
                    }
                },
                None => {
                    break ;
                },
            }
        }
    }

    /// Whether the character after the current one is a newline.
    fn newline_follows(&self) -> (r: bool)
        requires
            self.pos < self.text.len(),
        ensures
            r == (self.pos + 1 < self.text.len() && self.text@[self.pos + 1] == '\n'),
    {
        self.pos + 1 < self.text.len() && self.text[self.pos + 1] == '\n'
    }

    /// Consumes a comment up to and including its newline, which starts a
    /// new line.
    fn handle_comment(&mut self)
        requires
            old(self).wf(),
            old(self).pos < old(self).text.len(),
            old(self).text@[old(self).pos as int] == ';',
        ensures
            final(self).wf(),
            final(self)@.text == old(self)@.text,
            final(self)@.state == comment_end(old(self)@.text, old(self)@.state),
            final(self).pos > old(self).pos,
    {
        let ghost e = scan(self.text@, self.pos as int, StopSet::Newline);
        proof {
            lemma_scan_bounds(self.text@, self.pos as int, StopSet::Newline);
        }
        loop
            invariant_except_break
                self.text == old(self).text,
                self.line == old(self).line,
                old(self).pos <= self.pos <= e,
                e <= self.text.len(),
                e == scan(old(self).text@, old(self).pos as int, StopSet::Newline),
                scan(self.text@, self.pos as int, StopSet::Newline) == e,
                self.column == old(self).column + (self.pos - old(self).pos),
                old(self).wf(),
                old(self).pos < old(self).text.len(),
            ensures
                self.text == old(self).text,
                self@.state == comment_end(old(self)@.text, old(self)@.state),
            decreases self.text.len() - self.pos,
        {
            let c = self.get_next_char();
            match c {
                Some(c) => {
                    if c == '\n' {
                        self.handle_newline();
                        break ;
                    }
                    proof {
                        lemma_scan_bounds(self.text@, self.pos as int, StopSet::Newline);
                    }
                },
                None => {
                    break ;
                },
            }
        }
    }

    /// Starts a new line: the line counter moves up and the column goes
    /// back to zero.
    fn handle_newline(&mut self)
        requires
            old(self).line < usize::MAX,
        ensures
            final(self).text == old(self).text,
            final(self).pos == old(self).pos,
            final(self).line == old(self).line + 1,
            final(self).column == 0,
    {
        self.line = self.line + 1;
        self.column = 0;
    }

    /// Consumes one whitespace character.
    fn handle_whitespace(&mut self)
        requires
            old(self).pos <= old(self).text.len(),
            old(self).column < usize::MAX,
        ensures
            final(self).text == old(self).text,
            final(self).line == old(self).line,
            final(self).column == old(self).column + 1,
            old(self).pos < old(self).text.len() ==> final(self).pos == old(self).pos + 1,
    {
        self.get_next_char();
    }

    /// Reads an identifier; a colon right after it is consumed and makes it a
    /// label.
    fn handle_identifier(&mut self, letter: bool) -> (r: Option<Token>)
        requires
            old(self).wf(),
            old(self).pos < old(self).text.len(),
            letter,
        ensures
            final(self).wf(),
            final(self)@.text == old(self)@.text,
            final(self)@.state == lex_token_as(old(self)@.text, old(self)@.state, letter).1,
            r is Some <==> lex_token_as(old(self)@.text, old(self)@.state, letter).0.column >= 0,
            r is Some ==> r->0@ == lex_token_as(old(self)@.text, old(self)@.state, letter).0,
    {
        let ghost st = self@.state;
        let mut identifier = String::new();
        let start_char = self.get_next_char().unwrap();
        push_char(&mut identifier, start_char);
        proof {
            lemma_scan_bounds(self.text@, self.pos as int, StopSet::Identifier);
        }
        self.take_until(StopSet::Identifier, &mut identifier);
        assert(identifier@ =~= self.text@.subrange(st.pos, self.pos as int));
        let mut token_type = TokenType::Identifier;
        match self.peek() {
            Some(ch) => {
                if ch == ':' {
                    self.get_next_char();
                    token_type = TokenType::Label;
                }
            },
            None => {},
        }
        self.build_new_token(token_type, identifier)
    }

    /// Reads a one character operator.
    fn handle_operator(&mut self, letter: bool) -> (r: Option<Token>)
        requires
            old(self).wf(),
            old(self).pos < old(self).text.len(),
            !letter,
            operator_char(old(self).text@[old(self).pos as int]),
        ensures
            final(self).wf(),
            final(self)@.text == old(self)@.text,
            final(self)@.state == lex_token_as(old(self)@.text, old(self)@.state, letter).1,
            r is Some <==> lex_token_as(old(self)@.text, old(self)@.state, letter).0.column >= 0,
            r is Some ==> r->0@ == lex_token_as(old(self)@.text, old(self)@.state, letter).0,
    {
        let ghost st = self@.state;
        let mut operator = String::new();
        let ch = self.get_next_char().unwrap();
        push_char(&mut operator, ch);
        assert(operator@ =~= seq![ch]);
        let token_type = TokenType::from_ch(ch);
        self.build_new_token(token_type, operator)
    }

    /// Reads a number with its radix sign; its radix is not parsed.
    fn handle_number(&mut self, letter: bool) -> (r: Option<Token>)
        requires
            old(self).wf(),
            old(self).pos < old(self).text.len(),
            !letter,
            !operator_char(old(self).text@[old(self).pos as int]),
            number_char(old(self).text@[old(self).pos as int]),
        ensures
            final(self).wf(),
            final(self)@.text == old(self)@.text,
            final(self)@.state == lex_token_as(old(self)@.text, old(self)@.state, letter).1,
            r is Some <==> lex_token_as(old(self)@.text, old(self)@.state, letter).0.column >= 0,
            r is Some ==> r->0@ == lex_token_as(old(self)@.text, old(self)@.state, letter).0,
    {
        let ghost st = self@.state;
        let mut number = String::new();
        let ch = self.get_next_char().unwrap();
        push_char(&mut number, ch);
        proof {
            lemma_scan_bounds(self.text@, self.pos as int, StopSet::Number);
        }
        self.take_until(StopSet::Number, &mut number);
        assert(number@ =~= self.text@.subrange(st.pos, self.pos as int));
        self.build_new_token(TokenType::Number, number)
    }

    /// Reads an assembler command; the leading dot is dropped.
    fn handle_asm_command(&mut self, letter: bool) -> (r: Option<Token>)
        requires
            old(self).wf(),
            old(self).pos < old(self).text.len(),
            !letter,
            !operator_char(old(self).text@[old(self).pos as int]),
            !number_char(old(self).text@[old(self).pos as int]),
            old(self).text@[old(self).pos as int] == '.',
        ensures
            final(self).wf(),
            final(self)@.text == old(self)@.text,
            final(self)@.state == lex_token_as(old(self)@.text, old(self)@.state, letter).1,
            r is Some <==> lex_token_as(old(self)@.text, old(self)@.state, letter).0.column >= 0,
            r is Some ==> r->0@ == lex_token_as(old(self)@.text, old(self)@.state, letter).0,
    {
        let ghost st = self@.state;
        let mut command = String::new();
        self.get_next_char();
        proof {
            lemma_scan_bounds(self.text@, self.pos as int, StopSet::Command);
        }
        self.take_until(StopSet::Command, &mut command);
        assert(command@ =~= self.text@.subrange(st.pos + 1, self.pos as int));
        self.build_new_token(TokenType::Command, command)
    }

    /// Reads a string literal; the quotes are dropped, and either quote ends
    /// it.
    fn handle_string(&mut self, letter: bool) -> (r: Option<Token>)
        requires
            old(self).wf(),
            old(self).pos < old(self).text.len(),
            !letter,
            !operator_char(old(self).text@[old(self).pos as int]),
            !number_char(old(self).text@[old(self).pos as int]),
            old(self).text@[old(self).pos as int] != '.',
            string_char(old(self).text@[old(self).pos as int]),
        ensures
            final(self).wf(),
            final(self)@.text == old(self)@.text,
            final(self)@.state == lex_token_as(old(self)@.text, old(self)@.state, letter).1,
            r is Some <==> lex_token_as(old(self)@.text, old(self)@.state, letter).0.column >= 0,
            r is Some ==> r->0@ == lex_token_as(old(self)@.text, old(self)@.state, letter).0,
    {
        let ghost st = self@.state;
        let mut string = String::new();
        self.get_next_char();
        proof {
            lemma_scan_bounds(self.text@, self.pos as int, StopSet::Quote);
        }
        self.take_until(StopSet::Quote, &mut string);
        assert(string@ =~= self.text@.subrange(st.pos + 1, self.pos as int));
        match self.peek() {
            Some(_) => {
                self.get_next_char();
            },
            None => {},
        }
        self.build_new_token(TokenType::String, string)
    }

    /// Reads the token that starts at the current position, given whether
    /// its first character is a letter (as `char::is_alphabetic` says), or
    /// `None` where the token's column would be negative.
    pub fn read_token(&mut self, letter: bool) -> (r: Option<Token>)
        requires
            old(self).wf(),
            old(self)@.state.pos < old(self)@.text.len(),
            starts_token_as(old(self)@.text[old(self)@.state.pos], letter),
        ensures
            final(self).wf(),
            final(self)@.text == old(self)@.text,
            final(self)@.state == lex_token_as(old(self)@.text, old(self)@.state, letter).1,
            r is Some <==> lex_token_as(old(self)@.text, old(self)@.state, letter).0.column >= 0,
            r is Some ==> r->0@ == lex_token_as(old(self)@.text, old(self)@.state, letter).0,
    {
        let ch = self.text[self.pos];
        if letter {
            self.handle_identifier(letter)
        } else if is_operator(&ch) {
            self.handle_operator(letter)
        } else if is_number(&ch) {
            self.handle_number(letter)
        } else if is_decimal(&ch) {
            self.handle_asm_command(letter)
        } else {
            self.handle_string(letter)
        }
    }

    /// Processes and returns the next token in the text, or `None` where the
    /// token's column would be negative (which only text outside ASCII can
    /// cause). All whitespace, line breaks, comments and characters that
    /// start no token before it are discarded; the end of input token is
    /// returned exactly at the end of the text.
    pub fn try_next_token(&mut self) -> (r: Option<Token>)
        requires
            old(self).wf(),
        ensures
            final(self).wf(),
            final(self)@.text == old(self)@.text,
            final(self)@.state == lex_next(old(self)@.text, old(self)@.state).1,
            r is Some <==> next_token_defined(old(self)@.text, old(self)@.state),
            r is Some ==> r->0@ == lex_next(old(self)@.text, old(self)@.state).0,
    {
        proof {
            lemma_skip_lands(self.text@, self@.state);
        }
        self.remove_irrelevant();
        match self.peek() {
            Some(ch) => {
                let letter = is_letter(&ch);
                self.read_token(letter)
            },
            None => {
                let t = Token::new(TokenType::EndOfInput).build();
                assert(t@ == end_of_input());
                Some(t)
            },
        }
    }

    /// Processes and returns the next token in the text. All whitespace,
    /// line breaks, comments and characters that start no token before it
    /// are discarded; the end of input token is returned exactly at the end
    /// of the text.
    pub fn next_token(&mut self) -> (r: Token)
        requires
            old(self).wf(),
            next_token_defined(old(self)@.text, old(self)@.state),
        ensures
            final(self).wf(),
            final(self)@.text == old(self)@.text,
            final(self)@.state == lex_next(old(self)@.text, old(self)@.state).1,
            r@ == lex_next(old(self)@.text, old(self)@.state).0,
    {
        self.try_next_token().unwrap()
    }

    /// The line the lexer is on.
    pub fn line(&self) -> (r: usize)
        ensures
            r == self@.state.line,
    {
        self.line
    }

    /// The lexer's column on its line.
    pub fn column(&self) -> (r: usize)
        ensures
            r == self@.state.column,
    {
        self.column
    }
}

} // verus!
