//! Tokens of the assembly lexer.
use vstd::prelude::*;

verus! {

/// The kinds of token.
#[derive(Copy, Clone, Debug, PartialEq, Eq, Structural)]
pub enum TokenType {
    // Sequences
    Identifier,
    Label,
    Number,
    String,
    Command,
    // Operators
    Assignment,
    Hash,
    LoByte,
    HiByte,
    Comma,
    OParen,
    CParen,
    // End of input
    EndOfInput,
}

/// The token type an operator character stands for; any character that is
/// not one of `= # < > ( )` stands for a comma.
pub open spec fn operator_type(ch: char) -> TokenType {
    if ch == '=' {
        TokenType::Assignment
    } else if ch == '#' {
        TokenType::Hash
    } else if ch == '<' {
        TokenType::LoByte
    } else if ch == '>' {
        TokenType::HiByte
    } else if ch == '(' {
        TokenType::OParen
    } else if ch == ')' {
        TokenType::CParen
    } else {
        TokenType::Comma
    }
}

impl TokenType {
    /// The token type of an operator character.
    pub fn from_ch(ch: char) -> (r: TokenType)
        ensures
            r == operator_type(ch),
    {
        match ch {
            '=' => TokenType::Assignment,
            '#' => TokenType::Hash,
            '<' => TokenType::LoByte,
            '>' => TokenType::HiByte,
            '(' => TokenType::OParen,
            ')' => TokenType::CParen,
            _ => TokenType::Comma,
        }
    }
}

/// A token as a value: its type, line, text and column.
pub struct TokenView {
    pub token_type: TokenType,
    pub line: int,
    pub value: Seq<char>,
    pub column: int,
}

/// A token: its type, the line it is on, its text and its column.
#[derive(Debug)]
pub struct Token {
    pub token_type: TokenType,
    pub line: usize,
    pub value: String,
    pub column: usize,
}

impl View for Token {
    type V = TokenView;

    open spec fn view(&self) -> TokenView {
        TokenView {
            token_type: self.token_type,
            line: self.line as int,
            value: self.value@,
            column: self.column as int,
        }
    }
}

/// Builds a token field by field.
pub struct TokenBuilder {
    pub token_type: TokenType,
    pub line: usize,
    pub value: String,
    pub column: usize,
}

impl Token {
    /// A builder for a token of this type, on line 0 at column 0 with an
    /// empty value.
    pub fn new(token_type: TokenType) -> (r: TokenBuilder)
        ensures
            r.token_type == token_type,
            r.line == 0,
            r.value@ == Seq::<char>::empty(),
            r.column == 0,
    {
        TokenBuilder { token_type: token_type, line: 0, value: String::new(), column: 0 }
    }

    /// The token's type.
    pub fn get_type(&self) -> (r: &TokenType)
        ensures
            *r == self.token_type,
    {
        &self.token_type
    }

    /// The token's text.
    pub fn get_value(&self) -> (r: &String)
        ensures
            r@ == self.value@,
    {
        &self.value
    }

    /// The token's line.
    pub fn get_line(&self) -> (r: &usize)
        ensures
            *r == self.line,
    {
        &self.line
    }

    /// The token's column.
    pub fn get_column(&self) -> (r: &usize)
        ensures
            *r == self.column,
    {
        &self.column
    }
}

impl TokenBuilder {
    /// The token with the fields built so far.
    pub fn build(self) -> (r: Token)
        ensures
            r.token_type == self.token_type,
            r.line == self.line,
            r.value@ == self.value@,
            r.column == self.column,
    {
        Token { token_type: self.token_type, line: self.line, value: self.value, column: self.column }
    }

    /// Sets the line.
    pub fn line(self, line: usize) -> (r: TokenBuilder)
        ensures
            r.token_type == self.token_type,
            r.line == line,
            r.value@ == self.value@,
            r.column == self.column,
    {
        let mut b = self;
        b.line = line;
        b
    }

    /// Sets the value.
    pub fn value(self, value: String) -> (r: TokenBuilder)
        ensures
            r.token_type == self.token_type,
            r.line == self.line,
            r.value@ == value@,
            r.column == self.column,
    {
        let mut b = self;
        b.value = value;
        b
    }

    /// Sets the column.
    pub fn column(self, column: usize) -> (r: TokenBuilder)
        ensures
            r.token_type == self.token_type,
            r.line == self.line,
            r.value@ == self.value@,
            r.column == column,
    {
        let mut b = self;
        b.column = column;
        b
    }
}

} // verus!
