use emu_attack::char_utils::{is_decimal, is_letter, is_number, is_operator, is_string};
use emu_attack::lexer::Lexer;
use emu_attack::token::{Token, TokenType};

fn tokens_of(text: &str) -> Vec<Token> {
    let text = String::from(text);
    let mut lexer = Lexer::new(&text);
    let mut out = Vec::new();
    loop {
        let t = lexer.next_token();
        let done = t.token_type == TokenType::EndOfInput;
        out.push(t);
        if done {
            break;
        }
    }
    out
}

#[test]
fn new_lexer() {
    let string = String::from("hi");
    let lexer = Lexer::new(&string);
    assert_eq!(lexer.line(), 0);
    assert_eq!(lexer.column(), 0);
}

#[test]
fn next_token() {
    for (string, token_type) in [
        ("ADC", TokenType::Identifier),
        ("=", TokenType::Assignment),
        (".segment", TokenType::Command),
        ("$4400", TokenType::Number),
        ("\"HEADER\"", TokenType::String),
    ] {
        let text = String::from(string);
        let mut lexer = Lexer::new(&text);
        let t1 = lexer.next_token();
        assert_eq!(t1.get_type(), &token_type);
        // Quotes and the leading point are pruned in lexing.
        assert_eq!(*t1.get_value(), string.replace("\"", "").replace(".", ""));
    }
}

#[test]
fn identifier_then_end_of_input() {
    let s = String::from("hi");
    let mut lexer = Lexer::new(&s);
    let t1 = lexer.next_token();
    let t2 = lexer.next_token();
    assert_eq!(t1.get_type(), &TokenType::Identifier);
    assert_eq!(t2.get_type(), &TokenType::EndOfInput);
}

#[test]
fn first_identifier_of_expression() {
    let test_string = String::from("a + b");
    let mut lexer = Lexer::new(&test_string);
    let token = lexer.next_token();
    assert_eq!(token.get_type(), &TokenType::Identifier);
    assert_eq!(token.get_value(), "a");
}

#[test]
fn lines_and_columns() {
    let toks = tokens_of("lda #$10\nsta $0200");
    let seen: Vec<(TokenType, String, usize, usize)> = toks
        .iter()
        .map(|t| (t.token_type, t.value.clone(), *t.get_line(), *t.get_column()))
        .collect();
    assert_eq!(
        seen,
        vec![
            (TokenType::Identifier, String::from("lda"), 0, 0),
            (TokenType::Hash, String::from("#"), 0, 4),
            (TokenType::Number, String::from("$10"), 0, 5),
            (TokenType::Identifier, String::from("sta"), 1, 0),
            (TokenType::Number, String::from("$0200"), 1, 4),
            (TokenType::EndOfInput, String::new(), 0, 0),
        ]
    );
}

#[test]
fn labels_comments_and_operators() {
    let toks = tokens_of("; header\nloop: lda (ptr),y\n");
    let kinds: Vec<TokenType> = toks.iter().map(|t| t.token_type).collect();
    assert_eq!(
        kinds,
        vec![
            TokenType::Label,
            TokenType::Identifier,
            TokenType::OParen,
            TokenType::Identifier,
            TokenType::EndOfInput,
        ]
    );
    assert_eq!(toks[0].value, "loop");
    assert_eq!(toks[0].line, 1);
    // The colon is read before the column is taken.
    assert_eq!(toks[0].column, 1);
    // An identifier runs on through punctuation until whitespace.
    assert_eq!(toks[3].value, "ptr),y");
}

#[test]
fn strings_and_commands() {
    let toks = tokens_of(".byte 'NES', $1A");
    assert_eq!(toks[0].token_type, TokenType::Command);
    assert_eq!(toks[0].value, "byte");
    assert_eq!(toks[1].token_type, TokenType::String);
    assert_eq!(toks[1].value, "NES");
    assert_eq!(toks[2].token_type, TokenType::Comma);
    assert_eq!(toks[3].token_type, TokenType::Number);
    assert_eq!(toks[3].value, "$1A");
    assert_eq!(toks[4].token_type, TokenType::EndOfInput);
}

#[test]
fn lo_and_hi_byte_operators() {
    let toks = tokens_of("<label >label");
    assert_eq!(toks[0].token_type, TokenType::LoByte);
    assert_eq!(toks[2].token_type, TokenType::HiByte);
    assert_eq!(TokenType::from_ch('='), TokenType::Assignment);
    assert_eq!(TokenType::from_ch(':'), TokenType::Comma);
}

#[test]
fn empty_text_is_end_of_input() {
    let toks = tokens_of("   \n\t ; nothing here");
    assert_eq!(toks.len(), 1);
    assert_eq!(toks[0].token_type, TokenType::EndOfInput);
}

#[test]
fn end_of_input_repeats() {
    let s = String::from("x");
    let mut lexer = Lexer::new(&s);
    lexer.next_token();
    assert_eq!(lexer.next_token().token_type, TokenType::EndOfInput);
    assert_eq!(lexer.next_token().token_type, TokenType::EndOfInput);
}

#[test]
fn try_next_token_refuses_negative_column() {
    // A character wider than one byte makes the value longer than the
    // characters read, so the column would go below zero.
    let s = String::from("é");
    let mut lexer = Lexer::new(&s);
    assert!(lexer.try_next_token().is_none());
    let s = String::from("abc");
    let mut lexer = Lexer::new(&s);
    assert!(lexer.try_next_token().is_some());
}

#[test]
fn token_builder_fields() {
    let t = Token::new(TokenType::Label)
        .line(3)
        .value(String::from("start"))
        .column(7)
        .build();
    assert_eq!(t.get_type(), &TokenType::Label);
    assert_eq!(*t.get_line(), 3);
    assert_eq!(t.get_value(), "start");
    assert_eq!(*t.get_column(), 7);
}

#[test]
fn character_classes() {
    assert!(is_letter(&'a'));
    assert!(is_letter(&'Z'));
    assert!(is_letter(&'é'));
    assert!(!is_letter(&'1'));
    assert!(is_operator(&'='));
    assert!(is_operator(&':'));
    assert!(!is_operator(&'+'));
    assert!(is_number(&'$'));
    assert!(is_number(&'%'));
    assert!(is_number(&'7'));
    assert!(!is_number(&'a'));
    assert!(is_string(&'"'));
    assert!(is_string(&'\''));
    assert!(is_decimal(&'.'));
    assert!(!is_decimal(&','));
}

#[test]
fn unknown_characters_are_skipped() {
    // `+` starts no token: it is skipped, and the end of input comes only
    // at the end of the text.
    let toks = tokens_of("a + b");
    assert_eq!(toks.len(), 3);
    assert_eq!(toks[0].value, "a");
    assert_eq!(toks[1].value, "b");
    assert_eq!(toks[1].column, 4);
    assert_eq!(toks[2].token_type, TokenType::EndOfInput);
}

#[test]
fn crlf_is_one_line_break() {
    let toks = tokens_of("ADC\r\nLDA $10\r\n.byte 1\r\n");
    assert_eq!(toks[0].value, "ADC");
    assert_eq!((toks[1].line, toks[1].column), (1, 0));
    assert_eq!(toks[2].value, "$10");
    assert_eq!((toks[3].token_type, toks[3].line), (TokenType::Command, 2));
    assert_eq!(toks[3].value, "byte");
    assert_eq!(toks[4].value, "1");
    assert_eq!(toks[5].token_type, TokenType::EndOfInput);
    // A carriage return alone also ends a line.
    let toks = tokens_of("A\rB");
    assert_eq!((toks[1].line, toks[1].column), (1, 0));
}

#[test]
fn read_token_with_a_given_classification() {
    let s = String::from("+x");
    let mut lexer = Lexer::new(&s);
    // Read as a letter, `+` starts an identifier.
    let t = lexer.read_token(true).unwrap();
    assert_eq!(t.token_type, TokenType::Identifier);
    assert_eq!(t.value, "+x");
    let s = String::from("$12,");
    let mut lexer = Lexer::new(&s);
    let t = lexer.read_token(false).unwrap();
    assert_eq!(t.token_type, TokenType::Number);
    assert_eq!(t.value, "$12");
}

#[test]
fn token_count_is_bounded_by_length() {
    let text = "x: .org $8000\n  lda #<label ; load\n  sta ($20),y\n";
    let toks = tokens_of(text);
    assert!(toks.len() <= text.chars().count() + 1);
    assert_eq!(toks.last().unwrap().token_type, TokenType::EndOfInput);
}
