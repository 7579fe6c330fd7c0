use monkey::lexer::{is_alphabetic_ident, Lexer};
use monkey::token::{lookup_ident, Token, TokenType};

fn kinds_and_literals(input: &str, count: usize) -> Vec<(TokenType, String)> {
    let mut lexer = Lexer::new(input.to_string());
    let mut seen = Vec::new();
    for _ in 0..count {
        let token = lexer.next_token();
        seen.push((token.kind, token.literal));
    }
    seen
}

fn expect_tokens(input: &str, expected: &[(TokenType, &str)]) {
    let seen = kinds_and_literals(input, expected.len());
    for (index, (kind, literal)) in expected.iter().enumerate() {
        assert_eq!(seen[index].0, *kind, "kind of token {}", index);
        assert_eq!(seen[index].1, *literal, "literal of token {}", index);
    }
}

#[test]
fn next_token() {
    let input = "=+(){},;";
    let tests = vec![
        (TokenType::Assign, "="),
        (TokenType::Plus, "+"),
        (TokenType::LParen, "("),
        (TokenType::RParen, ")"),
        (TokenType::LBrace, "{"),
        (TokenType::RBrace, "}"),
        (TokenType::Comma, ","),
        (TokenType::Semicolon, ";"),
    ];
    let mut lexer = Lexer::new(input.into());

    for (e_token, e_literal) in tests {
        let actual = lexer.next_token();

        assert_eq!(e_token, actual.kind);
        assert_eq!(e_literal, &actual.kind.to_string());
    }
}

#[test]
fn next_token_advanced() {
    let input = r###"
let five = 5;
let ten = 10;

let add = fn(x, y) {
  x + y;
};

let result = add(five, ten);
!-/*5;
5 < 10 > 5;

if (5 < 10) {
  return true;
} else {
  return false;
}

10 == 10;
10 != 9;
"###;
    let tests = vec![
        (TokenType::Let, "let"),
        (TokenType::Ident, "five"),
        (TokenType::Assign, "="),
        (TokenType::Int, "5"),
        (TokenType::Semicolon, ";"),
        (TokenType::Let, "let"),
        (TokenType::Ident, "ten"),
        (TokenType::Assign, "="),
        (TokenType::Int, "10"),
        (TokenType::Semicolon, ";"),
        (TokenType::Let, "let"),
        (TokenType::Ident, "add"),
        (TokenType::Assign, "="),
        (TokenType::Function, "fn"),
        (TokenType::LParen, "("),
        (TokenType::Ident, "x"),
        (TokenType::Comma, ","),
        (TokenType::Ident, "y"),
        (TokenType::RParen, ")"),
        (TokenType::LBrace, "{"),
        (TokenType::Ident, "x"),
        (TokenType::Plus, "+"),
        (TokenType::Ident, "y"),
        (TokenType::Semicolon, ";"),
        (TokenType::RBrace, "}"),
        (TokenType::Semicolon, ";"),
        (TokenType::Let, "let"),
        (TokenType::Ident, "result"),
        (TokenType::Assign, "="),
        (TokenType::Ident, "add"),
        (TokenType::LParen, "("),
        (TokenType::Ident, "five"),
        (TokenType::Comma, ","),
        (TokenType::Ident, "ten"),
        (TokenType::RParen, ")"),
        (TokenType::Semicolon, ";"),
        (TokenType::Bang, "!"),
        (TokenType::Minus, "-"),
        (TokenType::Slash, "/"),
        (TokenType::Asterisk, "*"),
        (TokenType::Int, "5"),
        (TokenType::Semicolon, ";"),
        (TokenType::Int, "5"),
        (TokenType::Lt, "<"),
        (TokenType::Int, "10"),
        (TokenType::Gt, ">"),
        (TokenType::Int, "5"),
        (TokenType::Semicolon, ";"),
        (TokenType::If, "if"),
        (TokenType::LParen, "("),
        (TokenType::Int, "5"),
        (TokenType::Lt, "<"),
        (TokenType::Int, "10"),
        (TokenType::RParen, ")"),
        (TokenType::LBrace, "{"),
        (TokenType::Return, "return"),
        (TokenType::True, "true"),
        (TokenType::Semicolon, ";"),
        (TokenType::RBrace, "}"),
        (TokenType::Else, "else"),
        (TokenType::LBrace, "{"),
        (TokenType::Return, "return"),
        (TokenType::False, "false"),
        (TokenType::Semicolon, ";"),
        (TokenType::RBrace, "}"),
        (TokenType::Int, "10"),
        (TokenType::Eq, "=="),
        (TokenType::Int, "10"),
        (TokenType::Semicolon, ";"),
        (TokenType::Int, "10"),
        (TokenType::NotEq, "!="),
        (TokenType::Int, "9"),
        (TokenType::Semicolon, ";"),
        (TokenType::EOF, ""),
    ];
    let mut lexer = Lexer::new(input.into());
    for (e_token, e_literal) in tests {
        let actual = lexer.next_token();

        assert_eq!(e_token, actual.kind);
        assert_eq!(e_literal, &actual.literal);
    }
}

#[test]
fn punctuation_is_lexed_in_source_order() {
    expect_tokens(
        "=+(){},;",
        &[
            (TokenType::Assign, "="),
            (TokenType::Plus, "+"),
            (TokenType::LParen, "("),
            (TokenType::RParen, ")"),
            (TokenType::LBrace, "{"),
            (TokenType::RBrace, "}"),
            (TokenType::Comma, ","),
            (TokenType::Semicolon, ";"),
            (TokenType::EOF, ""),
        ],
    );
    expect_tokens(
        ";;=,=)",
        &[
            (TokenType::Semicolon, ";"),
            (TokenType::Semicolon, ";"),
            (TokenType::Assign, "="),
            (TokenType::Comma, ","),
            (TokenType::Assign, "="),
            (TokenType::RParen, ")"),
            (TokenType::EOF, ""),
        ],
    );
}

#[test]
fn let_binding_is_lexed() {
    expect_tokens(
        "let x = 5;",
        &[
            (TokenType::Let, "let"),
            (TokenType::Ident, "x"),
            (TokenType::Assign, "="),
            (TokenType::Int, "5"),
            (TokenType::Semicolon, ";"),
            (TokenType::EOF, ""),
        ],
    );
}

#[test]
fn two_character_operators_are_single_tokens() {
    expect_tokens(
        "10 == 10; 10 != 9;",
        &[
            (TokenType::Int, "10"),
            (TokenType::Eq, "=="),
            (TokenType::Int, "10"),
            (TokenType::Semicolon, ";"),
            (TokenType::Int, "10"),
            (TokenType::NotEq, "!="),
            (TokenType::Int, "9"),
            (TokenType::Semicolon, ";"),
            (TokenType::EOF, ""),
        ],
    );
}

#[test]
fn lone_assign_and_bang_at_the_end() {
    expect_tokens("=", &[(TokenType::Assign, "="), (TokenType::EOF, "")]);
    expect_tokens("!", &[(TokenType::Bang, "!"), (TokenType::EOF, "")]);
    expect_tokens(
        "===",
        &[(TokenType::Eq, "=="), (TokenType::Assign, "="), (TokenType::EOF, "")],
    );
    expect_tokens(
        "!!=",
        &[(TokenType::Bang, "!"), (TokenType::NotEq, "!="), (TokenType::EOF, "")],
    );
}

#[test]
fn end_of_input_repeats() {
    let mut lexer = Lexer::new("x".to_string());
    assert_eq!(lexer.next_token().kind, TokenType::Ident);
    for _ in 0..10 {
        let token = lexer.next_token();
        assert_eq!(token.kind, TokenType::EOF);
        assert_eq!(token.literal, "");
    }
}

#[test]
fn empty_and_blank_input_is_end_of_input() {
    expect_tokens("", &[(TokenType::EOF, ""), (TokenType::EOF, "")]);
    expect_tokens(" \t\r\n ", &[(TokenType::EOF, ""), (TokenType::EOF, "")]);
}

#[test]
fn illegal_characters_are_tokens() {
    expect_tokens(
        "a @ b",
        &[
            (TokenType::Ident, "a"),
            (TokenType::Illegal, "@"),
            (TokenType::Ident, "b"),
            (TokenType::EOF, ""),
        ],
    );
    expect_tokens(
        "é#",
        &[(TokenType::Illegal, "é"), (TokenType::Illegal, "#"), (TokenType::EOF, "")],
    );
}

#[test]
fn text_behind_a_character_outside_ascii_is_cut_out_by_characters() {
    expect_tokens(
        "é let ñandú = 12",
        &[
            (TokenType::Illegal, "é"),
            (TokenType::Let, "let"),
            (TokenType::Illegal, "ñ"),
            (TokenType::Ident, "and"),
            (TokenType::Illegal, "ú"),
            (TokenType::Assign, "="),
            (TokenType::Int, "12"),
            (TokenType::EOF, ""),
        ],
    );
}

#[test]
fn only_four_characters_are_whitespace() {
    expect_tokens(
        "a\u{b}b",
        &[
            (TokenType::Ident, "a"),
            (TokenType::Illegal, "\u{b}"),
            (TokenType::Ident, "b"),
            (TokenType::EOF, ""),
        ],
    );
}

#[test]
fn minus_is_never_part_of_a_number() {
    expect_tokens(
        "-5 007",
        &[
            (TokenType::Minus, "-"),
            (TokenType::Int, "5"),
            (TokenType::Int, "007"),
            (TokenType::EOF, ""),
        ],
    );
}

#[test]
fn identifiers_and_digits_do_not_mix() {
    expect_tokens(
        "foo_bar1 2x _",
        &[
            (TokenType::Ident, "foo_bar"),
            (TokenType::Int, "1"),
            (TokenType::Int, "2"),
            (TokenType::Ident, "x"),
            (TokenType::Ident, "_"),
            (TokenType::EOF, ""),
        ],
    );
}

#[test]
fn null_character_inside_the_input_is_end_of_input_and_is_passed() {
    expect_tokens(
        "a\0b",
        &[
            (TokenType::Ident, "a"),
            (TokenType::EOF, ""),
            (TokenType::Ident, "b"),
            (TokenType::EOF, ""),
            (TokenType::EOF, ""),
        ],
    );
}

#[test]
fn reserved_words_have_their_own_kinds() {
    assert_eq!(lookup_ident("fn"), TokenType::Function);
    assert_eq!(lookup_ident("let"), TokenType::Let);
    assert_eq!(lookup_ident("true"), TokenType::True);
    assert_eq!(lookup_ident("false"), TokenType::False);
    assert_eq!(lookup_ident("if"), TokenType::If);
    assert_eq!(lookup_ident("else"), TokenType::Else);
    assert_eq!(lookup_ident("return"), TokenType::Return);
}

#[test]
fn other_words_are_identifiers() {
    for word in ["", "x", "foobar", "Let", "lets", "le", "fn_", "returns", "iff", "tru", "elsee"] {
        assert_eq!(lookup_ident(word), TokenType::Ident, "{}", word);
    }
}

#[test]
fn letters_and_underscore_start_identifiers() {
    for c in ['a', 'z', 'A', 'Z', 'm', '_'] {
        assert!(is_alphabetic_ident(c));
    }
    for c in ['0', '9', ' ', '-', '@', '[', '`', '{', 'é', '\0'] {
        assert!(!is_alphabetic_ident(c));
    }
}

#[test]
fn kinds_are_shown_by_symbol_or_name() {
    let shown = [
        (TokenType::Illegal, "ILLEGAL"),
        (TokenType::EOF, "EOF"),
        (TokenType::Ident, "IDENT"),
        (TokenType::Int, "INT"),
        (TokenType::Assign, "="),
        (TokenType::Plus, "+"),
        (TokenType::Minus, "-"),
        (TokenType::Bang, "!"),
        (TokenType::Asterisk, "*"),
        (TokenType::Slash, "/"),
        (TokenType::Lt, "<"),
        (TokenType::Gt, ">"),
        (TokenType::Eq, "=="),
        (TokenType::NotEq, "!="),
        (TokenType::Comma, ","),
        (TokenType::Semicolon, ";"),
        (TokenType::LParen, "("),
        (TokenType::RParen, ")"),
        (TokenType::LBrace, "{"),
        (TokenType::RBrace, "}"),
        (TokenType::Function, "FUNCTION"),
        (TokenType::Let, "LET"),
        (TokenType::True, "TRUE"),
        (TokenType::False, "FALSE"),
        (TokenType::If, "IF"),
        (TokenType::Else, "ELSE"),
        (TokenType::Return, "RETURN"),
    ];
    for (kind, text) in shown {
        assert_eq!(kind.to_string(), text);
    }
}

#[test]
fn tokens_are_equal_by_kind_and_literal() {
    let token = Token::new(TokenType::Ident, "x".to_string());
    assert_eq!(token.kind, TokenType::Ident);
    assert_eq!(token.literal, "x");
    assert!(token == token.clone());
    assert!(token != Token::new(TokenType::Ident, "y".to_string()));
    assert!(token != Token::new(TokenType::Int, "x".to_string()));
}
