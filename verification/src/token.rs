//! The token model: the closed set of token kinds, a token's kind and text,
//! and the table of reserved words.

use vstd::prelude::*;
use vstd::std_specs::cmp::PartialEqSpecImpl;
use crate::utils::text::same_text;

verus! {

/// The kind of a token.
#[derive(Eq, PartialEq, Structural, Copy, Clone, Debug)]
pub enum TokenType {
    Illegal,
    EOF,
    Ident,
    Int,
    // Operators
    Assign,
    Plus,
    Minus,
    Bang,
    Asterisk,
    Slash,
    Lt,
    Gt,
    Eq,
    NotEq,
    Comma,
    Semicolon,
    LParen,
    RParen,
    LBrace,
    RBrace,
    // Keywords
    Function,
    Let,
    True,
    False,
    If,
    Else,
    Return,
}

impl TokenType {
    /// The text by which a kind is shown: the symbol itself for operators and
    /// punctuation, an upper-case name for every other kind.
    pub open spec fn display(self) -> Seq<char> {
        match self {
            TokenType::Illegal => "ILLEGAL"@,
            TokenType::EOF => "EOF"@,
            TokenType::Ident => "IDENT"@,
            TokenType::Int => "INT"@,
            TokenType::Assign => "="@,
            TokenType::Plus => "+"@,
            TokenType::Comma => ","@,
            TokenType::Semicolon => ";"@,
            TokenType::LParen => "("@,
            TokenType::RParen => ")"@,
            TokenType::LBrace => "{"@,
            TokenType::RBrace => "}"@,
            TokenType::Function => "FUNCTION"@,
            TokenType::Let => "LET"@,
            TokenType::Minus => "-"@,
            TokenType::Bang => "!"@,
            TokenType::Asterisk => "*"@,
            TokenType::Slash => "/"@,
            TokenType::Lt => "<"@,
            TokenType::Gt => ">"@,
            TokenType::True => "TRUE"@,
            TokenType::False => "FALSE"@,
            TokenType::If => "IF"@,
            TokenType::Else => "ELSE"@,
            TokenType::Return => "RETURN"@,
            TokenType::Eq => "=="@,
            TokenType::NotEq => "!="@,
        }
    }

    /// Renders the kind as text.
    pub fn to_string(&self) -> (text: String)
        ensures
            text@ == self.display(),
    {
        let shown: &str = match self {
            TokenType::Illegal => "ILLEGAL",
            TokenType::EOF => "EOF",
            TokenType::Ident => "IDENT",
            TokenType::Int => "INT",
            TokenType::Assign => "=",
            TokenType::Plus => "+",
            TokenType::Comma => ",",
            TokenType::Semicolon => ";",
            TokenType::LParen => "(",
            TokenType::RParen => ")",
            TokenType::LBrace => "{",
            TokenType::RBrace => "}",
            TokenType::Function => "FUNCTION",
            TokenType::Let => "LET",
            TokenType::Minus => "-",
            TokenType::Bang => "!",
            TokenType::Asterisk => "*",
            TokenType::Slash => "/",
            TokenType::Lt => "<",
            TokenType::Gt => ">",
            TokenType::True => "TRUE",
            TokenType::False => "FALSE",
            TokenType::If => "IF",
            TokenType::Else => "ELSE",
            TokenType::Return => "RETURN",
            TokenType::Eq => "==",
            TokenType::NotEq => "!=",
        };
        shown.to_owned()
    }
}

/// A token: its kind and the source text that produced it.
#[derive(Debug)]
pub struct Token {
    pub kind: TokenType,
    pub literal: String,
}

/// The mathematical value of a [`Token`].
pub ghost struct TokenView {
    pub kind: TokenType,
    pub literal: Seq<char>,
}

impl View for Token {
    type V = TokenView;

    open spec fn view(&self) -> TokenView {
        TokenView { kind: self.kind, literal: self.literal@ }
    }
}

impl Token {
    pub fn new(token: TokenType, literal: String) -> (made: Self)
        ensures
            made.kind == token,
            made.literal == literal,
    {
        Self { literal, kind: token }
    }
}

impl Clone for Token {
    fn clone(&self) -> (copy: Self)
        ensures
            copy == *self,
    {
        Self { kind: self.kind, literal: self.literal.clone() }
    }
}

impl PartialEq for Token {
    fn eq(&self, other: &Token) -> (equal: bool) {
        self.kind == other.kind && self.literal == other.literal
    }
}

impl Eq for Token {
}

impl PartialEqSpecImpl for Token {
    open spec fn obeys_eq_spec() -> bool {
        true
    }

    /// Two tokens are equal when their kinds and their texts are.
    open spec fn eq_spec(&self, other: &Token) -> bool {
        self@ == other@
    }
}

/// The reserved words and the kind of each.
pub open spec fn keywords() -> Map<Seq<char>, TokenType> {
    map![
        "fn"@ => TokenType::Function,
        "let"@ => TokenType::Let,
        "true"@ => TokenType::True,
        "false"@ => TokenType::False,
        "if"@ => TokenType::If,
        "else"@ => TokenType::Else,
        "return"@ => TokenType::Return,
    ]
}

/// The kind of an identifier-shaped word: that of the reserved word it
/// spells, or `Ident`.
pub open spec fn word_kind(word: Seq<char>) -> TokenType {
    if keywords().contains_key(word) {
        keywords()[word]
    } else {
        TokenType::Ident
    }
}

/// The table holds exactly the seven reserved words, each with its own kind.
pub proof fn lemma_keywords()
    ensures
        keywords().dom() =~= set![
            "fn"@,
            "let"@,
            "true"@,
            "false"@,
            "if"@,
            "else"@,
            "return"@,
        ],
        keywords()["fn"@] == TokenType::Function,
        keywords()["let"@] == TokenType::Let,
        keywords()["true"@] == TokenType::True,
        keywords()["false"@] == TokenType::False,
        keywords()["if"@] == TokenType::If,
        keywords()["else"@] == TokenType::Else,
        keywords()["return"@] == TokenType::Return,
{
    reveal_strlit("fn");
    reveal_strlit("let");
    reveal_strlit("true");
    reveal_strlit("false");
    reveal_strlit("if");
    reveal_strlit("else");
    reveal_strlit("return");
    assert("fn"@.len() == 2 && "if"@.len() == 2 && "fn"@[0] != "if"@[0]);
    assert("let"@.len() == 3);
    assert("true"@.len() == 4 && "else"@.len() == 4 && "true"@[0] != "else"@[0]);
    assert("false"@.len() == 5);
    assert("return"@.len() == 6);
}

impl TokenView {
    /// Whether the token is a word: an identifier or a reserved word.
    pub open spec fn is_word(self) -> bool {
        ||| self.kind is Ident
        ||| self.kind is Function
        ||| self.kind is Let
        ||| self.kind is True
        ||| self.kind is False
        ||| self.kind is If
        ||| self.kind is Else
        ||| self.kind is Return
    }

    /// Whether the token, if it is a word, has the kind of the word that its
    /// text spells. Every token that a lexer makes is spelled.
    pub open spec fn spelled(self) -> bool {
        self.is_word() ==> self.kind == word_kind(self.literal)
    }
}

/// The text of a spelled reserved word is the word itself, and the text of a
/// spelled identifier is no reserved word.
pub proof fn lemma_spelled(token: TokenView)
    requires
        token.spelled(),
    ensures
        token.kind is Function ==> token.literal == "fn"@,
        token.kind is Let ==> token.literal == "let"@,
        token.kind is True ==> token.literal == "true"@,
        token.kind is False ==> token.literal == "false"@,
        token.kind is If ==> token.literal == "if"@,
        token.kind is Else ==> token.literal == "else"@,
        token.kind is Return ==> token.literal == "return"@,
        token.kind is Ident ==> !keywords().contains_key(token.literal),
{
    lemma_keywords();
}

/// Classifies an identifier-shaped word: a reserved word gets its keyword
/// kind, every other word is an identifier. Every word has a kind.
pub fn lookup_ident(ident: &str) -> (kind: TokenType)
    ensures
        kind == word_kind(ident@),
        !keywords().contains_key(ident@) ==> kind == TokenType::Ident,
{
    proof {
        lemma_keywords();
    }
    if same_text(ident, "fn") {
        TokenType::Function
    } else if same_text(ident, "let") {
        TokenType::Let
    } else if same_text(ident, "true") {
        TokenType::True
    } else if same_text(ident, "false") {
        TokenType::False
    } else if same_text(ident, "if") {
        TokenType::If
    } else if same_text(ident, "else") {
        TokenType::Else
    } else if same_text(ident, "return") {
        TokenType::Return
    } else {
        TokenType::Ident
    }
}

} // verus!
