//! The lexer: a single forward pass over the source text that yields one
//! token per call.
//!
//! What the lexer yields is defined on the source as a sequence of
//! characters: [`lex_step`] gives, for a position in the source, the token
//! found there and the position behind it. [`Lexer::next_token`] computes
//! exactly that.

use vstd::prelude::*;
use vstd::std_specs::iter::IteratorSpec;
use crate::token::{lookup_ident, word_kind, Token, TokenType, TokenView};

verus! {

/// The classes of characters of which the lexer reads whole runs.
pub ghost enum CharClass {
    Whitespace,
    Letter,
    Digit,
}

impl CharClass {
    pub open spec fn holds(self, c: char) -> bool {
        match self {
            CharClass::Whitespace => is_whitespace(c),
            CharClass::Letter => is_letter(c),
            CharClass::Digit => is_digit(c),
        }
    }
}

/// Space, tab, line feed and carriage return separate tokens.
pub open spec fn is_whitespace(c: char) -> bool {
    c == ' ' || c == '\t' || c == '\n' || c == '\r'
}

/// An identifier is made of ASCII letters and underscores.
pub open spec fn is_letter(c: char) -> bool {
    ('A' <= c && c <= 'Z') || ('a' <= c && c <= 'z') || c == '_'
}

/// A number is made of ASCII decimal digits.
pub open spec fn is_digit(c: char) -> bool {
    '0' <= c && c <= '9'
}

/// The character at an index of the source; the null character stands for
/// every index outside it.
pub open spec fn char_at(source: Seq<char>, index: int) -> char {
    if 0 <= index < source.len() {
        source[index]
    } else {
        '\0'
    }
}

/// The end of the longest run of characters of one class that starts at
/// `from`: the first index at or after `from` that holds no character of
/// the class.
pub open spec fn run_end(source: Seq<char>, from: int, class: CharClass) -> int
    decreases source.len() - from,
{
    if 0 <= from < source.len() && class.holds(source[from]) {
        run_end(source, from + 1, class)
    } else {
        from
    }
}

/// The kind of an operator or punctuation mark that is one character long.
pub open spec fn symbol_kind(c: char) -> Option<TokenType> {
    if c == '=' {
        Some(TokenType::Assign)
    } else if c == ';' {
        Some(TokenType::Semicolon)
    } else if c == ',' {
        Some(TokenType::Comma)
    } else if c == '(' {
        Some(TokenType::LParen)
    } else if c == ')' {
        Some(TokenType::RParen)
    } else if c == '{' {
        Some(TokenType::LBrace)
    } else if c == '}' {
        Some(TokenType::RBrace)
    } else if c == '+' {
        Some(TokenType::Plus)
    } else if c == '-' {
        Some(TokenType::Minus)
    } else if c == '!' {
        Some(TokenType::Bang)
    } else if c == '/' {
        Some(TokenType::Slash)
    } else if c == '*' {
        Some(TokenType::Asterisk)
    } else if c == '<' {
        Some(TokenType::Lt)
    } else if c == '>' {
        Some(TokenType::Gt)
    } else {
        None
    }
}

/// A token together with the position of the first character behind it.
pub ghost struct Lexeme {
    pub token: TokenView,
    pub next: int,
}

/// The end-of-input token: its text is empty.
pub open spec fn end_of_input() -> TokenView {
    TokenView { kind: TokenType::EOF, literal: Seq::empty() }
}

/// The token that starts at `start`, a position that holds no whitespace.
///
/// - `==` and `!=` are one token each;
/// - any other operator or punctuation mark is a token of one character;
/// - the null character, and with it every position outside the source, is
///   the end of input;
/// - a letter starts the longest run of letters, a reserved word or an
///   identifier;
/// - a digit starts the longest run of digits;
/// - any other character is an illegal token of that one character.
///
/// But for the end of input, a token's text is the part of the source that
/// it covers.
pub open spec fn scan_token(source: Seq<char>, start: int) -> Lexeme {
    let c = char_at(source, start);
    if (c == '=' || c == '!') && char_at(source, start + 1) == '=' {
        Lexeme {
            token: TokenView {
                kind: if c == '=' {
                    TokenType::Eq
                } else {
                    TokenType::NotEq
                },
                literal: source.subrange(start, start + 2),
            },
            next: start + 2,
        }
    } else if symbol_kind(c) is Some {
        Lexeme {
            token: TokenView {
                kind: symbol_kind(c)->0,
                literal: source.subrange(start, start + 1),
            },
            next: start + 1,
        }
    } else if c == '\0' {
        Lexeme {
            token: end_of_input(),
            next: if 0 <= start < source.len() {
                start + 1
            } else {
                start
            },
        }
    } else if is_letter(c) {
        let end = run_end(source, start, CharClass::Letter);
        let word = source.subrange(start, end);
        Lexeme { token: TokenView { kind: word_kind(word), literal: word }, next: end }
    } else if is_digit(c) {
        let end = run_end(source, start, CharClass::Digit);
        Lexeme {
            token: TokenView { kind: TokenType::Int, literal: source.subrange(start, end) },
            next: end,
        }
    } else {
        Lexeme {
            token: TokenView {
                kind: TokenType::Illegal,
                literal: source.subrange(start, start + 1),
            },
            next: start + 1,
        }
    }
}

/// One step of the lexer from `position`: the whitespace there is skipped,
/// and the token behind it is read.
pub open spec fn lex_step(source: Seq<char>, position: int) -> Lexeme {
    scan_token(source, run_end(source, position, CharClass::Whitespace))
}

/// A run ends at or after its start, inside the source or at its end, on a
/// character that is not of the class; every character before that is.
pub proof fn lemma_run_end(source: Seq<char>, from: int, class: CharClass)
    requires
        0 <= from <= source.len(),
    ensures
        from <= run_end(source, from, class) <= source.len(),
        run_end(source, from, class) < source.len() ==> !class.holds(
            source[run_end(source, from, class)],
        ),
        forall|i: int| from <= i < run_end(source, from, class) ==> class.holds(source[i]),
    decreases source.len() - from,
{
    if from < source.len() && class.holds(source[from]) {
        lemma_run_end(source, from + 1, class);
    }
}

/// A step of the lexer never moves backwards and never leaves the source.
/// It stays where it is only at the end of the source, and what it yields
/// there is the end of input.
pub proof fn lemma_lex_step_advances(source: Seq<char>, position: int)
    requires
        0 <= position <= source.len(),
    ensures
        position <= lex_step(source, position).next <= source.len(),
        position < source.len() ==> position < lex_step(source, position).next,
        position == source.len() ==> lex_step(source, position) == (Lexeme {
            token: end_of_input(),
            next: position,
        }),
{
    let start = run_end(source, position, CharClass::Whitespace);
    lemma_run_end(source, position, CharClass::Whitespace);
    lemma_run_end(source, start, CharClass::Letter);
    lemma_run_end(source, start, CharClass::Digit);
}

/// Every token of the lexer is spelled: a word has the kind of the word that
/// its text spells.
pub proof fn lemma_lex_step_spelled(source: Seq<char>, position: int)
    ensures
        lex_step(source, position).token.spelled(),
{
}

/// The three cursors of a lexer. They move together.
#[derive(Clone, Copy)]
struct Cursor {
    /// The index of the current character.
    position: usize,
    /// The index of the next character to read.
    read_position: usize,
    /// The current character, or the null character at the end of the input.
    ch: char,
}

/// A lexer over one source text.
pub struct Lexer {
    input: String,
    /// The characters of `input`, closed by the null character.
    chars: Vec<char>,
    cursor: Cursor,
}

/// The mathematical value of a [`Lexer`]: the source, and how far it has
/// been read.
pub ghost struct LexerView {
    pub source: Seq<char>,
    pub position: nat,
}

impl View for Lexer {
    type V = LexerView;

    closed spec fn view(&self) -> LexerView {
        LexerView { source: self.input@, position: self.cursor.position as nat }
    }
}

/// The characters of a text, in order.
fn characters(text: &str) -> (chars: Vec<char>)
    ensures
        chars@ == text@,
{
    let mut chars: Vec<char> = Vec::new();
    for c in iter: text.chars()
        invariant
            iter.seq() == text@,
            chars@ == iter.seq().take(iter.index() as int),
    {
        chars.push(c);
    }
    chars
}

fn is_space(c: char) -> (space: bool)
    ensures
        space == is_whitespace(c),
{
    c == ' ' || c == '\t' || c == '\n' || c == '\r'
}

fn is_decimal_digit(c: char) -> (digit: bool)
    ensures
        digit == is_digit(c),
{
    '0' <= c && c <= '9'
}

/// Whether a character can stand in an identifier.
pub fn is_alphabetic_ident(ident: char) -> (letter: bool)
    ensures
        letter == is_letter(ident),
{
    ('A' <= ident && ident <= 'Z') || ('a' <= ident && ident <= 'z') || ident == '_'
}

impl Lexer {
    /// `read_position` is one past `position`, which never leaves the source,
    /// and `ch` is the character at `position`, the null character at the end.
    #[verifier::type_invariant]
    spec fn well_formed(&self) -> bool {
        &&& self.chars@ == self.input@.push('\0')
        &&& self.cursor.position <= self.input@.len()
        &&& self.cursor.read_position == self.cursor.position + 1
        &&& self.cursor.ch == self.chars@[self.cursor.position as int]
    }

    /// A lexer at the start of `input`.
    pub fn new(input: String) -> (lexer: Self)
        ensures
            lexer@ == (LexerView { source: input@, position: 0 }),
    {
        let mut chars = characters(input.as_str());
        chars.push('\0');
        let ch = chars[0];
        Self { input, chars, cursor: Cursor { position: 0, read_position: 1, ch } }
    }

    /// Reads the next token and moves behind it. The lexer only ever moves
    /// forward. Once the source is used up, every call yields the end of
    /// input and leaves the lexer as it is.
    pub fn next_token(&mut self) -> (token: Token)
        ensures
            final(self)@.source == old(self)@.source,
            (Lexeme { token: token@, next: final(self)@.position as int }) == lex_step(
                old(self)@.source,
                old(self)@.position as int,
            ),
            old(self)@.position <= final(self)@.position <= final(self)@.source.len(),
            old(self)@.position == old(self)@.source.len() ==> token@ == end_of_input()
                && final(self)@ == old(self)@,
    {
        proof {
            use_type_invariant(&*self);
            lemma_lex_step_advances(self@.source, self@.position as int);
        }
        self.skip_whitespace();
        proof {
            use_type_invariant(&*self);
            reveal_strlit("==");
            reveal_strlit("=");
            reveal_strlit(";");
            reveal_strlit(",");
            reveal_strlit("(");
            reveal_strlit(")");
            reveal_strlit("{");
            reveal_strlit("}");
            reveal_strlit("+");
            reveal_strlit("-");
            reveal_strlit("!=");
            reveal_strlit("!");
            reveal_strlit("/");
            reveal_strlit("*");
            reveal_strlit("<");
            reveal_strlit(">");
        }
        let ghost source = self@.source;
        let ghost start = self@.position as int;
        let token = match self.cursor.ch {
            '=' => match self.peek_char() {
                '=' => {
                    self.read_char();
                    Token::new(TokenType::Eq, "==".to_owned())
                },
                _ => Token::new(TokenType::Assign, "=".to_owned()),
            },
            ';' => Token::new(TokenType::Semicolon, ";".to_owned()),
            ',' => Token::new(TokenType::Comma, ",".to_owned()),
            '(' => Token::new(TokenType::LParen, "(".to_owned()),
            ')' => Token::new(TokenType::RParen, ")".to_owned()),
            '{' => Token::new(TokenType::LBrace, "{".to_owned()),
            '}' => Token::new(TokenType::RBrace, "}".to_owned()),
            '+' => Token::new(TokenType::Plus, "+".to_owned()),
            '-' => Token::new(TokenType::Minus, "-".to_owned()),
            '!' => match self.peek_char() {
                '=' => {
                    self.read_char();
                    Token::new(TokenType::NotEq, "!=".to_owned())
                },
                _ => Token::new(TokenType::Bang, "!".to_owned()),
            },
            '/' => Token::new(TokenType::Slash, "/".to_owned()),
            '*' => Token::new(TokenType::Asterisk, "*".to_owned()),
            '<' => Token::new(TokenType::Lt, "<".to_owned()),
            '>' => Token::new(TokenType::Gt, ">".to_owned()),
            '\0' => Token::new(TokenType::EOF, String::new()),
            c if is_alphabetic_ident(c) => {
                let literal = self.read_identifier();
                proof {
                    use_type_invariant(&*self);
                }
                return Token::new(lookup_ident(literal.as_str()), literal);
            },
            c if is_decimal_digit(c) => {
                let literal = self.read_number();
                proof {
                    use_type_invariant(&*self);
                }
                return Token::new(TokenType::Int, literal);
            },
            _ => {
                let position = self.cursor.position;
                Token::new(TokenType::Illegal, self.text(position, position + 1))
            },
        };
        assert(token@.literal =~= scan_token(source, start).token.literal);
        self.read_char();
        token
    }

    /// Moves to the next character. At the end of the source the lexer stays
    /// where it is.
    fn read_char(&mut self)
        ensures
            final(self)@.source == old(self)@.source,
            final(self)@.position == if old(self)@.position < old(self)@.source.len() {
                old(self)@.position + 1
            } else {
                old(self)@.position
            },
    {
        proof {
            use_type_invariant(&*self);
        }
        let end: usize = self.chars.len() - 1;
        let position: usize = if self.cursor.read_position >= end {
            end
        } else {
            self.cursor.read_position
        };
        self.cursor = Cursor { position, read_position: position + 1, ch: self.chars[position] };
    }

    /// Reads the run of letters at the current position.
    fn read_identifier(&mut self) -> (literal: String)
        ensures
            final(self)@.source == old(self)@.source,
            final(self)@.position == run_end(
                old(self)@.source,
                old(self)@.position as int,
                CharClass::Letter,
            ),
            literal@ == old(self)@.source.subrange(
                old(self)@.position as int,
                final(self)@.position as int,
            ),
    {
        let position = self.cursor.position;
        proof {
            use_type_invariant(&*self);
        }
        while is_alphabetic_ident(self.cursor.ch)
            invariant
                self@.source == old(self)@.source,
                position <= self@.position <= self@.source.len(),
                run_end(self@.source, self@.position as int, CharClass::Letter) == run_end(
                    self@.source,
                    position as int,
                    CharClass::Letter,
                ),
                self.cursor.ch == char_at(self@.source, self@.position as int),
            decreases self@.source.len() - self@.position,
        {
            self.read_char();
            proof {
                use_type_invariant(&*self);
            }
        }
        self.text(position, self.cursor.position)
    }

    /// Reads the run of digits at the current position.
    fn read_number(&mut self) -> (literal: String)
        ensures
            final(self)@.source == old(self)@.source,
            final(self)@.position == run_end(
                old(self)@.source,
                old(self)@.position as int,
                CharClass::Digit,
            ),
            literal@ == old(self)@.source.subrange(
                old(self)@.position as int,
                final(self)@.position as int,
            ),
    {
        let position = self.cursor.position;
        proof {
            use_type_invariant(&*self);
        }
        while is_decimal_digit(self.cursor.ch)
            invariant
                self@.source == old(self)@.source,
                position <= self@.position <= self@.source.len(),
                run_end(self@.source, self@.position as int, CharClass::Digit) == run_end(
                    self@.source,
                    position as int,
                    CharClass::Digit,
                ),
                self.cursor.ch == char_at(self@.source, self@.position as int),
            decreases self@.source.len() - self@.position,
        {
            self.read_char();
            proof {
                use_type_invariant(&*self);
            }
        }
        self.text(position, self.cursor.position)
    }

    /// Moves to the first character that is not whitespace.
    fn skip_whitespace(&mut self)
        ensures
            final(self)@.source == old(self)@.source,
            final(self)@.position == run_end(
                old(self)@.source,
                old(self)@.position as int,
                CharClass::Whitespace,
            ),
    {
        proof {
            use_type_invariant(&*self);
        }
        while is_space(self.cursor.ch)
            invariant
                self@.source == old(self)@.source,
                self@.position <= self@.source.len(),
                run_end(self@.source, self@.position as int, CharClass::Whitespace) == run_end(
                    self@.source,
                    old(self)@.position as int,
                    CharClass::Whitespace,
                ),
                self.cursor.ch == char_at(self@.source, self@.position as int),
            decreases self@.source.len() - self@.position,
        {
            self.read_char();
            proof {
                use_type_invariant(&*self);
            }
        }
    }

    /// The character behind the current one, without moving; the null
    /// character where there is none.
    fn peek_char(&self) -> (c: char)
        ensures
            c == char_at(self@.source, self@.position as int + 1),
    {
        proof {
            use_type_invariant(self);
        }
        if self.cursor.read_position >= self.chars.len() {
            '\0'
        } else {
            self.chars[self.cursor.read_position]
        }
    }

    /// The part of the source between two positions.
    fn text(&self, from: usize, to: usize) -> (text: String)
        requires
            from <= to <= self@.source.len(),
        ensures
            text@ == self@.source.subrange(from as int, to as int),
    {
        self.input.as_str().substring_char(from, to).to_owned()
    }
}

} // verus!
