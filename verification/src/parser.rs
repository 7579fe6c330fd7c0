//! The parser: it reads tokens from a lexer, two at a time, and assembles the
//! `let` statements among them into a program.
//!
//! What the parser does is defined on [`ParserView`], the value of a parser:
//! each operation of [`Parser`] has a counterpart there, and computes exactly
//! what the counterpart says.
//!
//! The parser reports no errors. A statement that cannot be parsed is left out
//! of the program, and parsing goes on behind it.

use vstd::prelude::*;
use crate::ast::{
    identifier_of,
    AnyStatement,
    Identifier,
    LetStatement,
    LetStatementView,
    Program,
    StatementView,
};
use crate::lexer::{
    lemma_lex_step_advances,
    lemma_lex_step_spelled,
    lemma_run_end,
    lex_step,
    CharClass,
    Lexer,
    LexerView,
};
use crate::stream::lemma_end_of_input_at_null;
use crate::token::{keywords, lemma_spelled, Token, TokenType, TokenView};

verus! {

/// The mathematical value of a [`Parser`]: what its lexer has left to read,
/// the current token and the lookahead.
pub ghost struct ParserView {
    pub lexer: LexerView,
    pub cur: Option<TokenView>,
    pub peek: Option<TokenView>,
}

impl ParserView {
    /// Moves one token on: the lookahead becomes the current token, and the
    /// lexer's next token becomes the lookahead.
    pub open spec fn read_token(self) -> ParserView {
        let step = lex_step(self.lexer.source, self.lexer.position as int);
        ParserView {
            lexer: LexerView { source: self.lexer.source, position: step.next as nat },
            cur: self.peek,
            peek: Some(step.token),
        }
    }

    /// Whether the lookahead is a token of the given kind.
    pub open spec fn peek_is(self, kind: TokenType) -> bool {
        self.peek matches Some(token) && token.kind == kind
    }

    /// Moves one token on if the lookahead is of the given kind, and says
    /// whether it was.
    pub open spec fn expect_peek(self, kind: TokenType) -> (bool, ParserView) {
        if self.peek_is(kind) {
            (true, self.read_token())
        } else {
            (false, self)
        }
    }

    /// Whether the current token and the lookahead are spelled, as the tokens
    /// of a lexer are.
    pub open spec fn lexed(self) -> bool {
        &&& self.cur matches Some(token) ==> token.spelled()
        &&& self.peek matches Some(token) ==> token.spelled()
    }

    /// Whether no null character stands in what the lexer has left to read.
    pub open spec fn no_null_ahead(self) -> bool {
        forall|i: int|
            self.lexer.position <= i < self.lexer.source.len() ==> self.lexer.source[i] != '\0'
    }

    /// Whether the lexer has nothing left to read if the lookahead is the end
    /// of the input.
    pub open spec fn settled(self) -> bool {
        self.peek_is(TokenType::EOF) ==> self.lexer.position >= self.lexer.source.len()
    }

    /// A bound on the number of tokens that can still be read before the
    /// lookahead is the end of the input for good.
    pub open spec fn remaining(self) -> nat {
        let unread: nat = if self.lexer.position < self.lexer.source.len() {
            (self.lexer.source.len() - self.lexer.position) as nat
        } else {
            0
        };
        if self.peek_is(TokenType::EOF) {
            2 * unread
        } else {
            2 * unread + 1
        }
    }

    /// Moves on until the lookahead is the end of the input.
    pub open spec fn skip_expression(self) -> ParserView
        decreases self.remaining(),
        via Self::skip_expression_terminates
    {
        if self.peek_is(TokenType::EOF) {
            self
        } else {
            self.read_token().skip_expression()
        }
    }

    #[via_fn]
    proof fn skip_expression_terminates(self) {
        if !self.peek_is(TokenType::EOF) {
            self.lemma_read_token_remaining();
        }
    }

    /// Parses a `let` statement whose first token is the current one.
    ///
    /// The statement is made if an identifier follows the current token and
    /// `=` follows the identifier. The expression behind `=` is not parsed:
    /// the parser moves on until the lookahead is the end of the input, and
    /// the statement is made without an expression. Otherwise no statement is
    /// made, and the parser stays behind the last token that was as expected.
    /// Either way the current token is used up.
    pub open spec fn parse_let_statement(self) -> (Option<LetStatementView>, ParserView) {
        match self.cur {
            None => (None, self),
            Some(token) => {
                let taken = ParserView { cur: None, ..self };
                if !taken.peek_is(TokenType::Ident) {
                    (None, taken)
                } else {
                    let name = identifier_of(taken.peek->0);
                    let named = ParserView { cur: None, ..taken.read_token() };
                    if !named.peek_is(TokenType::Assign) {
                        (None, named)
                    } else {
                        (
                            Some(LetStatementView { token, name, value: None }),
                            named.read_token().skip_expression(),
                        )
                    }
                }
            },
        }
    }

    /// Parses the statement that starts with the current token. Only `let`
    /// starts a statement.
    pub open spec fn parse_statement(self) -> (Option<StatementView>, ParserView) {
        match self.cur {
            Some(token) if token.kind == TokenType::Let => {
                let (statement, rest) = self.parse_let_statement();
                (
                    match statement {
                        Some(statement) => Some(StatementView::Let(statement)),
                        None => None,
                    },
                    rest,
                )
            },
            _ => (None, self),
        }
    }

    /// Parses statements until the lookahead is the end of the input: tries
    /// one at the current token, keeps it if there is one, moves one token
    /// on, and goes on in the same way.
    pub open spec fn parse_program(self) -> (Seq<StatementView>, ParserView)
        decreases self.remaining(),
        via Self::parse_program_terminates
    {
        if self.peek_is(TokenType::EOF) {
            (Seq::empty(), self)
        } else {
            let (statement, behind) = self.parse_statement();
            let (statements, end) = behind.read_token().parse_program();
            (
                match statement {
                    Some(statement) => seq![statement] + statements,
                    None => statements,
                },
                end,
            )
        }
    }

    #[via_fn]
    proof fn parse_program_terminates(self) {
        if !self.peek_is(TokenType::EOF) {
            self.lemma_parse_statement_remaining();
            self.parse_statement().1.lemma_read_token_remaining();
        }
    }

    /// Moving on never adds to what remains, and takes from it unless the
    /// lookahead is the end of the input already.
    pub proof fn lemma_read_token_remaining(self)
        ensures
            self.read_token().remaining() <= self.remaining(),
            !self.peek_is(TokenType::EOF) ==> self.read_token().remaining() < self.remaining(),
    {
        let source = self.lexer.source;
        let position = self.lexer.position as int;
        if position <= source.len() {
            lemma_lex_step_advances(source, position);
        }
    }

    /// Skipping an expression never adds to what remains, and ends with the
    /// end of the input as the lookahead.
    pub proof fn lemma_skip_expression_remaining(self)
        ensures
            self.skip_expression().remaining() <= self.remaining(),
            self.skip_expression().peek_is(TokenType::EOF),
        decreases self.remaining(),
    {
        if !self.peek_is(TokenType::EOF) {
            self.lemma_read_token_remaining();
            self.read_token().lemma_skip_expression_remaining();
        }
    }

    /// Parsing a statement never adds to what remains; one more step behind
    /// it takes from what remains unless the lookahead was the end of the
    /// input to begin with.
    pub proof fn lemma_parse_statement_remaining(self)
        ensures
            self.parse_statement().1.remaining() <= self.remaining(),
            !self.peek_is(TokenType::EOF) ==> self.parse_statement().1.read_token().remaining()
                < self.remaining(),
    {
        let taken = ParserView { cur: None, ..self };
        let named = ParserView { cur: None, ..taken.read_token() };
        taken.lemma_read_token_remaining();
        named.lemma_read_token_remaining();
        named.read_token().lemma_skip_expression_remaining();
        self.parse_statement().1.lemma_read_token_remaining();
    }
}

/// A parser over the tokens of one lexer.
pub struct Parser {
    lexer: Lexer,
    cur_token: Option<Token>,
    peek_token: Option<Token>,
}

/// The value of a token that may be absent.
pub open spec fn token_view(token: Option<Token>) -> Option<TokenView> {
    match token {
        Some(token) => Some(token@),
        None => None,
    }
}

impl View for Parser {
    type V = ParserView;

    closed spec fn view(&self) -> ParserView {
        ParserView {
            lexer: self.lexer@,
            cur: token_view(self.cur_token),
            peek: token_view(self.peek_token),
        }
    }
}

impl Parser {
    /// A parser that has read the first two tokens of `lexer`: the first is
    /// its current token, the second its lookahead.
    pub fn new(lexer: Lexer) -> (parser: Self)
        ensures
            parser@ == (ParserView {
                lexer: lexer@,
                cur: None,
                peek: None,
            }).read_token().read_token(),
            parser@.cur is Some,
            parser@.peek is Some,
            parser@.lexed(),
            (ParserView { lexer: lexer@, cur: None, peek: None }).no_null_ahead()
                ==> parser@.no_null_ahead() && parser@.settled(),
    {
        proof {
            let start = ParserView { lexer: lexer@, cur: None, peek: None };
            start.lemma_read_token_lexed();
            start.read_token().lemma_read_token_lexed();
            if start.no_null_ahead() {
                start.lemma_read_token_settled();
                start.read_token().lemma_read_token_settled();
            }
        }
        let mut p = Parser { lexer, cur_token: None, peek_token: None };

        // The current token and the lookahead are both read from the lexer.
        p.read_token();
        p.read_token();

        p
    }

    /// Parses the rest of the input into a program. Every statement of the
    /// program is a `let` statement without an expression, and the parser
    /// ends with the end of the input as its lookahead.
    ///
    /// The tokens of a parser that was made by [`Parser::new`] all come from
    /// its lexer. In its programs the text of every statement's token is
    /// `let`, and no name is a reserved word.
    ///
    /// The expression of a `let` statement takes all that is left of the
    /// input, so a program has one statement at most, unless a null character
    /// stands in the source.
    pub fn parse_program(&mut self) -> (program: Program)
        ensures
            (program@, final(self)@) == old(self)@.parse_program(),
            final(self)@.peek_is(TokenType::EOF),
            forall|i: int|
                0 <= i < program@.len() ==> {
                    &&& #[trigger] program@[i] is Let
                    &&& program@[i]->Let_0.token.kind == TokenType::Let
                    &&& program@[i]->Let_0.name.token.kind == TokenType::Ident
                    &&& program@[i]->Let_0.name == identifier_of(program@[i]->Let_0.name.token)
                    &&& program@[i]->Let_0.value is None
                },
            old(self)@.no_null_ahead() && old(self)@.settled() ==> program@.len() <= 1,
            old(self)@.lexed() ==> final(self)@.lexed(),
            old(self)@.lexed() ==> forall|i: int|
                0 <= i < program@.len() ==> {
                    &&& (#[trigger] program@[i])->Let_0.token.literal == "let"@
                    &&& !keywords().contains_key(program@[i]->Let_0.name.value)
                },
    {
        let mut program = Program::new();
        proof {
            old(self)@.lemma_parse_program_shape();
            if old(self)@.no_null_ahead() && old(self)@.settled() {
                old(self)@.lemma_parse_program_single();
            }
            if old(self)@.lexed() {
                old(self)@.lemma_parse_program_texts();
            }
        }

        while !self.current_token_is(TokenType::EOF)
            invariant
                program@ + self@.parse_program().0 == old(self)@.parse_program().0,
                self@.parse_program().1 == old(self)@.parse_program().1,
            decreases self@.remaining(),
        {
            let ghost before = self@;
            let ghost parsed = program@;
            proof {
                before.lemma_parse_statement_remaining();
            }
            if let Some(statement) = self.parse_statement() {
                program.statements.push(statement);
                assert(program@ =~= parsed.push(statement@));
            }
            self.read_token();
            assert(program@ + self@.parse_program().0 =~= parsed + before.parse_program().0);
        }

        assert(program@ =~= old(self)@.parse_program().0);
        program
    }

    /// Moves one token on.
    fn read_token(&mut self)
        ensures
            final(self)@ == old(self)@.read_token(),
    {
        self.cur_token = self.peek_token.take();
        self.peek_token = Some(self.lexer.next_token());
    }

    /// Parses the statement that starts with the current token, if one does.
    fn parse_statement(&mut self) -> (statement: Option<AnyStatement>)
        ensures
            final(self)@ == old(self)@.parse_statement().1,
            match statement {
                Some(statement) => old(self)@.parse_statement().0 == Some(statement@),
                None => old(self)@.parse_statement().0 is None,
            },
    {
        match self.cur_token.as_ref()?.kind {
            TokenType::Let => match self.parse_let_statement() {
                Some(statement) => Some(statement.into()),
                None => None,
            },
            _ => None,
        }
    }

    /// Parses a `let` statement whose first token is the current one.
    fn parse_let_statement(&mut self) -> (statement: Option<LetStatement>)
        ensures
            final(self)@ == old(self)@.parse_let_statement().1,
            match statement {
                Some(statement) => old(self)@.parse_let_statement().0 == Some(statement@),
                None => old(self)@.parse_let_statement().0 is None,
            },
            statement is Some ==> final(self)@.peek_is(TokenType::EOF),
    {
        proof {
            let taken = ParserView { cur: None, ..self@ };
            let named = ParserView { cur: None, ..taken.read_token() };
            named.read_token().lemma_skip_expression_remaining();
        }
        let current = self.cur_token.take()?;

        if !self.expect_peek(TokenType::Ident) {
            return None;
        }
        let ident = self.cur_token.take()?;
        let name = Identifier::new(ident);

        if !self.expect_peek(TokenType::Assign) {
            return None;
        }
        // The expression is passed over.

        while !self.current_token_is(TokenType::EOF)
            invariant
                self@.skip_expression() == old(self)@.parse_let_statement().1,
            decreases self@.remaining(),
        {
            proof {
                self@.lemma_read_token_remaining();
            }
            self.read_token();
        }

        Some(LetStatement { token: current, name, value: None })
    }

    /// Whether the lookahead is a token of the given kind. The current token
    /// plays no part in it.
    fn current_token_is(&self, token_type: TokenType) -> (is: bool)
        ensures
            is == self@.peek_is(token_type),
    {
        match &self.peek_token {
            Some(token) => token.kind == token_type,
            None => false,
        }
    }

    /// Moves one token on if the lookahead is of the given kind, and says
    /// whether it was.
    fn expect_peek(&mut self, token_type: TokenType) -> (expected: bool)
        ensures
            (expected, final(self)@) == old(self)@.expect_peek(token_type),
    {
        if self.current_token_is(token_type) {
            self.read_token();
            return true;
        }
        false
    }
}

impl ParserView {
    /// A parsed program holds only `let` statements without an expression,
    /// each with `let` as its token and an identifier as its name, and
    /// parsing ends with the end of the input as the lookahead.
    pub proof fn lemma_parse_program_shape(self)
        ensures
            self.parse_program().1.peek_is(TokenType::EOF),
            forall|i: int|
                0 <= i < self.parse_program().0.len() ==> {
                    let statement = #[trigger] self.parse_program().0[i];
                    &&& statement is Let
                    &&& statement->Let_0.token.kind == TokenType::Let
                    &&& statement->Let_0.name.token.kind == TokenType::Ident
                    &&& statement->Let_0.name == identifier_of(statement->Let_0.name.token)
                    &&& statement->Let_0.value is None
                },
        decreases self.remaining(),
    {
        if !self.peek_is(TokenType::EOF) {
            self.lemma_parse_statement_remaining();
            self.parse_statement().1.read_token().lemma_parse_program_shape();
        }
    }

    /// Where no null character is ahead, none is ahead after moving on, and
    /// an end of input in the lookahead is the end of the source.
    pub proof fn lemma_read_token_settled(self)
        requires
            self.no_null_ahead(),
        ensures
            self.read_token().no_null_ahead(),
            self.read_token().settled(),
    {
        let source = self.lexer.source;
        let position = self.lexer.position as int;
        if position <= source.len() {
            lemma_lex_step_advances(source, position);
            lemma_end_of_input_at_null(source, position);
            lemma_run_end(source, position, CharClass::Whitespace);
        }
    }

    /// Skipping an expression keeps null characters out of what is ahead,
    /// and ends at the end of the source.
    pub proof fn lemma_skip_expression_settled(self)
        requires
            self.no_null_ahead(),
            self.settled(),
        ensures
            self.skip_expression().no_null_ahead(),
            self.skip_expression().settled(),
        decreases self.remaining(),
    {
        if !self.peek_is(TokenType::EOF) {
            self.lemma_read_token_remaining();
            self.lemma_read_token_settled();
            self.read_token().lemma_skip_expression_settled();
        }
    }

    /// Where no null character is ahead, a statement that is made leaves
    /// nothing to read.
    pub proof fn lemma_parse_statement_settled(self)
        requires
            self.no_null_ahead(),
            self.settled(),
        ensures
            self.parse_statement().1.no_null_ahead(),
            self.parse_statement().1.settled(),
            self.parse_statement().0 is Some ==> self.parse_statement().1.peek_is(TokenType::EOF),
    {
        let taken = ParserView { cur: None, ..self };
        let named = ParserView { cur: None, ..taken.read_token() };
        taken.lemma_read_token_settled();
        named.lemma_read_token_settled();
        named.read_token().lemma_skip_expression_settled();
        named.read_token().lemma_skip_expression_remaining();
    }

    /// A program has at most one statement, unless a null character stands in
    /// the source: the expression of the first `let` statement that is made
    /// takes all that is left of the input.
    pub proof fn lemma_parse_program_single(self)
        requires
            self.no_null_ahead(),
            self.settled(),
        ensures
            self.parse_program().0.len() <= 1,
        decreases self.remaining(),
    {
        if !self.peek_is(TokenType::EOF) {
            self.lemma_parse_statement_remaining();
            self.lemma_parse_statement_settled();
            let behind = self.parse_statement().1;
            behind.lemma_read_token_settled();
            behind.read_token().lemma_parse_program_single();
            if self.parse_statement().0 is Some {
                if behind.lexer.position == behind.lexer.source.len() {
                    lemma_lex_step_advances(behind.lexer.source, behind.lexer.position as int);
                }
                assert(behind.read_token().peek_is(TokenType::EOF));
            }
        }
    }

    /// Moving on keeps the tokens spelled.
    pub proof fn lemma_read_token_lexed(self)
        requires
            self.peek matches Some(token) ==> token.spelled(),
        ensures
            self.read_token().lexed(),
    {
        lemma_lex_step_spelled(self.lexer.source, self.lexer.position as int);
    }

    /// Skipping an expression keeps the tokens spelled.
    pub proof fn lemma_skip_expression_lexed(self)
        requires
            self.lexed(),
        ensures
            self.skip_expression().lexed(),
        decreases self.remaining(),
    {
        if !self.peek_is(TokenType::EOF) {
            self.lemma_read_token_remaining();
            self.lemma_read_token_lexed();
            self.read_token().lemma_skip_expression_lexed();
        }
    }

    /// A statement that is parsed among spelled tokens is made of spelled
    /// tokens, and the tokens are spelled afterwards.
    pub proof fn lemma_parse_statement_lexed(self)
        requires
            self.lexed(),
        ensures
            self.parse_statement().1.lexed(),
            self.parse_statement().0 matches Some(statement) ==> {
                &&& statement->Let_0.token.spelled()
                &&& statement->Let_0.name.token.spelled()
            },
    {
        let taken = ParserView { cur: None, ..self };
        let named = ParserView { cur: None, ..taken.read_token() };
        taken.lemma_read_token_lexed();
        named.lemma_read_token_lexed();
        named.read_token().lemma_skip_expression_lexed();
    }

    /// In a program that is parsed among spelled tokens, the text of every
    /// statement's token is `let`, and no name is a reserved word; the tokens
    /// are spelled afterwards.
    pub proof fn lemma_parse_program_texts(self)
        requires
            self.lexed(),
        ensures
            self.parse_program().1.lexed(),
            forall|i: int|
                0 <= i < self.parse_program().0.len() ==> {
                    let statement = #[trigger] self.parse_program().0[i];
                    &&& statement->Let_0.token.literal == "let"@
                    &&& !keywords().contains_key(statement->Let_0.name.value)
                },
        decreases self.remaining(),
    {
        if !self.peek_is(TokenType::EOF) {
            self.lemma_parse_statement_remaining();
            self.lemma_parse_statement_lexed();
            self.lemma_parse_program_shape();
            let behind = self.parse_statement().1;
            behind.lemma_read_token_lexed();
            behind.read_token().lemma_parse_program_texts();
            behind.read_token().lemma_parse_program_shape();
            match self.parse_statement().0 {
                Some(statement) => {
                    lemma_spelled(statement->Let_0.token);
                    lemma_spelled(statement->Let_0.name.token);
                },
                None => {},
            }
        }
    }
}

} // verus!
