//! The syntax tree: the concrete node types, the capabilities that they
//! share, and the handles under which nodes of different types are kept
//! together.

use std::rc::Rc;
use vstd::prelude::*;
use vstd::std_specs::convert::FromSpecImpl;
use crate::token::{Token, TokenView};

verus! {

/// Every element of the syntax tree can report the text of the token that it
/// starts with.
pub trait Node {
    /// The text that [`Node::token_literal`] returns. Each node type says
    /// what its own text is.
    open spec fn literal_text(&self) -> Seq<char> {
        arbitrary()
    }

    fn token_literal(&self) -> (literal: String)
        ensures
            literal@ == self.literal_text(),
    ;
}

/// A node that can stand where a statement is expected.
pub trait Statement: Node {

}

/// A node that can stand where an expression is expected.
pub trait Expression: Node {

}

/// A name. `value` is a copy of the token's text, made when the node is
/// built; the two are equal for as long as the node lives.
pub struct Identifier {
    token: Token,
    value: String,
}

/// The mathematical value of an [`Identifier`].
pub ghost struct IdentifierView {
    pub token: TokenView,
    pub value: Seq<char>,
}

/// The identifier that is built from a token.
pub open spec fn identifier_of(token: TokenView) -> IdentifierView {
    IdentifierView { token, value: token.literal }
}

impl View for Identifier {
    type V = IdentifierView;

    closed spec fn view(&self) -> IdentifierView {
        IdentifierView { token: self.token@, value: self.value@ }
    }
}

impl Identifier {
    #[verifier::type_invariant]
    spec fn value_is_literal(&self) -> bool {
        self.value@ == self.token.literal@
    }

    pub fn new(token: Token) -> (identifier: Self)
        ensures
            identifier@ == identifier_of(token@),
    {
        Self { value: token.literal.clone(), token }
    }

    /// The token that the identifier was built from.
    pub fn token(&self) -> (token: &Token)
        ensures
            token@ == self@.token,
            self@ == identifier_of(self@.token),
    {
        proof {
            use_type_invariant(self);
        }
        &self.token
    }

    /// The name itself. It is the text of the identifier's token.
    pub fn value(&self) -> (value: &String)
        ensures
            value@ == self@.value,
            value@ == self@.token.literal,
    {
        proof {
            use_type_invariant(self);
        }
        &self.value
    }
}

impl Clone for Identifier {
    fn clone(&self) -> (copy: Self)
        ensures
            copy@ == self@,
    {
        proof {
            use_type_invariant(self);
        }
        Self { token: self.token.clone(), value: self.value.clone() }
    }
}

impl Node for Identifier {
    open spec fn literal_text(&self) -> Seq<char> {
        self@.token.literal
    }

    fn token_literal(&self) -> (literal: String) {
        self.token.literal.clone()
    }
}

impl Expression for Identifier {

}

/// Any expression.
pub enum AnyExpression {
    Identifier(Identifier),
}

/// The mathematical value of an [`AnyExpression`].
pub ghost enum ExpressionView {
    Identifier(IdentifierView),
}

impl View for AnyExpression {
    type V = ExpressionView;

    open spec fn view(&self) -> ExpressionView {
        match self {
            AnyExpression::Identifier(identifier) => ExpressionView::Identifier(identifier@),
        }
    }
}

impl Node for AnyExpression {
    open spec fn literal_text(&self) -> Seq<char> {
        match self {
            AnyExpression::Identifier(identifier) => identifier.literal_text(),
        }
    }

    fn token_literal(&self) -> (literal: String) {
        match self {
            AnyExpression::Identifier(identifier) => identifier.token_literal(),
        }
    }
}

impl Expression for AnyExpression {

}

/// A binding: `let`, the name that is bound, and the expression that it is
/// bound to. The expression may be shared with other parts of a tree.
#[derive(Clone)]
pub struct LetStatement {
    pub token: Token,
    pub name: Identifier,
    pub value: Option<Rc<AnyExpression>>,
}

/// The mathematical value of a [`LetStatement`].
pub ghost struct LetStatementView {
    pub token: TokenView,
    pub name: IdentifierView,
    pub value: Option<ExpressionView>,
}

impl View for LetStatement {
    type V = LetStatementView;

    open spec fn view(&self) -> LetStatementView {
        LetStatementView {
            token: self.token@,
            name: self.name@,
            value: match self.value {
                Some(expression) => Some((*expression)@),
                None => None,
            },
        }
    }
}

impl Node for LetStatement {
    open spec fn literal_text(&self) -> Seq<char> {
        self.token.literal@
    }

    fn token_literal(&self) -> (literal: String) {
        self.token.literal.clone()
    }
}

impl Statement for LetStatement {

}

/// Any statement.
pub enum AnyStatement {
    Let(LetStatement),
}

/// The mathematical value of an [`AnyStatement`].
pub ghost enum StatementView {
    Let(LetStatementView),
}

impl View for AnyStatement {
    type V = StatementView;

    open spec fn view(&self) -> StatementView {
        match self {
            AnyStatement::Let(statement) => StatementView::Let(statement@),
        }
    }
}

impl Node for AnyStatement {
    open spec fn literal_text(&self) -> Seq<char> {
        match self {
            AnyStatement::Let(statement) => statement.literal_text(),
        }
    }

    fn token_literal(&self) -> (literal: String) {
        match self {
            AnyStatement::Let(statement) => statement.token_literal(),
        }
    }
}

impl Statement for AnyStatement {

}

/// The root of a syntax tree: the statements of a program, in source order.
pub struct Program {
    pub statements: Vec<AnyStatement>,
}

impl View for Program {
    type V = Seq<StatementView>;

    open spec fn view(&self) -> Seq<StatementView> {
        self.statements@.map_values(|statement: AnyStatement| statement@)
    }
}

impl Program {
    /// A program without statements.
    pub fn new() -> (program: Self)
        ensures
            program.statements@ == Seq::<AnyStatement>::empty(),
            program@ == Seq::<StatementView>::empty(),
    {
        Self { statements: Vec::new() }
    }
}

impl Node for Program {
    /// The text of a program is that of its first statement; that of a
    /// program without statements is empty.
    open spec fn literal_text(&self) -> Seq<char> {
        if self.statements@.len() > 0 {
            self.statements@[0].literal_text()
        } else {
            Seq::empty()
        }
    }

    fn token_literal(&self) -> (literal: String) {
        if self.statements.len() > 0 {
            self.statements[0].token_literal()
        } else {
            String::new()
        }
    }
}

/// Any node of a syntax tree.
pub enum AnyNode {
    Program(Program),
    Statement(AnyStatement),
    Expression(AnyExpression),
}

impl Node for AnyNode {
    open spec fn literal_text(&self) -> Seq<char> {
        match self {
            AnyNode::Program(program) => program.literal_text(),
            AnyNode::Statement(statement) => statement.literal_text(),
            AnyNode::Expression(expression) => expression.literal_text(),
        }
    }

    fn token_literal(&self) -> (literal: String) {
        match self {
            AnyNode::Program(program) => program.token_literal(),
            AnyNode::Statement(statement) => statement.token_literal(),
            AnyNode::Expression(expression) => expression.token_literal(),
        }
    }
}

impl From<Identifier> for AnyExpression {
    fn from(value: Identifier) -> (expression: Self) {
        AnyExpression::Identifier(value)
    }
}

impl FromSpecImpl<Identifier> for AnyExpression {
    open spec fn obeys_from_spec() -> bool {
        true
    }

    open spec fn from_spec(value: Identifier) -> Self {
        AnyExpression::Identifier(value)
    }
}

impl From<LetStatement> for AnyStatement {
    fn from(value: LetStatement) -> (statement: Self) {
        AnyStatement::Let(value)
    }
}

impl FromSpecImpl<LetStatement> for AnyStatement {
    open spec fn obeys_from_spec() -> bool {
        true
    }

    open spec fn from_spec(value: LetStatement) -> Self {
        AnyStatement::Let(value)
    }
}

impl From<Program> for AnyNode {
    fn from(value: Program) -> (node: Self) {
        AnyNode::Program(value)
    }
}

impl FromSpecImpl<Program> for AnyNode {
    open spec fn obeys_from_spec() -> bool {
        true
    }

    open spec fn from_spec(value: Program) -> Self {
        AnyNode::Program(value)
    }
}

impl From<LetStatement> for AnyNode {
    fn from(value: LetStatement) -> (node: Self) {
        AnyNode::Statement(AnyStatement::Let(value))
    }
}

impl FromSpecImpl<LetStatement> for AnyNode {
    open spec fn obeys_from_spec() -> bool {
        true
    }

    open spec fn from_spec(value: LetStatement) -> Self {
        AnyNode::Statement(AnyStatement::Let(value))
    }
}

impl From<Identifier> for AnyNode {
    fn from(value: Identifier) -> (node: Self) {
        AnyNode::Expression(AnyExpression::Identifier(value))
    }
}

impl FromSpecImpl<Identifier> for AnyNode {
    open spec fn obeys_from_spec() -> bool {
        true
    }

    open spec fn from_spec(value: Identifier) -> Self {
        AnyNode::Expression(AnyExpression::Identifier(value))
    }
}

} // verus!
