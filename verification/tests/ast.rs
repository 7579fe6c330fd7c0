use monkey::ast::{
    AnyExpression, AnyNode, AnyStatement, Expression, Identifier, LetStatement, Node, Program,
    Statement,
};
use monkey::token::{Token, TokenType};
use monkey::utils::poly::{AsAny, Downcast};
use monkey::utils::text::same_text;
use std::rc::Rc;

fn identifier(name: &str) -> Identifier {
    Identifier::new(Token::new(TokenType::Ident, name.to_owned()))
}

fn binding(name: &str) -> LetStatement {
    LetStatement {
        token: Token::new(TokenType::Let, "let".to_owned()),
        name: identifier(name),
        value: None,
    }
}

fn literal_of<T: Node>(node: &T) -> String {
    node.token_literal()
}

fn as_statement<T: Statement>(node: &T) -> String {
    node.token_literal()
}

fn as_expression<T: Expression>(node: &T) -> String {
    node.token_literal()
}

struct Number {
    token: Token,
}

impl Node for Number {
    fn token_literal(&self) -> String {
        self.token.literal.clone()
    }
}

impl Expression for Number {}

#[test]
fn a_node_type_of_a_caller_reports_its_token() {
    let number = Number { token: Token::new(TokenType::Int, "5".to_owned()) };
    assert_eq!(as_expression(&number), "5");
}

#[test]
fn every_node_reports_the_literal_of_its_token() {
    assert_eq!(literal_of(&identifier("x")), "x");
    assert_eq!(literal_of(&binding("x")), "let");
    assert_eq!(literal_of(&AnyExpression::from(identifier("y"))), "y");
    assert_eq!(literal_of(&AnyStatement::from(binding("y"))), "let");
    assert_eq!(as_statement(&binding("z")), "let");
    assert_eq!(as_statement(&AnyStatement::from(binding("z"))), "let");
    assert_eq!(as_expression(&identifier("z")), "z");
    assert_eq!(as_expression(&AnyExpression::from(identifier("z"))), "z");
}

#[test]
fn program_reports_the_literal_of_its_first_statement() {
    let mut program = Program::new();
    assert_eq!(program.token_literal(), "");
    let mut first = binding("a");
    first.token = Token::new(TokenType::Let, "LET".to_owned());
    program.statements.push(first.into());
    program.statements.push(binding("b").into());
    assert_eq!(program.token_literal(), "LET");
    assert_eq!(literal_of(&AnyNode::from(program)), "LET");
}

#[test]
fn any_node_holds_every_node_type() {
    assert_eq!(AnyNode::from(identifier("n")).token_literal(), "n");
    assert_eq!(AnyNode::from(binding("n")).token_literal(), "let");
    assert_eq!(AnyNode::from(Program::new()).token_literal(), "");
}

#[test]
fn let_statement_can_share_its_expression() {
    let shared = Rc::new(AnyExpression::from(identifier("seven")));
    let mut first = binding("a");
    first.value = Some(shared.clone());
    let mut second = binding("b");
    second.value = Some(shared.clone());
    assert_eq!(Rc::strong_count(&shared), 3);
    assert_eq!(first.value.unwrap().token_literal(), "seven");
    assert_eq!(second.clone().value.unwrap().token_literal(), "seven");
}

#[test]
fn handle_tells_whether_it_holds_a_type() {
    let statement = AnyStatement::from(binding("x"));
    assert!(Downcast::<LetStatement>::is(&statement));
    let expression = AnyExpression::from(identifier("x"));
    assert!(Downcast::<Identifier>::is(&expression));

    let node = AnyNode::from(binding("x"));
    assert!(Downcast::<LetStatement>::is(&node));
    assert!(!Downcast::<Identifier>::is(&node));
    assert!(!Downcast::<Program>::is(&node));
    let node = AnyNode::from(identifier("x"));
    assert!(!Downcast::<LetStatement>::is(&node));
    assert!(Downcast::<Identifier>::is(&node));
    assert!(!Downcast::<Program>::is(&node));
    let node = AnyNode::from(Program::new());
    assert!(!Downcast::<LetStatement>::is(&node));
    assert!(!Downcast::<Identifier>::is(&node));
    assert!(Downcast::<Program>::is(&node));
}

#[test]
fn handle_gives_the_node_under_its_own_type() {
    let statement = AnyStatement::from(binding("x"));
    let narrowed: &LetStatement = statement.downcast_ref().unwrap();
    assert_eq!(narrowed.name.value(), "x");

    let expression = AnyExpression::from(identifier("y"));
    let narrowed: &Identifier = expression.downcast_ref().unwrap();
    assert_eq!(narrowed.value(), "y");

    let node = AnyNode::from(binding("z"));
    let narrowed: Option<&LetStatement> = node.downcast_ref();
    assert_eq!(narrowed.unwrap().name.value(), "z");
    let narrowed: Option<&Identifier> = node.downcast_ref();
    assert!(narrowed.is_none());
    let narrowed: Option<&Program> = node.downcast_ref();
    assert!(narrowed.is_none());

    let node = AnyNode::from(identifier("w"));
    let narrowed: Option<&Identifier> = node.downcast_ref();
    assert_eq!(narrowed.unwrap().value(), "w");
    let narrowed: Option<&LetStatement> = node.downcast_ref();
    assert!(narrowed.is_none());

    let mut program = Program::new();
    program.statements.push(binding("p").into());
    let node = AnyNode::from(program);
    let narrowed: Option<&Program> = node.downcast_ref();
    assert_eq!(narrowed.unwrap().statements.len(), 1);
}

#[test]
fn node_changed_through_a_handle_stays_in_the_handle() {
    let mut statement = AnyStatement::from(binding("x"));
    let narrowed: &mut LetStatement = statement.downcast_mut().unwrap();
    narrowed.name = identifier("renamed");
    let AnyStatement::Let(held) = &statement;
    assert_eq!(held.name.value(), "renamed");

    let mut expression = AnyExpression::from(identifier("y"));
    let narrowed: &mut Identifier = expression.downcast_mut().unwrap();
    *narrowed = identifier("other");
    assert_eq!(expression.token_literal(), "other");

    let mut node = AnyNode::from(binding("z"));
    let narrowed: Option<&mut Identifier> = node.downcast_mut();
    assert!(narrowed.is_none());
    let narrowed: Option<&mut Program> = node.downcast_mut();
    assert!(narrowed.is_none());
    let narrowed: Option<&mut LetStatement> = node.downcast_mut();
    narrowed.unwrap().token = Token::new(TokenType::Let, "Let".to_owned());
    assert_eq!(node.token_literal(), "Let");

    let mut node = AnyNode::from(Program::new());
    let narrowed: Option<&mut Program> = node.downcast_mut();
    narrowed.unwrap().statements.push(binding("q").into());
    assert_eq!(node.token_literal(), "let");

    let mut node = AnyNode::from(identifier("i"));
    let narrowed: Option<&mut LetStatement> = node.downcast_mut();
    assert!(narrowed.is_none());
    let narrowed: Option<&mut Identifier> = node.downcast_mut();
    *narrowed.unwrap() = identifier("j");
    assert_eq!(node.token_literal(), "j");
}

#[test]
fn concrete_type_is_named_with_its_module() {
    assert_eq!(identifier("x").concrete_name(), "monkey::ast::Identifier");
    assert_eq!(binding("x").concrete_name(), "monkey::ast::LetStatement");
    assert_eq!(Program::new().concrete_name(), "monkey::ast::Program");
    assert_eq!(AnyStatement::from(binding("x")).concrete_name(), "monkey::ast::LetStatement");
    assert_eq!(AnyExpression::from(identifier("x")).concrete_name(), "monkey::ast::Identifier");
    assert_eq!(AnyNode::from(binding("x")).concrete_name(), "monkey::ast::LetStatement");
    assert_eq!(AnyNode::from(identifier("x")).concrete_name(), "monkey::ast::Identifier");
    assert_eq!(AnyNode::from(Program::new()).concrete_name(), "monkey::ast::Program");
}

#[test]
fn texts_are_compared_by_characters() {
    assert!(same_text("", ""));
    assert!(same_text("Token", "Token"));
    assert!(same_text("ñandú", "ñandú"));
    assert!(!same_text("Token", "token"));
    assert!(!same_text("Token", "Tokens"));
    assert!(!same_text("Tokens", "Token"));
    assert!(!same_text("", "a"));
    assert!(!same_text("é", "e"));
}
