//! Finding the concrete node behind a handle.
//!
//! A handle such as [`AnyStatement`] holds one of several node types. The
//! traits here tell which one, and give the node back under its own type.
//! They are meant for tests and diagnostics: a parser or an evaluator
//! matches on the handle instead.

use vstd::prelude::*;
use crate::ast::{AnyExpression, AnyNode, AnyStatement, Identifier, LetStatement, Program};

verus! {

/// The concrete node types.
pub enum Concrete {
    Program,
    LetStatement,
    Identifier,
}

impl Concrete {
    /// The name of the type, with the path of the module that defines it.
    pub open spec fn name(self) -> Seq<char> {
        match self {
            Concrete::Program => "monkey::ast::Program"@,
            Concrete::LetStatement => "monkey::ast::LetStatement"@,
            Concrete::Identifier => "monkey::ast::Identifier"@,
        }
    }
}

/// A value that knows the concrete type of the node that it is or holds.
pub trait AsAny {
    /// The type of the node itself, whatever it is held in.
    spec fn concrete(&self) -> Concrete;

    /// The name of the node's concrete type. It is meant to be shown, not to
    /// be decided on.
    fn concrete_name(&self) -> (name: &'static str)
        ensures
            name@ == self.concrete().name(),
    ;
}

/// A handle that may hold a node of type `T`.
pub trait Downcast<T>: AsAny + Sized {
    /// The node of type `T` that the handle holds, if it holds one.
    spec fn narrowed(&self) -> Option<T>;

    /// The same handle with another node of type `T` in it.
    spec fn holding(&self, node: T) -> Self;

    /// Whether the handle holds a node of type `T`.
    fn is(&self) -> (holds: bool)
        ensures
            holds == self.narrowed() is Some,
    ;

    /// The node that the handle holds, if it is of type `T`.
    fn downcast_ref(&self) -> (node: Option<&T>)
        ensures
            match node {
                Some(node) => self.narrowed() == Some(*node),
                None => self.narrowed() is None,
            },
    ;

    /// The node that the handle holds, if it is of type `T`, to be changed in
    /// place. What is written to it is what the handle holds afterwards; a
    /// handle that holds another type stays as it is.
    fn downcast_mut(&mut self) -> (node: Option<&mut T>)
        ensures
            match node {
                Some(node) => old(self).narrowed() == Some(*node) && *final(self) == old(
                    self,
                ).holding(*final(node)),
                None => old(self).narrowed() is None && *final(self) == *old(self),
            },
    ;
}

impl AsAny for Program {
    open spec fn concrete(&self) -> Concrete {
        Concrete::Program
    }

    fn concrete_name(&self) -> (name: &'static str) {
        "monkey::ast::Program"
    }
}

impl AsAny for LetStatement {
    open spec fn concrete(&self) -> Concrete {
        Concrete::LetStatement
    }

    fn concrete_name(&self) -> (name: &'static str) {
        "monkey::ast::LetStatement"
    }
}

impl AsAny for Identifier {
    open spec fn concrete(&self) -> Concrete {
        Concrete::Identifier
    }

    fn concrete_name(&self) -> (name: &'static str) {
        "monkey::ast::Identifier"
    }
}

impl AsAny for AnyStatement {
    open spec fn concrete(&self) -> Concrete {
        match self {
            AnyStatement::Let(statement) => statement.concrete(),
        }
    }

    fn concrete_name(&self) -> (name: &'static str) {
        match self {
            AnyStatement::Let(statement) => statement.concrete_name(),
        }
    }
}

impl AsAny for AnyExpression {
    open spec fn concrete(&self) -> Concrete {
        match self {
            AnyExpression::Identifier(identifier) => identifier.concrete(),
        }
    }

    fn concrete_name(&self) -> (name: &'static str) {
        match self {
            AnyExpression::Identifier(identifier) => identifier.concrete_name(),
        }
    }
}

impl AsAny for AnyNode {
    open spec fn concrete(&self) -> Concrete {
        match self {
            AnyNode::Program(program) => program.concrete(),
            AnyNode::Statement(statement) => statement.concrete(),
            AnyNode::Expression(expression) => expression.concrete(),
        }
    }

    fn concrete_name(&self) -> (name: &'static str) {
        match self {
            AnyNode::Program(program) => program.concrete_name(),
            AnyNode::Statement(statement) => statement.concrete_name(),
            AnyNode::Expression(expression) => expression.concrete_name(),
        }
    }
}

impl Downcast<LetStatement> for AnyStatement {
    open spec fn narrowed(&self) -> Option<LetStatement> {
        match self {
            AnyStatement::Let(statement) => Some(*statement),
        }
    }

    open spec fn holding(&self, node: LetStatement) -> Self {
        AnyStatement::Let(node)
    }

    fn is(&self) -> (holds: bool) {
        match self {
            AnyStatement::Let(_) => true,
        }
    }

    fn downcast_ref(&self) -> (node: Option<&LetStatement>) {
        match self {
            AnyStatement::Let(statement) => Some(statement),
        }
    }

    fn downcast_mut(&mut self) -> (node: Option<&mut LetStatement>) {
        match self {
            AnyStatement::Let(statement) => Some(statement),
        }
    }
}

impl Downcast<Identifier> for AnyExpression {
    open spec fn narrowed(&self) -> Option<Identifier> {
        match self {
            AnyExpression::Identifier(identifier) => Some(*identifier),
        }
    }

    open spec fn holding(&self, node: Identifier) -> Self {
        AnyExpression::Identifier(node)
    }

    fn is(&self) -> (holds: bool) {
        match self {
            AnyExpression::Identifier(_) => true,
        }
    }

    fn downcast_ref(&self) -> (node: Option<&Identifier>) {
        match self {
            AnyExpression::Identifier(identifier) => Some(identifier),
        }
    }

    fn downcast_mut(&mut self) -> (node: Option<&mut Identifier>) {
        match self {
            AnyExpression::Identifier(identifier) => Some(identifier),
        }
    }
}

impl Downcast<Program> for AnyNode {
    open spec fn narrowed(&self) -> Option<Program> {
        match self {
            AnyNode::Program(program) => Some(*program),
            _ => None,
        }
    }

    open spec fn holding(&self, node: Program) -> Self {
        AnyNode::Program(node)
    }

    fn is(&self) -> (holds: bool) {
        match self {
            AnyNode::Program(_) => true,
            _ => false,
        }
    }

    fn downcast_ref(&self) -> (node: Option<&Program>) {
        match self {
            AnyNode::Program(program) => Some(program),
            _ => None,
        }
    }

    fn downcast_mut(&mut self) -> (node: Option<&mut Program>) {
        match self {
            AnyNode::Program(program) => Some(program),
            _ => None,
        }
    }
}

impl Downcast<LetStatement> for AnyNode {
    open spec fn narrowed(&self) -> Option<LetStatement> {
        match self {
            AnyNode::Statement(AnyStatement::Let(statement)) => Some(*statement),
            _ => None,
        }
    }

    open spec fn holding(&self, node: LetStatement) -> Self {
        AnyNode::Statement(AnyStatement::Let(node))
    }

    fn is(&self) -> (holds: bool) {
        match self {
            AnyNode::Statement(AnyStatement::Let(_)) => true,
            _ => false,
        }
    }

    fn downcast_ref(&self) -> (node: Option<&LetStatement>) {
        match self {
            AnyNode::Statement(AnyStatement::Let(statement)) => Some(statement),
            _ => None,
        }
    }

    fn downcast_mut(&mut self) -> (node: Option<&mut LetStatement>) {
        match self {
            AnyNode::Statement(AnyStatement::Let(statement)) => Some(statement),
            _ => None,
        }
    }
}

impl Downcast<Identifier> for AnyNode {
    open spec fn narrowed(&self) -> Option<Identifier> {
        match self {
            AnyNode::Expression(AnyExpression::Identifier(identifier)) => Some(*identifier),
            _ => None,
        }
    }

    open spec fn holding(&self, node: Identifier) -> Self {
        AnyNode::Expression(AnyExpression::Identifier(node))
    }

    fn is(&self) -> (holds: bool) {
        match self {
            AnyNode::Expression(AnyExpression::Identifier(_)) => true,
            _ => false,
        }
    }

    fn downcast_ref(&self) -> (node: Option<&Identifier>) {
        match self {
            AnyNode::Expression(AnyExpression::Identifier(identifier)) => Some(identifier),
            _ => None,
        }
    }

    fn downcast_mut(&mut self) -> (node: Option<&mut Identifier>) {
        match self {
            AnyNode::Expression(AnyExpression::Identifier(identifier)) => Some(identifier),
            _ => None,
        }
    }
}

} // verus!
