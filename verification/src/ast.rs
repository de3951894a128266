//! The expression tree consumed by the back ends.  The tree is produced by
//! an external front end; this crate only relies on the node shapes and
//! operator tags below.
use vstd::prelude::*;

verus! {

/// How a member access was written in the source.
#[derive(Debug, Clone, Copy, PartialEq, Eq, Structural)]
pub enum IndexOperator {
    Colon,
    Dot,
}

/// Operator tag of a binary operation node.  `Assign` stores into the
/// identifier on its left; the other tags are ordinary two-operand
/// operators.
#[derive(Debug, Clone, Copy, PartialEq, Eq, Structural)]
pub enum BinaryOperator {
    Add,
    Subtract,
    Multiply,
    Divide,
    Modulo,
    Equal,
    Exponentiate,
    NotEqual,
    LessThan,
    LessThanOrEqual,
    GreaterThan,
    GreaterThanOrEqual,
    And,
    Or,
    Concatenate,
    Assign,
}

/// A type annotation on a program parameter.
#[derive(Debug, PartialEq)]
pub enum Type {
    Reference { name: String },
}

/// A named, typed program parameter.
#[derive(Debug, PartialEq)]
pub struct Binding {
    pub name: String,
    pub ty: Type,
}

/// An ordered list of expressions; its value is the value of the last one.
#[derive(Debug, PartialEq)]
pub struct Block {
    pub expressions: Vec<Expression>,
}

/// An expression tree node.  Floating-point literals carry the IEEE-754
/// bit pattern of their value.
#[derive(Debug, PartialEq)]
pub enum Expression {
    Identifier { value: String },
    BooleanLiteral { value: bool },
    IntegerLiteral { value: i64 },
    StringLiteral { value: String },
    FloatLiteral { value: u64 },
    NullLiteral,
    Call { function: Box<Expression>, arguments: Vec<Expression> },
    IndexName { operator: IndexOperator, expression: Box<Expression>, name: String },
    IndexExpression { expression: Box<Expression>, index: Box<Expression> },
    Block { block: Block },
    Program { name: Option<String>, parameters: Vec<Binding>, body: Block },
    BinaryOperation {
        operator: BinaryOperator,
        left: Box<Expression>,
        right: Box<Expression>,
    },
    Error,
}

} // verus!
