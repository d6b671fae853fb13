use vstd::prelude::*;

verus! {

/// A half-open byte range into the source text that a node was parsed from.
#[derive(Clone, Copy, Debug, PartialEq, Eq, Structural)]
pub struct Span {
    pub start: usize,
    pub end: usize,
}

impl Span {
    pub fn new(start: usize, end: usize) -> (r: Span)
        ensures
            r.start == start,
            r.end == end,
    {
        Span { start, end }
    }
}

#[derive(Clone, Copy, Debug, PartialEq, Eq, Structural)]
pub enum UnaryOperator {
    UnaryNegation,
    UnaryPlus,
    LogicalNot,
    BitwiseNot,
    Typeof,
    Void,
    Delete,
}

#[derive(Clone, Copy, Debug, PartialEq, Eq, Structural)]
pub enum BinaryOperator {
    Equality,
    Inequality,
    StrictEquality,
    StrictInequality,
    LessThan,
    LessEqualThan,
    GreaterThan,
    GreaterEqualThan,
    ShiftLeft,
    ShiftRight,
    ShiftRightZeroFill,
    Addition,
    Subtraction,
    Multiplication,
    Division,
    Remainder,
    BitwiseOR,
    BitwiseXOR,
    BitwiseAnd,
    In,
    Instanceof,
    Exponential,
}

#[derive(Clone, Copy, Debug, PartialEq, Eq, Structural)]
pub enum LogicalOperator {
    Or,
    And,
    Coalesce,
}

#[derive(Clone, Copy, Debug, PartialEq, Eq, Structural)]
pub enum AssignmentOperator {
    Assign,
    Addition,
    Subtraction,
    Multiplication,
    Division,
    Remainder,
    ShiftLeft,
    ShiftRight,
    ShiftRightZeroFill,
    BitwiseOR,
    BitwiseXOR,
    BitwiseAnd,
    LogicalAnd,
    LogicalOr,
    LogicalNullish,
    Exponential,
}

/// An expression node. `Other` stands for every kind that has no rendering.
#[derive(Debug)]
pub enum Expression {
    BooleanLiteral { span: Span, value: bool },
    /// `raw` is the literal's text as written.
    NumericLiteral { span: Span, raw: String },
    /// `value` is the literal already quoted.
    StringLiteral { span: Span, value: String },
    Identifier { span: Span, name: String },
    Unary { span: Span, operator: UnaryOperator, argument: Box<Expression> },
    Binary { span: Span, left: Box<Expression>, operator: BinaryOperator, right: Box<Expression> },
    StaticMember { span: Span, object: Box<Expression>, property: String },
    ComputedMember { span: Span, object: Box<Expression>, expression: Box<Expression> },
    Array { span: Span, elements: Vec<ArrayElement> },
    Assignment {
        span: Span,
        left: AssignmentTarget,
        operator: AssignmentOperator,
        right: Box<Expression>,
    },
    Object { span: Span, properties: Vec<ObjectProperty> },
    Call { span: Span, callee: Box<Expression>, arguments: Vec<Expression> },
    Logical { span: Span, left: Box<Expression>, operator: LogicalOperator, right: Box<Expression> },
    NullLiteral { span: Span },
    Parenthesized { span: Span, expression: Box<Expression> },
    Other { span: Span, kind: String },
}

/// One slot of an array literal: a hole or an expression.
#[derive(Debug)]
pub enum ArrayElement {
    Elision { span: Span },
    Expression { expression: Expression },
}

#[derive(Debug)]
pub enum PropertyKey {
    IdentifierName { span: Span, name: String },
    /// `value` is the literal already quoted.
    StringLiteral { span: Span, value: String },
    NumericLiteral { span: Span, raw: String },
}

#[derive(Debug)]
pub struct ObjectProperty {
    pub span: Span,
    pub key: PropertyKey,
    pub value: Expression,
}

/// The left-hand side of an assignment. `Other` stands for every other
/// target form (a destructuring pattern, for one).
#[derive(Debug)]
pub enum AssignmentTarget {
    Identifier { span: Span, name: String },
    StaticMember { span: Span, object: Box<Expression>, property: String },
    ComputedMember { span: Span, object: Box<Expression>, expression: Box<Expression> },
    Other { span: Span, kind: String },
}

/// A statement node. `Other` stands for every kind that has no rendering.
#[derive(Debug)]
pub enum Statement {
    BlockStatement { span: Span, body: Vec<Statement> },
    IfStatement {
        span: Span,
        test: Expression,
        consequent: Box<Statement>,
        alternate: Option<Box<Statement>>,
    },
    EmptyStatement { span: Span },
    FunctionDeclaration {
        span: Span,
        id: Option<String>,
        params: Vec<String>,
        body: Option<Vec<Statement>>,
    },
    ReturnStatement { span: Span, argument: Option<Expression> },
    VariableDeclarationStatement { span: Span, id: String, init: Option<Expression> },
    WhileStatement { span: Span, test: Expression, body: Box<Statement> },
    ExpressionStatement { span: Span, expression: Expression },
    ContinueStatement { span: Span },
    BreakStatement { span: Span },
    Other { span: Span, kind: String },
}

/// A whole parsed program with the text it was parsed from.
#[derive(Debug)]
pub struct Program {
    pub source_text: String,
    pub body: Vec<Statement>,
}

impl Expression {
    pub open spec fn spec_span(&self) -> Span {
        match self {
            Expression::BooleanLiteral { span, .. } => *span,
            Expression::NumericLiteral { span, .. } => *span,
            Expression::StringLiteral { span, .. } => *span,
            Expression::Identifier { span, .. } => *span,
            Expression::Unary { span, .. } => *span,
            Expression::Binary { span, .. } => *span,
            Expression::StaticMember { span, .. } => *span,
            Expression::ComputedMember { span, .. } => *span,
            Expression::Array { span, .. } => *span,
            Expression::Assignment { span, .. } => *span,
            Expression::Object { span, .. } => *span,
            Expression::Call { span, .. } => *span,
            Expression::Logical { span, .. } => *span,
            Expression::NullLiteral { span } => *span,
            Expression::Parenthesized { span, .. } => *span,
            Expression::Other { span, .. } => *span,
        }
    }

    /// The source range this expression was parsed from.
    pub fn span(&self) -> (r: Span)
        ensures
            r == self.spec_span(),
    {
        match self {
            Expression::BooleanLiteral { span, .. } => *span,
            Expression::NumericLiteral { span, .. } => *span,
            Expression::StringLiteral { span, .. } => *span,
            Expression::Identifier { span, .. } => *span,
            Expression::Unary { span, .. } => *span,
            Expression::Binary { span, .. } => *span,
            Expression::StaticMember { span, .. } => *span,
            Expression::ComputedMember { span, .. } => *span,
            Expression::Array { span, .. } => *span,
            Expression::Assignment { span, .. } => *span,
            Expression::Object { span, .. } => *span,
            Expression::Call { span, .. } => *span,
            Expression::Logical { span, .. } => *span,
            Expression::NullLiteral { span } => *span,
            Expression::Parenthesized { span, .. } => *span,
            Expression::Other { span, .. } => *span,
        }
    }
}

impl Statement {
    pub open spec fn spec_span(&self) -> Span {
        match self {
            Statement::BlockStatement { span, .. } => *span,
            Statement::IfStatement { span, .. } => *span,
            Statement::EmptyStatement { span } => *span,
            Statement::FunctionDeclaration { span, .. } => *span,
            Statement::ReturnStatement { span, .. } => *span,
            Statement::VariableDeclarationStatement { span, .. } => *span,
            Statement::WhileStatement { span, .. } => *span,
            Statement::ExpressionStatement { span, .. } => *span,
            Statement::ContinueStatement { span } => *span,
            Statement::BreakStatement { span } => *span,
            Statement::Other { span, .. } => *span,
        }
    }

    /// The source range this statement was parsed from.
    pub fn span(&self) -> (r: Span)
        ensures
            r == self.spec_span(),
    {
        match self {
            Statement::BlockStatement { span, .. } => *span,
            Statement::IfStatement { span, .. } => *span,
            Statement::EmptyStatement { span } => *span,
            Statement::FunctionDeclaration { span, .. } => *span,
            Statement::ReturnStatement { span, .. } => *span,
            Statement::VariableDeclarationStatement { span, .. } => *span,
            Statement::WhileStatement { span, .. } => *span,
            Statement::ExpressionStatement { span, .. } => *span,
            Statement::ContinueStatement { span } => *span,
            Statement::BreakStatement { span } => *span,
            Statement::Other { span, .. } => *span,
        }
    }
}

} // verus!
