use vstd::prelude::*;

use crate::ast::{AssignmentOperator, BinaryOperator, LogicalOperator, UnaryOperator};

verus! {

/// The text of an optional string slice.
pub open spec fn text_of(r: Option<&str>) -> Option<Seq<char>> {
    match r {
        Some(t) => Some(t@),
        None => None,
    }
}

/// The prefix a unary operator renders to; `None` where it has none.
/// Numeric negation renders as the digit `0`, so that `-x` becomes `0x`.
pub open spec fn unary_text(op: UnaryOperator) -> Option<Seq<char>> {
    match op {
        UnaryOperator::LogicalNot => Some("not "@),
        UnaryOperator::UnaryPlus => Some("+"@),
        UnaryOperator::UnaryNegation => Some("0"@),
        UnaryOperator::BitwiseNot => Some("~"@),
        _ => None,
    }
}

/// The infix a binary operator renders to; `None` where it has none.
pub open spec fn binary_text(op: BinaryOperator) -> Option<Seq<char>> {
    match op {
        BinaryOperator::StrictEquality => Some("is"@),
        BinaryOperator::StrictInequality => Some("is not"@),
        BinaryOperator::Equality => Some("=="@),
        BinaryOperator::Inequality => Some("!="@),
        BinaryOperator::LessThan => Some("<"@),
        BinaryOperator::GreaterThan => Some(">"@),
        BinaryOperator::LessEqualThan => Some("<="@),
        BinaryOperator::GreaterEqualThan => Some(">="@),
        BinaryOperator::Addition => Some("+"@),
        BinaryOperator::Subtraction => Some("-"@),
        BinaryOperator::Multiplication => Some("*"@),
        BinaryOperator::Division => Some("/"@),
        BinaryOperator::Remainder => Some("%"@),
        BinaryOperator::BitwiseOR => Some("|"@),
        BinaryOperator::BitwiseXOR => Some("^"@),
        BinaryOperator::BitwiseAnd => Some("&"@),
        BinaryOperator::ShiftLeft => Some("<<"@),
        BinaryOperator::ShiftRight => Some(">>"@),
        _ => None,
    }
}

/// The keyword a logical operator renders to; `None` for nullish coalescing.
pub open spec fn logical_text(op: LogicalOperator) -> Option<Seq<char>> {
    match op {
        LogicalOperator::Or => Some("or"@),
        LogicalOperator::And => Some("and"@),
        LogicalOperator::Coalesce => None,
    }
}

/// The text an assignment operator renders to; `None` for the forms with no
/// single-expression equivalent.
pub open spec fn assign_text(op: AssignmentOperator) -> Option<Seq<char>> {
    match op {
        AssignmentOperator::Assign => Some("="@),
        AssignmentOperator::Addition => Some("+="@),
        AssignmentOperator::Subtraction => Some("-="@),
        AssignmentOperator::Multiplication => Some("*="@),
        AssignmentOperator::Division => Some("/="@),
        AssignmentOperator::Remainder => Some("%="@),
        AssignmentOperator::ShiftLeft => Some("<<="@),
        AssignmentOperator::ShiftRight => Some(">>="@),
        AssignmentOperator::BitwiseOR => Some("|="@),
        AssignmentOperator::BitwiseXOR => Some("^="@),
        AssignmentOperator::BitwiseAnd => Some("&="@),
        AssignmentOperator::Exponential => Some("**="@),
        AssignmentOperator::ShiftRightZeroFill => None,
        AssignmentOperator::LogicalAnd => None,
        AssignmentOperator::LogicalOr => None,
        AssignmentOperator::LogicalNullish => None,
    }
}

/// The text a unary operator renders to, or `None`.
pub fn translate_unary_operator(op: UnaryOperator) -> (r: Option<&'static str>)
    ensures
        text_of(r) == unary_text(op),
{
    match op {
        UnaryOperator::LogicalNot => Some("not "),
        UnaryOperator::UnaryPlus => Some("+"),
        UnaryOperator::UnaryNegation => Some("0"),
        UnaryOperator::BitwiseNot => Some("~"),
        _ => None,
    }
}

/// The text a binary operator renders to, or `None`.
pub fn translate_binary_operator(op: BinaryOperator) -> (r: Option<&'static str>)
    ensures
        text_of(r) == binary_text(op),
{
    match op {
        BinaryOperator::StrictEquality => Some("is"),
        BinaryOperator::StrictInequality => Some("is not"),
        BinaryOperator::Equality => Some("=="),
        BinaryOperator::Inequality => Some("!="),
        BinaryOperator::LessThan => Some("<"),
        BinaryOperator::GreaterThan => Some(">"),
        BinaryOperator::LessEqualThan => Some("<="),
        BinaryOperator::GreaterEqualThan => Some(">="),
        BinaryOperator::Addition => Some("+"),
        BinaryOperator::Subtraction => Some("-"),
        BinaryOperator::Multiplication => Some("*"),
        BinaryOperator::Division => Some("/"),
        BinaryOperator::Remainder => Some("%"),
        BinaryOperator::BitwiseOR => Some("|"),
        BinaryOperator::BitwiseXOR => Some("^"),
        BinaryOperator::BitwiseAnd => Some("&"),
        BinaryOperator::ShiftLeft => Some("<<"),
        BinaryOperator::ShiftRight => Some(">>"),
        _ => None,
    }
}

/// The text a logical operator renders to, or `None`.
pub fn translate_logical_operator(op: LogicalOperator) -> (r: Option<&'static str>)
    ensures
        text_of(r) == logical_text(op),
{
    match op {
        LogicalOperator::Or => Some("or"),
        LogicalOperator::And => Some("and"),
        LogicalOperator::Coalesce => None,
    }
}

/// The text a assignment operator renders to, or `None`.
pub fn translate_assign_operator(op: AssignmentOperator) -> (r: Option<&'static str>)
    ensures
        text_of(r) == assign_text(op),
{
    match op {
        AssignmentOperator::Assign => Some("="),
        AssignmentOperator::Addition => Some("+="),
        AssignmentOperator::Subtraction => Some("-="),
        AssignmentOperator::Multiplication => Some("*="),
        AssignmentOperator::Division => Some("/="),
        AssignmentOperator::Remainder => Some("%="),
        AssignmentOperator::ShiftLeft => Some("<<="),
        AssignmentOperator::ShiftRight => Some(">>="),
        AssignmentOperator::BitwiseOR => Some("|="),
        AssignmentOperator::BitwiseXOR => Some("^="),
        AssignmentOperator::BitwiseAnd => Some("&="),
        AssignmentOperator::Exponential => Some("**="),
        AssignmentOperator::ShiftRightZeroFill => None,
        AssignmentOperator::LogicalAnd => None,
        AssignmentOperator::LogicalOr => None,
        AssignmentOperator::LogicalNullish => None,
    }
}

} // verus!
