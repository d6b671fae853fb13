use vstd::prelude::*;
use vstd::utf8::{encode_utf8, is_char_boundary};

use crate::ast::{
    ArrayElement, AssignmentTarget, Expression, ObjectProperty, PropertyKey, Span, Statement,
};
use crate::error::ErrorView;
use crate::operators::{assign_text, binary_text, logical_text, unary_text};
use crate::text::{indented, joined, or_placeholder, trimmed_end};

verus! {

broadcast use {vstd::seq::group_seq_axioms, vstd::std_specs::vec::group_vec_axioms};

/// The outcome of rendering one node.
pub type Rendered = Result<Seq<char>, ErrorView>;

/// The outcome of rendering a list of nodes, one text per node.
pub type RenderedList = Result<Seq<Seq<char>>, ErrorView>;

/// The bytes of `src` that `sp` covers; empty where `sp` is not a range of
/// character boundaries inside `src`.
pub open spec fn slice_of(src: Seq<char>, sp: Span) -> Seq<u8> {
    let b = encode_utf8(src);
    if sp.start <= sp.end && sp.end <= b.len() && is_char_boundary(b, sp.start as int)
        && is_char_boundary(b, sp.end as int) {
        b.subrange(sp.start as int, sp.end as int)
    } else {
        Seq::empty()
    }
}

pub open spec fn unsupported(src: Seq<char>, kind: Seq<char>, sp: Span) -> ErrorView {
    ErrorView::Unsupported { kind, source: slice_of(src, sp) }
}

/// A property access; `length` becomes a call of `len`.
pub open spec fn static_member_text(object: Seq<char>, property: Seq<char>) -> Seq<char> {
    if property == "length"@ {
        "len("@ + object + ")"@
    } else {
        object + "."@ + property
    }
}

pub open spec fn key_text(key: PropertyKey) -> Seq<char> {
    match key {
        PropertyKey::IdentifierName { name, .. } => "\""@ + name@ + "\""@,
        PropertyKey::StringLiteral { value, .. } => value@,
        PropertyKey::NumericLiteral { raw, .. } => raw@,
    }
}

/// Whether `e` is the identifier `console`: only `console.log(..)` becomes a
/// call of `print`, a `log` method on any other receiver is kept.
pub open spec fn is_console(e: Expression) -> bool {
    e matches Expression::Identifier { name, .. } && name@ == "console"@
}

/// The rendering of an expression over the source text `src`. Operators get
/// no parentheses by precedence: a parenthesized expression keeps its own
/// parentheses, and that alone groups the output.
pub open spec fn expr_out(src: Seq<char>, e: Expression) -> Rendered
    decreases e,
{
    match e {
        Expression::BooleanLiteral { value, .. } => Ok(
            if value {
                "True"@
            } else {
                "False"@
            },
        ),
        Expression::NumericLiteral { raw, .. } => Ok(raw@),
        Expression::StringLiteral { value, .. } => Ok(value@),
        Expression::Identifier { name, .. } => Ok(name@),
        Expression::Unary { span, operator, argument } => match unary_text(operator) {
            None => Err(unsupported(src, "unary operator"@, span)),
            Some(o) => match expr_out(src, *argument) {
                Err(x) => Err(x),
                Ok(a) => Ok(
                    if operator is LogicalNot {
                        "("@ + o + a + ")"@
                    } else {
                        o + a
                    },
                ),
            },
        },
        Expression::Binary { span, left, operator, right } => match expr_out(src, *left) {
            Err(x) => Err(x),
            Ok(l) => match expr_out(src, *right) {
                Err(x) => Err(x),
                Ok(r) => match binary_text(operator) {
                    None => Err(unsupported(src, "binary operator"@, span)),
                    Some(o) => Ok(l + " "@ + o + " "@ + r),
                },
            },
        },
        Expression::StaticMember { object, property, .. } => match expr_out(src, *object) {
            Err(x) => Err(x),
            Ok(o) => Ok(static_member_text(o, property@)),
        },
        Expression::ComputedMember { object, expression, .. } => match expr_out(src, *object) {
            Err(x) => Err(x),
            Ok(o) => match expr_out(src, *expression) {
                Err(x) => Err(x),
                Ok(i) => Ok(o + "["@ + i + "]"@),
            },
        },
        Expression::Array { elements, .. } => match elements_out(src, elements@) {
            Err(x) => Err(x),
            Ok(items) => Ok("["@ + joined(items, ", "@) + "]"@),
        },
        Expression::Assignment { span, left, operator, right } => match target_out(src, left) {
            Err(x) => Err(x),
            Ok(l) => match assign_text(operator) {
                None => Err(unsupported(src, "assignment operator"@, span)),
                Some(o) => match expr_out(src, *right) {
                    Err(x) => Err(x),
                    Ok(r) => Ok(l + " "@ + o + " "@ + r),
                },
            },
        },
        Expression::Object { properties, .. } => match props_out(src, properties@) {
            Err(x) => Err(x),
            Ok(items) => Ok("{"@ + joined(items, ", "@) + "}"@),
        },
        Expression::Call { callee, arguments, .. } => match expr_out(src, *callee) {
            Err(x) => Err(x),
            Ok(c) => match args_out(src, arguments@) {
                Err(x) => Err(x),
                Ok(items) => {
                    let a = joined(items, ", "@);
                    match *callee {
                        Expression::StaticMember { object, property, .. } => {
                            if is_console(*object) && property@ == "log"@ {
                                Ok("print("@ + a + ")"@)
                            } else if property@ == "push"@ {
                                match expr_out(src, *object) {
                                    Err(x) => Err(x),
                                    Ok(o) => Ok(o + ".append("@ + a + ")"@),
                                }
                            } else {
                                Ok(c + "("@ + a + ")"@)
                            }
                        },
                        Expression::Identifier { name, .. } => {
                            if name@ == "parseFloat"@ {
                                Ok("float("@ + a + ")"@)
                            } else {
                                Ok(c + "("@ + a + ")"@)
                            }
                        },
                        _ => Ok(c + "("@ + a + ")"@),
                    }
                },
            },
        },
        Expression::Logical { span, left, operator, right } => match expr_out(src, *left) {
            Err(x) => Err(x),
            Ok(l) => match expr_out(src, *right) {
                Err(x) => Err(x),
                Ok(r) => match logical_text(operator) {
                    None => Err(unsupported(src, "logical operator"@, span)),
                    Some(o) => Ok(l + " "@ + o + " "@ + r),
                },
            },
        },
        Expression::NullLiteral { .. } => Ok("None"@),
        Expression::Parenthesized { expression, .. } => match expr_out(src, *expression) {
            Err(x) => Err(x),
            Ok(i) => Ok("("@ + i + ")"@),
        },
        Expression::Other { span, kind } => Err(unsupported(src, kind@, span)),
    }
}

/// The rendering of the left-hand side of an assignment.
pub open spec fn target_out(src: Seq<char>, t: AssignmentTarget) -> Rendered
    decreases t,
{
    match t {
        AssignmentTarget::Identifier { name, .. } => Ok(name@),
        AssignmentTarget::StaticMember { object, property, .. } => match expr_out(src, *object) {
            Err(x) => Err(x),
            Ok(o) => Ok(static_member_text(o, property@)),
        },
        AssignmentTarget::ComputedMember { object, expression, .. } => match expr_out(
            src,
            *object,
        ) {
            Err(x) => Err(x),
            Ok(o) => match expr_out(src, *expression) {
                Err(x) => Err(x),
                Ok(i) => Ok(o + "["@ + i + "]"@),
            },
        },
        AssignmentTarget::Other { kind, .. } => Err(ErrorView::InvalidTarget { kind: kind@ }),
    }
}

/// The renderings of call arguments, in order; the first failure wins.
pub open spec fn args_out(src: Seq<char>, es: Seq<Expression>) -> RenderedList
    decreases es,
{
    if es.len() == 0 {
        Ok(Seq::empty())
    } else {
        match args_out(src, es.drop_last()) {
            Err(x) => Err(x),
            Ok(prefix) => match expr_out(src, es.last()) {
                Err(x) => Err(x),
                Ok(t) => Ok(prefix.push(t)),
            },
        }
    }
}

/// The renderings of array slots, in order: a hole renders as `None`.
pub open spec fn elements_out(src: Seq<char>, es: Seq<ArrayElement>) -> RenderedList
    decreases es,
{
    if es.len() == 0 {
        Ok(Seq::empty())
    } else {
        match elements_out(src, es.drop_last()) {
            Err(x) => Err(x),
            Ok(prefix) => match es.last() {
                ArrayElement::Elision { .. } => Ok(prefix.push("None"@)),
                ArrayElement::Expression { expression } => match expr_out(src, expression) {
                    Err(x) => Err(x),
                    Ok(t) => Ok(prefix.push(t)),
                },
            },
        }
    }
}

/// The renderings of object properties as `key: value`, in order.
pub open spec fn props_out(src: Seq<char>, ps: Seq<ObjectProperty>) -> RenderedList
    decreases ps,
{
    if ps.len() == 0 {
        Ok(Seq::empty())
    } else {
        match props_out(src, ps.drop_last()) {
            Err(x) => Err(x),
            Ok(prefix) => match expr_out(src, ps.last().value) {
                Err(x) => Err(x),
                Ok(v) => Ok(prefix.push(key_text(ps.last().key) + ": "@ + v)),
            },
        }
    }
}

/// A suite: the body, or `pass` where it renders empty, indented by `w`.
pub open spec fn suite(body: Seq<char>, w: nat) -> Seq<char> {
    indented(or_placeholder(body, "pass"@), w)
}

/// The text of a sequence of statement renderings: one per line, trailing
/// whitespace removed.
pub open spec fn block_text(lines: Seq<Seq<char>>) -> Seq<char> {
    trimmed_end(joined(lines, "\n"@))
}

/// A function's parameter list, comma separated.
pub open spec fn params_text(params: Seq<String>) -> Seq<char> {
    joined(params.map_values(|p: String| p@), ", "@)
}

/// The rendering of a statement over the source text `src`, with suites
/// indented by `w`.
pub open spec fn stmt_out(src: Seq<char>, w: nat, s: Statement) -> Rendered
    decreases s,
{
    match s {
        Statement::BlockStatement { body, .. } => match lines_out(src, w, body@) {
            Err(x) => Err(x),
            Ok(ls) => Ok(block_text(ls)),
        },
        Statement::IfStatement { test, consequent, alternate, .. } => match expr_out(src, test) {
            Err(x) => Err(x),
            Ok(t) => match stmt_out(src, w, *consequent) {
                Err(x) => Err(x),
                Ok(c) => match alternate {
                    None => Ok("if "@ + t + ":\n"@ + suite(c, w)),
                    Some(alt) => match stmt_out(src, w, *alt) {
                        Err(x) => Err(x),
                        Ok(a) => Ok("if "@ + t + ":\n"@ + suite(c, w) + "\nelse:\n"@ + suite(a, w)),
                    },
                },
            },
        },
        Statement::EmptyStatement { .. } => Ok(Seq::empty()),
        Statement::FunctionDeclaration { id, params, body, .. } => match id {
            None => Err(ErrorView::Missing { context: "function name"@ }),
            Some(name) => {
                let head = "def "@ + name@ + "("@ + params_text(params@) + "):\n"@;
                match body {
                    None => Ok(head + suite(Seq::empty(), w)),
                    Some(b) => match lines_out(src, w, b@) {
                        Err(x) => Err(x),
                        Ok(ls) => Ok(head + suite(block_text(ls), w)),
                    },
                }
            },
        },
        Statement::ReturnStatement { argument, .. } => match argument {
            None => Ok("return"@),
            Some(a) => match expr_out(src, a) {
                Err(x) => Err(x),
                Ok(t) => Ok("return "@ + t),
            },
        },
        Statement::VariableDeclarationStatement { id, init, .. } => match init {
            None => Err(ErrorView::Missing { context: "variable initializer"@ }),
            Some(e) => match expr_out(src, e) {
                Err(x) => Err(x),
                Ok(v) => Ok(id@ + " = "@ + v),
            },
        },
        Statement::WhileStatement { test, body, .. } => match expr_out(src, test) {
            Err(x) => Err(x),
            Ok(t) => match stmt_out(src, w, *body) {
                Err(x) => Err(x),
                Ok(b) => Ok("while "@ + t + ":\n"@ + suite(b, w)),
            },
        },
        Statement::ExpressionStatement { expression, .. } => expr_out(src, expression),
        Statement::ContinueStatement { .. } => Ok("continue"@),
        Statement::BreakStatement { .. } => Ok("break"@),
        Statement::Other { span, kind } => Err(unsupported(src, kind@, span)),
    }
}

/// The renderings of the non-empty statements of `ss`, in order; empty
/// statements are skipped and the first failure wins.
pub open spec fn lines_out(src: Seq<char>, w: nat, ss: Seq<Statement>) -> RenderedList
    decreases ss,
{
    if ss.len() == 0 {
        Ok(Seq::empty())
    } else {
        match lines_out(src, w, ss.drop_last()) {
            Err(x) => Err(x),
            Ok(prefix) => if ss.last() is EmptyStatement {
                Ok(prefix)
            } else {
                match stmt_out(src, w, ss.last()) {
                    Err(x) => Err(x),
                    Ok(t) => Ok(prefix.push(t)),
                }
            },
        }
    }
}

/// The rendering of a whole program with suites indented by `w`.
pub open spec fn program_out(w: nat, src: Seq<char>, body: Seq<Statement>) -> Rendered {
    match lines_out(src, w, body) {
        Err(x) => Err(x),
        Ok(ls) => Ok(block_text(ls)),
    }
}

} // verus!
