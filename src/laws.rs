use vstd::prelude::*;

use crate::ast::{ArrayElement, Expression, Span, Statement, UnaryOperator};
use crate::ast2py::{agrees_return, Ast2PyReturn};
use crate::error::TranslateError;
use crate::model::{elements_out, expr_out, lines_out, program_out, stmt_out, suite};
use crate::text::{indent_rest, spaces};

verus! {

/// Not a statement: skipped when a sequence of statements is rendered.
pub open spec fn is_not_empty(s: Statement) -> bool {
    !(s is EmptyStatement)
}

/// Translation is a function of the indent width and the tree: any two
/// outcomes that `build` may give for the same width and program are equal.
pub proof fn translation_is_deterministic(
    w: nat,
    src: Seq<char>,
    body: Seq<Statement>,
    r1: Result<Ast2PyReturn, TranslateError>,
    r2: Result<Ast2PyReturn, TranslateError>,
)
    requires
        agrees_return(r1, program_out(w, src, body)),
        agrees_return(r2, program_out(w, src, body)),
    ensures
        r1 is Ok <==> r2 is Ok,
        r1 is Ok ==> r1->Ok_0.code@ == r2->Ok_0.code@,
        r1 is Err ==> r1->Err_0@ == r2->Err_0@,
{
}

/// A body that renders empty becomes exactly the placeholder `pass`,
/// indented by the configured width.
pub proof fn empty_suite_is_placeholder(w: nat)
    ensures
        suite(Seq::empty(), w) == spaces(w) + "pass"@,
{
    reveal_strlit("pass");
    let s1 = seq!['p'];
    let s2 = seq!['p', 'a'];
    let s3 = seq!['p', 'a', 's'];
    let s4 = seq!['p', 'a', 's', 's'];
    assert("pass"@ =~= s4);
    assert(s1.drop_last() =~= Seq::<char>::empty());
    assert(s2.drop_last() =~= s1);
    assert(s3.drop_last() =~= s2);
    assert(s4.drop_last() =~= s3);
    assert(indent_rest(s1.drop_last(), w) =~= Seq::<char>::empty());
    assert(indent_rest(s1, w) =~= s1);
    assert(indent_rest(s2, w) =~= s2);
    assert(indent_rest(s3, w) =~= s3);
    assert(indent_rest(s4, w) =~= s4);
}

/// A `while` whose body renders empty has the suite `pass` at width `w`.
pub proof fn empty_while_body_is_placeholder(
    src: Seq<char>,
    w: nat,
    span: Span,
    test: Expression,
    body: Box<Statement>,
)
    requires
        expr_out(src, test) is Ok,
        stmt_out(src, w, *body) == Ok::<Seq<char>, crate::error::ErrorView>(Seq::empty()),
    ensures
        stmt_out(src, w, Statement::WhileStatement { span, test, body }) == Ok::<
            Seq<char>,
            crate::error::ErrorView,
        >("while "@ + expr_out(src, test)->Ok_0 + ":\n"@ + spaces(w) + "pass"@),
{
    empty_suite_is_placeholder(w);
    let head = "while "@ + expr_out(src, test)->Ok_0 + ":\n"@;
    assert(head + suite(Seq::empty(), w) =~= head + spaces(w) + "pass"@);
}

/// A function with no statements in its body has the suite `pass` at width `w`.
pub proof fn empty_function_body_is_placeholder(
    src: Seq<char>,
    w: nat,
    span: Span,
    name: String,
    params: Vec<String>,
    body: Option<Vec<Statement>>,
)
    requires
        body is None || body->Some_0@.len() == 0,
    ensures
        stmt_out(
            src,
            w,
            Statement::FunctionDeclaration { span, id: Some(name), params, body },
        ) == Ok::<Seq<char>, crate::error::ErrorView>(
            "def "@ + name@ + "("@ + crate::model::params_text(params@) + "):\n"@ + spaces(w)
                + "pass"@,
        ),
{
    empty_suite_is_placeholder(w);
    if body is Some {
        assert(lines_out(src, w, body->Some_0@) == Ok::<
            Seq<Seq<char>>,
            crate::error::ErrorView,
        >(Seq::empty()));
        reveal_strlit("\n");
        assert(crate::model::block_text(Seq::empty()) =~= Seq::<char>::empty());
    }
    let head = "def "@ + name@ + "("@ + crate::model::params_text(params@) + "):\n"@;
    assert(head + suite(Seq::empty(), w) =~= head + spaces(w) + "pass"@);
}

/// Logical negation renders inside exactly one pair of parentheses:
/// `!x` becomes `(not x)`.
pub proof fn logical_not_is_parenthesized(src: Seq<char>, span: Span, argument: Box<Expression>)
    requires
        expr_out(src, *argument) is Ok,
    ensures
        expr_out(
            src,
            Expression::Unary { span, operator: UnaryOperator::LogicalNot, argument },
        ) == Ok::<Seq<char>, crate::error::ErrorView>(
            "("@ + "not "@ + expr_out(src, *argument)->Ok_0 + ")"@,
        ),
{
}

/// Reading `length` of an object renders as `len(<object>)`.
pub proof fn length_is_len_call(src: Seq<char>, span: Span, object: Box<Expression>, property: String)
    requires
        property@ == "length"@,
        expr_out(src, *object) is Ok,
    ensures
        expr_out(src, Expression::StaticMember { span, object, property }) == Ok::<
            Seq<char>,
            crate::error::ErrorView,
        >("len("@ + expr_out(src, *object)->Ok_0 + ")"@),
{
}

/// Each hole of an array literal renders as `None` at its own position, and
/// every slot keeps its position.
pub proof fn elisions_render_none(src: Seq<char>, es: Seq<ArrayElement>)
    requires
        elements_out(src, es) is Ok,
    ensures
        elements_out(src, es)->Ok_0.len() == es.len(),
        forall|i: int|
            0 <= i < es.len() && (#[trigger] es[i]) is Elision ==> elements_out(src, es)->Ok_0[i]
                == "None"@,
    decreases es.len(),
{
    if es.len() > 0 {
        elisions_render_none(src, es.drop_last());
        let prefix = elements_out(src, es.drop_last())->Ok_0;
        assert forall|i: int| 0 <= i < es.len() && (#[trigger] es[i]) is Elision implies elements_out(
            src,
            es,
        )->Ok_0[i] == "None"@ by {
            if i < es.len() - 1 {
                assert(es.drop_last()[i] == es[i]);
            }
        }
    }
}

/// Empty statements add no line: a sequence renders as it does with all of
/// them taken out, so none leaves a blank line between its neighbours.
pub proof fn empty_statements_vanish(src: Seq<char>, w: nat, ss: Seq<Statement>)
    ensures
        lines_out(src, w, ss) == lines_out(src, w, ss.filter(|s: Statement| is_not_empty(s))),
        program_out(w, src, ss) == program_out(
            w,
            src,
            ss.filter(|s: Statement| is_not_empty(s)),
        ),
    decreases ss.len(),
{
    let f = |s: Statement| is_not_empty(s);
    reveal_with_fuel(Seq::<Statement>::filter, 1);
    if ss.len() > 0 {
        empty_statements_vanish(src, w, ss.drop_last());
        let g = ss.drop_last().filter(f);
        if !f(ss.last()) {
            assert(ss.filter(f) == g);
        } else {
            assert(ss.filter(f) == g.push(ss.last()));
            assert(g.push(ss.last()).drop_last() =~= g);
        }
    } else {
        assert(ss.filter(f) =~= ss);
    }
}

} // verus!
