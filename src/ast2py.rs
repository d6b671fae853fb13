use vstd::prelude::*;
use vstd::string::*;
use vstd::utf8::*;

use crate::ast::{
    ArrayElement, AssignmentTarget, Expression, ObjectProperty, Program, PropertyKey, Span,
    Statement, UnaryOperator,
};
use crate::error::TranslateError;
use crate::model::{
    args_out, elements_out, expr_out, key_text, lines_out, params_text, program_out, props_out,
    slice_of, static_member_text, stmt_out, suite, target_out, unsupported, Rendered, RenderedList,
};
use crate::operators::{
    translate_assign_operator, translate_binary_operator, translate_logical_operator,
    translate_unary_operator,
};
use crate::text::{joined, make_indent, str_eq, trim_end, PlaceHolder};

verus! {

broadcast use {vstd::seq::group_seq_axioms, vstd::std_specs::vec::group_vec_axioms};

/// Whether an executable outcome is the rendering `m`.
pub open spec fn agrees(r: Result<String, TranslateError>, m: Rendered) -> bool {
    match m {
        Ok(t) => r matches Ok(s) && s@ == t,
        Err(x) => r matches Err(e) && e@ == x,
    }
}

/// Whether an executable outcome is the list `m` joined by `sep`.
pub open spec fn agrees_joined(
    r: Result<String, TranslateError>,
    m: RenderedList,
    sep: Seq<char>,
) -> bool {
    match m {
        Ok(ls) => r matches Ok(s) && s@ == joined(ls, sep),
        Err(x) => r matches Err(e) && e@ == x,
    }
}

/// The translation's output.
#[derive(Debug)]
pub struct Ast2PyReturn {
    pub code: String,
}

/// Translates a program tree into Python source text, nesting suites by a
/// configured number of spaces.
pub struct Ast2Py {
    source: String,
    indent: usize,
}

impl Default for Ast2Py {
    fn default() -> (r: Ast2Py)
        ensures
            r.indent_width() == 4,
            r.source_text() == Seq::<char>::empty(),
    {
        Ast2Py::new()
    }
}

proof fn lemma_prefix_boundary(bytes: Seq<u8>, end: int, start: int)
    requires
        valid_utf8(bytes),
        0 <= start <= end <= bytes.len(),
        is_char_boundary(bytes, start),
        is_char_boundary(bytes, end),
    ensures
        valid_utf8(bytes.subrange(0, end)),
        is_char_boundary(bytes.subrange(0, end), start),
{
    let a = bytes.subrange(0, end);
    valid_utf8_split(bytes, end);
    if start == end {
        is_char_boundary_start_end_of_seq(a);
        assert(a.len() == end);
    } else if start > 0 {
        is_char_boundary_iff_not_is_continuation_byte(bytes, start);
        is_char_boundary_iff_not_is_continuation_byte(a, start);
        assert(a[start] == bytes[start]);
    }
}

impl Ast2Py {
    /// The source text spans refer to.
    pub closed spec fn source_text(&self) -> Seq<char> {
        self.source@
    }

    /// The number of spaces a suite is nested by.
    pub closed spec fn indent_width(&self) -> nat {
        self.indent as nat
    }

    /// A translator with an indent of four spaces.
    pub fn new() -> (r: Ast2Py)
        ensures
            r.indent_width() == 4,
            r.source_text() == Seq::<char>::empty(),
    {
        Ast2Py { source: String::new(), indent: 4 }
    }

    /// The same translator with suites nested by `indent` spaces.
    pub fn with_indent(self, indent: usize) -> (r: Ast2Py)
        ensures
            r.indent_width() == indent,
            r.source_text() == self.source_text(),
    {
        Ast2Py { source: self.source, indent }
    }

    /// The source text `sp` covers, as `slice_of` gives it.
    fn source_of(&self, sp: Span) -> (r: String)
        ensures
            encode_utf8(r@) == slice_of(self.source@, sp),
    {
        let s = self.source.as_str();
        let ghost b = encode_utf8(s@);
        proof {
            encode_utf8_valid_utf8(s@);
        }
        if sp.start <= sp.end && sp.end <= s.as_bytes().len() && s.is_char_boundary(sp.start)
            && s.is_char_boundary(sp.end) {
            let (head, _) = s.split_at(sp.end);
            proof {
                lemma_prefix_boundary(b, sp.end as int, sp.start as int);
                assert(head.spec_bytes() == b.subrange(0, sp.end as int));
            }
            let (_, piece) = head.split_at(sp.start);
            assert(piece.spec_bytes() =~= b.subrange(sp.start as int, sp.end as int));
            let r = piece.to_owned();
            assert(encode_utf8(r@) == piece.spec_bytes());
            assert(slice_of(self.source@, sp) == b.subrange(sp.start as int, sp.end as int));
            r
        } else {
            assert(slice_of(self.source@, sp) == Seq::<u8>::empty());
            let r = String::new();
            assert(encode_utf8(r@) =~= Seq::<u8>::empty()) by {
                reveal_with_fuel(encode_utf8, 1);
            }
            r
        }
    }

    fn unsupported(&self, kind: &str, sp: Span) -> (r: TranslateError)
        ensures
            r@ == unsupported(self.source@, kind@, sp),
    {
        TranslateError::UnsupportedConstruct { kind: String::from_str(kind), source: self.source_of(sp) }
    }
}

proof fn lemma_args_prefix(src: Seq<char>, es: Seq<Expression>, i: int)
    requires
        0 <= i <= es.len(),
        args_out(src, es.subrange(0, i)) is Err,
    ensures
        args_out(src, es) == args_out(src, es.subrange(0, i)),
    decreases es.len() - i,
{
    if i < es.len() {
        assert(es.subrange(0, i + 1).drop_last() =~= es.subrange(0, i));
        lemma_args_prefix(src, es, i + 1);
    } else {
        assert(es.subrange(0, i) =~= es);
    }
}

proof fn lemma_elements_prefix(src: Seq<char>, es: Seq<ArrayElement>, i: int)
    requires
        0 <= i <= es.len(),
        elements_out(src, es.subrange(0, i)) is Err,
    ensures
        elements_out(src, es) == elements_out(src, es.subrange(0, i)),
    decreases es.len() - i,
{
    if i < es.len() {
        assert(es.subrange(0, i + 1).drop_last() =~= es.subrange(0, i));
        lemma_elements_prefix(src, es, i + 1);
    } else {
        assert(es.subrange(0, i) =~= es);
    }
}

proof fn lemma_props_prefix(src: Seq<char>, ps: Seq<ObjectProperty>, i: int)
    requires
        0 <= i <= ps.len(),
        props_out(src, ps.subrange(0, i)) is Err,
    ensures
        props_out(src, ps) == props_out(src, ps.subrange(0, i)),
    decreases ps.len() - i,
{
    if i < ps.len() {
        assert(ps.subrange(0, i + 1).drop_last() =~= ps.subrange(0, i));
        lemma_props_prefix(src, ps, i + 1);
    } else {
        assert(ps.subrange(0, i) =~= ps);
    }
}

proof fn lemma_lines_prefix(src: Seq<char>, w: nat, ss: Seq<Statement>, i: int)
    requires
        0 <= i <= ss.len(),
        lines_out(src, w, ss.subrange(0, i)) is Err,
    ensures
        lines_out(src, w, ss) == lines_out(src, w, ss.subrange(0, i)),
    decreases ss.len() - i,
{
    if i < ss.len() {
        assert(ss.subrange(0, i + 1).drop_last() =~= ss.subrange(0, i));
        lemma_lines_prefix(src, w, ss, i + 1);
    } else {
        assert(ss.subrange(0, i) =~= ss);
    }
}

/// A property access, with `length` read as a call of `len`.
fn static_member(object: String, property: &str) -> (r: String)
    ensures
        r@ == static_member_text(object@, property@),
{
    if str_eq(property, "length") {
        let mut r = String::from_str("len(");
        r.append(object.as_str());
        r.append(")");
        r
    } else {
        let mut r = object;
        r.append(".");
        r.append(property);
        r
    }
}

/// A property key: an identifier is quoted, a literal is kept.
fn key_out(key: &PropertyKey) -> (r: String)
    ensures
        r@ == key_text(*key),
{
    match key {
        PropertyKey::IdentifierName { name, .. } => {
            let mut r = String::from_str("\"");
            r.append(name.as_str());
            r.append("\"");
            r
        },
        PropertyKey::StringLiteral { value, .. } => value.clone(),
        PropertyKey::NumericLiteral { raw, .. } => raw.clone(),
    }
}

/// `l op r` with single spaces around the operator.
fn infix(l: String, op: &str, r: String) -> (out: String)
    ensures
        out@ == l@ + " "@ + op@ + " "@ + r@,
{
    let mut out = l;
    out.append(" ");
    out.append(op);
    out.append(" ");
    out.append(r.as_str());
    out
}

/// `pre`, then `mid`, then `post`.
fn wrap(pre: &str, mid: &str, post: &str) -> (r: String)
    ensures
        r@ == pre@ + mid@ + post@,
{
    let mut r = String::from_str(pre);
    r.append(mid);
    r.append(post);
    r
}

impl Ast2Py {
    fn translate_expression(&self, expr: &Expression) -> (r: Result<String, TranslateError>)
        ensures
            agrees(r, expr_out(self.source@, *expr)),
        decreases expr,
    {
        match expr {
            Expression::BooleanLiteral { value, .. } => Ok(
                String::from_str(
                    if *value {
                        "True"
                    } else {
                        "False"
                    },
                ),
            ),
            Expression::NumericLiteral { raw, .. } => Ok(raw.clone()),
            Expression::StringLiteral { value, .. } => Ok(value.clone()),
            Expression::Identifier { name, .. } => Ok(name.clone()),
            Expression::Unary { span, operator, argument } => {
                match translate_unary_operator(*operator) {
                    None => Err(self.unsupported("unary operator", *span)),
                    Some(o) => match self.translate_expression(argument) {
                        Err(e) => Err(e),
                        Ok(a) => {
                            if let UnaryOperator::LogicalNot = operator {
                                let mut r = String::from_str("(");
                                r.append(o);
                                r.append(a.as_str());
                                r.append(")");
                                Ok(r)
                            } else {
                                let mut r = String::from_str(o);
                                r.append(a.as_str());
                                Ok(r)
                            }
                        },
                    },
                }
            },
            Expression::Binary { span, left, operator, right } => {
                let l = match self.translate_expression(left) {
                    Err(e) => return Err(e),
                    Ok(l) => l,
                };
                let r = match self.translate_expression(right) {
                    Err(e) => return Err(e),
                    Ok(r) => r,
                };
                match translate_binary_operator(*operator) {
                    None => Err(self.unsupported("binary operator", *span)),
                    Some(o) => Ok(infix(l, o, r)),
                }
            },
            Expression::StaticMember { object, property, .. } => {
                match self.translate_expression(object) {
                    Err(e) => Err(e),
                    Ok(o) => Ok(static_member(o, property.as_str())),
                }
            },
            Expression::ComputedMember { object, expression, .. } => {
                let o = match self.translate_expression(object) {
                    Err(e) => return Err(e),
                    Ok(o) => o,
                };
                match self.translate_expression(expression) {
                    Err(e) => Err(e),
                    Ok(i) => {
                        let mut r = o;
                        r.append("[");
                        r.append(i.as_str());
                        r.append("]");
                        Ok(r)
                    },
                }
            },
            Expression::Array { elements, .. } => match self.translate_elements(elements) {
                Err(e) => Err(e),
                Ok(items) => Ok(wrap("[", items.as_str(), "]")),
            },
            Expression::Assignment { span, left, operator, right } => {
                let l = match self.translate_target(left) {
                    Err(e) => return Err(e),
                    Ok(l) => l,
                };
                match translate_assign_operator(*operator) {
                    None => Err(self.unsupported("assignment operator", *span)),
                    Some(o) => match self.translate_expression(right) {
                        Err(e) => Err(e),
                        Ok(r) => Ok(infix(l, o, r)),
                    },
                }
            },
            Expression::Object { properties, .. } => match self.translate_properties(properties) {
                Err(e) => Err(e),
                Ok(items) => Ok(wrap("{", items.as_str(), "}")),
            },
            Expression::Call { callee, arguments, .. } => {
                let c = match self.translate_expression(callee) {
                    Err(e) => return Err(e),
                    Ok(c) => c,
                };
                let a = match self.translate_arguments(arguments) {
                    Err(e) => return Err(e),
                    Ok(a) => a,
                };
                match &**callee {
                    Expression::StaticMember { object, property, .. } => {
                        let console = match &**object {
                            Expression::Identifier { name, .. } => str_eq(name.as_str(), "console"),
                            _ => false,
                        };
                        if console && str_eq(property.as_str(), "log") {
                            return Ok(wrap("print(", a.as_str(), ")"));
                        }
                        if str_eq(property.as_str(), "push") {
                            return match self.translate_expression(object) {
                                Err(e) => Err(e),
                                Ok(o) => Ok(wrap(o.as_str(), ".append(", a.as_str()).concat(")")),
                            };
                        }
                    },
                    Expression::Identifier { name, .. } => {
                        if str_eq(name.as_str(), "parseFloat") {
                            return Ok(wrap("float(", a.as_str(), ")"));
                        }
                    },
                    _ => {},
                }
                Ok(wrap(c.as_str(), "(", a.as_str()).concat(")"))
            },
            Expression::Logical { span, left, operator, right } => {
                let l = match self.translate_expression(left) {
                    Err(e) => return Err(e),
                    Ok(l) => l,
                };
                let r = match self.translate_expression(right) {
                    Err(e) => return Err(e),
                    Ok(r) => r,
                };
                match translate_logical_operator(*operator) {
                    None => Err(self.unsupported("logical operator", *span)),
                    Some(o) => Ok(infix(l, o, r)),
                }
            },
            Expression::NullLiteral { .. } => Ok(String::from_str("None")),
            Expression::Parenthesized { expression, .. } => {
                match self.translate_expression(expression) {
                    Err(e) => Err(e),
                    Ok(i) => Ok(wrap("(", i.as_str(), ")")),
                }
            },
            Expression::Other { span, kind } => Err(self.unsupported(kind.as_str(), *span)),
        }
    }

    fn translate_target(&self, target: &AssignmentTarget) -> (r: Result<String, TranslateError>)
        ensures
            agrees(r, target_out(self.source@, *target)),
        decreases target,
    {
        match target {
            AssignmentTarget::Identifier { name, .. } => Ok(name.clone()),
            AssignmentTarget::StaticMember { object, property, .. } => {
                match self.translate_expression(object) {
                    Err(e) => Err(e),
                    Ok(o) => Ok(static_member(o, property.as_str())),
                }
            },
            AssignmentTarget::ComputedMember { object, expression, .. } => {
                let o = match self.translate_expression(object) {
                    Err(e) => return Err(e),
                    Ok(o) => o,
                };
                match self.translate_expression(expression) {
                    Err(e) => Err(e),
                    Ok(i) => {
                        let mut r = o;
                        r.append("[");
                        r.append(i.as_str());
                        r.append("]");
                        Ok(r)
                    },
                }
            },
            AssignmentTarget::Other { kind, .. } => Err(
                TranslateError::InvalidAssignmentTarget { kind: kind.clone() },
            ),
        }
    }

    fn translate_arguments(&self, es: &Vec<Expression>) -> (r: Result<String, TranslateError>)
        ensures
            agrees_joined(r, args_out(self.source@, es@), ", "@),
        decreases es,
    {
        let ghost src = self.source@;
        let mut out = String::new();
        let mut i: usize = 0;
        assert(es@.subrange(0, 0) =~= Seq::<Expression>::empty());
        while i < es.len()
            invariant
                i <= es.len(),
                src == self.source@,
                args_out(src, es@.subrange(0, i as int)) is Ok,
                out@ == joined(args_out(src, es@.subrange(0, i as int))->Ok_0, ", "@),
            decreases es.len() - i,
        {
            let ghost prev = args_out(src, es@.subrange(0, i as int))->Ok_0;
            assert(es@.subrange(0, i + 1).drop_last() =~= es@.subrange(0, i as int));
            match self.translate_expression(&es[i]) {
                Err(e) => {
                    proof {
                        lemma_args_prefix(src, es@, i + 1);
                    }
                    return Err(e);
                },
                Ok(t) => {
                    proof {
                        crate::text::lemma_joined_push(prev, ", "@, t@);
                    }
                    if i > 0 {
                        out.append(", ");
                    }
                    out.append(t.as_str());
                },
            }
            i = i + 1;
        }
        assert(es@.subrange(0, es.len() as int) =~= es@);
        Ok(out)
    }

    fn translate_elements(&self, es: &Vec<ArrayElement>) -> (r: Result<String, TranslateError>)
        ensures
            agrees_joined(r, elements_out(self.source@, es@), ", "@),
        decreases es,
    {
        let ghost src = self.source@;
        let mut out = String::new();
        let mut i: usize = 0;
        assert(es@.subrange(0, 0) =~= Seq::<ArrayElement>::empty());
        while i < es.len()
            invariant
                i <= es.len(),
                src == self.source@,
                elements_out(src, es@.subrange(0, i as int)) is Ok,
                out@ == joined(elements_out(src, es@.subrange(0, i as int))->Ok_0, ", "@),
            decreases es.len() - i,
        {
            let ghost prev = elements_out(src, es@.subrange(0, i as int))->Ok_0;
            assert(es@.subrange(0, i + 1).drop_last() =~= es@.subrange(0, i as int));
            let t = match &es[i] {
                ArrayElement::Elision { .. } => String::from_str("None"),
                ArrayElement::Expression { expression } => match self.translate_expression(
                    expression,
                ) {
                    Err(e) => {
                        proof {
                            lemma_elements_prefix(src, es@, i + 1);
                        }
                        return Err(e);
                    },
                    Ok(t) => t,
                },
            };
            proof {
                crate::text::lemma_joined_push(prev, ", "@, t@);
            }
            if i > 0 {
                out.append(", ");
            }
            out.append(t.as_str());
            i = i + 1;
        }
        assert(es@.subrange(0, es.len() as int) =~= es@);
        Ok(out)
    }

    fn translate_properties(&self, ps: &Vec<ObjectProperty>) -> (r: Result<String, TranslateError>)
        ensures
            agrees_joined(r, props_out(self.source@, ps@), ", "@),
        decreases ps,
    {
        let ghost src = self.source@;
        let mut out = String::new();
        let mut i: usize = 0;
        assert(ps@.subrange(0, 0) =~= Seq::<ObjectProperty>::empty());
        while i < ps.len()
            invariant
                i <= ps.len(),
                src == self.source@,
                props_out(src, ps@.subrange(0, i as int)) is Ok,
                out@ == joined(props_out(src, ps@.subrange(0, i as int))->Ok_0, ", "@),
            decreases ps.len() - i,
        {
            let ghost prev = props_out(src, ps@.subrange(0, i as int))->Ok_0;
            assert(ps@.subrange(0, i + 1).drop_last() =~= ps@.subrange(0, i as int));
            let key = key_out(&ps[i].key);
            let t = match self.translate_expression(&ps[i].value) {
                Err(e) => {
                    proof {
                        lemma_props_prefix(src, ps@, i + 1);
                    }
                    return Err(e);
                },
                Ok(v) => wrap(key.as_str(), ": ", v.as_str()),
            };
            proof {
                crate::text::lemma_joined_push(prev, ", "@, t@);
            }
            if i > 0 {
                out.append(", ");
            }
            out.append(t.as_str());
            i = i + 1;
        }
        assert(ps@.subrange(0, ps.len() as int) =~= ps@);
        Ok(out)
    }
}

/// Whether an outcome of `build` is the rendering `m`.
pub open spec fn agrees_return(r: Result<Ast2PyReturn, TranslateError>, m: Rendered) -> bool {
    match m {
        Ok(t) => r matches Ok(o) && o.code@ == t,
        Err(x) => r matches Err(e) && e@ == x,
    }
}

impl Ast2Py {
    /// Translates a whole program: its non-empty statements one per line,
    /// trailing whitespace removed. The first unsupported or incomplete node
    /// met in a depth-first walk makes the result that node's error.
    pub fn build(self, p: &Program) -> (r: Result<Ast2PyReturn, TranslateError>)
        ensures
            agrees_return(r, program_out(self.indent_width(), p.source_text@, p.body@)),
    {
        let t = Ast2Py { source: p.source_text.clone(), indent: self.indent };
        match t.translate_statements(&p.body) {
            Err(e) => Err(e),
            Ok(code) => Ok(Ast2PyReturn { code }),
        }
    }

    /// The body, or `pass` where it is empty, indented one level.
    fn suite_of(&self, body: String) -> (r: String)
        ensures
            r@ == suite(body@, self.indent as nat),
    {
        let b = body.with_placeholder("pass");
        make_indent(b.as_str(), self.indent)
    }

    fn translate_statements(&self, ss: &Vec<Statement>) -> (r: Result<String, TranslateError>)
        ensures
            agrees(r, program_out(self.indent as nat, self.source@, ss@)),
        decreases ss,
    {
        let ghost src = self.source@;
        let ghost w = self.indent as nat;
        let mut out = String::new();
        let mut count: usize = 0;
        let mut i: usize = 0;
        assert(ss@.subrange(0, 0) =~= Seq::<Statement>::empty());
        while i < ss.len()
            invariant
                i <= ss.len(),
                src == self.source@,
                w == self.indent as nat,
                lines_out(src, w, ss@.subrange(0, i as int)) is Ok,
                out@ == joined(lines_out(src, w, ss@.subrange(0, i as int))->Ok_0, "\n"@),
                count == lines_out(src, w, ss@.subrange(0, i as int))->Ok_0.len(),
                count <= i,
            decreases ss.len() - i,
        {
            let ghost prev = lines_out(src, w, ss@.subrange(0, i as int))->Ok_0;
            assert(ss@.subrange(0, i + 1).drop_last() =~= ss@.subrange(0, i as int));
            if let Statement::EmptyStatement { .. } = &ss[i] {
            } else {
                match self.translate_statement(&ss[i]) {
                    Err(e) => {
                        proof {
                            lemma_lines_prefix(src, w, ss@, i + 1);
                        }
                        return Err(e);
                    },
                    Ok(t) => {
                        proof {
                            crate::text::lemma_joined_push(prev, "\n"@, t@);
                        }
                        if count > 0 {
                            out.append("\n");
                        }
                        out.append(t.as_str());
                        count = count + 1;
                    },
                }
            }
            i = i + 1;
        }
        assert(ss@.subrange(0, ss.len() as int) =~= ss@);
        Ok(trim_end(out.as_str()))
    }

    fn translate_statement(&self, stmt: &Statement) -> (r: Result<String, TranslateError>)
        ensures
            agrees(r, stmt_out(self.source@, self.indent as nat, *stmt)),
        decreases stmt,
    {
        match stmt {
            Statement::BlockStatement { body, .. } => self.translate_statements(body),
            Statement::IfStatement { test, consequent, alternate, .. } => {
                let t = match self.translate_expression(test) {
                    Err(e) => return Err(e),
                    Ok(t) => t,
                };
                let c = match self.translate_statement(consequent) {
                    Err(e) => return Err(e),
                    Ok(c) => c,
                };
                let mut r = wrap("if ", t.as_str(), ":\n");
                r.append(self.suite_of(c).as_str());
                match alternate {
                    None => Ok(r),
                    Some(alt) => match self.translate_statement(alt) {
                        Err(e) => Err(e),
                        Ok(a) => {
                            r.append("\nelse:\n");
                            r.append(self.suite_of(a).as_str());
                            Ok(r)
                        },
                    },
                }
            },
            Statement::EmptyStatement { .. } => Ok(String::new()),
            Statement::FunctionDeclaration { id, params, body, .. } => {
                let name = match id {
                    None => {
                        return Err(
                            TranslateError::MissingRequiredOperand {
                                context: String::from_str("function name"),
                            },
                        )
                    },
                    Some(name) => name,
                };
                let mut head = wrap("def ", name.as_str(), "(");
                head.append(join_params(params).as_str());
                head.append("):\n");
                let b = match body {
                    None => String::new(),
                    Some(b) => match self.translate_statements(b) {
                        Err(e) => return Err(e),
                        Ok(b) => b,
                    },
                };
                head.append(self.suite_of(b).as_str());
                Ok(head)
            },
            Statement::ReturnStatement { argument, .. } => match argument {
                None => Ok(String::from_str("return")),
                Some(a) => match self.translate_expression(a) {
                    Err(e) => Err(e),
                    Ok(t) => Ok(String::from_str("return ").concat(t.as_str())),
                },
            },
            Statement::VariableDeclarationStatement { id, init, .. } => match init {
                None => Err(
                    TranslateError::MissingRequiredOperand {
                        context: String::from_str("variable initializer"),
                    },
                ),
                Some(e) => match self.translate_expression(e) {
                    Err(x) => Err(x),
                    Ok(v) => Ok(wrap(id.as_str(), " = ", v.as_str())),
                },
            },
            Statement::WhileStatement { test, body, .. } => {
                let t = match self.translate_expression(test) {
                    Err(e) => return Err(e),
                    Ok(t) => t,
                };
                match self.translate_statement(body) {
                    Err(e) => Err(e),
                    Ok(b) => {
                        let mut r = wrap("while ", t.as_str(), ":\n");
                        r.append(self.suite_of(b).as_str());
                        Ok(r)
                    },
                }
            },
            Statement::ExpressionStatement { expression, .. } => self.translate_expression(
                expression,
            ),
            Statement::ContinueStatement { .. } => Ok(String::from_str("continue")),
            Statement::BreakStatement { .. } => Ok(String::from_str("break")),
            Statement::Other { span, kind } => Err(self.unsupported(kind.as_str(), *span)),
        }
    }
}

/// The parameter names, comma separated.
fn join_params(params: &Vec<String>) -> (r: String)
    ensures
        r@ == params_text(params@),
{
    let mut out = String::new();
    let mut i: usize = 0;
    assert(params@.subrange(0, 0).map_values(|p: String| p@) =~= Seq::<Seq<char>>::empty());
    while i < params.len()
        invariant
            i <= params.len(),
            out@ == joined(params@.subrange(0, i as int).map_values(|p: String| p@), ", "@),
        decreases params.len() - i,
    {
        let ghost prev = params@.subrange(0, i as int).map_values(|p: String| p@);
        assert(params@.subrange(0, i + 1).map_values(|p: String| p@) =~= prev.push(params@[i as int]@));
        proof {
            crate::text::lemma_joined_push(prev, ", "@, params@[i as int]@);
        }
        if i > 0 {
            out.append(", ");
        }
        out.append(params[i].as_str());
        i = i + 1;
    }
    assert(params@.subrange(0, params.len() as int) =~= params@);
    out
}

} // verus!
