use js2py_translator::ast::{
    ArrayElement, AssignmentOperator, AssignmentTarget, BinaryOperator, Expression,
    LogicalOperator, ObjectProperty, Program, PropertyKey, Span, Statement, UnaryOperator,
};
use js2py_translator::error::TranslateError;
use js2py_translator::operators::{translate_assign_operator, translate_binary_operator};
use js2py_translator::{make_indent, Ast2Py, PlaceHolder};

fn sp(start: usize, end: usize) -> Span {
    Span::new(start, end)
}

fn ident(name: &str, start: usize) -> Expression {
    Expression::Identifier { span: sp(start, start + name.len()), name: name.to_string() }
}

fn num(raw: &str, start: usize) -> Expression {
    Expression::NumericLiteral { span: sp(start, start + raw.len()), raw: raw.to_string() }
}

fn expr_stmt(expression: Expression, start: usize, end: usize) -> Statement {
    Statement::ExpressionStatement { span: sp(start, end), expression }
}

fn run(translator: Ast2Py, source: &str, body: Vec<Statement>) -> Result<String, TranslateError> {
    let program = Program { source_text: source.to_string(), body };
    translator.build(&program).map(|r| r.code)
}

fn translate(source: &str, body: Vec<Statement>) -> Result<String, TranslateError> {
    run(Ast2Py::new(), source, body)
}

fn translate_expr(source: &str, e: Expression) -> Result<String, TranslateError> {
    let end = source.len();
    translate(source, vec![expr_stmt(e, 0, end)])
}

fn binary(l: Expression, op: BinaryOperator, r: Expression, start: usize, end: usize) -> Expression {
    Expression::Binary { span: sp(start, end), left: Box::new(l), operator: op, right: Box::new(r) }
}

fn member(object: Expression, property: &str, start: usize, end: usize) -> Expression {
    Expression::StaticMember {
        span: sp(start, end),
        object: Box::new(object),
        property: property.to_string(),
    }
}

fn call(callee: Expression, arguments: Vec<Expression>, start: usize, end: usize) -> Expression {
    Expression::Call { span: sp(start, end), callee: Box::new(callee), arguments }
}

fn unsupported(kind: &str, source: &str) -> TranslateError {
    TranslateError::UnsupportedConstruct { kind: kind.to_string(), source: source.to_string() }
}

fn assert_unsupported(r: Result<String, TranslateError>, kind: &str, source: &str) {
    match r {
        Err(TranslateError::UnsupportedConstruct { kind: k, source: s }) => {
            assert_eq!(k, kind);
            assert_eq!(s, source);
        }
        other => panic!("expected {:?}, got {:?}", unsupported(kind, source), other),
    }
}

#[test]
fn logical_not_is_wrapped_once() {
    let e = Expression::Unary {
        span: sp(0, 2),
        operator: UnaryOperator::LogicalNot,
        argument: Box::new(ident("a", 1)),
    };
    assert_eq!(translate_expr("!a", e).unwrap(), "(not a)");
}

#[test]
fn double_negation_nests_parentheses() {
    let inner = Expression::Unary {
        span: sp(1, 3),
        operator: UnaryOperator::LogicalNot,
        argument: Box::new(ident("a", 2)),
    };
    let e = Expression::Unary {
        span: sp(0, 3),
        operator: UnaryOperator::LogicalNot,
        argument: Box::new(inner),
    };
    assert_eq!(translate_expr("!!a", e).unwrap(), "(not (not a))");
}

#[test]
fn other_unary_operators() {
    let neg = Expression::Unary {
        span: sp(0, 2),
        operator: UnaryOperator::UnaryNegation,
        argument: Box::new(ident("x", 1)),
    };
    assert_eq!(translate_expr("-x", neg).unwrap(), "0x");
    let plus = Expression::Unary {
        span: sp(0, 2),
        operator: UnaryOperator::UnaryPlus,
        argument: Box::new(ident("x", 1)),
    };
    assert_eq!(translate_expr("+x", plus).unwrap(), "+x");
    let not = Expression::Unary {
        span: sp(0, 2),
        operator: UnaryOperator::BitwiseNot,
        argument: Box::new(ident("x", 1)),
    };
    assert_eq!(translate_expr("~x", not).unwrap(), "~x");
}

#[test]
fn length_becomes_len_call() {
    let e = member(ident("a", 0), "length", 0, 8);
    assert_eq!(translate_expr("a.length", e).unwrap(), "len(a)");
    let e = member(member(ident("a", 0), "b", 0, 3), "length", 0, 10);
    assert_eq!(translate_expr("a.b.length", e).unwrap(), "len(a.b)");
}

#[test]
fn other_property_is_kept() {
    let e = member(ident("a", 0), "size", 0, 6);
    assert_eq!(translate_expr("a.size", e).unwrap(), "a.size");
}

#[test]
fn elisions_become_none_in_place() {
    let e = Expression::Array {
        span: sp(0, 9),
        elements: vec![
            ArrayElement::Expression { expression: num("1", 1) },
            ArrayElement::Elision { span: sp(4, 4) },
            ArrayElement::Expression { expression: num("3", 7) },
        ],
    };
    assert_eq!(translate_expr("[1, , 3]", e).unwrap(), "[1, None, 3]");
    let e = Expression::Array {
        span: sp(0, 4),
        elements: vec![ArrayElement::Elision { span: sp(1, 1) }, ArrayElement::Elision { span: sp(2, 2) }],
    };
    assert_eq!(translate_expr("[,,]", e).unwrap(), "[None, None]");
    let e = Expression::Array { span: sp(0, 2), elements: vec![] };
    assert_eq!(translate_expr("[]", e).unwrap(), "[]");
}

#[test]
fn empty_statements_add_no_lines() {
    let source = "a;;;b";
    let body = vec![
        expr_stmt(ident("a", 0), 0, 2),
        Statement::EmptyStatement { span: sp(2, 3) },
        Statement::EmptyStatement { span: sp(3, 4) },
        expr_stmt(ident("b", 4), 4, 5),
    ];
    assert_eq!(translate(source, body).unwrap(), "a\nb");
    let body = vec![Statement::EmptyStatement { span: sp(0, 1) }];
    assert_eq!(translate(";", body).unwrap(), "");
}

#[test]
fn empty_block_leaves_no_trailing_line() {
    let source = "a; {}";
    let body = vec![
        expr_stmt(ident("a", 0), 0, 2),
        Statement::BlockStatement { span: sp(3, 5), body: vec![] },
    ];
    assert_eq!(translate(source, body).unwrap(), "a");
}

#[test]
fn console_log_becomes_print() {
    let e = call(member(ident("console", 0), "log", 0, 11), vec![num("1", 12), num("2", 15)], 0, 17);
    assert_eq!(translate_expr("console.log(1, 2)", e).unwrap(), "print(1, 2)");
}

#[test]
fn log_on_other_receiver_is_kept() {
    let e = call(member(ident("foo", 0), "log", 0, 7), vec![ident("x", 8)], 0, 10);
    assert_eq!(translate_expr("foo.log(x)", e).unwrap(), "foo.log(x)");
}

#[test]
fn push_becomes_append() {
    let e = call(member(ident("arr", 0), "push", 0, 8), vec![num("1", 9)], 0, 11);
    assert_eq!(translate_expr("arr.push(1)", e).unwrap(), "arr.append(1)");
}

#[test]
fn parse_float_becomes_float() {
    let e = call(ident("parseFloat", 0), vec![ident("s", 11)], 0, 13);
    assert_eq!(translate_expr("parseFloat(s)", e).unwrap(), "float(s)");
}

#[test]
fn plain_call() {
    let e = call(ident("f", 0), vec![ident("a", 2), ident("b", 5)], 0, 7);
    assert_eq!(translate_expr("f(a, b)", e).unwrap(), "f(a, b)");
    let e = call(ident("g", 0), vec![], 0, 3);
    assert_eq!(translate_expr("g()", e).unwrap(), "g()");
}

#[test]
fn object_keys() {
    let e = Expression::Object {
        span: sp(0, 22),
        properties: vec![
            ObjectProperty {
                span: sp(1, 5),
                key: PropertyKey::IdentifierName { span: sp(1, 2), name: "a".to_string() },
                value: num("1", 4),
            },
            ObjectProperty {
                span: sp(7, 13),
                key: PropertyKey::StringLiteral { span: sp(7, 10), value: "\"b\"".to_string() },
                value: num("2", 12),
            },
            ObjectProperty {
                span: sp(15, 19),
                key: PropertyKey::NumericLiteral { span: sp(15, 16), raw: "3".to_string() },
                value: Expression::NullLiteral { span: sp(18, 22) },
            },
        ],
    };
    assert_eq!(
        translate_expr("{a: 1, \"b\": 2, 3: null}", e).unwrap(),
        "{\"a\": 1, \"b\": 2, 3: None}"
    );
}

#[test]
fn binary_operator_table() {
    let cases = [
        (BinaryOperator::StrictEquality, "a === b", "a is b"),
        (BinaryOperator::StrictInequality, "a !== b", "a is not b"),
        (BinaryOperator::Equality, "a == b", "a == b"),
        (BinaryOperator::Inequality, "a != b", "a != b"),
        (BinaryOperator::LessEqualThan, "a <= b", "a <= b"),
        (BinaryOperator::ShiftRight, "a >> b", "a >> b"),
        (BinaryOperator::Remainder, "a % b", "a % b"),
    ];
    for (op, source, expected) in cases {
        let end = source.len();
        let e = binary(ident("a", 0), op, ident("b", end - 1), 0, end);
        assert_eq!(translate_expr(source, e).unwrap(), expected);
    }
    assert_eq!(translate_binary_operator(BinaryOperator::BitwiseXOR), Some("^"));
    assert_eq!(translate_binary_operator(BinaryOperator::In), None);
}

#[test]
fn binary_without_precedence_parentheses() {
    let product = binary(num("2", 4), BinaryOperator::Multiplication, num("3", 8), 4, 9);
    let e = binary(num("1", 0), BinaryOperator::Addition, product, 0, 9);
    assert_eq!(translate_expr("1 + 2 * 3", e).unwrap(), "1 + 2 * 3");
}

#[test]
fn logical_operators() {
    let and = Expression::Logical {
        span: sp(0, 6),
        left: Box::new(ident("a", 0)),
        operator: LogicalOperator::And,
        right: Box::new(ident("b", 5)),
    };
    let e = Expression::Logical {
        span: sp(0, 11),
        left: Box::new(and),
        operator: LogicalOperator::Or,
        right: Box::new(ident("c", 10)),
    };
    assert_eq!(translate_expr("a && b || c", e).unwrap(), "a and b or c");
}

#[test]
fn literals() {
    let e = Expression::BooleanLiteral { span: sp(0, 5), value: false };
    assert_eq!(translate_expr("false", e).unwrap(), "False");
    let e = Expression::NullLiteral { span: sp(0, 4) };
    assert_eq!(translate_expr("null", e).unwrap(), "None");
    let e = Expression::StringLiteral { span: sp(0, 4), value: "'hi'".to_string() };
    assert_eq!(translate_expr("'hi'", e).unwrap(), "'hi'");
    assert_eq!(translate_expr("2.5", num("2.5", 0)).unwrap(), "2.5");
}

#[test]
fn assignments() {
    let e = Expression::Assignment {
        span: sp(0, 6),
        left: AssignmentTarget::Identifier { span: sp(0, 1), name: "a".to_string() },
        operator: AssignmentOperator::Addition,
        right: Box::new(num("1", 5)),
    };
    assert_eq!(translate_expr("a += 1", e).unwrap(), "a += 1");
    let e = Expression::Assignment {
        span: sp(0, 7),
        left: AssignmentTarget::StaticMember {
            span: sp(0, 3),
            object: Box::new(ident("a", 0)),
            property: "b".to_string(),
        },
        operator: AssignmentOperator::Assign,
        right: Box::new(ident("c", 6)),
    };
    assert_eq!(translate_expr("a.b = c", e).unwrap(), "a.b = c");
    let e = Expression::Assignment {
        span: sp(0, 8),
        left: AssignmentTarget::ComputedMember {
            span: sp(0, 4),
            object: Box::new(ident("a", 0)),
            expression: Box::new(num("0", 2)),
        },
        operator: AssignmentOperator::Exponential,
        right: Box::new(num("1", 8)),
    };
    assert_eq!(translate_expr("a[0] **= 1", e).unwrap(), "a[0] **= 1");
    assert_eq!(translate_assign_operator(AssignmentOperator::ShiftLeft), Some("<<="));
}

#[test]
fn computed_member() {
    let e = Expression::ComputedMember {
        span: sp(0, 4),
        object: Box::new(ident("a", 0)),
        expression: Box::new(ident("i", 2)),
    };
    assert_eq!(translate_expr("a[i]", e).unwrap(), "a[i]");
}

#[test]
fn simple_statements() {
    let source = "var x = 1; return x; continue; break;";
    let body = vec![
        Statement::VariableDeclarationStatement {
            span: sp(0, 10),
            id: "x".to_string(),
            init: Some(num("1", 8)),
        },
        Statement::ReturnStatement { span: sp(11, 20), argument: Some(ident("x", 18)) },
        Statement::ContinueStatement { span: sp(21, 30) },
        Statement::BreakStatement { span: sp(31, 37) },
    ];
    assert_eq!(translate(source, body).unwrap(), "x = 1\nreturn x\ncontinue\nbreak");
}

#[test]
fn function_with_parameters() {
    let source = "function add(a, b) { return a + b; }";
    let sum = binary(ident("a", 28), BinaryOperator::Addition, ident("b", 32), 28, 33);
    let body = vec![Statement::FunctionDeclaration {
        span: sp(0, 36),
        id: Some("add".to_string()),
        params: vec!["a".to_string(), "b".to_string()],
        body: Some(vec![Statement::ReturnStatement { span: sp(21, 34), argument: Some(sum) }]),
    }];
    assert_eq!(translate(source, body).unwrap(), "def add(a, b):\n    return a + b");
}

#[test]
fn custom_indent_width() {
    let source = "if (a) b";
    let body = vec![Statement::IfStatement {
        span: sp(0, 8),
        test: ident("a", 4),
        consequent: Box::new(expr_stmt(ident("b", 7), 7, 8)),
        alternate: None,
    }];
    assert_eq!(run(Ast2Py::new().with_indent(2), source, body).unwrap(), "if a:\n  b");
}

#[test]
fn nested_suites_indent_every_line() {
    let source = "while (a) { b; if (c) {} }";
    let inner_if = Statement::IfStatement {
        span: sp(15, 24),
        test: ident("c", 19),
        consequent: Box::new(Statement::BlockStatement { span: sp(22, 24), body: vec![] }),
        alternate: None,
    };
    let body = vec![Statement::WhileStatement {
        span: sp(0, 26),
        test: ident("a", 7),
        body: Box::new(Statement::BlockStatement {
            span: sp(10, 26),
            body: vec![expr_stmt(ident("b", 12), 12, 14), inner_if],
        }),
    }];
    assert_eq!(translate(source, body).unwrap(), "while a:\n    b\n    if c:\n        pass");
}

#[test]
fn unsupported_binary_operator_reports_source() {
    let e = binary(ident("a", 0), BinaryOperator::Exponential, ident("b", 5), 0, 6);
    assert_unsupported(translate_expr("a ** b", e), "binary operator", "a ** b");
}

#[test]
fn unsupported_logical_operator() {
    let e = Expression::Logical {
        span: sp(0, 6),
        left: Box::new(ident("a", 0)),
        operator: LogicalOperator::Coalesce,
        right: Box::new(ident("b", 5)),
    };
    assert_unsupported(translate_expr("a ?? b", e), "logical operator", "a ?? b");
}

#[test]
fn unsupported_unary_operator() {
    let e = Expression::Unary {
        span: sp(0, 8),
        operator: UnaryOperator::Typeof,
        argument: Box::new(ident("a", 7)),
    };
    assert_unsupported(translate_expr("typeof a", e), "unary operator", "typeof a");
}

#[test]
fn unsupported_assignment_operator() {
    let e = Expression::Assignment {
        span: sp(0, 7),
        left: AssignmentTarget::Identifier { span: sp(0, 1), name: "a".to_string() },
        operator: AssignmentOperator::LogicalNullish,
        right: Box::new(ident("b", 6)),
    };
    assert_unsupported(translate_expr("a ??= b", e), "assignment operator", "a ??= b");
}

#[test]
fn unsupported_statement_kind() {
    let source = "x; for(;;){}";
    let body = vec![
        expr_stmt(ident("x", 0), 0, 2),
        Statement::Other { span: sp(3, 12), kind: "ForStatement".to_string() },
    ];
    assert_unsupported(translate(source, body), "ForStatement", "for(;;){}");
}

#[test]
fn unsupported_expression_kind_with_multibyte_source() {
    let source = "é = `t`";
    let e = Expression::Other { span: sp(5, 8), kind: "TemplateLiteral".to_string() };
    assert_unsupported(translate(source, vec![expr_stmt(e, 0, 8)]), "TemplateLiteral", "`t`");
    let e = Expression::Other { span: sp(1, 8), kind: "TemplateLiteral".to_string() };
    assert_unsupported(translate(source, vec![expr_stmt(e, 0, 8)]), "TemplateLiteral", "");
}

#[test]
fn first_error_wins() {
    let left = Expression::Other { span: sp(0, 1), kind: "Left".to_string() };
    let right = Expression::Other { span: sp(4, 5), kind: "Right".to_string() };
    let e = binary(left, BinaryOperator::Addition, right, 0, 5);
    assert_unsupported(translate_expr("L + R", e), "Left", "L");
}

#[test]
fn anonymous_function_is_missing_name() {
    let body = vec![Statement::FunctionDeclaration {
        span: sp(0, 13),
        id: None,
        params: vec![],
        body: Some(vec![]),
    }];
    match translate("function() {}", body) {
        Err(TranslateError::MissingRequiredOperand { context }) => assert_eq!(context, "function name"),
        other => panic!("unexpected {:?}", other),
    }
}

#[test]
fn declaration_without_initializer() {
    let body = vec![Statement::VariableDeclarationStatement {
        span: sp(0, 6),
        id: "x".to_string(),
        init: None,
    }];
    match translate("var x;", body) {
        Err(TranslateError::MissingRequiredOperand { context }) => {
            assert_eq!(context, "variable initializer")
        }
        other => panic!("unexpected {:?}", other),
    }
}

#[test]
fn invalid_assignment_target() {
    let e = Expression::Assignment {
        span: sp(0, 9),
        left: AssignmentTarget::Other { span: sp(0, 5), kind: "ArrayPattern".to_string() },
        operator: AssignmentOperator::Assign,
        right: Box::new(ident("c", 8)),
    };
    match translate_expr("[a,b] = c", e) {
        Err(TranslateError::InvalidAssignmentTarget { kind }) => assert_eq!(kind, "ArrayPattern"),
        other => panic!("unexpected {:?}", other),
    }
}

#[test]
fn translation_is_repeatable() {
    let make = || {
        vec![Statement::WhileStatement {
            span: sp(0, 13),
            test: Expression::BooleanLiteral { span: sp(7, 11), value: true },
            body: Box::new(Statement::EmptyStatement { span: sp(12, 13) }),
        }]
    };
    let program = Program { source_text: "while (true);".to_string(), body: make() };
    let first = Ast2Py::default().build(&program).unwrap().code;
    let second = Ast2Py::default().build(&program).unwrap().code;
    assert_eq!(first, second);
    assert_eq!(first, "while True:\n    pass");
}

#[test]
fn make_indent_prefixes_every_line() {
    assert_eq!(make_indent("a\n\nb", 2), "  a\n  \n  b");
    assert_eq!(make_indent("", 3), "   ");
    assert_eq!(make_indent("x", 0), "x");
}

#[test]
fn placeholder_only_for_empty() {
    assert_eq!(String::new().with_placeholder("pass"), "pass");
    assert_eq!("x = 1".to_string().with_placeholder("pass"), "x = 1");
}

#[test]
fn spans_are_reported() {
    let e = ident("abc", 3);
    assert_eq!(e.span(), sp(3, 6));
    let s = Statement::BreakStatement { span: sp(1, 7) };
    assert_eq!(s.span(), Span::new(1, 7));
}
