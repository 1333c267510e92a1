use leo_resolver::ast::display::{dimensions_to_string, expressions_to_string};
use leo_resolver::ast::{CircuitVariableDefinition, Expression, RangeOrExpression};
use leo_resolver::common::{BinaryOperation, Identifier, IntegerType, Span, UnaryOperation};
use leo_resolver::symbol_table::Entry;
use leo_resolver::types::Type;

fn span() -> Span {
    Span { line: 1, start: 1, end: 1 }
}

fn id(name: &str) -> Identifier {
    Identifier::new(name.to_string(), span())
}

fn name(name: &str) -> Expression {
    Expression::Identifier(id(name))
}

fn boxed(name_: &str) -> Box<Expression> {
    Box::new(name(name_))
}

fn implicit(value: &str) -> Expression {
    Expression::Implicit(value.to_string(), span())
}

#[test]
fn test_display_values() {
    assert_eq!(name("a").to_string(), "a");
    assert_eq!(Expression::Address("aleo1xyz".to_string(), span()).to_string(), "aleo1xyz");
    assert_eq!(Expression::Boolean("true".to_string(), span()).to_string(), "true");
    assert_eq!(Expression::Field("5".to_string(), span()).to_string(), "5");
    assert_eq!(Expression::Group("(0, 1)".to_string(), span()).to_string(), "(0, 1)");
    assert_eq!(implicit("12").to_string(), "12");
    assert_eq!(Expression::Integer(IntegerType::U8, "1".to_string(), span()).to_string(), "1u8");
    assert_eq!(Expression::Integer(IntegerType::I128, "-1".to_string(), span()).to_string(), "-1i128");
}

#[test]
fn test_display_integer_types() {
    let written = [
        (IntegerType::U8, "u8"),
        (IntegerType::U16, "u16"),
        (IntegerType::U32, "u32"),
        (IntegerType::U64, "u64"),
        (IntegerType::U128, "u128"),
        (IntegerType::I8, "i8"),
        (IntegerType::I16, "i16"),
        (IntegerType::I32, "i32"),
        (IntegerType::I64, "i64"),
        (IntegerType::I128, "i128"),
    ];

    for (integer_type, text) in written {
        assert_eq!(integer_type.as_str(), text);
    }
}

#[test]
fn test_display_operations() {
    let written = [
        (BinaryOperation::Add, "a + b"),
        (BinaryOperation::Sub, "a - b"),
        (BinaryOperation::Mul, "a * b"),
        (BinaryOperation::Div, "a / b"),
        (BinaryOperation::Pow, "a ** b"),
        (BinaryOperation::Or, "a || b"),
        (BinaryOperation::And, "a && b"),
        (BinaryOperation::Eq, "a == b"),
        (BinaryOperation::Ge, "a >= b"),
        (BinaryOperation::Gt, "a > b"),
        (BinaryOperation::Le, "a <= b"),
        (BinaryOperation::Lt, "a < b"),
    ];

    for (operation, text) in written {
        assert_eq!(Expression::Binary(operation, boxed("a"), boxed("b"), span()).to_string(), text);
    }
    assert_eq!(Expression::Unary(UnaryOperation::Not, boxed("a"), span()).to_string(), "!a");
    assert_eq!(Expression::Unary(UnaryOperation::Negate, boxed("a"), span()).to_string(), "-a");
}

#[test]
fn test_display_conditional() {
    assert_eq!(
        Expression::IfElse(boxed("c"), boxed("a"), boxed("b"), span()).to_string(),
        "if c then a else b fi"
    );
}

#[test]
fn test_display_arrays() {
    assert_eq!(Expression::ArrayInline(vec![], span()).to_string(), "[]");
    assert_eq!(Expression::ArrayInline(vec![name("a")], span()).to_string(), "[a]");
    assert_eq!(
        Expression::ArrayInline(vec![name("a"), implicit("2"), name("c")], span()).to_string(),
        "[a, 2, c]"
    );
    assert_eq!(Expression::ArrayInitializer(boxed("a"), vec![3, 20], span()).to_string(), "[a; (3, 20)]");
    assert_eq!(Expression::ArrayInitializer(boxed("a"), vec![32], span()).to_string(), "[a; (32)]");
    assert_eq!(
        Expression::ArrayAccess(boxed("a"), Box::new(RangeOrExpression::Expression(implicit("1"))), span())
            .to_string(),
        "a[1]"
    );
}

#[test]
fn test_display_ranges() {
    assert_eq!(RangeOrExpression::Range(None, None).to_string(), "..");
    assert_eq!(RangeOrExpression::Range(Some(implicit("1")), None).to_string(), "1..");
    assert_eq!(RangeOrExpression::Range(None, Some(implicit("3"))).to_string(), "..3");
    assert_eq!(RangeOrExpression::Range(Some(name("a")), Some(name("b"))).to_string(), "a..b");
    assert_eq!(RangeOrExpression::Expression(name("a")).to_string(), "a");
    assert_eq!(
        Expression::ArrayAccess(boxed("arr"), Box::new(RangeOrExpression::Range(None, Some(implicit("3")))), span())
            .to_string(),
        "arr[..3]"
    );
}

#[test]
fn test_display_tuples() {
    assert_eq!(Expression::Tuple(vec![], span()).to_string(), "()");
    assert_eq!(Expression::Tuple(vec![name("a"), name("b")], span()).to_string(), "(a, b)");
    assert_eq!(Expression::TupleAccess(boxed("t"), 10, span()).to_string(), "t.10");
}

#[test]
fn test_display_circuits() {
    let member = |name_: &str, value: &str| CircuitVariableDefinition { identifier: id(name_), expression: name(value) };

    assert_eq!(Expression::Circuit(id("Foo"), vec![], span()).to_string(), "Foo {}");
    assert_eq!(
        Expression::Circuit(id("Foo"), vec![member("x", "a"), member("y", "b")], span()).to_string(),
        "Foo {x: a, y: b}"
    );
    assert_eq!(member("x", "a").to_string(), "x: a");
    assert_eq!(Expression::CircuitMemberAccess(boxed("foo"), id("x"), span()).to_string(), "foo.x");
    assert_eq!(Expression::CircuitStaticFunctionAccess(boxed("Foo"), id("new"), span()).to_string(), "Foo::new");
}

#[test]
fn test_display_calls() {
    assert_eq!(Expression::FunctionCall(boxed("f"), vec![], span()).to_string(), "f()");
    assert_eq!(
        Expression::FunctionCall(boxed("f"), vec![name("a"), implicit("1")], span()).to_string(),
        "f(a, 1)"
    );
    assert_eq!(
        Expression::CoreFunctionCall("blake2s".to_string(), vec![name("a")], span()).to_string(),
        "blake2s(a)"
    );
}

#[test]
fn test_display_nested() {
    // a(34)[42].x
    let call = Expression::FunctionCall(boxed("a"), vec![implicit("34")], span());
    let access = Expression::ArrayAccess(
        Box::new(call),
        Box::new(RangeOrExpression::Expression(implicit("42"))),
        span(),
    );
    let member = Expression::CircuitMemberAccess(Box::new(access), id("x"), span());

    assert_eq!(member.to_string(), "a(34)[42].x");
}

#[test]
fn test_display_lists() {
    assert_eq!(dimensions_to_string(&vec![]), "");
    assert_eq!(dimensions_to_string(&vec![7]), "7");
    assert_eq!(dimensions_to_string(&vec![1, 22, 333]), "1, 22, 333");
    assert_eq!(expressions_to_string(&vec![]), "");
    assert_eq!(expressions_to_string(&vec![name("a"), name("b"), name("c")]), "a, b, c");
}

#[test]
fn test_display_entry() {
    let entry = Entry { identifier: id("a"), type_: Type::Boolean, attributes: vec![] };

    assert_eq!(entry.to_string(), "a");
}
