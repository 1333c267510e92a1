use leo_resolver::ast::{Expression, RangeOrExpression};
use leo_resolver::common::{
    attributes_of_mutable, attributes_of_static, has_attribute, Attribute, BinaryOperation, Identifier,
    IntegerType, Span, UnaryOperation,
};
use leo_resolver::decimal::decimal_string;
use leo_resolver::expressions::array::index_expression;
use leo_resolver::expressions::{Expression as ResolvedExpression, ExpressionValue};
use leo_resolver::state::StateValues;
use leo_resolver::types::Type;

fn span() -> Span {
    Span { line: 1, start: 2, end: 3 }
}

fn new_span() -> Span {
    Span { line: 4, start: 5, end: 6 }
}

fn id(name: &str) -> Identifier {
    Identifier::new(name.to_string(), span())
}

#[test]
fn test_decimal_string() {
    assert_eq!(decimal_string(0), "0");
    assert_eq!(decimal_string(7), "7");
    assert_eq!(decimal_string(10), "10");
    assert_eq!(decimal_string(1234567890), "1234567890");
    assert_eq!(decimal_string(usize::MAX), usize::MAX.to_string());
}

#[test]
fn test_index_expression() {
    assert_eq!(
        index_expression(42, span()),
        ResolvedExpression {
            type_: Type::IntegerType(IntegerType::U32),
            value: ExpressionValue::Integer(IntegerType::U32, "42".to_string(), span()),
        }
    );
}

#[test]
fn test_identifier_equality_is_by_name() {
    let first = Identifier::new("a".to_string(), span());
    let elsewhere = Identifier::new("a".to_string(), new_span());
    let other = Identifier::new("b".to_string(), span());

    assert_eq!(first, elsewhere);
    assert_ne!(first, other);
    assert_eq!(first.clone().span, span());
}

#[test]
fn test_attributes() {
    assert_eq!(attributes_of_mutable(true), vec![Attribute::Mutable]);
    assert_eq!(attributes_of_mutable(false), vec![]);
    assert_eq!(attributes_of_static(true), vec![Attribute::Static]);
    assert_eq!(attributes_of_static(false), vec![]);
    assert!(has_attribute(&vec![Attribute::Static, Attribute::Mutable], Attribute::Mutable));
    assert!(!has_attribute(&vec![Attribute::Static], Attribute::Mutable));
    assert!(!has_attribute(&vec![], Attribute::Static));
}

#[test]
fn test_operations() {
    assert!(BinaryOperation::Pow.arithmetic() && !BinaryOperation::Pow.logical() && !BinaryOperation::Pow.ordering());
    assert!(BinaryOperation::Or.logical() && !BinaryOperation::Or.arithmetic());
    assert!(BinaryOperation::Ge.ordering() && !BinaryOperation::Ge.arithmetic());
    assert!(!BinaryOperation::Eq.ordering() && !BinaryOperation::Eq.logical() && !BinaryOperation::Eq.arithmetic());
}

#[test]
fn test_set_span_replaces() {
    let name = || Box::new(Expression::Identifier(id("a")));
    let mut binary = Expression::Binary(BinaryOperation::Add, name(), name(), span());
    let mut not = Expression::Unary(UnaryOperation::Not, name(), span());
    let mut field = Expression::Field("1".to_string(), span());
    let mut group = Expression::Group("1".to_string(), span());
    let mut access = Expression::ArrayAccess(
        name(),
        Box::new(RangeOrExpression::Range(None, None)),
        span(),
    );
    let mut call = Expression::CoreFunctionCall("f".to_string(), vec![], span());
    binary.set_span(new_span());
    not.set_span(new_span());
    field.set_span(new_span());
    group.set_span(new_span());
    access.set_span(new_span());
    call.set_span(new_span());

    assert_eq!(binary, Expression::Binary(BinaryOperation::Add, name(), name(), new_span()));
    assert_eq!(not, Expression::Unary(UnaryOperation::Not, name(), new_span()));
    assert_eq!(field, Expression::Field("1".to_string(), new_span()));
    assert_eq!(group, Expression::Group("1".to_string(), new_span()));
    assert_eq!(access, Expression::ArrayAccess(name(), Box::new(RangeOrExpression::Range(None, None)), new_span()));
    assert_eq!(call, Expression::CoreFunctionCall("f".to_string(), vec![], new_span()));
}

#[test]
fn test_set_span_leaves() {
    let mut identifier = Expression::Identifier(id("a"));
    let mut address = Expression::Address("aleo1".to_string(), span());
    let mut boolean = Expression::Boolean("true".to_string(), span());
    let mut implicit = Expression::Implicit("1".to_string(), span());
    let mut integer = Expression::Integer(IntegerType::U8, "1".to_string(), span());
    let mut negate = Expression::Unary(UnaryOperation::Negate, Box::new(Expression::Identifier(id("a"))), span());
    identifier.set_span(new_span());
    address.set_span(new_span());
    boolean.set_span(new_span());
    implicit.set_span(new_span());
    integer.set_span(new_span());
    negate.set_span(new_span());

    match identifier {
        Expression::Identifier(identifier) => assert_eq!(identifier.span, span()),
        other => panic!("expected an identifier, found {:?}", other),
    }
    assert_eq!(address, Expression::Address("aleo1".to_string(), span()));
    assert_eq!(boolean, Expression::Boolean("true".to_string(), span()));
    assert_eq!(implicit, Expression::Implicit("1".to_string(), span()));
    assert_eq!(integer, Expression::Integer(IntegerType::U8, "1".to_string(), span()));
    assert_eq!(
        negate,
        Expression::Unary(UnaryOperation::Negate, Box::new(Expression::Identifier(id("a"))), span())
    );
}

#[test]
fn test_state_values() {
    let values = StateValues { leaf_index: 3, root: vec![1, 2] };

    assert_eq!(values, StateValues { leaf_index: 3, root: vec![1, 2] });
}
