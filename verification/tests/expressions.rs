use leo_resolver::ast::{CircuitVariableDefinition as UnresolvedMember, Expression, RangeOrExpression};
use leo_resolver::common::{Attribute, BinaryOperation, Identifier, IntegerType, Span, UnaryOperation};
use leo_resolver::errors::TypeError;
use leo_resolver::expressions::{
    check_tuple_type, CircuitVariableDefinition, Expression as Resolved, ExpressionValue,
};
use leo_resolver::symbol_table::{Entry, SymbolTable};
use leo_resolver::types::{
    CircuitFunctionType, CircuitType, CircuitVariableType, FunctionInputType, FunctionInputVariableType,
    FunctionOutputType, FunctionType, Type,
};

fn span() -> Span {
    Span { line: 1, start: 1, end: 1 }
}

fn at(line: usize) -> Span {
    Span { line, start: 0, end: 0 }
}

fn id(name: &str) -> Identifier {
    Identifier::new(name.to_string(), span())
}

fn u8_type() -> Type {
    Type::IntegerType(IntegerType::U8)
}

fn u32_type() -> Type {
    Type::IntegerType(IntegerType::U32)
}

fn name(name: &str) -> Expression {
    Expression::Identifier(id(name))
}

fn integer(integer_type: IntegerType, value: &str) -> Expression {
    Expression::Integer(integer_type, value.to_string(), span())
}

fn implicit(value: &str) -> Expression {
    Expression::Implicit(value.to_string(), span())
}

fn boolean(value: &str) -> Expression {
    Expression::Boolean(value.to_string(), span())
}

fn binary(operation: BinaryOperation, left: Expression, right: Expression) -> Expression {
    Expression::Binary(operation, Box::new(left), Box::new(right), at(2))
}

fn resolved_name(name: &str, type_: Type) -> Resolved {
    Resolved { type_, value: ExpressionValue::Identifier(id(name)) }
}

fn resolved_int(integer_type: IntegerType, value: &str) -> Resolved {
    Resolved {
        type_: Type::IntegerType(integer_type),
        value: ExpressionValue::Integer(integer_type, value.to_string(), span()),
    }
}

fn resolved_boolean(value: &str) -> Resolved {
    Resolved { type_: Type::Boolean, value: ExpressionValue::Boolean(value.to_string(), span()) }
}

fn variable(table: &mut SymbolTable, name: &str, type_: Type, attributes: Vec<Attribute>) {
    table.insert_variable(name.to_string(), Entry { identifier: id(name), type_, attributes });
}

fn signature(name: &str, inputs: Vec<(&str, Type)>, output: Type) -> FunctionType {
    FunctionType {
        identifier: id(name),
        inputs: inputs
            .into_iter()
            .map(|(name, type_)| {
                FunctionInputType::Variable(FunctionInputVariableType {
                    identifier: id(name),
                    type_,
                    attributes: vec![],
                    span: span(),
                })
            })
            .collect(),
        output: FunctionOutputType { type_: output },
    }
}

/// Variables `a: u8`, `b: u32`, `flag: bool`, `arr: [u8; 10]`, `grid: [u8; (3, 2)]`,
/// `pair: (u8, bool)`, `point: Point`; the circuit `Point { x: u32, y: u32 }` with the
/// function `norm() -> u32` and the static function `origin() -> Point`; and the function
/// `add(left: u8, right: u8) -> u8`.
fn table() -> SymbolTable {
    let mut table = SymbolTable::new(None);
    variable(&mut table, "a", u8_type(), vec![]);
    variable(&mut table, "b", u32_type(), vec![Attribute::Mutable]);
    variable(&mut table, "flag", Type::Boolean, vec![]);
    variable(&mut table, "arr", Type::Array(Box::new(u8_type()), vec![10]), vec![]);
    variable(&mut table, "grid", Type::Array(Box::new(u8_type()), vec![3, 2]), vec![]);
    variable(&mut table, "pair", Type::Tuple(vec![u8_type(), Type::Boolean]), vec![]);
    variable(&mut table, "point", Type::Circuit(id("Point")), vec![]);
    variable(&mut table, "Point", Type::Circuit(id("Point")), vec![]);
    variable(&mut table, "Ghost", Type::Circuit(id("Ghost")), vec![]);
    variable(&mut table, "add", Type::Function(id("add")), vec![]);
    variable(&mut table, "lost", Type::Function(id("lost")), vec![]);
    table.insert_circuit(
        id("Point"),
        CircuitType {
            identifier: id("Point"),
            variables: vec![
                CircuitVariableType { identifier: id("x"), type_: u32_type(), attributes: vec![] },
                CircuitVariableType { identifier: id("y"), type_: u32_type(), attributes: vec![] },
            ],
            functions: vec![
                CircuitFunctionType { function: signature("norm", vec![], u32_type()), attributes: vec![] },
                CircuitFunctionType {
                    function: signature("origin", vec![], Type::Circuit(id("Point"))),
                    attributes: vec![Attribute::Static],
                },
                CircuitFunctionType {
                    function: signature("scale", vec![("by", u32_type())], Type::Circuit(id("Point"))),
                    attributes: vec![],
                },
            ],
        },
    );
    table.insert_function(id("add"), signature("add", vec![("left", u8_type()), ("right", u8_type())], u8_type()));
    table
}

fn resolve(expected: Option<Type>, expression: Expression) -> Result<Resolved, TypeError> {
    Resolved::resolve(&table(), &expected, &expression)
}

#[test]
fn test_identifier_has_type_of_binding() {
    assert_eq!(resolve(None, name("a")), Ok(resolved_name("a", u8_type())));
    assert_eq!(resolve(Some(u32_type()), name("b")), Ok(resolved_name("b", u32_type())));
}

#[test]
fn test_identifier_undefined() {
    assert_eq!(resolve(None, name("missing")), Err(TypeError::UndefinedVariable(id("missing"))));
}

#[test]
fn test_identifier_is_not_widened() {
    assert_eq!(
        resolve(Some(u32_type()), name("a")),
        Err(TypeError::MismatchedTypes { expected: u32_type(), found: u8_type(), span: span() })
    );
}

#[test]
fn test_identifier_in_child_scope() {
    let mut child = table().child();
    variable(&mut child, "a", Type::Boolean, vec![]);

    assert_eq!(Resolved::resolve(&child, &None, &name("a")), Ok(resolved_name("a", Type::Boolean)));
    assert_eq!(Resolved::resolve(&child, &None, &name("b")), Ok(resolved_name("b", u32_type())));
}

#[test]
fn test_values() {
    let address = Expression::Address("aleo1".to_string(), span());
    let field = Expression::Field("5".to_string(), span());
    let group = Expression::Group("(0, 1)".to_string(), span());

    assert_eq!(
        resolve(None, address),
        Ok(Resolved { type_: Type::Address, value: ExpressionValue::Address("aleo1".to_string(), span()) })
    );
    assert_eq!(resolve(Some(Type::Boolean), boolean("true")), Ok(resolved_boolean("true")));
    assert_eq!(
        resolve(Some(Type::Field), field),
        Ok(Resolved { type_: Type::Field, value: ExpressionValue::Field("5".to_string(), span()) })
    );
    assert_eq!(
        resolve(None, group),
        Ok(Resolved { type_: Type::Group, value: ExpressionValue::Group("(0, 1)".to_string(), span()) })
    );
    assert_eq!(resolve(None, integer(IntegerType::I16, "-7")), Ok(resolved_int(IntegerType::I16, "-7")));
    assert_eq!(
        resolve(Some(Type::Address), boolean("true")),
        Err(TypeError::MismatchedTypes { expected: Type::Address, found: Type::Boolean, span: span() })
    );
}

#[test]
fn test_implicit_takes_expected_type() {
    assert_eq!(resolve(Some(u8_type()), implicit("3")), Ok(resolved_int(IntegerType::U8, "3")));
    assert_eq!(
        resolve(Some(Type::Field), implicit("3")),
        Ok(Resolved { type_: Type::Field, value: ExpressionValue::Field("3".to_string(), span()) })
    );
    assert_eq!(
        resolve(Some(Type::Group), implicit("3")),
        Ok(Resolved { type_: Type::Group, value: ExpressionValue::Group("3".to_string(), span()) })
    );
}

#[test]
fn test_implicit_needs_numeric_type() {
    assert_eq!(resolve(None, implicit("3")), Err(TypeError::CannotInferType(span())));
    assert_eq!(
        resolve(Some(Type::Boolean), implicit("3")),
        Err(TypeError::ExpectedIntegerType { found: Type::Boolean, span: span() })
    );
}

#[test]
fn test_arithmetic_propagates_left_to_right() {
    let sum = binary(BinaryOperation::Add, name("a"), implicit("1"));

    assert_eq!(
        resolve(None, sum),
        Ok(Resolved {
            type_: u8_type(),
            value: ExpressionValue::Binary(
                BinaryOperation::Add,
                Box::new(resolved_name("a", u8_type())),
                Box::new(resolved_int(IntegerType::U8, "1")),
                at(2),
            ),
        })
    );
}

#[test]
fn test_arithmetic_with_expected_type() {
    let product = binary(BinaryOperation::Mul, implicit("2"), implicit("3"));

    assert_eq!(
        resolve(Some(u32_type()), product),
        Ok(Resolved {
            type_: u32_type(),
            value: ExpressionValue::Binary(
                BinaryOperation::Mul,
                Box::new(resolved_int(IntegerType::U32, "2")),
                Box::new(resolved_int(IntegerType::U32, "3")),
                at(2),
            ),
        })
    );
}

#[test]
fn test_arithmetic_operands_must_match() {
    for operation in [
        BinaryOperation::Add,
        BinaryOperation::Sub,
        BinaryOperation::Mul,
        BinaryOperation::Div,
        BinaryOperation::Pow,
    ] {
        assert_eq!(
            resolve(None, binary(operation, name("a"), name("b"))),
            Err(TypeError::MismatchedTypes { expected: u8_type(), found: u32_type(), span: span() })
        );
    }
}

#[test]
fn test_arithmetic_needs_integers() {
    assert_eq!(
        resolve(None, binary(BinaryOperation::Add, name("flag"), name("flag"))),
        Err(TypeError::ExpectedIntegerType { found: Type::Boolean, span: at(2) })
    );
}

#[test]
fn test_comparison_gives_boolean() {
    for operation in [
        BinaryOperation::Eq,
        BinaryOperation::Ge,
        BinaryOperation::Gt,
        BinaryOperation::Le,
        BinaryOperation::Lt,
    ] {
        assert_eq!(
            resolve(Some(Type::Boolean), binary(operation, name("a"), implicit("4"))),
            Ok(Resolved {
                type_: Type::Boolean,
                value: ExpressionValue::Binary(
                    operation,
                    Box::new(resolved_name("a", u8_type())),
                    Box::new(resolved_int(IntegerType::U8, "4")),
                    at(2),
                ),
            })
        );
    }
}

#[test]
fn test_comparison_is_not_an_integer() {
    assert_eq!(
        resolve(Some(u8_type()), binary(BinaryOperation::Lt, name("a"), name("a"))),
        Err(TypeError::MismatchedTypes { expected: u8_type(), found: Type::Boolean, span: at(2) })
    );
}

#[test]
fn test_equality_of_booleans() {
    assert_eq!(
        resolve(None, binary(BinaryOperation::Eq, name("flag"), boolean("true"))),
        Ok(Resolved {
            type_: Type::Boolean,
            value: ExpressionValue::Binary(
                BinaryOperation::Eq,
                Box::new(resolved_name("flag", Type::Boolean)),
                Box::new(resolved_boolean("true")),
                at(2),
            ),
        })
    );
}

#[test]
fn test_logical_operands_are_boolean() {
    assert_eq!(
        resolve(None, binary(BinaryOperation::And, name("flag"), boolean("false"))),
        Ok(Resolved {
            type_: Type::Boolean,
            value: ExpressionValue::Binary(
                BinaryOperation::And,
                Box::new(resolved_name("flag", Type::Boolean)),
                Box::new(resolved_boolean("false")),
                at(2),
            ),
        })
    );
    assert_eq!(
        resolve(None, binary(BinaryOperation::Or, name("a"), name("flag"))),
        Err(TypeError::MismatchedTypes { expected: Type::Boolean, found: u8_type(), span: span() })
    );
}

#[test]
fn test_not_and_negate() {
    let not = Expression::Unary(UnaryOperation::Not, Box::new(name("flag")), at(3));
    let negate = Expression::Unary(UnaryOperation::Negate, Box::new(implicit("1")), at(3));
    let negate_boolean = Expression::Unary(UnaryOperation::Negate, Box::new(name("flag")), at(3));
    let not_integer = Expression::Unary(UnaryOperation::Not, Box::new(name("a")), at(3));

    assert_eq!(
        resolve(None, not),
        Ok(Resolved {
            type_: Type::Boolean,
            value: ExpressionValue::Unary(
                UnaryOperation::Not,
                Box::new(resolved_name("flag", Type::Boolean)),
                at(3),
            ),
        })
    );
    assert_eq!(
        resolve(Some(Type::IntegerType(IntegerType::I8)), negate),
        Ok(Resolved {
            type_: Type::IntegerType(IntegerType::I8),
            value: ExpressionValue::Unary(
                UnaryOperation::Negate,
                Box::new(resolved_int(IntegerType::I8, "1")),
                at(3),
            ),
        })
    );
    assert_eq!(
        resolve(None, negate_boolean),
        Err(TypeError::ExpectedIntegerType { found: Type::Boolean, span: at(3) })
    );
    assert_eq!(
        resolve(None, not_integer),
        Err(TypeError::MismatchedTypes { expected: Type::Boolean, found: u8_type(), span: span() })
    );
}

fn if_else(condition: Expression, first: Expression, second: Expression) -> Expression {
    Expression::IfElse(Box::new(condition), Box::new(first), Box::new(second), at(4))
}

#[test]
fn test_conditional_branches_have_one_type() {
    assert_eq!(
        resolve(Some(u8_type()), if_else(name("flag"), name("a"), implicit("0"))),
        Ok(Resolved {
            type_: u8_type(),
            value: ExpressionValue::IfElse(
                Box::new(resolved_name("flag", Type::Boolean)),
                Box::new(resolved_name("a", u8_type())),
                Box::new(resolved_int(IntegerType::U8, "0")),
                at(4),
            ),
        })
    );
    assert_eq!(
        resolve(None, if_else(name("flag"), name("a"), name("b"))),
        Err(TypeError::MismatchedTypes { expected: u8_type(), found: u32_type(), span: at(4) })
    );
}

#[test]
fn test_conditional_condition_is_boolean() {
    assert_eq!(
        resolve(None, if_else(name("a"), name("a"), name("a"))),
        Err(TypeError::MismatchedTypes { expected: Type::Boolean, found: u8_type(), span: span() })
    );
}

#[test]
fn test_array_with_expected_type() {
    let expected = Type::Array(Box::new(u8_type()), vec![2]);
    let array = Expression::ArrayInline(vec![implicit("1"), name("a")], at(5));

    assert_eq!(
        resolve(Some(expected.clone()), array),
        Ok(Resolved {
            type_: expected,
            value: ExpressionValue::Array(
                vec![resolved_int(IntegerType::U8, "1"), resolved_name("a", u8_type())],
                at(5),
            ),
        })
    );
}

#[test]
fn test_array_of_arrays() {
    let row_type = || Type::Array(Box::new(u8_type()), vec![10]);
    let expected = Type::Array(Box::new(row_type()), vec![2]);
    let array = Expression::ArrayInline(vec![name("arr"), name("arr")], at(5));
    let row = || resolved_name("arr", row_type());

    assert_eq!(
        resolve(Some(expected.clone()), array),
        Ok(Resolved { type_: expected, value: ExpressionValue::Array(vec![row(), row()], at(5)) })
    );
}

#[test]
fn test_array_of_many_dimensions_holds_elements() {
    // the elements of `[u8; (2, 10)]` are asked to be `u8`
    let expected = Type::Array(Box::new(u8_type()), vec![2, 10]);

    assert_eq!(
        resolve(Some(expected.clone()), Expression::ArrayInline(vec![implicit("1"), name("a")], at(5))),
        Ok(Resolved {
            type_: expected.clone(),
            value: ExpressionValue::Array(
                vec![resolved_int(IntegerType::U8, "1"), resolved_name("a", u8_type())],
                at(5),
            ),
        })
    );
    assert_eq!(
        resolve(Some(expected), Expression::ArrayInline(vec![name("arr"), name("arr")], at(5))),
        Err(TypeError::MismatchedTypes {
            expected: u8_type(),
            found: Type::Array(Box::new(u8_type()), vec![10]),
            span: span(),
        })
    );
}

#[test]
fn test_array_without_expected_type() {
    let array = Expression::ArrayInline(vec![name("a"), implicit("2"), implicit("3")], at(5));

    assert_eq!(
        resolve(None, array),
        Ok(Resolved {
            type_: Type::Array(Box::new(u8_type()), vec![3]),
            value: ExpressionValue::Array(
                vec![
                    resolved_name("a", u8_type()),
                    resolved_int(IntegerType::U8, "2"),
                    resolved_int(IntegerType::U8, "3"),
                ],
                at(5),
            ),
        })
    );
}

#[test]
fn test_array_errors() {
    let expected = Type::Array(Box::new(u8_type()), vec![3]);

    assert_eq!(
        resolve(Some(expected.clone()), Expression::ArrayInline(vec![name("a")], at(5))),
        Err(TypeError::MismatchedTypes {
            expected: expected.clone(),
            found: Type::Array(Box::new(u8_type()), vec![1]),
            span: at(5),
        })
    );
    assert_eq!(
        resolve(Some(u8_type()), Expression::ArrayInline(vec![name("a")], at(5))),
        Err(TypeError::ExpectedArrayType { found: u8_type(), span: at(5) })
    );
    assert_eq!(
        resolve(Some(Type::Array(Box::new(u8_type()), vec![])), Expression::ArrayInline(vec![], at(5))),
        Err(TypeError::ExpectedArrayType { found: Type::Array(Box::new(u8_type()), vec![]), span: at(5) })
    );
    assert_eq!(
        resolve(None, Expression::ArrayInline(vec![], at(5))),
        Err(TypeError::CannotInferType(at(5)))
    );
    assert_eq!(
        resolve(None, Expression::ArrayInline(vec![name("a"), name("b")], at(5))),
        Err(TypeError::MismatchedTypes { expected: u8_type(), found: u32_type(), span: span() })
    );
}

#[test]
fn test_array_initializer() {
    let initializer = || Expression::ArrayInitializer(Box::new(implicit("0")), vec![3, 2], at(6));
    let expected = Type::Array(Box::new(u8_type()), vec![3, 2]);
    let resolved = Resolved {
        type_: expected.clone(),
        value: ExpressionValue::ArrayInitializer(Box::new(resolved_int(IntegerType::U8, "0")), vec![3, 2], at(6)),
    };

    assert_eq!(resolve(Some(expected.clone()), initializer()), Ok(resolved));
    assert_eq!(
        resolve(Some(Type::Array(Box::new(u8_type()), vec![6])), initializer()),
        Err(TypeError::MismatchedTypes {
            expected: Type::Array(Box::new(u8_type()), vec![6]),
            found: expected,
            span: at(6),
        })
    );
    assert_eq!(
        resolve(Some(Type::Boolean), initializer()),
        Err(TypeError::ExpectedArrayType { found: Type::Boolean, span: at(6) })
    );
    assert_eq!(
        resolve(None, Expression::ArrayInitializer(Box::new(name("flag")), vec![4], at(6))),
        Ok(Resolved {
            type_: Type::Array(Box::new(Type::Boolean), vec![4]),
            value: ExpressionValue::ArrayInitializer(
                Box::new(resolved_name("flag", Type::Boolean)),
                vec![4],
                at(6),
            ),
        })
    );
}

fn access(array: &str, index: RangeOrExpression) -> Expression {
    Expression::ArrayAccess(Box::new(name(array)), Box::new(index), at(7))
}

fn resolved_arr() -> Resolved {
    resolved_name("arr", Type::Array(Box::new(u8_type()), vec![10]))
}

fn index(value: &str) -> Resolved {
    Resolved {
        type_: u32_type(),
        value: ExpressionValue::Integer(IntegerType::U32, value.to_string(), span()),
    }
}

fn default_index(value: &str) -> Resolved {
    Resolved {
        type_: u32_type(),
        value: ExpressionValue::Integer(IntegerType::U32, value.to_string(), at(7)),
    }
}

#[test]
fn test_array_access_gives_element() {
    assert_eq!(
        resolve(Some(u8_type()), access("arr", RangeOrExpression::Expression(implicit("4")))),
        Ok(Resolved {
            type_: u8_type(),
            value: ExpressionValue::ArrayAccess(Box::new(resolved_arr()), Box::new(index("4")), at(7)),
        })
    );
}

#[test]
fn test_array_access_of_many_dimensions() {
    // an index into `[u8; (3, 2)]` gives the element type
    assert_eq!(
        resolve(None, access("grid", RangeOrExpression::Expression(implicit("1")))),
        Ok(Resolved {
            type_: u8_type(),
            value: ExpressionValue::ArrayAccess(
                Box::new(resolved_name("grid", Type::Array(Box::new(u8_type()), vec![3, 2]))),
                Box::new(index("1")),
                at(7),
            ),
        })
    );
}

#[test]
fn test_array_range_access_open_start() {
    // arr[..3] on an array of length 10: start = 0, end = 3
    assert_eq!(
        resolve(None, access("arr", RangeOrExpression::Range(None, Some(implicit("3"))))),
        Ok(Resolved {
            type_: Type::Array(Box::new(u8_type()), vec![10]),
            value: ExpressionValue::ArrayRangeAccess(
                Box::new(resolved_arr()),
                Box::new(default_index("0")),
                Box::new(index("3")),
                at(7),
            ),
        })
    );
}

#[test]
fn test_array_range_access_open_end() {
    // arr[2..] on an array of length 10: start = 2, end = 10
    assert_eq!(
        resolve(None, access("arr", RangeOrExpression::Range(Some(implicit("2")), None))),
        Ok(Resolved {
            type_: Type::Array(Box::new(u8_type()), vec![10]),
            value: ExpressionValue::ArrayRangeAccess(
                Box::new(resolved_arr()),
                Box::new(index("2")),
                Box::new(default_index("10")),
                at(7),
            ),
        })
    );
}

#[test]
fn test_array_range_access_open() {
    // grid[..] on an array of 3 rows: start = 0, end = 3
    assert_eq!(
        resolve(None, access("grid", RangeOrExpression::Range(None, None))),
        Ok(Resolved {
            type_: Type::Array(Box::new(u8_type()), vec![3, 2]),
            value: ExpressionValue::ArrayRangeAccess(
                Box::new(resolved_name("grid", Type::Array(Box::new(u8_type()), vec![3, 2]))),
                Box::new(default_index("0")),
                Box::new(default_index("3")),
                at(7),
            ),
        })
    );
}

#[test]
fn test_array_access_errors() {
    assert_eq!(
        resolve(None, access("a", RangeOrExpression::Expression(implicit("0")))),
        Err(TypeError::ExpectedArrayType { found: u8_type(), span: at(7) })
    );
    assert_eq!(
        resolve(None, access("arr", RangeOrExpression::Expression(name("a")))),
        Err(TypeError::MismatchedTypes { expected: u32_type(), found: u8_type(), span: span() })
    );
    assert_eq!(
        resolve(None, access("arr", RangeOrExpression::Range(Some(name("flag")), None))),
        Err(TypeError::MismatchedTypes { expected: u32_type(), found: Type::Boolean, span: span() })
    );
    assert_eq!(
        resolve(Some(Type::Boolean), access("arr", RangeOrExpression::Expression(implicit("0")))),
        Err(TypeError::MismatchedTypes { expected: Type::Boolean, found: u8_type(), span: at(7) })
    );
}

#[test]
fn test_tuple_with_expected_type() {
    let expected = Type::Tuple(vec![u8_type(), Type::Boolean]);
    let tuple = Expression::Tuple(vec![implicit("1"), name("flag")], at(8));

    assert_eq!(
        resolve(Some(expected.clone()), tuple),
        Ok(Resolved {
            type_: expected,
            value: ExpressionValue::Tuple(
                vec![resolved_int(IntegerType::U8, "1"), resolved_name("flag", Type::Boolean)],
                at(8),
            ),
        })
    );
}

#[test]
fn test_tuple_without_expected_type() {
    let tuple = Expression::Tuple(vec![name("b"), name("flag")], at(8));

    assert_eq!(
        resolve(None, tuple),
        Ok(Resolved {
            type_: Type::Tuple(vec![u32_type(), Type::Boolean]),
            value: ExpressionValue::Tuple(
                vec![resolved_name("b", u32_type()), resolved_name("flag", Type::Boolean)],
                at(8),
            ),
        })
    );
}

#[test]
fn test_tuple_errors() {
    let expected = Type::Tuple(vec![u8_type(), Type::Boolean]);

    assert_eq!(
        resolve(Some(expected.clone()), Expression::Tuple(vec![name("a")], at(8))),
        Err(TypeError::InvalidTupleLength { expected: 2, found: 1, span: at(8) })
    );
    assert_eq!(
        resolve(Some(u8_type()), Expression::Tuple(vec![name("a")], at(8))),
        Err(TypeError::ExpectedTupleType { found: u8_type(), span: at(8) })
    );
    assert_eq!(resolve(None, Expression::Tuple(vec![], at(8))), Err(TypeError::CannotInferType(at(8))));
    assert_eq!(
        resolve(Some(expected), Expression::Tuple(vec![name("a"), name("a")], at(8))),
        Err(TypeError::MismatchedTypes { expected: Type::Boolean, found: u8_type(), span: span() })
    );
}

#[test]
fn test_empty_tuple_of_empty_tuple_type() {
    assert_eq!(
        resolve(Some(Type::Tuple(vec![])), Expression::Tuple(vec![], at(8))),
        Ok(Resolved { type_: Type::Tuple(vec![]), value: ExpressionValue::Tuple(vec![], at(8)) })
    );
}

#[test]
fn test_tuple_access() {
    let pair = || resolved_name("pair", Type::Tuple(vec![u8_type(), Type::Boolean]));

    assert_eq!(
        resolve(None, Expression::TupleAccess(Box::new(name("pair")), 1, at(9))),
        Ok(Resolved {
            type_: Type::Boolean,
            value: ExpressionValue::TupleAccess(Box::new(pair()), 1, at(9)),
        })
    );
    assert_eq!(
        resolve(None, Expression::TupleAccess(Box::new(name("pair")), 2, at(9))),
        Err(TypeError::InvalidTupleIndex { index: 2, length: 2, span: at(9) })
    );
    assert_eq!(
        resolve(Some(Type::Boolean), Expression::TupleAccess(Box::new(name("pair")), 0, at(9))),
        Err(TypeError::MismatchedTypes { expected: Type::Boolean, found: u8_type(), span: at(9) })
    );
}

fn member(name: &str, expression: Expression) -> UnresolvedMember {
    UnresolvedMember { identifier: id(name), expression }
}

#[test]
fn test_circuit_expression() {
    let literal = Expression::Circuit(
        id("Point"),
        vec![member("y", implicit("2")), member("x", name("b"))],
        at(10),
    );

    assert_eq!(
        resolve(Some(Type::Circuit(id("Point"))), literal),
        Ok(Resolved {
            type_: Type::Circuit(id("Point")),
            value: ExpressionValue::Circuit(
                id("Point"),
                vec![
                    CircuitVariableDefinition {
                        identifier: id("y"),
                        expression: resolved_int(IntegerType::U32, "2"),
                    },
                    CircuitVariableDefinition {
                        identifier: id("x"),
                        expression: resolved_name("b", u32_type()),
                    },
                ],
                at(10),
            ),
        })
    );
}

#[test]
fn test_circuit_expression_errors() {
    let literal = |name: &str, members: Vec<UnresolvedMember>| Expression::Circuit(id(name), members, at(10));
    let one = || implicit("1");

    assert_eq!(
        resolve(Some(u8_type()), literal("Point", vec![])),
        Err(TypeError::MismatchedTypes { expected: u8_type(), found: Type::Circuit(id("Point")), span: at(10) })
    );
    assert_eq!(resolve(None, literal("Nowhere", vec![])), Err(TypeError::UndefinedCircuit(id("Nowhere"))));
    assert_eq!(
        resolve(None, literal("Point", vec![member("x", one())])),
        Err(TypeError::InvalidNumberOfMembers { expected: 2, found: 1, span: at(10) })
    );
    assert_eq!(
        resolve(None, literal("Point", vec![member("x", one()), member("z", one())])),
        Err(TypeError::UndefinedCircuitMember(id("z")))
    );
    assert_eq!(
        resolve(None, literal("Point", vec![member("x", one()), member("x", one())])),
        Err(TypeError::DuplicateCircuitMember(id("x")))
    );
    assert_eq!(
        resolve(None, literal("Point", vec![member("x", one()), member("y", name("a"))])),
        Err(TypeError::MismatchedTypes { expected: u32_type(), found: u8_type(), span: span() })
    );
    // a member function is no member variable
    assert_eq!(
        resolve(None, literal("Point", vec![member("x", one()), member("norm", one())])),
        Err(TypeError::UndefinedCircuitMember(id("norm")))
    );
}

fn member_access(circuit: &str, name_: &str) -> Expression {
    Expression::CircuitMemberAccess(Box::new(name(circuit)), id(name_), at(11))
}

fn static_access(circuit: &str, name_: &str) -> Expression {
    Expression::CircuitStaticFunctionAccess(Box::new(name(circuit)), id(name_), at(11))
}

fn resolved_point() -> Resolved {
    resolved_name("point", Type::Circuit(id("Point")))
}

#[test]
fn test_circuit_member_access() {
    assert_eq!(
        resolve(Some(u32_type()), member_access("point", "x")),
        Ok(Resolved {
            type_: u32_type(),
            value: ExpressionValue::CircuitMemberAccess(Box::new(resolved_point()), id("x"), at(11)),
        })
    );
    // a member function has the type that it returns
    assert_eq!(
        resolve(None, member_access("point", "norm")),
        Ok(Resolved {
            type_: u32_type(),
            value: ExpressionValue::CircuitMemberAccess(Box::new(resolved_point()), id("norm"), at(11)),
        })
    );
}

#[test]
fn test_circuit_member_access_errors() {
    assert_eq!(
        resolve(None, member_access("point", "origin")),
        Err(TypeError::StaticMemberOnInstance(id("origin")))
    );
    assert_eq!(
        resolve(None, member_access("point", "z")),
        Err(TypeError::UndefinedCircuitMember(id("z")))
    );
    assert_eq!(
        resolve(None, member_access("a", "x")),
        Err(TypeError::ExpectedCircuitType { found: u8_type(), span: at(11) })
    );
    assert_eq!(
        resolve(None, member_access("Ghost", "x")),
        Err(TypeError::UndefinedCircuit(Identifier::new("Ghost".to_string(), at(11))))
    );
    assert_eq!(
        resolve(Some(u8_type()), member_access("point", "x")),
        Err(TypeError::MismatchedTypes { expected: u8_type(), found: u32_type(), span: at(11) })
    );
}

#[test]
fn test_circuit_static_access() {
    assert_eq!(
        resolve(None, static_access("Point", "origin")),
        Ok(Resolved {
            type_: Type::Circuit(id("Point")),
            value: ExpressionValue::CircuitStaticFunctionAccess(
                Box::new(resolved_name("Point", Type::Circuit(id("Point")))),
                id("origin"),
                at(11),
            ),
        })
    );
    assert_eq!(
        resolve(None, static_access("Point", "norm")),
        Err(TypeError::InstanceMemberOnStatic(id("norm")))
    );
    assert_eq!(
        resolve(None, static_access("Point", "x")),
        Err(TypeError::UndefinedCircuitMember(id("x")))
    );
    assert_eq!(
        resolve(None, static_access("add", "x")),
        Err(TypeError::ExpectedCircuitType { found: Type::Function(id("add")), span: at(11) })
    );
}

fn call(function: Expression, arguments: Vec<Expression>) -> Expression {
    Expression::FunctionCall(Box::new(function), arguments, at(12))
}

#[test]
fn test_function_call() {
    assert_eq!(
        resolve(Some(u8_type()), call(name("add"), vec![name("a"), implicit("1")])),
        Ok(Resolved {
            type_: u8_type(),
            value: ExpressionValue::FunctionCall(
                Box::new(resolved_name("add", Type::Function(id("add")))),
                vec![resolved_name("a", u8_type()), resolved_int(IntegerType::U8, "1")],
                at(12),
            ),
        })
    );
}

#[test]
fn test_function_call_errors() {
    assert_eq!(
        resolve(None, call(name("add"), vec![name("a")])),
        Err(TypeError::InvalidNumberOfArguments { expected: 2, found: 1, span: at(12) })
    );
    assert_eq!(
        resolve(None, call(name("add"), vec![name("a"), name("b")])),
        Err(TypeError::MismatchedTypes { expected: u8_type(), found: u32_type(), span: span() })
    );
    assert_eq!(
        resolve(None, call(name("a"), vec![])),
        Err(TypeError::ExpectedFunctionType { found: u8_type(), span: at(12) })
    );
    assert_eq!(
        resolve(None, call(name("lost"), vec![])),
        Err(TypeError::UndefinedFunction(Identifier::new("lost".to_string(), at(12))))
    );
    assert_eq!(
        resolve(Some(Type::Boolean), call(name("add"), vec![name("a"), name("a")])),
        Err(TypeError::MismatchedTypes { expected: Type::Boolean, found: u8_type(), span: at(12) })
    );
}

#[test]
fn test_member_function_call() {
    assert_eq!(
        resolve(None, call(member_access("point", "scale"), vec![implicit("2")])),
        Ok(Resolved {
            type_: Type::Circuit(id("Point")),
            value: ExpressionValue::FunctionCall(
                Box::new(Resolved {
                    type_: Type::Circuit(id("Point")),
                    value: ExpressionValue::CircuitMemberAccess(
                        Box::new(resolved_point()),
                        id("scale"),
                        at(11),
                    ),
                }),
                vec![resolved_int(IntegerType::U32, "2")],
                at(12),
            ),
        })
    );
    assert_eq!(
        resolve(None, call(static_access("Point", "origin"), vec![])),
        Ok(Resolved {
            type_: Type::Circuit(id("Point")),
            value: ExpressionValue::FunctionCall(
                Box::new(Resolved {
                    type_: Type::Circuit(id("Point")),
                    value: ExpressionValue::CircuitStaticFunctionAccess(
                        Box::new(resolved_name("Point", Type::Circuit(id("Point")))),
                        id("origin"),
                        at(11),
                    ),
                }),
                vec![],
                at(12),
            ),
        })
    );
    // a member variable is no function
    assert_eq!(
        resolve(None, call(member_access("point", "x"), vec![])),
        Err(TypeError::ExpectedFunctionType { found: u32_type(), span: at(12) })
    );
}

#[test]
fn test_core_function_call() {
    let core = || Expression::CoreFunctionCall("blake2s".to_string(), vec![name("arr"), name("a")], at(13));
    let digest = Type::Array(Box::new(u8_type()), vec![32]);

    assert_eq!(
        resolve(Some(digest.clone()), core()),
        Ok(Resolved {
            type_: digest,
            value: ExpressionValue::CoreFunctionCall(
                "blake2s".to_string(),
                vec![resolved_arr(), resolved_name("a", u8_type())],
                at(13),
            ),
        })
    );
    assert_eq!(resolve(None, core()), Err(TypeError::CannotInferType(at(13))));
}

#[test]
fn test_first_error_is_reported() {
    // the left operand is resolved before the right one
    assert_eq!(
        resolve(None, binary(BinaryOperation::Add, name("first"), name("second"))),
        Err(TypeError::UndefinedVariable(id("first")))
    );
    assert_eq!(
        resolve(None, Expression::Tuple(vec![name("a"), name("first"), name("second")], at(8))),
        Err(TypeError::UndefinedVariable(id("first")))
    );
}

#[test]
fn test_nested_expression() {
    // (arr[1] + 2) == a, deep in a conditional
    let sum = binary(
        BinaryOperation::Add,
        access("arr", RangeOrExpression::Expression(implicit("1"))),
        implicit("2"),
    );
    let compare = binary(BinaryOperation::Eq, sum, name("a"));
    let resolved = resolve(Some(u32_type()), if_else(compare, name("b"), implicit("0"))).unwrap();

    assert_eq!(resolved.type_(), &u32_type());
    match resolved.value() {
        ExpressionValue::IfElse(condition, first, second, _) => {
            assert_eq!(condition.type_(), &Type::Boolean);
            assert_eq!(first.type_(), &u32_type());
            assert_eq!(**second, resolved_int(IntegerType::U32, "0"));
            match condition.value() {
                ExpressionValue::Binary(BinaryOperation::Eq, left, right, _) => {
                    assert_eq!(left.type_(), &u8_type());
                    assert_eq!(right.type_(), &u8_type());
                }
                other => panic!("expected a comparison, found {:?}", other),
            }
        }
        other => panic!("expected a conditional, found {:?}", other),
    }
}

#[test]
fn test_check_tuple_type() {
    let tuple = Type::Tuple(vec![u8_type(), Type::Boolean]);

    assert_eq!(check_tuple_type(&Some(tuple), 5, span()), Ok(vec![Some(u8_type()), Some(Type::Boolean)]));
    assert_eq!(check_tuple_type(&None, 3, span()), Ok(vec![None, None, None]));
    assert_eq!(
        check_tuple_type(&Some(u8_type()), 1, span()),
        Err(TypeError::ExpectedTupleType { found: u8_type(), span: span() })
    );
}
