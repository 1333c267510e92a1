use leo_resolver::ast::{
    Circuit, CircuitMember, CircuitVariableDefinition, Expression, Function, Program, Statement,
    Type as UnresolvedType, VariableName, Variables,
};
use leo_resolver::common::{BinaryOperation, Declare, Identifier, IntegerType, Span};
use leo_resolver::errors::{ResolverError, TypeError};
use leo_resolver::resolver::LeoResolvedAst;
use leo_resolver::symbol_table::{Entry, SymbolTable};
use leo_resolver::types::{CircuitType, Type};

fn span() -> Span {
    Span { line: 1, start: 1, end: 1 }
}

fn id(name: &str) -> Identifier {
    Identifier::new(name.to_string(), span())
}

fn integer(integer_type: IntegerType, value: &str) -> Expression {
    Expression::Integer(integer_type, value.to_string(), span())
}

/// `let a: type_ = value;` or `let a = value;`
fn define_a(type_: Option<UnresolvedType>, value: Expression) -> Statement {
    Statement::Definition(
        Declare::Let,
        Variables { names: vec![VariableName { mutable: false, identifier: id("a") }], type_ },
        vec![value],
        span(),
    )
}

fn function(name: &str, statements: Vec<Statement>) -> Function {
    Function { identifier: id(name), input: vec![], returns: None, statements, span: span() }
}

fn program(circuits: Vec<Circuit>, functions: Vec<Function>) -> Program {
    Program { circuits, functions, tests: vec![] }
}

fn expect_type_error(program: Program) -> TypeError {
    match LeoResolvedAst::new(&program) {
        Err(ResolverError::TypeError(error)) => error,
        other => panic!("Expected a type error found `{:?}`", other),
    }
}

///
/// Defines a variable `a` with explicit type `[u8; 32]` and value `1u8`.
///
/// Expected output: TypeError
/// Message: "Expected type `[u8; (32)]`, found type `u8`."
///
#[test]
fn test_invalid_array() {
    let array = || UnresolvedType::Array(Box::new(UnresolvedType::IntegerType(IntegerType::U8)), vec![32]);
    let main = function("main", vec![define_a(Some(array()), integer(IntegerType::U8, "1"))]);
    let error = expect_type_error(program(vec![], vec![main]));

    assert_eq!(
        error,
        TypeError::MismatchedTypes {
            expected: Type::Array(Box::new(Type::IntegerType(IntegerType::U8)), vec![32]),
            found: Type::IntegerType(IntegerType::U8),
            span: span(),
        }
    );
}

///
/// Defines a circuit `Foo { x: u32 }`.
/// Defines a function `foo() {}`.
/// Attempts to access variable `foo.x`.
///
/// Expected output: TypeError
/// Message: "Expected circuit type, found type `function foo`."
///
#[test]
fn test_invalid_circuit() {
    let circuit = Circuit {
        circuit_name: id("Foo"),
        members: vec![CircuitMember::CircuitVariable(
            false,
            id("x"),
            UnresolvedType::IntegerType(IntegerType::U32),
        )],
    };
    let foo = function("foo", vec![]);
    let access =
        Expression::CircuitMemberAccess(Box::new(Expression::Identifier(id("foo"))), id("x"), span());
    let main = function("main", vec![define_a(None, access)]);
    let error = expect_type_error(program(vec![circuit], vec![foo, main]));

    assert_eq!(error, TypeError::ExpectedCircuitType { found: Type::Function(id("foo")), span: span() });
}

///
/// Defines a circuit `Foo {}`.
/// Attempts to call the circuit like a function using parenthesis `Foo()`.
///
/// Expected output: TypeError
/// Message: "Expected function type, found type `circuit Foo`."
///
#[test]
fn test_invalid_function() {
    let circuit = Circuit { circuit_name: id("Foo"), members: vec![] };
    let call = Expression::FunctionCall(Box::new(Expression::Identifier(id("Foo"))), vec![], span());
    let main = function("main", vec![define_a(None, call)]);
    let error = expect_type_error(program(vec![circuit], vec![main]));

    assert_eq!(error, TypeError::ExpectedFunctionType { found: Type::Circuit(id("Foo")), span: span() });
}

///
/// Attempts to compare boolean values `false < true`.
///
/// Expected output: TypeError
/// Message: "Expected integer type, found type `bool`."
///
#[test]
fn test_invalid_integer() {
    let compare = Expression::Binary(
        BinaryOperation::Lt,
        Box::new(Expression::Boolean("false".to_string(), span())),
        Box::new(Expression::Boolean("true".to_string(), span())),
        span(),
    );
    let main = function("main", vec![define_a(None, compare)]);
    let error = expect_type_error(program(vec![], vec![main]));

    assert_eq!(error, TypeError::ExpectedIntegerType { found: Type::Boolean, span: span() });
}

///
/// Defines a variable `a` with value `1u8`.
/// Attempts to access the first tuple index `a.0`.
///
/// Expected output: TypeError
/// Message: "Expected tuple type, found type `u8`."
///
#[test]
fn test_invalid_tuple() {
    let access = Expression::TupleAccess(Box::new(Expression::Identifier(id("a"))), 0, span());
    let main = function(
        "main",
        vec![
            define_a(None, integer(IntegerType::U8, "1")),
            Statement::Definition(
                Declare::Let,
                Variables {
                    names: vec![VariableName { mutable: false, identifier: id("b") }],
                    type_: None,
                },
                vec![access],
                span(),
            ),
        ],
    );
    let error = expect_type_error(program(vec![], vec![main]));

    assert_eq!(
        error,
        TypeError::ExpectedTupleType { found: Type::IntegerType(IntegerType::U8), span: span() }
    );
}

///
/// Defines a variable `a` with explicit type `u8` and value `1u32`.
///
/// Expected output: TypeError
/// Message: "Expected type `u8`, found type `u32`."
///
#[test]
fn test_mismatched_types() {
    let main = function(
        "main",
        vec![define_a(
            Some(UnresolvedType::IntegerType(IntegerType::U8)),
            integer(IntegerType::U32, "1"),
        )],
    );
    let error = expect_type_error(program(vec![], vec![main]));

    assert_eq!(
        error,
        TypeError::MismatchedTypes {
            expected: Type::IntegerType(IntegerType::U8),
            found: Type::IntegerType(IntegerType::U32),
            span: span(),
        }
    );
}

///
/// Defines a variable `a` with explicit type `Self` and value `1u32`.
///
/// Expected output: TypeError
/// Message: "Type `Self` is only available in circuit definitions and circuit functions."
///
#[test]
fn test_self_not_available() {
    let main = function(
        "main",
        vec![define_a(Some(UnresolvedType::SelfType), integer(IntegerType::U32, "1"))],
    );
    let error = expect_type_error(program(vec![], vec![main]));

    assert_eq!(error, TypeError::SelfNotAvailable(span()));
}

///
/// Defines a variable `a` with explicit type `Foo` and value `1u8`.
///
/// Expected output: TypeError
/// Message: "Type circuit `Foo` must be defined before it is used in an expression."
///
#[test]
fn test_undefined_circuit() {
    let main = function(
        "main",
        vec![define_a(Some(UnresolvedType::Circuit(id("Foo"))), integer(IntegerType::U8, "1"))],
    );
    let error = expect_type_error(program(vec![], vec![main]));

    assert_eq!(error, TypeError::UndefinedCircuit(id("Foo")));
}

///
/// Defines circuit `Foo { a: u32 }`.
/// Attempts to initialize circuit `Foo { b: 1u32 }`.
///
/// Expected output: TypeError
/// Message: "Circuit has no member variable named `b`."
///
#[test]
fn test_undefined_circuit_member() {
    let circuit = Circuit {
        circuit_name: id("Foo"),
        members: vec![CircuitMember::CircuitVariable(
            false,
            id("a"),
            UnresolvedType::IntegerType(IntegerType::U32),
        )],
    };
    let literal = Expression::Circuit(
        id("Foo"),
        vec![CircuitVariableDefinition { identifier: id("b"), expression: integer(IntegerType::U32, "1") }],
        span(),
    );
    let main = function("main", vec![define_a(None, literal)]);
    let error = expect_type_error(program(vec![circuit], vec![main]));

    assert_eq!(error, TypeError::UndefinedCircuitMember(id("b")));
}

fn u8_type() -> UnresolvedType {
    UnresolvedType::IntegerType(IntegerType::U8)
}

fn table_with(names: &[&str]) -> SymbolTable {
    let mut table = SymbolTable::new(None);
    for name in names {
        let circuit = Circuit { circuit_name: id(name), members: vec![] };
        table.insert_variable(name.to_string(), Entry::from_circuit(&circuit));
    }
    table
}

#[test]
fn test_resolve_scalar_types() {
    let table = SymbolTable::new(None);

    assert_eq!(Type::resolve(&table, &UnresolvedType::Address, span()), Ok(Type::Address));
    assert_eq!(Type::resolve(&table, &UnresolvedType::Boolean, span()), Ok(Type::Boolean));
    assert_eq!(Type::resolve(&table, &UnresolvedType::Field, span()), Ok(Type::Field));
    assert_eq!(Type::resolve(&table, &UnresolvedType::Group, span()), Ok(Type::Group));
    assert_eq!(
        Type::resolve(&table, &UnresolvedType::IntegerType(IntegerType::I64), span()),
        Ok(Type::IntegerType(IntegerType::I64))
    );
}

#[test]
fn test_resolve_array_copies_dimensions() {
    let table = SymbolTable::new(None);
    let unresolved = UnresolvedType::Array(Box::new(u8_type()), vec![3, 2]);

    assert_eq!(
        Type::resolve(&table, &unresolved, span()),
        Ok(Type::Array(Box::new(Type::IntegerType(IntegerType::U8)), vec![3, 2]))
    );
}

#[test]
fn test_resolve_tuple_in_order() {
    let table = table_with(&["Foo"]);
    let unresolved =
        UnresolvedType::Tuple(vec![u8_type(), UnresolvedType::Circuit(id("Foo")), UnresolvedType::Boolean]);

    assert_eq!(
        Type::resolve(&table, &unresolved, span()),
        Ok(Type::Tuple(vec![Type::IntegerType(IntegerType::U8), Type::Circuit(id("Foo")), Type::Boolean]))
    );
}

#[test]
fn test_resolve_tuple_reports_first_error() {
    let table = SymbolTable::new(None);
    let unresolved = UnresolvedType::Tuple(vec![
        u8_type(),
        UnresolvedType::Circuit(id("First")),
        UnresolvedType::Circuit(id("Second")),
    ]);

    assert_eq!(Type::resolve(&table, &unresolved, span()), Err(TypeError::UndefinedCircuit(id("First"))));
}

#[test]
fn test_resolve_circuit_in_parent_scope() {
    let table = table_with(&["Foo"]);
    let child = SymbolTable::new(Some(Box::new(table)));

    assert_eq!(
        Type::resolve(&child, &UnresolvedType::Circuit(id("Foo")), span()),
        Ok(Type::Circuit(id("Foo")))
    );
}

#[test]
fn test_resolve_self_inside_circuit() {
    let table = SymbolTable::new(None);
    let nested = UnresolvedType::Array(Box::new(UnresolvedType::SelfType), vec![4]);

    assert_eq!(
        Type::from_circuit(&table, &UnresolvedType::SelfType, &id("Foo"), span()),
        Ok(Type::Circuit(id("Foo")))
    );
    assert_eq!(
        Type::from_circuit(&table, &nested, &id("Foo"), span()),
        Ok(Type::Array(Box::new(Type::Circuit(id("Foo"))), vec![4]))
    );
    assert_eq!(
        Type::resolve(&table, &nested, Span { line: 7, start: 2, end: 9 }),
        Err(TypeError::SelfNotAvailable(Span { line: 7, start: 2, end: 9 }))
    );
}

#[test]
fn test_type_equality_is_structural() {
    let first = Type::Tuple(vec![Type::Array(Box::new(Type::Field), vec![2]), Type::Circuit(id("Foo"))]);
    let same = Type::Tuple(vec![
        Type::Array(Box::new(Type::Field), vec![2]),
        Type::Circuit(Identifier::new("Foo".to_string(), Span { line: 9, start: 9, end: 9 })),
    ]);
    let other_dimension =
        Type::Tuple(vec![Type::Array(Box::new(Type::Field), vec![3]), Type::Circuit(id("Foo"))]);

    assert!(first.same(&same));
    assert!(!first.same(&other_dimension));
    assert!(!Type::Circuit(id("Foo")).same(&Type::Function(id("Foo"))));
    assert!(!Type::IntegerType(IntegerType::U8).same(&Type::IntegerType(IntegerType::U32)));
    assert!(first.duplicate().same(&first));
    assert_eq!(first.clone(), first);
}

#[test]
fn test_check_type() {
    let u8_type = Type::IntegerType(IntegerType::U8);
    let u32_type = Type::IntegerType(IntegerType::U32);

    assert_eq!(Type::check_type(&None, &u8_type, span()), Ok(()));
    assert_eq!(Type::check_type(&Some(u8_type.clone()), &u8_type, span()), Ok(()));
    assert_eq!(
        Type::check_type(&Some(u32_type.clone()), &u8_type, span()),
        Err(TypeError::MismatchedTypes { expected: u32_type, found: u8_type, span: span() })
    );
}

#[test]
fn test_get_type() {
    let array = Type::Array(Box::new(Type::Boolean), vec![5]);
    let tuple = Type::Tuple(vec![Type::Boolean, Type::Field]);
    let circuit = Type::Circuit(id("Foo"));
    let function = Type::Function(id("foo"));

    assert_eq!(array.get_type_array(span()), Ok((&Type::Boolean, &vec![5])));
    assert_eq!(tuple.get_type_tuple(span()), Ok(&vec![Type::Boolean, Type::Field]));
    assert_eq!(circuit.get_type_circuit(span()), Ok(&id("Foo")));
    assert_eq!(function.get_type_function(span()), Ok(&id("foo")));
    assert_eq!(Type::IntegerType(IntegerType::I8).check_type_integer(span()), Ok(()));

    assert_eq!(
        tuple.get_type_array(span()),
        Err(TypeError::ExpectedArrayType { found: tuple.clone(), span: span() })
    );
    assert_eq!(
        array.get_type_tuple(span()),
        Err(TypeError::ExpectedTupleType { found: array.clone(), span: span() })
    );
    assert_eq!(
        function.get_type_circuit(span()),
        Err(TypeError::ExpectedCircuitType { found: function.clone(), span: span() })
    );
    assert_eq!(
        circuit.get_type_function(span()),
        Err(TypeError::ExpectedFunctionType { found: circuit.clone(), span: span() })
    );
    assert_eq!(
        Type::Field.check_type_integer(span()),
        Err(TypeError::ExpectedIntegerType { found: Type::Field, span: span() })
    );
}

#[test]
fn test_element_type() {
    assert_eq!(Type::element_type(&Type::Boolean, &vec![5]), Type::Boolean);
    assert_eq!(Type::element_type(&Type::Boolean, &vec![5, 4, 3]), Type::Boolean);
    assert_eq!(
        Type::element_type(&Type::Array(Box::new(Type::Field), vec![2]), &vec![3]),
        Type::Array(Box::new(Type::Field), vec![2])
    );
}

#[test]
fn test_resolve_circuit_needs_a_circuit() {
    let mut table = SymbolTable::new(None);
    let function = Function { identifier: id("f"), input: vec![], returns: None, statements: vec![], span: span() };
    table.insert_variable(
        "x".to_string(),
        Entry { identifier: id("x"), type_: Type::IntegerType(IntegerType::U8), attributes: vec![] },
    );
    table.insert_variable("f".to_string(), Entry::from_function(&function));
    // bound to the circuit type of another name
    table.insert_variable(
        "Bar".to_string(),
        Entry { identifier: id("Bar"), type_: Type::Circuit(id("Foo")), attributes: vec![] },
    );

    // a variable is no circuit, and neither is a function
    assert_eq!(
        Type::resolve(&table, &UnresolvedType::Circuit(id("x")), span()),
        Err(TypeError::UndefinedCircuit(id("x")))
    );
    assert_eq!(
        Type::resolve(&table, &UnresolvedType::Circuit(id("f")), span()),
        Err(TypeError::UndefinedCircuit(id("f")))
    );
    assert_eq!(
        Type::resolve(&table, &UnresolvedType::Circuit(id("Bar")), span()),
        Err(TypeError::UndefinedCircuit(id("Bar")))
    );
    assert_eq!(
        Type::resolve(&table, &UnresolvedType::Array(Box::new(UnresolvedType::Circuit(id("x"))), vec![2]), span()),
        Err(TypeError::UndefinedCircuit(id("x")))
    );
    assert!(!table.denotes_circuit(&"x".to_string()));
    assert!(!table.denotes_circuit(&"missing".to_string()));
}

#[test]
fn test_resolve_circuit_that_is_defined() {
    // the circuit is defined, and a variable of a nested scope hides its name
    let mut table = SymbolTable::new(None);
    table.insert_circuit(id("Foo"), CircuitType { identifier: id("Foo"), variables: vec![], functions: vec![] });
    let mut child = table.child();
    child.insert_variable(
        "Foo".to_string(),
        Entry { identifier: id("Foo"), type_: Type::Boolean, attributes: vec![] },
    );

    assert!(table.denotes_circuit(&"Foo".to_string()));
    assert_eq!(Type::resolve(&table, &UnresolvedType::Circuit(id("Foo")), span()), Ok(Type::Circuit(id("Foo"))));
    assert_eq!(Type::resolve(&child, &UnresolvedType::Circuit(id("Foo")), span()), Ok(Type::Circuit(id("Foo"))));
}
