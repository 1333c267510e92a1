use leo_resolver::ast::{
    Circuit as UnresolvedCircuit, CircuitMember, CircuitVariableDefinition as UnresolvedMember,
    ConditionalNestedOrEndStatement as UnresolvedNestedOrEnd, ConditionalStatement, Expression,
    Function as UnresolvedFunction, FunctionInput, FunctionInputVariable, Program as UnresolvedProgram,
    Statement as Unresolved, TestFunction as UnresolvedTestFunction, Type as UnresolvedType, VariableName,
    Variables,
};
use leo_resolver::circuits::Circuit;
use leo_resolver::common::{Attribute, BinaryOperation, Declare, Identifier, IntegerType, Span};
use leo_resolver::errors::{ResolverError, SymbolTableError, TypeError};
use leo_resolver::expressions::{CircuitVariableDefinition, Expression as ResolvedExpression, ExpressionValue};
use leo_resolver::functions::function::insert_inputs;
use leo_resolver::functions::{conditionally_select_result, Function, TestFunction};
use leo_resolver::symbol_table::SymbolTable;
use leo_resolver::programs::Program;
use leo_resolver::resolver::LeoResolvedAst;
use leo_resolver::statements::{Conditional, ConditionalNestedOrEndStatement, Statement};
use leo_resolver::types::{
    CircuitFunctionType, CircuitType, CircuitVariableType, FunctionInputType, FunctionInputVariableType,
    FunctionOutputType, FunctionType, Type,
};

fn span() -> Span {
    Span { line: 1, start: 1, end: 1 }
}

fn at(line: usize) -> Span {
    Span { line, start: 0, end: 0 }
}

fn id(name: &str) -> Identifier {
    Identifier::new(name.to_string(), span())
}

fn u8_written() -> UnresolvedType {
    UnresolvedType::IntegerType(IntegerType::U8)
}

fn u32_written() -> UnresolvedType {
    UnresolvedType::IntegerType(IntegerType::U32)
}

fn u8_type() -> Type {
    Type::IntegerType(IntegerType::U8)
}

fn u32_type() -> Type {
    Type::IntegerType(IntegerType::U32)
}

fn name(name: &str) -> Expression {
    Expression::Identifier(id(name))
}

fn integer(integer_type: IntegerType, value: &str) -> Expression {
    Expression::Integer(integer_type, value.to_string(), span())
}

fn resolved_int(integer_type: IntegerType, value: &str) -> ResolvedExpression {
    ResolvedExpression {
        type_: Type::IntegerType(integer_type),
        value: ExpressionValue::Integer(integer_type, value.to_string(), span()),
    }
}

fn resolved_name(name: &str, type_: Type) -> ResolvedExpression {
    ResolvedExpression { type_, value: ExpressionValue::Identifier(id(name)) }
}

fn input(name: &str, type_: UnresolvedType) -> FunctionInput {
    FunctionInput::Variable(FunctionInputVariable { identifier: id(name), mutable: false, type_, span: span() })
}

fn resolved_input(name: &str, type_: Type) -> FunctionInputType {
    FunctionInputType::Variable(FunctionInputVariableType {
        identifier: id(name),
        type_,
        attributes: vec![],
        span: span(),
    })
}

fn function(
    name: &str,
    input: Vec<FunctionInput>,
    returns: Option<UnresolvedType>,
    statements: Vec<Unresolved>,
) -> UnresolvedFunction {
    UnresolvedFunction { identifier: id(name), input, returns, statements, span: at(9) }
}

fn program(circuits: Vec<UnresolvedCircuit>, functions: Vec<UnresolvedFunction>) -> UnresolvedProgram {
    UnresolvedProgram { circuits, functions, tests: vec![] }
}

fn return_(expression: Expression) -> Unresolved {
    Unresolved::Return(expression, at(3))
}

fn let_(name: &str, value: Expression) -> Unresolved {
    Unresolved::Definition(
        Declare::Let,
        Variables { names: vec![VariableName { mutable: false, identifier: id(name) }], type_: None },
        vec![value],
        at(2),
    )
}

fn if_(condition: Expression, statements: Vec<Unresolved>, next: Option<UnresolvedNestedOrEnd>) -> Unresolved {
    Unresolved::Conditional(ConditionalStatement { condition, statements, next }, at(6))
}

fn resolve(program: UnresolvedProgram) -> Result<Program, ResolverError> {
    LeoResolvedAst::new(&program).map(|resolved| resolved.resolved_ast)
}

fn type_error<T>(error: TypeError) -> Result<T, ResolverError> {
    Err(ResolverError::TypeError(error))
}

// Tests that a resolved syntax tree can be created from an empty program
#[test]
fn test_resolver_new() {
    let resolved = LeoResolvedAst::new(&UnresolvedProgram::new()).unwrap();

    assert_eq!(resolved, LeoResolvedAst { resolved_ast: Program { circuits: vec![], functions: vec![], tests: vec![] } });
}

fn foo_program() -> UnresolvedProgram {
    // circuit Foo { x: u32 }
    // function make() -> Foo { return Foo { x: 1u32 }; }
    let foo = UnresolvedCircuit {
        circuit_name: id("Foo"),
        members: vec![CircuitMember::CircuitVariable(false, id("x"), u32_written())],
    };
    let literal = Expression::Circuit(
        id("Foo"),
        vec![UnresolvedMember { identifier: id("x"), expression: integer(IntegerType::U32, "1") }],
        at(4),
    );
    let make = function("make", vec![], Some(UnresolvedType::Circuit(id("Foo"))), vec![return_(literal)]);
    program(vec![foo], vec![make])
}

#[test]
fn test_circuit_is_returned() {
    let resolved = resolve(foo_program()).unwrap();
    let foo_type = CircuitType {
        identifier: id("Foo"),
        variables: vec![CircuitVariableType { identifier: id("x"), type_: u32_type(), attributes: vec![] }],
        functions: vec![],
    };

    assert_eq!(resolved.circuits, vec![Circuit { type_: foo_type, functions: vec![] }]);
    assert_eq!(
        resolved.functions,
        vec![Function {
            type_: FunctionType {
                identifier: id("make"),
                inputs: vec![],
                output: FunctionOutputType { type_: Type::Circuit(id("Foo")) },
            },
            statements: vec![Statement::Return(
                ResolvedExpression {
                    type_: Type::Circuit(id("Foo")),
                    value: ExpressionValue::Circuit(
                        id("Foo"),
                        vec![CircuitVariableDefinition {
                            identifier: id("x"),
                            expression: resolved_int(IntegerType::U32, "1"),
                        }],
                        at(4),
                    ),
                },
                at(3),
            )],
        }]
    );
}

#[test]
fn test_resolution_is_deterministic() {
    assert_eq!(resolve(foo_program()), resolve(foo_program()));
    assert_eq!(
        resolve(program(vec![], vec![function("f", vec![], None, vec![let_("a", name("b"))])])),
        resolve(program(vec![], vec![function("f", vec![], None, vec![let_("a", name("b"))])]))
    );
}

#[test]
fn test_duplicate_function_name() {
    // the second body would not resolve, but the names are refused first
    let first = function("transfer", vec![], None, vec![]);
    let second = function("transfer", vec![], None, vec![let_("a", name("missing"))]);

    assert_eq!(
        resolve(program(vec![], vec![first, second])),
        Err(ResolverError::SymbolTableError(SymbolTableError::DuplicateFunctionName(id("transfer"))))
    );
}

#[test]
fn test_branch_without_return() {
    // function f(c: bool) -> u8 { if c { return 1u8; } else { } }
    let body = if_(
        name("c"),
        vec![return_(integer(IntegerType::U8, "1"))],
        Some(UnresolvedNestedOrEnd::End(vec![])),
    );
    let f = function("f", vec![input("c", UnresolvedType::Boolean)], Some(u8_written()), vec![body]);

    assert_eq!(
        resolve(program(vec![], vec![f])),
        type_error(TypeError::NoReturn { expected: u8_type(), span: at(9) })
    );
}

#[test]
fn test_return_after_branch() {
    // function f(c: bool) -> u8 { if c { return 1u8; } return 2u8; }
    let f = function(
        "f",
        vec![input("c", UnresolvedType::Boolean)],
        Some(u8_written()),
        vec![if_(name("c"), vec![return_(integer(IntegerType::U8, "1"))], None), return_(integer(IntegerType::U8, "2"))],
    );
    let resolved = resolve(program(vec![], vec![f])).unwrap();

    assert_eq!(
        resolved.functions[0].statements,
        vec![
            Statement::Conditional(Conditional {
                condition: resolved_name("c", Type::Boolean),
                statements: vec![Statement::Return(resolved_int(IntegerType::U8, "1"), at(3))],
                next: None,
                span: at(6),
            }),
            Statement::Return(resolved_int(IntegerType::U8, "2"), at(3)),
        ]
    );
}

#[test]
fn test_return_errors() {
    let one = || return_(integer(IntegerType::U8, "1"));
    let unit = || return_(Expression::Tuple(vec![], at(5)));

    assert_eq!(
        resolve(program(vec![], vec![function("f", vec![], Some(u8_written()), vec![])])),
        type_error(TypeError::NoReturn { expected: u8_type(), span: at(9) })
    );
    assert_eq!(
        resolve(program(vec![], vec![function("f", vec![], Some(u8_written()), vec![one(), one()])])),
        type_error(TypeError::MultipleReturns(at(9)))
    );
    assert_eq!(
        resolve(program(vec![], vec![function("f", vec![], None, vec![unit()])])),
        type_error(TypeError::InvalidNumberOfReturns { expected: 0, found: 1, span: at(9) })
    );
    assert_eq!(
        resolve(program(vec![], vec![function("f", vec![], None, vec![one()])])),
        type_error(TypeError::MismatchedTypes { expected: Type::Tuple(vec![]), found: u8_type(), span: span() })
    );
}

#[test]
fn test_conditionally_select_result() {
    let results = |indicators: &[bool]| -> Vec<(bool, Type)> {
        indicators.iter().map(|indicator| (*indicator, u8_type())).collect()
    };

    assert_eq!(conditionally_select_result(&None, &vec![], span()), Ok(None));
    assert_eq!(
        conditionally_select_result(&None, &results(&[false, true]), span()),
        Err(TypeError::InvalidNumberOfReturns { expected: 0, found: 2, span: span() })
    );
    assert_eq!(conditionally_select_result(&Some(u8_type()), &results(&[true]), span()), Ok(Some(0)));
    assert_eq!(
        conditionally_select_result(&Some(u8_type()), &results(&[false, false, true, false]), span()),
        Ok(Some(2))
    );
    assert_eq!(
        conditionally_select_result(&Some(u8_type()), &vec![], span()),
        Err(TypeError::NoReturn { expected: u8_type(), span: span() })
    );
    assert_eq!(
        conditionally_select_result(&Some(u8_type()), &results(&[false, false]), span()),
        Err(TypeError::NoReturn { expected: u8_type(), span: span() })
    );
    assert_eq!(
        conditionally_select_result(&Some(u8_type()), &results(&[true, false, true]), span()),
        Err(TypeError::MultipleReturns(span()))
    );
    assert_eq!(
        conditionally_select_result(&Some(u32_type()), &results(&[true]), span()),
        Err(TypeError::MismatchedTypes { expected: u32_type(), found: u8_type(), span: span() })
    );
    // the first error in the order of the results
    assert_eq!(
        conditionally_select_result(
            &Some(u8_type()),
            &vec![(true, u8_type()), (true, u8_type()), (false, u32_type())],
            span()
        ),
        Err(TypeError::MultipleReturns(span()))
    );
    assert_eq!(
        conditionally_select_result(
            &Some(u8_type()),
            &vec![(true, u8_type()), (false, u32_type()), (true, u8_type())],
            span()
        ),
        Err(TypeError::MismatchedTypes { expected: u8_type(), found: u32_type(), span: span() })
    );
}

#[test]
fn test_function_inputs_are_bound() {
    // function add(left: u8, right: u8) -> u8 { return left + right; }
    // function main() -> u8 { return add(1, 2); }
    let sum = Expression::Binary(BinaryOperation::Add, Box::new(name("left")), Box::new(name("right")), at(4));
    let add = function("add", vec![input("left", u8_written()), input("right", u8_written())], Some(u8_written()), vec![return_(sum)]);
    let call = Expression::FunctionCall(
        Box::new(name("add")),
        vec![Expression::Implicit("1".to_string(), span()), Expression::Implicit("2".to_string(), span())],
        at(5),
    );
    // `main` is written before `add`
    let main = function("main", vec![], Some(u8_written()), vec![return_(call)]);
    let resolved = resolve(program(vec![], vec![main, add])).unwrap();
    let add_type = FunctionType {
        identifier: id("add"),
        inputs: vec![resolved_input("left", u8_type()), resolved_input("right", u8_type())],
        output: FunctionOutputType { type_: u8_type() },
    };

    assert_eq!(resolved.functions.len(), 2);
    assert_eq!(resolved.functions[1].type_, add_type);
    assert_eq!(
        resolved.functions[0].statements,
        vec![Statement::Return(
            ResolvedExpression {
                type_: u8_type(),
                value: ExpressionValue::FunctionCall(
                    Box::new(resolved_name("add", Type::Function(id("add")))),
                    vec![resolved_int(IntegerType::U8, "1"), resolved_int(IntegerType::U8, "2")],
                    at(5),
                ),
            },
            at(3),
        )]
    );
}

#[test]
fn test_duplicate_function_input() {
    let f = function("f", vec![input("a", u8_written()), input("a", u8_written())], None, vec![]);

    assert_eq!(
        resolve(program(vec![], vec![f])),
        Err(ResolverError::SymbolTableError(SymbolTableError::DuplicateVariable(id("a"))))
    );
}

#[test]
fn test_failed_inputs_bind_nothing() {
    let mut table = SymbolTable::new(None);
    let inputs = vec![
        resolved_input("a", u8_type()),
        FunctionInputType::InputKeyword(id("input")),
        resolved_input("a", u32_type()),
    ];

    assert_eq!(
        insert_inputs(&mut table, &inputs),
        Err(ResolverError::SymbolTableError(SymbolTableError::DuplicateVariable(id("a"))))
    );
    assert!(table.get_variable(&"a".to_string()).is_none());
    assert_eq!(insert_inputs(&mut table, &vec![resolved_input("a", u8_type())]), Ok(()));
    assert_eq!(table.get_variable(&"a".to_string()).unwrap().type_(), &u8_type());
}

#[test]
fn test_function_definitions_do_not_leak() {
    // what `first` defines is not seen by `second`
    let first = function("first", vec![], None, vec![let_("a", integer(IntegerType::U8, "1"))]);
    let second = function("second", vec![], None, vec![let_("b", name("a"))]);

    assert_eq!(
        resolve(program(vec![], vec![first, second])),
        type_error(TypeError::UndefinedVariable(id("a")))
    );
}

#[test]
fn test_definition_may_shadow_program_name() {
    let f = function("f", vec![], None, vec![let_("f", integer(IntegerType::U8, "1"))]);

    assert!(resolve(program(vec![], vec![f])).is_ok());
}

#[test]
fn test_input_keyword_binds_nothing() {
    let f = function("f", vec![FunctionInput::InputKeyword(id("input"))], None, vec![let_("a", name("input"))]);

    assert_eq!(resolve(program(vec![], vec![f])), type_error(TypeError::UndefinedVariable(id("input"))));
}

fn counter() -> UnresolvedCircuit {
    // circuit Counter {
    //     count: u32,
    //     static function new() -> Self { return Counter { count: 0u32 }; }
    //     function get() -> u32 { return count; }
    //     function twice() -> u32 { return get() + get(); }
    // }
    let literal = Expression::Circuit(
        id("Counter"),
        vec![UnresolvedMember { identifier: id("count"), expression: integer(IntegerType::U32, "0") }],
        at(4),
    );
    let call = || Expression::FunctionCall(Box::new(name("get")), vec![], at(5));
    let sum = Expression::Binary(BinaryOperation::Add, Box::new(call()), Box::new(call()), at(4));
    UnresolvedCircuit {
        circuit_name: id("Counter"),
        members: vec![
            CircuitMember::CircuitVariable(false, id("count"), u32_written()),
            CircuitMember::CircuitFunction(
                true,
                function("new", vec![], Some(UnresolvedType::SelfType), vec![return_(literal)]),
            ),
            CircuitMember::CircuitFunction(false, function("get", vec![], Some(u32_written()), vec![return_(name("count"))])),
            CircuitMember::CircuitFunction(false, function("twice", vec![], Some(u32_written()), vec![return_(sum)])),
        ],
    }
}

#[test]
fn test_circuit_functions_are_resolved() {
    let resolved = resolve(program(vec![counter()], vec![])).unwrap();
    let circuit = &resolved.circuits[0];
    let output = |type_: Type| FunctionOutputType { type_ };

    assert_eq!(
        circuit.type_,
        CircuitType {
            identifier: id("Counter"),
            variables: vec![CircuitVariableType { identifier: id("count"), type_: u32_type(), attributes: vec![] }],
            functions: vec![
                CircuitFunctionType {
                    function: FunctionType {
                        identifier: id("new"),
                        inputs: vec![],
                        output: output(Type::Circuit(id("Counter"))),
                    },
                    attributes: vec![Attribute::Static],
                },
                CircuitFunctionType {
                    function: FunctionType { identifier: id("get"), inputs: vec![], output: output(u32_type()) },
                    attributes: vec![],
                },
                CircuitFunctionType {
                    function: FunctionType { identifier: id("twice"), inputs: vec![], output: output(u32_type()) },
                    attributes: vec![],
                },
            ],
        }
    );
    assert_eq!(circuit.functions.len(), 3);
    assert_eq!(circuit.functions[0].type_, circuit.type_.functions[0].function);
    assert_eq!(
        circuit.functions[1].statements,
        vec![Statement::Return(resolved_name("count", u32_type()), at(3))]
    );
    match &circuit.functions[2].statements[0] {
        Statement::Return(expression, _) => assert_eq!(expression.type_(), &u32_type()),
        other => panic!("expected a return, found {:?}", other),
    }
}

#[test]
fn test_static_function_is_called_from_program() {
    // function main() -> Counter { return Counter::new(); }
    let call = Expression::FunctionCall(
        Box::new(Expression::CircuitStaticFunctionAccess(Box::new(name("Counter")), id("new"), at(4))),
        vec![],
        at(5),
    );
    let main = function("main", vec![], Some(UnresolvedType::Circuit(id("Counter"))), vec![return_(call)]);
    let resolved = resolve(program(vec![counter()], vec![main])).unwrap();

    match &resolved.functions[0].statements[0] {
        Statement::Return(expression, _) => assert_eq!(expression.type_(), &Type::Circuit(id("Counter"))),
        other => panic!("expected a return, found {:?}", other),
    }
}

#[test]
fn test_circuit_duplicate_member() {
    let circuit = UnresolvedCircuit {
        circuit_name: id("Foo"),
        members: vec![
            CircuitMember::CircuitVariable(false, id("x"), u32_written()),
            CircuitMember::CircuitFunction(false, function("x", vec![], None, vec![])),
        ],
    };

    assert_eq!(
        resolve(program(vec![circuit], vec![])),
        Err(ResolverError::SymbolTableError(SymbolTableError::DuplicateVariable(id("x"))))
    );
}

#[test]
fn test_circuit_member_of_undefined_type() {
    let circuit = UnresolvedCircuit {
        circuit_name: id("Foo"),
        members: vec![CircuitMember::CircuitVariable(false, id("x"), UnresolvedType::Circuit(id("Nowhere")))],
    };

    assert_eq!(resolve(program(vec![circuit], vec![])), type_error(TypeError::UndefinedCircuit(id("Nowhere"))));
}

#[test]
fn test_tests_are_resolved() {
    let test = |statements: Vec<Unresolved>| UnresolvedTestFunction {
        function: function("check", vec![], None, statements),
        input_file: Some(id("inputs")),
    };
    let declared = || function("check", vec![], None, vec![]);
    let resolved = resolve(UnresolvedProgram {
        circuits: vec![],
        functions: vec![declared()],
        tests: vec![test(vec![let_("a", integer(IntegerType::U8, "1"))])],
    })
    .unwrap();

    assert_eq!(resolved.tests.len(), 1);
    assert_eq!(resolved.tests[0].input_file, Some(id("inputs")));
    assert_eq!(resolved.tests[0].function.statements.len(), 1);
    assert_eq!(
        resolve(UnresolvedProgram {
            circuits: vec![],
            functions: vec![declared()],
            tests: vec![test(vec![let_("a", name("missing"))])],
        }),
        type_error(TypeError::UndefinedVariable(id("missing")))
    );
    // a test whose name is the name of no function has no signature
    assert_eq!(
        resolve(UnresolvedProgram { circuits: vec![], functions: vec![], tests: vec![test(vec![])] }),
        type_error(TypeError::UndefinedFunction(id("check")))
    );
    let direct = TestFunction::resolve(&SymbolTable::new(None), &test(vec![]));
    assert_eq!(direct, type_error(TypeError::UndefinedFunction(id("check"))));
}

#[test]
fn test_nested_conditionals_resolve() {
    // function f(c: bool) -> u8 { if c { if c { let a = 1u8; } else if c { } else { } } return 0u8; }
    let inner = if_(
        name("c"),
        vec![let_("a", integer(IntegerType::U8, "1"))],
        Some(UnresolvedNestedOrEnd::Nested(Box::new(ConditionalStatement {
            condition: name("c"),
            statements: vec![],
            next: Some(UnresolvedNestedOrEnd::End(vec![])),
        }))),
    );
    let f = function(
        "f",
        vec![input("c", UnresolvedType::Boolean)],
        Some(u8_written()),
        vec![if_(name("c"), vec![inner], None), return_(integer(IntegerType::U8, "0"))],
    );
    let resolved = resolve(program(vec![], vec![f])).unwrap();

    match &resolved.functions[0].statements[0] {
        Statement::Conditional(outer) => match &outer.statements[0] {
            Statement::Conditional(inner) => match &inner.next {
                Some(ConditionalNestedOrEndStatement::Nested(nested)) => {
                    assert_eq!(nested.next, Some(ConditionalNestedOrEndStatement::End(vec![])));
                }
                other => panic!("expected a nested conditional, found {:?}", other),
            },
            other => panic!("expected a conditional, found {:?}", other),
        },
        other => panic!("expected a conditional, found {:?}", other),
    }
}
