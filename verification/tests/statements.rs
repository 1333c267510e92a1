use leo_resolver::ast::{
    Assignee as UnresolvedAssignee, AssigneeAccess as UnresolvedAccess,
    ConditionalNestedOrEndStatement as UnresolvedNestedOrEnd, ConditionalStatement, Expression,
    RangeOrExpression, Statement as Unresolved, Type as UnresolvedType, VariableName, Variables,
};
use leo_resolver::common::{Attribute, Declare, Identifier, IntegerType, Span};
use leo_resolver::errors::{ResolverError, SymbolTableError, TypeError};
use leo_resolver::expressions::{Expression as ResolvedExpression, ExpressionValue};
use leo_resolver::statements::definition::insert_defined_variable;
use leo_resolver::statements::{
    resolve_statements, Assign, Assignee, AssigneeAccess, Conditional, ConditionalNestedOrEndStatement,
    Definition, DefinitionVariables, Statement,
};
use leo_resolver::symbol_table::{Entry, SymbolTable};
use leo_resolver::types::{
    CircuitFunctionType, CircuitType, CircuitVariableType, FunctionOutputType, FunctionType, Type,
};

fn span() -> Span {
    Span { line: 1, start: 1, end: 1 }
}

fn at(line: usize) -> Span {
    Span { line, start: 0, end: 0 }
}

fn id(name: &str) -> Identifier {
    Identifier::new(name.to_string(), span())
}

fn u8_type() -> Type {
    Type::IntegerType(IntegerType::U8)
}

fn u32_type() -> Type {
    Type::IntegerType(IntegerType::U32)
}

fn name(name: &str) -> Expression {
    Expression::Identifier(id(name))
}

fn integer(integer_type: IntegerType, value: &str) -> Expression {
    Expression::Integer(integer_type, value.to_string(), span())
}

fn implicit(value: &str) -> Expression {
    Expression::Implicit(value.to_string(), span())
}

fn resolved_name(name: &str, type_: Type) -> ResolvedExpression {
    ResolvedExpression { type_, value: ExpressionValue::Identifier(id(name)) }
}

fn resolved_int(integer_type: IntegerType, value: &str) -> ResolvedExpression {
    ResolvedExpression {
        type_: Type::IntegerType(integer_type),
        value: ExpressionValue::Integer(integer_type, value.to_string(), span()),
    }
}

fn variable_name(name: &str, mutable: bool) -> VariableName {
    VariableName { mutable, identifier: id(name) }
}

fn define(names: Vec<VariableName>, type_: Option<UnresolvedType>, values: Vec<Expression>) -> Unresolved {
    Unresolved::Definition(Declare::Let, Variables { names, type_ }, values, at(2))
}

fn let_(name: &str, type_: Option<UnresolvedType>, value: Expression) -> Unresolved {
    define(vec![variable_name(name, false)], type_, vec![value])
}

fn variable(table: &mut SymbolTable, name: &str, type_: Type, attributes: Vec<Attribute>) {
    table.insert_variable(name.to_string(), Entry { identifier: id(name), type_, attributes });
}

/// Variables `a: u8`, `flag: bool`, mutable `m: u32`, mutable `arr: [u8; 10]`, mutable
/// `pair: (u8, bool)`, mutable `point: Point`, mutable `f: function f`; the circuit
/// `Point { x: u32 }` with the function `norm() -> u8`; the function `f() -> bool`.
fn table() -> SymbolTable {
    let mut table = SymbolTable::new(None);
    variable(&mut table, "a", u8_type(), vec![]);
    variable(&mut table, "flag", Type::Boolean, vec![]);
    variable(&mut table, "m", u32_type(), vec![Attribute::Mutable]);
    variable(&mut table, "arr", Type::Array(Box::new(u8_type()), vec![10]), vec![Attribute::Mutable]);
    variable(&mut table, "pair", Type::Tuple(vec![u8_type(), Type::Boolean]), vec![Attribute::Mutable]);
    variable(&mut table, "point", Type::Circuit(id("Point")), vec![Attribute::Mutable]);
    variable(&mut table, "f", Type::Function(id("f")), vec![Attribute::Mutable]);
    table.insert_circuit(
        id("Point"),
        CircuitType {
            identifier: id("Point"),
            variables: vec![CircuitVariableType { identifier: id("x"), type_: u32_type(), attributes: vec![] }],
            functions: vec![CircuitFunctionType {
                function: FunctionType {
                    identifier: id("norm"),
                    inputs: vec![],
                    output: FunctionOutputType { type_: u8_type() },
                },
                attributes: vec![],
            }],
        },
    );
    table.insert_function(
        id("f"),
        FunctionType { identifier: id("f"), inputs: vec![], output: FunctionOutputType { type_: Type::Boolean } },
    );
    table
}

fn returning(type_: Type) -> FunctionOutputType {
    FunctionOutputType { type_ }
}

fn resolve_in(table: &mut SymbolTable, statement: Unresolved) -> Result<Statement, ResolverError> {
    Statement::resolve(table, &returning(u8_type()), None, &statement)
}

fn resolve(statement: Unresolved) -> Result<Statement, ResolverError> {
    resolve_in(&mut table(), statement)
}

fn type_error(error: TypeError) -> Result<Statement, ResolverError> {
    Err(ResolverError::TypeError(error))
}

#[test]
fn test_return_has_return_type() {
    assert_eq!(
        resolve(Unresolved::Return(implicit("1"), at(3))),
        Ok(Statement::Return(resolved_int(IntegerType::U8, "1"), at(3)))
    );
    assert_eq!(
        resolve(Unresolved::Return(name("flag"), at(3))),
        type_error(TypeError::MismatchedTypes { expected: u8_type(), found: Type::Boolean, span: span() })
    );
}

#[test]
fn test_definition_single() {
    let mut table = table();
    let resolved = resolve_in(&mut table, define(vec![variable_name("n", true)], None, vec![name("a")]));

    assert_eq!(
        resolved,
        Ok(Statement::Definition(Definition {
            declare: Declare::Let,
            variables: DefinitionVariables::Single(variable_name("n", true), resolved_name("a", u8_type())),
            span: at(2),
        }))
    );
    let entry = table.get_variable(&"n".to_string()).unwrap();
    assert_eq!(entry.type_(), &u8_type());
    assert!(entry.is_mutable());
    assert!(!entry.is_static());
}

#[test]
fn test_definition_is_not_mutable_unless_written_so() {
    let mut table = table();
    resolve_in(&mut table, let_("n", None, name("a"))).unwrap();

    assert!(!table.get_variable(&"n".to_string()).unwrap().is_mutable());
}

#[test]
fn test_definition_does_not_widen() {
    // let a = 1u8; let b: u32 = a;
    let mut table = SymbolTable::new(None);
    let first = let_("a", None, integer(IntegerType::U8, "1"));
    let second = let_("b", Some(UnresolvedType::IntegerType(IntegerType::U32)), name("a"));

    assert!(resolve_in(&mut table, first).is_ok());
    assert_eq!(
        resolve_in(&mut table, second),
        type_error(TypeError::MismatchedTypes { expected: u32_type(), found: u8_type(), span: span() })
    );
}

#[test]
fn test_failed_definition_binds_nothing() {
    let mut table = table();
    let u8_written = || UnresolvedType::IntegerType(IntegerType::U8);
    let array = UnresolvedType::Array(Box::new(u8_written()), vec![32]);

    // let n: [u8; 32] = 1u8;
    assert!(resolve_in(&mut table, let_("n", Some(array), integer(IntegerType::U8, "1"))).is_err());
    assert!(table.get_variable(&"n".to_string()).is_none());
    // let n: u8 = 1u32;
    assert!(resolve_in(&mut table, let_("n", Some(u8_written()), integer(IntegerType::U32, "1"))).is_err());
    assert!(table.get_variable(&"n".to_string()).is_none());
    // let n: Nowhere = 1u8;
    assert!(resolve_in(
        &mut table,
        let_("n", Some(UnresolvedType::Circuit(id("Nowhere"))), integer(IntegerType::U8, "1"))
    )
    .is_err());
    assert!(table.get_variable(&"n".to_string()).is_none());
    // let n: u32 = a;
    assert!(resolve_in(
        &mut table,
        let_("n", Some(UnresolvedType::IntegerType(IntegerType::U32)), name("a"))
    )
    .is_err());
    assert!(table.get_variable(&"n".to_string()).is_none());
    // let (x, y, z) = pair;
    let names = vec![variable_name("x", false), variable_name("y", false), variable_name("z", false)];
    assert!(resolve_in(&mut table, define(names, None, vec![name("pair")])).is_err());
    assert!(table.get_variable(&"x".to_string()).is_none());
    assert!(table.get_variable(&"y".to_string()).is_none());
    assert!(table.get_variable(&"z".to_string()).is_none());
}

#[test]
fn test_failed_definition_of_several_names_binds_none() {
    let mut table = table();

    // let (x, a) = pair; `a` is bound already, so `x` is not bound either
    let names = vec![variable_name("x", false), variable_name("a", true)];
    assert_eq!(
        resolve_in(&mut table, define(names, None, vec![name("pair")])),
        Err(ResolverError::SymbolTableError(SymbolTableError::DuplicateVariable(id("a"))))
    );
    assert!(table.get_variable(&"x".to_string()).is_none());
    assert_eq!(table.get_variable(&"a".to_string()).unwrap().type_(), &u8_type());
    assert!(!table.get_variable(&"a".to_string()).unwrap().is_mutable());

    // let (x, x) = (a, flag);
    let names = vec![variable_name("x", false), variable_name("x", false)];
    assert!(resolve_in(&mut table, define(names, None, vec![name("a"), name("flag")])).is_err());
    assert!(table.get_variable(&"x".to_string()).is_none());
}

#[test]
fn test_duplicate_definition_keeps_binding() {
    let mut table = table();

    assert_eq!(
        insert_defined_variable(&mut table, &variable_name("a", true), &Type::Boolean),
        Err(ResolverError::SymbolTableError(SymbolTableError::DuplicateVariable(id("a"))))
    );
    assert_eq!(
        table.get_variable(&"a".to_string()),
        Some(&Entry { identifier: id("a"), type_: u8_type(), attributes: vec![] })
    );

    // a name of an outer scope is shadowed, and the outer binding stays
    let mut child = table.child();
    assert_eq!(insert_defined_variable(&mut child, &variable_name("a", true), &Type::Boolean), Ok(()));
    assert_eq!(
        child.get_variable(&"a".to_string()),
        Some(&Entry { identifier: id("a"), type_: Type::Boolean, attributes: vec![Attribute::Mutable] })
    );
    assert_eq!(table.get_variable(&"a".to_string()).unwrap().type_(), &u8_type());
}

#[test]
fn test_definition_of_written_type() {
    let mut table = table();
    let resolved = resolve_in(
        &mut table,
        let_("n", Some(UnresolvedType::IntegerType(IntegerType::I64)), implicit("5")),
    );

    assert_eq!(
        resolved,
        Ok(Statement::Definition(Definition {
            declare: Declare::Let,
            variables: DefinitionVariables::Single(
                variable_name("n", false),
                resolved_int(IntegerType::I64, "5")
            ),
            span: at(2),
        }))
    );
}

#[test]
fn test_definition_type_errors() {
    assert_eq!(
        resolve(let_("n", Some(UnresolvedType::Circuit(id("Nowhere"))), name("a"))),
        type_error(TypeError::UndefinedCircuit(id("Nowhere")))
    );
    assert_eq!(
        resolve(let_("n", Some(UnresolvedType::SelfType), name("a"))),
        type_error(TypeError::SelfNotAvailable(at(2)))
    );
}

#[test]
fn test_definition_self_inside_circuit() {
    let mut table = table();
    let statement = let_("n", Some(UnresolvedType::SelfType), name("point"));
    let resolved = Statement::resolve(&mut table, &returning(u8_type()), Some(&id("Point")), &statement);

    assert_eq!(
        resolved,
        Ok(Statement::Definition(Definition {
            declare: Declare::Let,
            variables: DefinitionVariables::Single(
                variable_name("n", false),
                resolved_name("point", Type::Circuit(id("Point")))
            ),
            span: at(2),
        }))
    );
}

#[test]
fn test_definition_duplicate_in_same_scope() {
    assert_eq!(
        resolve(let_("a", None, name("a"))),
        Err(ResolverError::SymbolTableError(SymbolTableError::DuplicateVariable(id("a"))))
    );
}

#[test]
fn test_definition_shadows_in_child_scope() {
    let mut child = table().child();

    assert!(resolve_in(&mut child, let_("a", None, name("flag"))).is_ok());
    assert_eq!(child.get_variable(&"a".to_string()).unwrap().type_(), &Type::Boolean);
}

#[test]
fn test_definition_tuple() {
    let mut table = table();
    let resolved = resolve_in(
        &mut table,
        define(vec![variable_name("t", false)], None, vec![name("a"), name("flag")]),
    );

    assert_eq!(
        resolved,
        Ok(Statement::Definition(Definition {
            declare: Declare::Let,
            variables: DefinitionVariables::Tuple(
                variable_name("t", false),
                ResolvedExpression {
                    type_: Type::Tuple(vec![u8_type(), Type::Boolean]),
                    value: ExpressionValue::Tuple(
                        vec![resolved_name("a", u8_type()), resolved_name("flag", Type::Boolean)],
                        at(2),
                    ),
                },
            ),
            span: at(2),
        }))
    );
    assert_eq!(
        table.get_variable(&"t".to_string()).unwrap().type_(),
        &Type::Tuple(vec![u8_type(), Type::Boolean])
    );
}

#[test]
fn test_definition_multiple_variable_tuple() {
    let mut table = table();
    let resolved = resolve_in(
        &mut table,
        define(vec![variable_name("x", false), variable_name("y", true)], None, vec![name("pair")]),
    );

    assert_eq!(
        resolved,
        Ok(Statement::Definition(Definition {
            declare: Declare::Let,
            variables: DefinitionVariables::MultipleVariableTuple(
                vec![variable_name("x", false), variable_name("y", true)],
                resolved_name("pair", Type::Tuple(vec![u8_type(), Type::Boolean])),
            ),
            span: at(2),
        }))
    );
    assert_eq!(table.get_variable(&"x".to_string()).unwrap().type_(), &u8_type());
    assert_eq!(table.get_variable(&"y".to_string()).unwrap().type_(), &Type::Boolean);
    assert!(table.get_variable(&"y".to_string()).unwrap().is_mutable());
}

#[test]
fn test_definition_multiple_variable_tuple_errors() {
    let names = || vec![variable_name("x", false), variable_name("y", false), variable_name("z", false)];

    // the value is a tuple of two parts
    assert_eq!(
        resolve(define(names(), None, vec![name("pair")])),
        type_error(TypeError::InvalidTupleLength { expected: 3, found: 2, span: at(2) })
    );
    // the value is no tuple
    assert_eq!(
        resolve(define(names(), None, vec![name("a")])),
        type_error(TypeError::ExpectedTupleType { found: u8_type(), span: at(2) })
    );
    // no name at all
    assert_eq!(
        resolve(define(vec![], None, vec![name("pair")])),
        type_error(TypeError::InvalidTupleLength { expected: 0, found: 1, span: at(2) })
    );
}

#[test]
fn test_definition_multiple_variable() {
    let mut table = table();
    let written = UnresolvedType::Tuple(vec![
        UnresolvedType::IntegerType(IntegerType::U16),
        UnresolvedType::Boolean,
    ]);
    let resolved = resolve_in(
        &mut table,
        define(
            vec![variable_name("x", false), variable_name("y", false)],
            Some(written),
            vec![implicit("1"), name("flag")],
        ),
    );

    assert_eq!(
        resolved,
        Ok(Statement::Definition(Definition {
            declare: Declare::Let,
            variables: DefinitionVariables::MultipleVariable(
                vec![variable_name("x", false), variable_name("y", false)],
                vec![resolved_int(IntegerType::U16, "1"), resolved_name("flag", Type::Boolean)],
            ),
            span: at(2),
        }))
    );
    assert_eq!(table.get_variable(&"x".to_string()).unwrap().type_(), &Type::IntegerType(IntegerType::U16));
    assert_eq!(table.get_variable(&"y".to_string()).unwrap().type_(), &Type::Boolean);
}

#[test]
fn test_definition_multiple_variable_errors() {
    let two = || vec![variable_name("x", false), variable_name("y", false)];
    let three_values = || vec![name("a"), name("a"), name("a")];

    assert_eq!(
        resolve(define(two(), None, three_values())),
        type_error(TypeError::InvalidTupleLength { expected: 2, found: 3, span: at(2) })
    );
    assert_eq!(
        resolve(define(two(), Some(UnresolvedType::Boolean), vec![name("a"), name("a")])),
        type_error(TypeError::ExpectedTupleType { found: Type::Boolean, span: at(2) })
    );
    assert_eq!(
        resolve(define(
            two(),
            Some(UnresolvedType::Tuple(vec![UnresolvedType::Boolean])),
            vec![name("a"), name("a")]
        )),
        type_error(TypeError::InvalidTupleLength { expected: 2, found: 1, span: at(2) })
    );
    assert_eq!(
        resolve(define(vec![variable_name("x", false)], None, vec![])),
        type_error(TypeError::InvalidTupleLength { expected: 1, found: 0, span: at(2) })
    );
    // the same name twice
    assert_eq!(
        resolve(define(
            vec![variable_name("x", false), variable_name("x", false)],
            None,
            vec![name("a"), name("a")]
        )),
        Err(ResolverError::SymbolTableError(SymbolTableError::DuplicateVariable(id("x"))))
    );
}

fn assign(variable: &str, accesses: Vec<UnresolvedAccess>, value: Expression) -> Unresolved {
    Unresolved::Assign(UnresolvedAssignee { identifier: id(variable), accesses }, value, at(4))
}

fn assigned(variable: &str, accesses: Vec<AssigneeAccess>, expression: ResolvedExpression) -> Statement {
    Statement::Assign(Assign {
        assignee: Assignee { identifier: id(variable), accesses },
        expression,
        span: at(4),
    })
}

fn index(value: &str, span: Span) -> ResolvedExpression {
    ResolvedExpression {
        type_: u32_type(),
        value: ExpressionValue::Integer(IntegerType::U32, value.to_string(), span),
    }
}

#[test]
fn test_assign_to_variable() {
    assert_eq!(
        resolve(assign("m", vec![], implicit("7"))),
        Ok(assigned("m", vec![], resolved_int(IntegerType::U32, "7")))
    );
}

#[test]
fn test_assign_to_element() {
    assert_eq!(
        resolve(assign(
            "arr",
            vec![UnresolvedAccess::Array(RangeOrExpression::Expression(implicit("3")))],
            implicit("7")
        )),
        Ok(assigned(
            "arr",
            vec![AssigneeAccess::Array(index("3", span()))],
            resolved_int(IntegerType::U8, "7")
        ))
    );
}

#[test]
fn test_assign_to_range() {
    let value = || Expression::ArrayInitializer(Box::new(implicit("0")), vec![10], at(5));

    assert_eq!(
        resolve(assign(
            "arr",
            vec![UnresolvedAccess::Array(RangeOrExpression::Range(None, None))],
            value()
        )),
        Ok(assigned(
            "arr",
            vec![AssigneeAccess::ArrayRange(index("0", at(4)), index("10", at(4)))],
            ResolvedExpression {
                type_: Type::Array(Box::new(u8_type()), vec![10]),
                value: ExpressionValue::ArrayInitializer(
                    Box::new(resolved_int(IntegerType::U8, "0")),
                    vec![10],
                    at(5)
                ),
            },
        ))
    );
}

#[test]
fn test_assign_to_tuple_part_and_member() {
    assert_eq!(
        resolve(assign("pair", vec![UnresolvedAccess::Tuple(1)], name("flag"))),
        Ok(assigned("pair", vec![AssigneeAccess::Tuple(1)], resolved_name("flag", Type::Boolean)))
    );
    assert_eq!(
        resolve(assign("point", vec![UnresolvedAccess::Member(id("x"))], implicit("1"))),
        Ok(assigned("point", vec![AssigneeAccess::Member(id("x"))], resolved_int(IntegerType::U32, "1")))
    );
    // a member function gives the type that it returns
    assert_eq!(
        resolve(assign("point", vec![UnresolvedAccess::Member(id("norm"))], implicit("1"))),
        Ok(assigned("point", vec![AssigneeAccess::Member(id("norm"))], resolved_int(IntegerType::U8, "1")))
    );
    // a function gives the type that it returns
    assert_eq!(
        resolve(assign("f", vec![UnresolvedAccess::Member(id("anything"))], name("flag"))),
        Ok(assigned(
            "f",
            vec![AssigneeAccess::Member(id("anything"))],
            resolved_name("flag", Type::Boolean)
        ))
    );
}

#[test]
fn test_assign_errors() {
    assert_eq!(
        resolve(assign("missing", vec![], implicit("7"))),
        type_error(TypeError::UndefinedVariable(id("missing")))
    );
    assert_eq!(resolve(assign("a", vec![], implicit("7"))), type_error(TypeError::ImmutableAssign(id("a"))));
    assert_eq!(
        resolve(assign("m", vec![], name("a"))),
        type_error(TypeError::MismatchedTypes { expected: u32_type(), found: u8_type(), span: span() })
    );
    assert_eq!(
        resolve(assign("m", vec![UnresolvedAccess::Tuple(0)], implicit("7"))),
        type_error(TypeError::ExpectedTupleType { found: u32_type(), span: at(4) })
    );
    assert_eq!(
        resolve(assign("m", vec![UnresolvedAccess::Member(id("x"))], implicit("7"))),
        type_error(TypeError::ExpectedCircuitType { found: u32_type(), span: at(4) })
    );
    assert_eq!(
        resolve(assign(
            "m",
            vec![UnresolvedAccess::Array(RangeOrExpression::Expression(implicit("0")))],
            implicit("7")
        )),
        type_error(TypeError::ExpectedArrayType { found: u32_type(), span: at(4) })
    );
    assert_eq!(
        resolve(assign("pair", vec![UnresolvedAccess::Tuple(2)], implicit("7"))),
        type_error(TypeError::InvalidTupleIndex { index: 2, length: 2, span: at(4) })
    );
    assert_eq!(
        resolve(assign("point", vec![UnresolvedAccess::Member(id("z"))], implicit("7"))),
        type_error(TypeError::UndefinedCircuitMember(id("z")))
    );
}

fn conditional(
    condition: Expression,
    statements: Vec<Unresolved>,
    next: Option<UnresolvedNestedOrEnd>,
) -> ConditionalStatement {
    ConditionalStatement { condition, statements, next }
}

#[test]
fn test_conditional_statement_branches_have_own_scopes() {
    // if flag { let n = a; } else if flag { let n = flag; } else { let n = m; }
    let nested = conditional(
        name("flag"),
        vec![let_("n", None, name("flag"))],
        Some(UnresolvedNestedOrEnd::End(vec![let_("n", None, name("m"))])),
    );
    let statement = Unresolved::Conditional(
        conditional(
            name("flag"),
            vec![let_("n", None, name("a"))],
            Some(UnresolvedNestedOrEnd::Nested(Box::new(nested))),
        ),
        at(6),
    );
    let mut table = table();
    let resolved = resolve_in(&mut table, statement);
    let defines = |type_: Type, value: &str| {
        vec![Statement::Definition(Definition {
            declare: Declare::Let,
            variables: DefinitionVariables::Single(variable_name("n", false), resolved_name(value, type_)),
            span: at(2),
        })]
    };

    assert_eq!(
        resolved,
        Ok(Statement::Conditional(Conditional {
            condition: resolved_name("flag", Type::Boolean),
            statements: defines(u8_type(), "a"),
            next: Some(ConditionalNestedOrEndStatement::Nested(Box::new(Conditional {
                condition: resolved_name("flag", Type::Boolean),
                statements: defines(Type::Boolean, "flag"),
                next: Some(ConditionalNestedOrEndStatement::End(defines(u32_type(), "m"))),
                span: at(6),
            }))),
            span: at(6),
        }))
    );
    // nothing leaks out of the branches
    assert!(table.get_variable(&"n".to_string()).is_none());
}

#[test]
fn test_conditional_statement_condition_is_boolean() {
    assert_eq!(
        resolve(Unresolved::Conditional(conditional(name("a"), vec![], None), at(6))),
        type_error(TypeError::MismatchedTypes { expected: Type::Boolean, found: u8_type(), span: span() })
    );
}

#[test]
fn test_conditional_branch_may_shadow() {
    let statement = Unresolved::Conditional(
        conditional(name("flag"), vec![let_("a", None, name("flag")), let_("b", None, name("a"))], None),
        at(6),
    );

    match resolve(statement) {
        Ok(Statement::Conditional(conditional)) => match &conditional.statements[1] {
            Statement::Definition(definition) => match &definition.variables {
                DefinitionVariables::Single(_, expression) => assert_eq!(expression.type_(), &Type::Boolean),
                other => panic!("expected a single definition, found {:?}", other),
            },
            other => panic!("expected a definition, found {:?}", other),
        },
        other => panic!("expected a conditional, found {:?}", other),
    }
}

#[test]
fn test_iteration_binds_loop_variable() {
    // for i in 0u8..a { let n = i; }
    let statement = Unresolved::Iteration(
        id("i"),
        integer(IntegerType::U8, "0"),
        name("a"),
        vec![let_("n", None, name("i"))],
        at(7),
    );
    let mut table = table();
    let resolved = resolve_in(&mut table, statement);

    assert_eq!(
        resolved,
        Ok(Statement::Iteration(
            id("i"),
            resolved_int(IntegerType::U8, "0"),
            resolved_name("a", u8_type()),
            vec![Statement::Definition(Definition {
                declare: Declare::Let,
                variables: DefinitionVariables::Single(variable_name("n", false), resolved_name("i", u8_type())),
                span: at(2),
            })],
            at(7),
        ))
    );
    assert!(table.get_variable(&"i".to_string()).is_none());
    assert!(table.get_variable(&"n".to_string()).is_none());
}

#[test]
fn test_iteration_errors() {
    let iteration = |start: Expression, stop: Expression, body: Vec<Unresolved>| {
        Unresolved::Iteration(id("i"), start, stop, body, at(7))
    };

    assert_eq!(
        resolve(iteration(name("flag"), name("flag"), vec![])),
        type_error(TypeError::ExpectedIntegerType { found: Type::Boolean, span: at(7) })
    );
    assert_eq!(
        resolve(iteration(name("a"), name("m"), vec![])),
        type_error(TypeError::MismatchedTypes { expected: u8_type(), found: u32_type(), span: span() })
    );
    assert_eq!(
        resolve(iteration(implicit("0"), name("a"), vec![])),
        type_error(TypeError::CannotInferType(span()))
    );
    // the variable of the loop is not mutable
    assert_eq!(
        resolve(iteration(name("a"), name("a"), vec![assign("i", vec![], implicit("1"))])),
        type_error(TypeError::ImmutableAssign(id("i")))
    );
}

#[test]
fn test_expression_statement() {
    assert_eq!(
        resolve(Unresolved::Expression(name("m"), at(8))),
        Ok(Statement::Expression(resolved_name("m", u32_type()), at(8)))
    );
    assert_eq!(
        resolve(Unresolved::Expression(name("missing"), at(8))),
        type_error(TypeError::UndefinedVariable(id("missing")))
    );
}

#[test]
fn test_statements_thread_the_table() {
    let mut table = table();
    let statements = vec![
        let_("n", None, name("a")),
        let_("k", None, name("n")),
        Unresolved::Return(name("k"), at(3)),
    ];
    let resolved = resolve_statements(&mut table, &returning(u8_type()), None, &statements).unwrap();

    assert_eq!(resolved.len(), 3);
    assert_eq!(resolved[2], Statement::Return(resolved_name("k", u8_type()), at(3)));
    assert_eq!(table.get_variable(&"k".to_string()).unwrap().type_(), &u8_type());
}

#[test]
fn test_statements_stop_at_first_error() {
    let mut table = table();
    let statements = vec![
        let_("n", None, name("first")),
        let_("k", None, name("second")),
    ];

    assert_eq!(
        resolve_statements(&mut table, &returning(u8_type()), None, &statements),
        Err(ResolverError::TypeError(TypeError::UndefinedVariable(id("first"))))
    );
}

#[test]
fn test_failed_statements_leave_the_table() {
    let mut table = table();
    let statements = vec![let_("n", None, name("a")), let_("k", None, name("missing"))];

    assert!(resolve_statements(&mut table, &returning(u8_type()), None, &statements).is_err());
    assert!(table.get_variable(&"n".to_string()).is_none());
    assert!(table.get_variable(&"k".to_string()).is_none());
    assert_eq!(table.get_variable(&"a".to_string()).unwrap().type_(), &u8_type());
}

#[test]
fn test_statement_uses_variable_before_it_is_defined() {
    let mut table = table();
    let statements = vec![let_("k", None, name("n")), let_("n", None, name("a"))];

    assert_eq!(
        resolve_statements(&mut table, &returning(u8_type()), None, &statements),
        Err(ResolverError::TypeError(TypeError::UndefinedVariable(id("n"))))
    );
}
