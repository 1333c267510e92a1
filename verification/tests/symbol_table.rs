use leo_resolver::ast::{Circuit, CircuitMember, Function, FunctionInput, FunctionInputVariable, Program, Type as UnresolvedType};
use leo_resolver::common::{Attribute, Identifier, IntegerType, Span};
use leo_resolver::errors::{SymbolTableError, TypeError};
use leo_resolver::symbol_table::{hello, Entry, NameMap, SymbolTable};
use leo_resolver::types::{
    CircuitFunctionType, CircuitType, CircuitVariableType, FunctionInputType, FunctionInputVariableType,
    FunctionOutputType, FunctionType, Type,
};

fn span() -> Span {
    Span { line: 1, start: 1, end: 1 }
}

fn id(name: &str) -> Identifier {
    Identifier::new(name.to_string(), span())
}

fn entry(name: &str, type_: Type) -> Entry {
    Entry { identifier: id(name), type_, attributes: vec![] }
}

fn key(name: &str) -> String {
    name.to_string()
}

fn u8_type() -> Type {
    Type::IntegerType(IntegerType::U8)
}

fn circuit_type(name: &str) -> CircuitType {
    CircuitType { identifier: id(name), variables: vec![], functions: vec![] }
}

fn function_type(name: &str, output: Type) -> FunctionType {
    FunctionType { identifier: id(name), inputs: vec![], output: FunctionOutputType { type_: output } }
}

#[test]
fn test_name_map() {
    let mut map: NameMap<Entry> = NameMap::new();

    assert_eq!(map.len(), 0);
    assert!(map.get(&key("a")).is_none());
    assert_eq!(map.insert(key("a"), entry("a", Type::Boolean)), None);
    assert_eq!(map.insert(key("b"), entry("b", Type::Field)), None);
    assert_eq!(map.insert(key("a"), entry("a", Type::Group)), Some(entry("a", Type::Boolean)));
    assert_eq!(map.len(), 2);
    assert_eq!(map.get(&key("a")), Some(&entry("a", Type::Group)));
    assert_eq!(map.get(&key("b")), Some(&entry("b", Type::Field)));

    let copy = map.duplicate();
    assert_eq!(copy.len(), 2);
    assert_eq!(copy.get(&key("a")), Some(&entry("a", Type::Group)));
}

#[test]
fn test_insert_variable_returns_previous() {
    let mut table = SymbolTable::new(None);

    assert_eq!(table.insert_variable(key("a"), entry("a", Type::Boolean)), None);
    assert_eq!(table.insert_variable(key("a"), entry("a", Type::Field)), Some(entry("a", Type::Boolean)));
    assert_eq!(table.get_variable(&key("a")), Some(&entry("a", Type::Field)));
    assert_eq!(table.get_variable(&key("b")), None);
}

#[test]
fn test_insert_circuit_and_function() {
    let mut table = SymbolTable::new(None);

    assert_eq!(table.insert_circuit(id("Foo"), circuit_type("Foo")), None);
    assert_eq!(table.insert_circuit(id("Foo"), circuit_type("Foo")), Some(circuit_type("Foo")));
    assert_eq!(table.insert_function(id("foo"), function_type("foo", Type::Boolean)), None);
    assert_eq!(
        table.insert_function(id("foo"), function_type("foo", Type::Field)),
        Some(function_type("foo", Type::Boolean))
    );
    assert_eq!(table.get_circuit(&key("Foo")), Some(&circuit_type("Foo")));
    assert_eq!(table.get_function(&key("foo")), Some(&function_type("foo", Type::Field)));
    assert_eq!(table.get_circuit(&key("foo")), None);
    assert_eq!(table.get_function(&key("Foo")), None);
    // the three maps are apart
    assert_eq!(table.get_variable(&key("Foo")), None);
}

#[test]
fn test_lookup_walks_parent_chain() {
    let mut root = SymbolTable::new(None);
    root.insert_variable(key("a"), entry("a", Type::Boolean));
    root.insert_variable(key("b"), entry("b", Type::Field));
    root.insert_circuit(id("Foo"), circuit_type("Foo"));
    root.insert_function(id("foo"), function_type("foo", Type::Boolean));
    let mut middle = SymbolTable::new(Some(Box::new(root)));
    middle.insert_variable(key("b"), entry("b", Type::Group));
    let mut leaf = SymbolTable::new(Some(Box::new(middle)));
    leaf.insert_variable(key("c"), entry("c", Type::Address));

    assert_eq!(leaf.get_variable(&key("a")), Some(&entry("a", Type::Boolean)));
    assert_eq!(leaf.get_variable(&key("b")), Some(&entry("b", Type::Group)));
    assert_eq!(leaf.get_variable(&key("c")), Some(&entry("c", Type::Address)));
    assert_eq!(leaf.get_variable(&key("d")), None);
    assert_eq!(leaf.get_circuit(&key("Foo")), Some(&circuit_type("Foo")));
    assert_eq!(leaf.get_function(&key("foo")), Some(&function_type("foo", Type::Boolean)));
}

#[test]
fn test_child_bindings_are_not_seen_by_parent_or_sibling() {
    let mut parent = SymbolTable::new(None);
    parent.insert_variable(key("a"), entry("a", Type::Boolean));
    let mut first = parent.child();
    let second = parent.child();
    first.insert_variable(key("n"), entry("n", Type::Field));
    first.insert_variable(key("a"), entry("a", Type::Group));

    assert_eq!(first.get_variable(&key("n")), Some(&entry("n", Type::Field)));
    assert_eq!(first.get_variable(&key("a")), Some(&entry("a", Type::Group)));
    assert_eq!(second.get_variable(&key("n")), None);
    assert_eq!(second.get_variable(&key("a")), Some(&entry("a", Type::Boolean)));
    assert_eq!(parent.get_variable(&key("n")), None);
    assert_eq!(parent.get_variable(&key("a")), Some(&entry("a", Type::Boolean)));
}

#[test]
fn test_shadowing_in_child_returns_none() {
    let mut parent = SymbolTable::new(None);
    parent.insert_variable(key("a"), entry("a", Type::Boolean));
    let mut child = parent.child();

    assert_eq!(child.insert_variable(key("a"), entry("a", Type::Field)), None);
}

#[test]
fn test_duplicate_is_independent() {
    let mut table = SymbolTable::new(None);
    table.insert_variable(key("a"), entry("a", Type::Boolean));
    let mut copy = table.duplicate();
    copy.insert_variable(key("a"), entry("a", Type::Field));
    copy.insert_variable(key("b"), entry("b", Type::Field));

    assert_eq!(table.get_variable(&key("a")), Some(&entry("a", Type::Boolean)));
    assert_eq!(table.get_variable(&key("b")), None);
    assert_eq!(copy.get_variable(&key("a")), Some(&entry("a", Type::Field)));
}

#[test]
fn test_push_child_keeps_bindings() {
    let mut table = SymbolTable::new(None);
    table.insert_variable(key("a"), entry("a", Type::Boolean));
    let mut child = SymbolTable::new(None);
    child.insert_variable(key("n"), entry("n", Type::Field));
    table.push_child(child);

    assert_eq!(table.get_variable(&key("a")), Some(&entry("a", Type::Boolean)));
    assert_eq!(table.get_variable(&key("n")), None);
    assert_eq!(table.duplicate().get_variable(&key("a")), Some(&entry("a", Type::Boolean)));
}

#[test]
fn test_entry_attributes() {
    let mutable = Entry { identifier: id("a"), type_: Type::Boolean, attributes: vec![Attribute::Mutable] };
    let both = Entry {
        identifier: id("a"),
        type_: Type::Boolean,
        attributes: vec![Attribute::Static, Attribute::Mutable],
    };
    let neither = entry("a", Type::Boolean);

    assert!(mutable.is_mutable() && !mutable.is_static());
    assert!(both.is_mutable() && both.is_static());
    assert!(!neither.is_mutable() && !neither.is_static());
    assert_eq!(neither.type_(), &Type::Boolean);
    assert_eq!(both.clone(), both);
}

fn circuit(name: &str, members: Vec<CircuitMember>) -> Circuit {
    Circuit { circuit_name: id(name), members }
}

fn function(name: &str, input: Vec<FunctionInput>, returns: Option<UnresolvedType>) -> Function {
    Function { identifier: id(name), input, returns, statements: vec![], span: span() }
}

fn input(name: &str, mutable: bool, type_: UnresolvedType) -> FunctionInput {
    FunctionInput::Variable(FunctionInputVariable { identifier: id(name), mutable, type_, span: span() })
}

#[test]
fn test_entries_of_names() {
    assert_eq!(Entry::from_circuit(&circuit("Foo", vec![])), entry("Foo", Type::Circuit(id("Foo"))));
    assert_eq!(Entry::from_function(&function("foo", vec![], None)), entry("foo", Type::Function(id("foo"))));
    assert_eq!(
        Entry::from_input(&FunctionInputVariableType {
            identifier: id("a"),
            type_: u8_type(),
            attributes: vec![Attribute::Mutable],
            span: span(),
        }),
        Entry { identifier: id("a"), type_: u8_type(), attributes: vec![Attribute::Mutable] }
    );
}

#[test]
fn test_pass_one_registers_names() {
    let program = Program {
        circuits: vec![circuit("Foo", vec![]), circuit("Bar", vec![])],
        functions: vec![function("foo", vec![], None)],
        tests: vec![],
    };
    let mut table = SymbolTable::new(None);

    assert_eq!(table.pass_one(&program), Ok(()));
    assert_eq!(table.get_variable(&key("Foo")), Some(&entry("Foo", Type::Circuit(id("Foo")))));
    assert_eq!(table.get_variable(&key("Bar")), Some(&entry("Bar", Type::Circuit(id("Bar")))));
    assert_eq!(table.get_variable(&key("foo")), Some(&entry("foo", Type::Function(id("foo")))));
    // no definition yet
    assert_eq!(table.get_circuit(&key("Foo")), None);
    assert_eq!(table.get_function(&key("foo")), None);
}

#[test]
fn test_pass_one_duplicate_function_name() {
    // two top-level functions both named `transfer`
    let program = Program {
        circuits: vec![],
        functions: vec![function("transfer", vec![], None), function("transfer", vec![], None)],
        tests: vec![],
    };

    assert_eq!(
        SymbolTable::new(None).pass_one(&program),
        Err(SymbolTableError::DuplicateFunctionName(id("transfer")))
    );
}

#[test]
fn test_pass_one_duplicate_circuit_name() {
    let program = Program {
        circuits: vec![circuit("Foo", vec![]), circuit("Bar", vec![]), circuit("Foo", vec![])],
        functions: vec![],
        tests: vec![],
    };

    assert_eq!(
        SymbolTable::new(None).pass_one(&program),
        Err(SymbolTableError::DuplicateCircuitName(id("Foo")))
    );
}

#[test]
fn test_pass_one_function_named_like_circuit() {
    let program = Program {
        circuits: vec![circuit("foo", vec![])],
        functions: vec![function("foo", vec![], None)],
        tests: vec![],
    };

    assert_eq!(
        SymbolTable::new(None).pass_one(&program),
        Err(SymbolTableError::DuplicateFunctionName(id("foo")))
    );
}

#[test]
fn test_pass_two_resolves_forward_references() {
    // function `a` refers to the circuit `B`, which is written after it; the circuit refers
    // to itself
    let program = Program {
        circuits: vec![circuit(
            "B",
            vec![
                CircuitMember::CircuitVariable(true, id("x"), UnresolvedType::IntegerType(IntegerType::U8)),
                CircuitMember::CircuitVariable(false, id("next"), UnresolvedType::SelfType),
                CircuitMember::CircuitFunction(
                    true,
                    function("new", vec![input("x", false, UnresolvedType::IntegerType(IntegerType::U8))], Some(UnresolvedType::SelfType)),
                ),
                CircuitMember::CircuitFunction(false, function("get", vec![FunctionInput::InputKeyword(id("input"))], None)),
            ],
        )],
        functions: vec![function(
            "a",
            vec![input("b", true, UnresolvedType::Circuit(id("B")))],
            Some(UnresolvedType::Circuit(id("B"))),
        )],
        tests: vec![],
    };
    let mut table = SymbolTable::new(None);
    table.pass_one(&program).unwrap();

    assert_eq!(table.pass_two(&program), Ok(()));
    assert_eq!(
        table.get_circuit(&key("B")),
        Some(&CircuitType {
            identifier: id("B"),
            variables: vec![
                CircuitVariableType { identifier: id("x"), type_: u8_type(), attributes: vec![Attribute::Mutable] },
                CircuitVariableType { identifier: id("next"), type_: Type::Circuit(id("B")), attributes: vec![] },
            ],
            functions: vec![
                CircuitFunctionType {
                    function: FunctionType {
                        identifier: id("new"),
                        inputs: vec![FunctionInputType::Variable(FunctionInputVariableType {
                            identifier: id("x"),
                            type_: u8_type(),
                            attributes: vec![],
                            span: span(),
                        })],
                        output: FunctionOutputType { type_: Type::Circuit(id("B")) },
                    },
                    attributes: vec![Attribute::Static],
                },
                CircuitFunctionType {
                    function: FunctionType {
                        identifier: id("get"),
                        inputs: vec![FunctionInputType::InputKeyword(id("input"))],
                        output: FunctionOutputType { type_: Type::Tuple(vec![]) },
                    },
                    attributes: vec![],
                },
            ],
        })
    );
    assert_eq!(
        table.get_function(&key("a")),
        Some(&FunctionType {
            identifier: id("a"),
            inputs: vec![FunctionInputType::Variable(FunctionInputVariableType {
                identifier: id("b"),
                type_: Type::Circuit(id("B")),
                attributes: vec![Attribute::Mutable],
                span: span(),
            })],
            output: FunctionOutputType { type_: Type::Circuit(id("B")) },
        })
    );
}

#[test]
fn test_pass_two_undefined_circuit() {
    let program = Program {
        circuits: vec![],
        functions: vec![function("a", vec![], Some(UnresolvedType::Circuit(id("Nowhere"))))],
        tests: vec![],
    };
    let mut table = SymbolTable::new(None);
    table.pass_one(&program).unwrap();

    assert_eq!(table.pass_two(&program), Err(TypeError::UndefinedCircuit(id("Nowhere"))));
}

#[test]
fn test_failed_pass_two_leaves_the_table() {
    // function f(a: Foo) {} after a function that is defined without an error
    let program = Program {
        circuits: vec![circuit("Bar", vec![])],
        functions: vec![
            function("g", vec![], None),
            function("f", vec![input("a", false, UnresolvedType::Circuit(id("Foo")))], None),
        ],
        tests: vec![],
    };
    let mut table = SymbolTable::new(None);
    table.pass_one(&program).unwrap();

    assert_eq!(table.pass_two(&program), Err(TypeError::UndefinedCircuit(id("Foo"))));
    assert_eq!(table.get_function(&key("f")), None);
    assert_eq!(table.get_function(&key("g")), None);
    assert_eq!(table.get_circuit(&key("Bar")), None);
    assert_eq!(table.get_variable(&key("f")), Some(&entry("f", Type::Function(id("f")))));
    assert_eq!(table.get_variable(&key("g")), Some(&entry("g", Type::Function(id("g")))));
    assert_eq!(table.get_variable(&key("Bar")), Some(&entry("Bar", Type::Circuit(id("Bar")))));
    assert_eq!(table.get_variable(&key("Foo")), None);
}

#[test]
fn test_pass_two_keeps_variables() {
    let program = Program {
        circuits: vec![circuit("Bar", vec![])],
        functions: vec![function("g", vec![], None)],
        tests: vec![],
    };
    let mut table = SymbolTable::new(None);
    table.insert_variable(key("a"), entry("a", Type::Boolean));
    table.pass_one(&program).unwrap();
    table.pass_two(&program).unwrap();

    assert_eq!(table.get_variable(&key("a")), Some(&entry("a", Type::Boolean)));
    assert_eq!(table.get_variable(&key("g")), Some(&entry("g", Type::Function(id("g")))));
    assert_eq!(table.get_variable(&key("Bar")), Some(&entry("Bar", Type::Circuit(id("Bar")))));
    assert!(table.get_circuit(&key("Bar")).is_some());
    assert!(table.get_function(&key("g")).is_some());
}

#[test]
fn test_failed_pass_one_leaves_the_table() {
    let program = Program {
        circuits: vec![circuit("Foo", vec![])],
        functions: vec![function("first", vec![], None), function("a", vec![], None)],
        tests: vec![],
    };
    let mut table = SymbolTable::new(None);
    table.insert_variable(key("a"), entry("a", Type::Boolean));

    assert_eq!(table.pass_one(&program), Err(SymbolTableError::DuplicateFunctionName(id("a"))));
    assert_eq!(table.get_variable(&key("a")), Some(&entry("a", Type::Boolean)));
    assert_eq!(table.get_variable(&key("Foo")), None);
    assert_eq!(table.get_variable(&key("first")), None);
}

#[test]
fn test_defines_variable() {
    let mut parent = SymbolTable::new(None);
    parent.insert_variable(key("a"), entry("a", Type::Boolean));
    let mut child = parent.child();
    child.insert_variable(key("n"), entry("n", Type::Field));

    assert!(parent.defines_variable(&key("a")));
    assert!(!parent.defines_variable(&key("n")));
    assert!(child.defines_variable(&key("n")));
    // `a` is seen from the child, but it is not the child that binds it
    assert!(!child.defines_variable(&key("a")));
}

#[test]
fn test_function_input_from_unresolved() {
    let mut table = SymbolTable::new(None);
    table.insert_variable(key("Foo"), Entry::from_circuit(&circuit("Foo", vec![])));
    let written = |type_: UnresolvedType| FunctionInputVariable { identifier: id("a"), mutable: true, type_, span: span() };

    assert_eq!(
        FunctionInputVariableType::from_unresolved(&table, &written(UnresolvedType::Circuit(id("Foo")))),
        Ok(FunctionInputVariableType {
            identifier: id("a"),
            type_: Type::Circuit(id("Foo")),
            attributes: vec![Attribute::Mutable],
            span: span(),
        })
    );
    assert_eq!(
        FunctionInputVariableType::from_unresolved(&table, &written(UnresolvedType::SelfType)),
        Err(TypeError::SelfNotAvailable(span()))
    );
    assert_eq!(
        FunctionInputVariableType::from_circuit(&table, &written(UnresolvedType::SelfType), &id("Foo")),
        Ok(FunctionInputVariableType {
            identifier: id("a"),
            type_: Type::Circuit(id("Foo")),
            attributes: vec![Attribute::Mutable],
            span: span(),
        })
    );
}

#[test]
fn test_pass_two_self_outside_circuit() {
    let program = Program {
        circuits: vec![],
        functions: vec![function("a", vec![input("s", false, UnresolvedType::SelfType)], None)],
        tests: vec![],
    };
    let mut table = SymbolTable::new(None);
    table.pass_one(&program).unwrap();

    assert_eq!(table.pass_two(&program), Err(TypeError::SelfNotAvailable(span())));
}

#[test]
fn test_function_input_insert() {
    let mut table = SymbolTable::new(None);
    let input = FunctionInputVariableType {
        identifier: id("a"),
        type_: u8_type(),
        attributes: vec![Attribute::Mutable],
        span: span(),
    };

    assert_eq!(input.insert(&mut table), None);
    assert_eq!(
        input.insert(&mut table),
        Some(Entry { identifier: id("a"), type_: u8_type(), attributes: vec![Attribute::Mutable] })
    );
    assert!(table.get_variable(&key("a")).unwrap().is_mutable());
}

#[test]
fn test_circuit_member_type() {
    let circuit = CircuitType {
        identifier: id("Foo"),
        variables: vec![CircuitVariableType { identifier: id("x"), type_: u8_type(), attributes: vec![] }],
        functions: vec![
            CircuitFunctionType { function: function_type("f", Type::Field), attributes: vec![] },
            CircuitFunctionType { function: function_type("x", Type::Group), attributes: vec![] },
        ],
    };

    // a member variable comes before a member function of the same name
    assert_eq!(circuit.member_type(&id("x")), Ok(&u8_type()));
    assert_eq!(circuit.member_type(&id("f")), Ok(&Type::Field));
    assert_eq!(circuit.member_type(&id("g")), Err(TypeError::UndefinedCircuitMember(id("g"))));
    assert_eq!(circuit.clone(), circuit);
}

#[test]
fn test_hello() {
    assert_eq!(hello::hello(), hello());
}
