use crate::ast::{UnresolvedCircuitMemberModel, UnresolvedCircuitModel, UnresolvedFunctionModel, UnresolvedProgramModel};
use crate::ast::{UnresolvedInputModel, UnresolvedTypeModel};
use crate::circuits::circuit::{
    CircuitModel, circuit_scope, method_resolver, resolve_circuit, resolve_method,
};
use crate::common::{IdentifierModel, Span};
use crate::errors::ResolverErrorModel;
use crate::functions::function::FunctionModel;
use crate::functions::test_function::TestFunctionModel;
use crate::laws::typed_statements::lemma_typed_function_resolves;
use crate::programs::program::{
    ProgramModel, circuit_resolver, function_resolver, resolve_declarations, test_resolver,
};
use crate::programs::typing::{
    circuit_known, circuit_named, circuit_typed, declarations_typed, definitions_of,
    function_declared, methods_of, names_distinct, program_typed, signature_known, test_declared,
    type_known, types_known,
};
use crate::resolver::resolve_program;
use crate::sequence::{lemma_try_fold_succeeds, lemma_try_map_succeeds};
use crate::sequence::{lemma_try_map_all, try_fold};
use crate::symbol_table::EntryModel;
use crate::symbol_table::TableModel;
use crate::symbol_table::passes::{
    circuit_definer, circuit_registrar, function_definer, function_registrar, pass_one, pass_two,
};
use crate::types::circuit_definition::{Members, member_resolver, resolve_circuit_type};
use crate::types::resolve::{resolve_type, resolve_types};
use crate::types::signature::{input_resolver, resolve_signature};
use crate::types::{CircuitFunctionModel, CircuitVariableModel, TypeModel};
use vstd::prelude::*;

verus! {

/// The member functions among fewer members are the first of those among more.
pub proof fn lemma_methods_prefix(members: Seq<UnresolvedCircuitMemberModel>, n: int, m: int)
    requires
        0 <= n <= m,
    ensures
        methods_of(members, n).len() <= methods_of(members, m).len(),
        methods_of(members, m).take(methods_of(members, n).len() as int) == methods_of(members, n),
    decreases m - n,
{
    if n < m {
        lemma_methods_prefix(members, n, m - 1);
        let fewer = methods_of(members, n);
        assert(methods_of(members, m).take(fewer.len() as int) =~= methods_of(members, m - 1).take(
            fewer.len() as int,
        ));
    } else {
        assert(methods_of(members, n).take(methods_of(members, n).len() as int) =~= methods_of(
            members,
            n,
        ));
    }
}

/// The member functions of a well-typed circuit that are written among its first `n` members
/// are resolved to the first of its functions.
proof fn lemma_typed_methods_resolve(
    table: TableModel,
    written: UnresolvedCircuitModel,
    circuit: CircuitModel,
    n: int,
)
    requires
        circuit_typed(table, written, circuit),
        0 <= n <= written.members.len(),
    ensures
        try_fold(
            Seq::<FunctionModel>::empty(),
            written.members,
            method_resolver(circuit_scope(table, circuit.type_)->Ok_0, circuit.type_),
            n,
        ) == Ok::<Seq<FunctionModel>, ResolverErrorModel>(
            circuit.functions.take(methods_of(written.members, n).len() as int),
        ),
    decreases n,
{
    let scope = circuit_scope(table, circuit.type_)->Ok_0;
    let members = written.members;
    let all = methods_of(members, members.len() as int);
    if n > 0 {
        lemma_typed_methods_resolve(table, written, circuit, n - 1);
        lemma_methods_prefix(members, n - 1, members.len() as int);
        lemma_methods_prefix(members, n, members.len() as int);
        let before = methods_of(members, n - 1);
        let resolved = circuit.functions.take(before.len() as int);
        match members[n - 1] {
            UnresolvedCircuitMemberModel::CircuitVariable(_, _, _) => {},
            UnresolvedCircuitMemberModel::CircuitFunction(_, function) => {
                let k = before.len() as int;
                assert(methods_of(members, n) == before.push(function));
                assert(all.take(k + 1)[k] == function);
                assert(all[k] == function);
                let signature = circuit.type_.function(function.identifier.name)->Some_0;
                lemma_typed_function_resolves(
                    scope,
                    function,
                    Some(circuit.type_.identifier),
                    circuit.functions[k],
                );
                assert(resolve_method(scope, circuit.type_, resolved, members[n - 1]) == Ok::<
                    Seq<FunctionModel>,
                    ResolverErrorModel,
                >(resolved.push(circuit.functions[k])));
                assert(resolved.push(circuit.functions[k]) =~= circuit.functions.take(k + 1));
            },
        }
    } else {
        assert(circuit.functions.take(0) =~= Seq::empty());
    }
}

/// Every well-typed circuit is resolved: what it is written as resolves to the circuit
/// itself.
pub proof fn lemma_typed_circuit_resolves(
    table: TableModel,
    written: UnresolvedCircuitModel,
    circuit: CircuitModel,
)
    requires
        circuit_typed(table, written, circuit),
    ensures
        resolve_circuit(table, written) == Ok::<CircuitModel, ResolverErrorModel>(circuit),
{
    lemma_typed_methods_resolve(table, written, circuit, written.members.len() as int);
    assert(circuit.functions.take(circuit.functions.len() as int) =~= circuit.functions);
}

/// Well-typed declarations are resolved: what the program is written as resolves, in the
/// table of its names and definitions, to the program itself.
pub proof fn lemma_typed_declarations_resolve(
    table: TableModel,
    written: UnresolvedProgramModel,
    program: ProgramModel,
)
    requires
        declarations_typed(table, written, program),
    ensures
        resolve_declarations(table, written) == Ok::<ProgramModel, ResolverErrorModel>(program),
{
    let circuits = circuit_resolver(table);
    assert forall|i: int| 0 <= i < written.circuits.len() implies circuits(
        #[trigger] written.circuits[i],
    ) == Ok::<CircuitModel, ResolverErrorModel>(program.circuits[i]) by {
        lemma_typed_circuit_resolves(table, written.circuits[i], program.circuits[i]);
    }
    lemma_try_map_all(written.circuits, circuits, program.circuits, written.circuits.len() as int);
    assert(program.circuits.take(program.circuits.len() as int) =~= program.circuits);
    let functions = function_resolver(table);
    assert forall|i: int| 0 <= i < written.functions.len() implies functions(
        #[trigger] written.functions[i],
    ) == Ok::<FunctionModel, ResolverErrorModel>(program.functions[i]) by {
        assert(function_declared(table, written.functions[i], program.functions[i]));
        lemma_typed_function_resolves(table, written.functions[i], None, program.functions[i]);
    }
    lemma_try_map_all(
        written.functions,
        functions,
        program.functions,
        written.functions.len() as int,
    );
    assert(program.functions.take(program.functions.len() as int) =~= program.functions);
    let tests = test_resolver(table);
    assert forall|i: int| 0 <= i < written.tests.len() implies tests(#[trigger] written.tests[i])
        == Ok::<TestFunctionModel, ResolverErrorModel>(program.tests[i]) by {
        assert(test_declared(table, written.tests[i], program.tests[i]));
        lemma_typed_function_resolves(
            table,
            written.tests[i].function,
            None,
            program.tests[i].function,
        );
    }
    lemma_try_map_all(written.tests, tests, program.tests, written.tests.len() as int);
    assert(program.tests.take(program.tests.len() as int) =~= program.tests);
}

/// Whether `table` knows every circuit of the program by its name: the name is bound to the
/// circuit type of that name.
pub open spec fn circuits_registered(table: TableModel, written: UnresolvedProgramModel) -> bool {
    forall|name: Seq<char>| #[trigger]
        circuit_named(written, name) ==> match table.get_variable(name) {
            Some(entry) => entry.type_ == TypeModel::Circuit(name),
            None => false,
        }
}

/// After the names of the first `n` circuits are registered in a scope that binds none of
/// them, and no two of them are the same, the scope binds each of them to its circuit type
/// and everything else as before.
pub proof fn lemma_circuit_names_register(
    table: TableModel,
    circuits: Seq<UnresolvedCircuitModel>,
    n: int,
)
    requires
        0 <= n <= circuits.len(),
        forall|i: int, j: int|
            0 <= i < j < circuits.len() ==> (#[trigger] circuits[i]).circuit_name.name != (
            #[trigger] circuits[j]).circuit_name.name,
        forall|i: int|
            0 <= i < circuits.len() ==> !table.variables.contains_key(
                (#[trigger] circuits[i]).circuit_name.name,
            ),
    ensures
        try_fold(table, circuits, circuit_registrar(), n) is Ok,
        ({
            let after = try_fold(table, circuits, circuit_registrar(), n)->Ok_0;
            &&& after.parent == table.parent
            &&& forall|k: int|
                0 <= k < n ==> after.variables.contains_key(
                    (#[trigger] circuits[k]).circuit_name.name,
                ) && after.variables[circuits[k].circuit_name.name].type_ == TypeModel::Circuit(
                    circuits[k].circuit_name.name,
                )
            &&& forall|name: Seq<char>| #[trigger]
                after.variables.contains_key(name) ==> table.variables.contains_key(name) || exists|
                    k: int,
                |
                    0 <= k < n && (#[trigger] circuits[k]).circuit_name.name == name
        }),
    decreases n,
{
    if n > 0 {
        lemma_circuit_names_register(table, circuits, n - 1);
        let before = try_fold(table, circuits, circuit_registrar(), n - 1)->Ok_0;
        let name = circuits[n - 1].circuit_name.name;
        if before.variables.contains_key(name) {
            let k = choose|k: int| 0 <= k < n - 1 && (#[trigger] circuits[k]).circuit_name.name == name;
            assert(circuits[k].circuit_name.name != circuits[n - 1].circuit_name.name);
        }
        let after = try_fold(table, circuits, circuit_registrar(), n)->Ok_0;
        assert(after == before.insert_variable(name, EntryModel::of_circuit(circuits[n - 1].circuit_name)));
        assert forall|k: int| 0 <= k < n implies after.variables.contains_key(
            (#[trigger] circuits[k]).circuit_name.name,
        ) && after.variables[circuits[k].circuit_name.name].type_ == TypeModel::Circuit(
            circuits[k].circuit_name.name,
        ) by {
            if k < n - 1 {
                assert(circuits[k].circuit_name.name != circuits[n - 1].circuit_name.name);
            }
        }
        assert forall|other: Seq<char>| #[trigger]
            after.variables.contains_key(other) implies table.variables.contains_key(other) || exists|
            k: int,
        |
            0 <= k < n && (#[trigger] circuits[k]).circuit_name.name == other by {
            if other == name {
                assert(circuits[n - 1].circuit_name.name == other);
            } else {
                assert(before.variables.contains_key(other));
                if !table.variables.contains_key(other) {
                    let k = choose|k: int|
                        0 <= k < n - 1 && (#[trigger] circuits[k]).circuit_name.name == other;
                    assert(circuits[k].circuit_name.name == other);
                }
            }
        }
    }
}

/// After the names of the first `n` functions are registered in a scope that binds none of
/// them, and no two of them are the same, the scope binds everything else as before.
pub proof fn lemma_function_names_register(
    table: TableModel,
    functions: Seq<UnresolvedFunctionModel>,
    n: int,
)
    requires
        0 <= n <= functions.len(),
        forall|i: int, j: int|
            0 <= i < j < functions.len() ==> (#[trigger] functions[i]).identifier.name != (
            #[trigger] functions[j]).identifier.name,
        forall|i: int|
            0 <= i < functions.len() ==> !table.variables.contains_key(
                (#[trigger] functions[i]).identifier.name,
            ),
    ensures
        try_fold(table, functions, function_registrar(), n) is Ok,
        ({
            let after = try_fold(table, functions, function_registrar(), n)->Ok_0;
            &&& after.parent == table.parent
            &&& forall|name: Seq<char>| #[trigger]
                table.variables.contains_key(name) ==> after.variables.contains_key(name)
                    && after.variables[name] == table.variables[name]
            &&& forall|name: Seq<char>| #[trigger]
                after.variables.contains_key(name) ==> table.variables.contains_key(name) || exists|
                    k: int,
                |
                    0 <= k < n && (#[trigger] functions[k]).identifier.name == name
        }),
    decreases n,
{
    if n > 0 {
        lemma_function_names_register(table, functions, n - 1);
        let before = try_fold(table, functions, function_registrar(), n - 1)->Ok_0;
        let name = functions[n - 1].identifier.name;
        if before.variables.contains_key(name) {
            let k = choose|k: int| 0 <= k < n - 1 && (#[trigger] functions[k]).identifier.name == name;
            assert(functions[k].identifier.name != functions[n - 1].identifier.name);
        }
        let after = try_fold(table, functions, function_registrar(), n)->Ok_0;
        assert(after == before.insert_variable(name, EntryModel::of_function(functions[n - 1].identifier)));
        assert forall|other: Seq<char>| #[trigger]
            after.variables.contains_key(other) implies table.variables.contains_key(other) || exists|
            k: int,
        |
            0 <= k < n && (#[trigger] functions[k]).identifier.name == other by {
            if other == name {
                assert(functions[n - 1].identifier.name == other);
            } else {
                assert(before.variables.contains_key(other));
                if !table.variables.contains_key(other) {
                    let k = choose|k: int|
                        0 <= k < n - 1 && (#[trigger] functions[k]).identifier.name == other;
                    assert(functions[k].identifier.name == other);
                }
            }
        }
    }
}

/// The names of a program in which no two circuits or functions carry one name are
/// registered, and then every circuit of the program is known by its name.
pub proof fn lemma_distinct_names_register(written: UnresolvedProgramModel)
    requires
        names_distinct(written),
    ensures
        pass_one(TableModel::scope(None), written) is Ok,
        circuits_registered(pass_one(TableModel::scope(None), written)->Ok_0, written),
{
    let table = TableModel::scope(None);
    let circuits = written.circuits;
    let functions = written.functions;
    lemma_circuit_names_register(table, circuits, circuits.len() as int);
    let middle = try_fold(table, circuits, circuit_registrar(), circuits.len() as int)->Ok_0;
    assert forall|i: int| 0 <= i < functions.len() implies !middle.variables.contains_key(
        (#[trigger] functions[i]).identifier.name,
    ) by {
        let name = functions[i].identifier.name;
        if middle.variables.contains_key(name) {
            let k = choose|k: int|
                0 <= k < circuits.len() && (#[trigger] circuits[k]).circuit_name.name == name;
            assert(circuits[k].circuit_name.name != functions[i].identifier.name);
        }
    }
    lemma_function_names_register(middle, functions, functions.len() as int);
    let names = pass_one(table, written)->Ok_0;
    assert forall|name: Seq<char>| #[trigger] circuit_named(written, name) implies match names.get_variable(
        name,
    ) {
        Some(entry) => entry.type_ == TypeModel::Circuit(name),
        None => false,
    } by {
        let k = choose|k: int|
            0 <= k < written.circuits.len() && (#[trigger] written.circuits[k]).circuit_name.name
                == name;
        assert(middle.variables.contains_key(circuits[k].circuit_name.name));
        assert(names.variables.contains_key(name));
    }
}

/// A type that is known is resolved in a table that knows every circuit of the program.
pub proof fn lemma_known_type_resolves(
    table: TableModel,
    written: UnresolvedProgramModel,
    type_: UnresolvedTypeModel,
    circuit: Option<IdentifierModel>,
    span: Span,
)
    requires
        circuits_registered(table, written),
        type_known(written, type_, circuit is Some),
    ensures
        resolve_type(table, type_, circuit, span) is Ok,
    decreases type_, 0int,
{
    match type_ {
        UnresolvedTypeModel::Array(element, _) => {
            lemma_known_type_resolves(table, written, *element, circuit, span);
        },
        UnresolvedTypeModel::Tuple(types) => {
            lemma_known_types_resolve(table, written, types, circuit, span);
        },
        UnresolvedTypeModel::Circuit(identifier) => {
            assert(circuit_named(written, identifier.name));
        },
        _ => {},
    }
}

/// The law of [`lemma_known_type_resolves`] for a list of types.
pub proof fn lemma_known_types_resolve(
    table: TableModel,
    written: UnresolvedProgramModel,
    types: Seq<UnresolvedTypeModel>,
    circuit: Option<IdentifierModel>,
    span: Span,
)
    requires
        circuits_registered(table, written),
        forall|i: int|
            0 <= i < types.len() ==> type_known(written, #[trigger] types[i], circuit is Some),
    ensures
        resolve_types(table, types, circuit, span) is Ok,
    decreases types, 1int,
{
    if types.len() > 0 {
        let front = types.drop_last();
        assert forall|i: int| 0 <= i < front.len() implies type_known(
            written,
            #[trigger] front[i],
            circuit is Some,
        ) by {
            assert(front[i] == types[i]);
        }
        lemma_known_types_resolve(table, written, front, circuit, span);
        assert(type_known(written, types[types.len() - 1], circuit is Some));
        lemma_known_type_resolves(table, written, types.last(), circuit, span);
    }
}

/// A signature whose types are known is resolved in a table that knows every circuit of the
/// program.
pub proof fn lemma_known_signature_resolves(
    table: TableModel,
    written: UnresolvedProgramModel,
    function: UnresolvedFunctionModel,
    circuit: Option<IdentifierModel>,
)
    requires
        circuits_registered(table, written),
        signature_known(written, function, circuit is Some),
    ensures
        resolve_signature(table, function, circuit) is Ok,
{
    let resolver = input_resolver(table, circuit);
    assert forall|i: int| 0 <= i < function.input.len() implies resolver(
        #[trigger] function.input[i],
    ) is Ok by {
        match function.input[i] {
            UnresolvedInputModel::Variable(variable) => {
                lemma_known_type_resolves(table, written, variable.type_, circuit, variable.span);
            },
            UnresolvedInputModel::InputKeyword(_) => {},
        }
    }
    lemma_try_map_succeeds(function.input, resolver, function.input.len() as int);
    match function.returns {
        Some(type_) => {
            lemma_known_type_resolves(table, written, type_, circuit, function.span);
        },
        None => {},
    }
}

/// A circuit whose types are known is resolved to a definition in a table that knows every
/// circuit of the program.
pub proof fn lemma_known_circuit_resolves(
    table: TableModel,
    written: UnresolvedProgramModel,
    circuit: UnresolvedCircuitModel,
)
    requires
        circuits_registered(table, written),
        circuit_known(written, circuit),
    ensures
        resolve_circuit_type(table, circuit) is Ok,
{
    let name = circuit.circuit_name;
    let resolver = member_resolver(table, name);
    assert forall|members: Members, i: int| 0 <= i < circuit.members.len() implies #[trigger] resolver(
        members,
        circuit.members[i],
    ) is Ok by {
        match circuit.members[i] {
            UnresolvedCircuitMemberModel::CircuitVariable(_, _, type_) => {
                lemma_known_type_resolves(table, written, type_, Some(name), name.span);
            },
            UnresolvedCircuitMemberModel::CircuitFunction(_, function) => {
                lemma_known_signature_resolves(table, written, function, Some(name));
            },
        }
    }
    lemma_try_fold_succeeds(
        (Seq::<CircuitVariableModel>::empty(), Seq::<CircuitFunctionModel>::empty()),
        circuit.members,
        resolver,
        circuit.members.len() as int,
    );
}

/// The first `n` circuits of a program whose types are known are defined in a table that
/// knows every circuit of the program, and the table that is left knows them too.
pub proof fn lemma_known_circuits_define(table: TableModel, written: UnresolvedProgramModel, n: int)
    requires
        0 <= n <= written.circuits.len(),
        circuits_registered(table, written),
        types_known(written),
    ensures
        try_fold(table, written.circuits, circuit_definer(), n) is Ok,
        circuits_registered(
            try_fold(table, written.circuits, circuit_definer(), n)->Ok_0,
            written,
        ),
    decreases n,
{
    if n > 0 {
        lemma_known_circuits_define(table, written, n - 1);
        let before = try_fold(table, written.circuits, circuit_definer(), n - 1)->Ok_0;
        assert(circuit_known(written, written.circuits[n - 1]));
        lemma_known_circuit_resolves(before, written, written.circuits[n - 1]);
        let after = try_fold(table, written.circuits, circuit_definer(), n)->Ok_0;
        assert forall|name: Seq<char>| #[trigger] circuit_named(written, name) implies match after.get_variable(
            name,
        ) {
            Some(entry) => entry.type_ == TypeModel::Circuit(name),
            None => false,
        } by {
            assert(after.get_variable(name) == before.get_variable(name));
        }
    }
}

/// The signatures of the first `n` functions of a program whose types are known are defined
/// in a table that knows every circuit of the program, and the table that is left knows
/// them too.
pub proof fn lemma_known_functions_define(table: TableModel, written: UnresolvedProgramModel, n: int)
    requires
        0 <= n <= written.functions.len(),
        circuits_registered(table, written),
        types_known(written),
    ensures
        try_fold(table, written.functions, function_definer(), n) is Ok,
        circuits_registered(
            try_fold(table, written.functions, function_definer(), n)->Ok_0,
            written,
        ),
    decreases n,
{
    if n > 0 {
        lemma_known_functions_define(table, written, n - 1);
        let before = try_fold(table, written.functions, function_definer(), n - 1)->Ok_0;
        assert(signature_known(written, written.functions[n - 1], false));
        lemma_known_signature_resolves(before, written, written.functions[n - 1], None);
        let after = try_fold(table, written.functions, function_definer(), n)->Ok_0;
        assert forall|name: Seq<char>| #[trigger] circuit_named(written, name) implies match after.get_variable(
            name,
        ) {
            Some(entry) => entry.type_ == TypeModel::Circuit(name),
            None => false,
        } by {
            assert(after.get_variable(name) == before.get_variable(name));
        }
    }
}

/// Both passes succeed on a program in which no two circuits or functions carry one name
/// and every type of a definition is known.
pub proof fn lemma_passes_succeed(written: UnresolvedProgramModel)
    requires
        names_distinct(written),
        types_known(written),
    ensures
        pass_one(TableModel::scope(None), written) is Ok,
        pass_two(pass_one(TableModel::scope(None), written)->Ok_0, written) is Ok,
{
    lemma_distinct_names_register(written);
    let names = pass_one(TableModel::scope(None), written)->Ok_0;
    lemma_known_circuits_define(names, written, written.circuits.len() as int);
    let middle = try_fold(
        names,
        written.circuits,
        circuit_definer(),
        written.circuits.len() as int,
    )->Ok_0;
    lemma_known_functions_define(middle, written, written.functions.len() as int);
}

/// Every well-typed program is resolved: what it is written as resolves to the program
/// itself, with the very types that it carries.
pub proof fn lemma_well_typed_program_resolves(
    written: UnresolvedProgramModel,
    program: ProgramModel,
)
    requires
        program_typed(written, program),
    ensures
        resolve_program(written) == Ok::<ProgramModel, ResolverErrorModel>(program),
{
    lemma_passes_succeed(written);
    lemma_typed_declarations_resolve(definitions_of(written), written, program);
}

} // verus!
