use crate::ast::{UnresolvedCircuitModel, UnresolvedFunctionModel, UnresolvedProgramModel};
use crate::common::{IdentifierModel, Span};
use crate::errors::ResolverErrorModel;
use crate::functions::function::resolve_function_body;
use crate::functions::result::returns_of;
use crate::functions::result::{returns_before, select_among};
use crate::programs::ProgramModel;
use crate::resolver::resolve_program;
use crate::sequence::lemma_try_fold_prefix;
use crate::sequence::try_fold;
use crate::symbol_table::TableModel;
use crate::symbol_table::passes::{
    circuit_definer, circuit_registrar, function_definer, function_registrar, pass_one, pass_two,
};
use crate::types::FunctionTypeModel;
use crate::types::TypeModel;
use vstd::prelude::*;

verus! {

/// Resolution is a function of the written program: two programs that are written alike
/// are resolved alike, to the same program or to the same error.
pub proof fn lemma_resolution_is_deterministic(
    first: UnresolvedProgramModel,
    second: UnresolvedProgramModel,
    first_result: Result<ProgramModel, ResolverErrorModel>,
    second_result: Result<ProgramModel, ResolverErrorModel>,
)
    requires
        first == second,
        first_result == resolve_program(first),
        second_result == resolve_program(second),
    ensures
        first_result == second_result,
{
}

/// After the names of the first `n` functions are bound, the scope binds the name of each of
/// them.
pub proof fn lemma_registered_function_is_bound(
    table: TableModel,
    functions: Seq<UnresolvedFunctionModel>,
    n: int,
    k: int,
)
    requires
        0 <= k < n <= functions.len(),
        try_fold(table, functions, function_registrar(), n) is Ok,
    ensures
        try_fold(table, functions, function_registrar(), n)->Ok_0.local_variable(
            functions[k].identifier.name,
        ) is Some,
    decreases n,
{
    if k < n - 1 {
        lemma_registered_function_is_bound(table, functions, n - 1, k);
    }
}

/// A program in which two functions carry one name does not pass the first pass.
pub proof fn lemma_duplicate_function_fails(
    table: TableModel,
    program: UnresolvedProgramModel,
    i: int,
    j: int,
)
    requires
        0 <= i < j < program.functions.len(),
        program.functions[i].identifier.name == program.functions[j].identifier.name,
    ensures
        pass_one(table, program) is Err,
{
    if pass_one(table, program) is Ok {
        let names = try_fold(
            table,
            program.circuits,
            circuit_registrar(),
            program.circuits.len() as int,
        )->Ok_0;
        let functions = program.functions;
        lemma_try_fold_prefix(names, functions, function_registrar(), j, functions.len() as int);
        lemma_try_fold_prefix(
            names,
            functions,
            function_registrar(),
            j + 1,
            functions.len() as int,
        );
        lemma_registered_function_is_bound(names, functions, j, i);
    }
}

/// The first pass refuses a circuit only for its name, and a function only for its name.
pub proof fn lemma_pass_one_errors(table: TableModel, program: UnresolvedProgramModel, n: int)
    requires
        0 <= n,
    ensures
        match try_fold(table, program.circuits, circuit_registrar(), n) {
            Ok(_) => true,
            Err(error) => error is DuplicateCircuitName,
        },
        match try_fold(table, program.functions, function_registrar(), n) {
            Ok(_) => true,
            Err(error) => error is DuplicateFunctionName,
        },
    decreases n,
{
    if n > 0 {
        lemma_pass_one_errors(table, program, n - 1);
    }
}

/// A program in which two functions carry one name is not resolved: the first pass ends
/// with the error of a name that is bound twice, before any type or any body is looked at.
/// Where the names of the circuits are registered without an error, it is the error of a
/// function name.
pub proof fn lemma_duplicate_function_is_reported(program: UnresolvedProgramModel, i: int, j: int)
    requires
        0 <= i < j < program.functions.len(),
        program.functions[i].identifier.name == program.functions[j].identifier.name,
    ensures
        resolve_program(program) is Err,
        resolve_program(program)->Err_0 is SymbolTableError,
        resolve_program(program)->Err_0->SymbolTableError_0 is DuplicateCircuitName
            || resolve_program(program)->Err_0->SymbolTableError_0 is DuplicateFunctionName,
        try_fold(
            TableModel::scope(None),
            program.circuits,
            circuit_registrar(),
            program.circuits.len() as int,
        ) is Ok ==> resolve_program(program)->Err_0->SymbolTableError_0 is DuplicateFunctionName,
{
    let table = TableModel::scope(None);
    lemma_duplicate_function_fails(table, program, i, j);
    lemma_pass_one_errors(table, program, program.circuits.len() as int);
    match try_fold(table, program.circuits, circuit_registrar(), program.circuits.len() as int) {
        Ok(names) => {
            lemma_pass_one_errors(names, program, program.functions.len() as int);
        },
        Err(_) => {},
    }
}

/// After the first `n` circuits are defined, the table binds the same variables, holds the
/// same function signatures and stands in the same scope as before, and it defines each of
/// the `n` circuits.
pub proof fn lemma_defined_circuits(table: TableModel, circuits: Seq<UnresolvedCircuitModel>, n: int)
    requires
        0 <= n <= circuits.len(),
        try_fold(table, circuits, circuit_definer(), n) is Ok,
    ensures
        ({
            let after = try_fold(table, circuits, circuit_definer(), n)->Ok_0;
            &&& after.variables == table.variables
            &&& after.functions == table.functions
            &&& after.parent == table.parent
            &&& forall|k: int|
                0 <= k < n ==> after.circuits.contains_key(
                    (#[trigger] circuits[k]).circuit_name.name,
                )
        }),
    decreases n,
{
    if n > 0 {
        lemma_defined_circuits(table, circuits, n - 1);
    }
}

/// After the signatures of the first `n` functions are defined, the table binds the same
/// variables, holds the same circuit definitions and stands in the same scope as before, and
/// it defines each of the `n` functions.
pub proof fn lemma_defined_functions(
    table: TableModel,
    functions: Seq<UnresolvedFunctionModel>,
    n: int,
)
    requires
        0 <= n <= functions.len(),
        try_fold(table, functions, function_definer(), n) is Ok,
    ensures
        ({
            let after = try_fold(table, functions, function_definer(), n)->Ok_0;
            &&& after.variables == table.variables
            &&& after.circuits == table.circuits
            &&& after.parent == table.parent
            &&& forall|k: int|
                0 <= k < n ==> after.functions.contains_key(
                    (#[trigger] functions[k]).identifier.name,
                )
        }),
    decreases n,
{
    if n > 0 {
        lemma_defined_functions(table, functions, n - 1);
    }
}

/// The second pass adds definitions only: after it every name is bound as a variable to what
/// it was bound to before, every circuit of the program is defined, and the signature of
/// every function of the program is defined.
pub proof fn lemma_pass_two_defines(table: TableModel, program: UnresolvedProgramModel)
    requires
        pass_two(table, program) is Ok,
    ensures
        forall|name: Seq<char>| #[trigger]
            pass_two(table, program)->Ok_0.get_variable(name) == table.get_variable(name),
        forall|k: int|
            0 <= k < program.circuits.len() ==> pass_two(table, program)->Ok_0.get_circuit(
                (#[trigger] program.circuits[k]).circuit_name.name,
            ) is Some,
        forall|k: int|
            0 <= k < program.functions.len() ==> pass_two(table, program)->Ok_0.get_function(
                (#[trigger] program.functions[k]).identifier.name,
            ) is Some,
{
    let middle = try_fold(
        table,
        program.circuits,
        circuit_definer(),
        program.circuits.len() as int,
    )->Ok_0;
    let after = pass_two(table, program)->Ok_0;
    lemma_defined_circuits(table, program.circuits, program.circuits.len() as int);
    lemma_defined_functions(middle, program.functions, program.functions.len() as int);
    assert forall|name: Seq<char>| #[trigger]
        after.get_variable(name) == table.get_variable(name) by {}
    assert forall|k: int| 0 <= k < program.circuits.len() implies after.get_circuit(
        (#[trigger] program.circuits[k]).circuit_name.name,
    ) is Some by {
        assert(middle.circuits.contains_key(program.circuits[k].circuit_name.name));
    }
    assert forall|k: int| 0 <= k < program.functions.len() implies after.get_function(
        (#[trigger] program.functions[k]).identifier.name,
    ) is Some by {
        assert(after.functions.contains_key(program.functions[k].identifier.name));
    }
}

/// Where a result is selected, it is the one result that is returned on every path, and
/// every result has the type that is asked for.
pub proof fn lemma_selected_is_the_only_return(
    expected: TypeModel,
    results: Seq<(bool, TypeModel)>,
    span: Span,
    n: int,
)
    requires
        0 <= n <= results.len(),
        select_among(expected, results, span, n) is Ok,
    ensures
        forall|i: int| 0 <= i < n ==> (#[trigger] results[i]).1 == expected,
        match select_among(expected, results, span, n)->Ok_0 {
            Some(selected) => 0 <= selected < n && results[selected].0 && forall|i: int|
                0 <= i < n && i != selected ==> !(#[trigger] results[i]).0,
            None => forall|i: int| 0 <= i < n ==> !(#[trigger] results[i]).0,
        },
    decreases n,
{
    if n > 0 {
        lemma_selected_is_the_only_return(expected, results, span, n - 1);
    }
}

/// A function that is resolved and is written with a return type holds exactly one return
/// statement that is reached on every path; one that is written without holds none at all.
pub proof fn lemma_resolved_function_returns_once(
    table: TableModel,
    function: UnresolvedFunctionModel,
    signature: FunctionTypeModel,
    circuit: Option<IdentifierModel>,
)
    requires
        resolve_function_body(table, function, signature, circuit) is Ok,
    ensures
        ({
            let found = returns_of(
                resolve_function_body(table, function, signature, circuit)->Ok_0.statements,
                true,
            );
            match function.returns {
                Some(_) => exists|selected: int|
                    0 <= selected < found.len() && (#[trigger] found[selected]).0 && forall|
                        i: int,
                    |
                        0 <= i < found.len() && i != selected ==> !(#[trigger] found[i]).0,
                None => found.len() == 0,
            }
        }),
{
    let found = returns_of(
        resolve_function_body(table, function, signature, circuit)->Ok_0.statements,
        true,
    );
    match function.returns {
        Some(_) => {
            lemma_selected_is_the_only_return(
                signature.output,
                found,
                function.span,
                found.len() as int,
            );
            let selected = select_among(
                signature.output,
                found,
                function.span,
                found.len() as int,
            )->Ok_0;
            assert(returns_before(found, found.len() as int));
            assert(selected is Some);
            assert(found[selected->Some_0].0);
        },
        None => {},
    }
}

} // verus!
