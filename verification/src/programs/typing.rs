use crate::ast::{
    UnresolvedCircuitMemberModel, UnresolvedCircuitModel, UnresolvedFunctionModel,
    UnresolvedInputModel, UnresolvedProgramModel, UnresolvedTestFunctionModel,
    UnresolvedTypeModel,
};
use crate::circuits::circuit::{CircuitModel, circuit_scope};
use crate::functions::function::FunctionModel;
use crate::functions::test_function::TestFunctionModel;
use crate::functions::typing::function_typed;
use crate::programs::program::ProgramModel;
use crate::symbol_table::passes::{pass_one, pass_two};
use crate::symbol_table::TableModel;
use vstd::prelude::*;

verus! {

/// Whether `function` is a well-typed function of a program in `table`, where `written` is
/// the function as it is written: `table` holds its signature under its name, and it is
/// well typed with that signature.
pub open spec fn function_declared(
    table: TableModel,
    written: UnresolvedFunctionModel,
    function: FunctionModel,
) -> bool {
    table.get_function(written.identifier.name) == Some(function.type_) && function_typed(
        table,
        written,
        function,
    )
}

/// Whether `test` is a well-typed test of a program in `table`, where `written` is the test
/// as it is written: its function is a well-typed function of the program, and it names the
/// input file that is written.
pub open spec fn test_declared(
    table: TableModel,
    written: UnresolvedTestFunctionModel,
    test: TestFunctionModel,
) -> bool {
    function_declared(table, written.function, test.function) && test.input_file
        == written.input_file
}

/// The member functions among the first `n` members of a circuit, in the order in which
/// they are written.
pub open spec fn methods_of(members: Seq<UnresolvedCircuitMemberModel>, n: int) -> Seq<
    UnresolvedFunctionModel,
>
    decreases n,
{
    if n <= 0 {
        Seq::empty()
    } else {
        match members[n - 1] {
            UnresolvedCircuitMemberModel::CircuitVariable(_, _, _) => methods_of(members, n - 1),
            UnresolvedCircuitMemberModel::CircuitFunction(_, function) => methods_of(
                members,
                n - 1,
            ).push(function),
        }
    }
}

/// Whether `circuit` is a well-typed circuit of a program in `table`, where `written` is the
/// circuit as it is written: `table` holds its definition under its name; its members can be
/// bound in the scope of its body; it has one function for each member function that is
/// written, in the same order; and each of them is well typed in that scope, with the
/// signature that the definition holds under its name.
pub open spec fn circuit_typed(
    table: TableModel,
    written: UnresolvedCircuitModel,
    circuit: CircuitModel,
) -> bool {
    &&& table.get_circuit(written.circuit_name.name) == Some(circuit.type_)
    &&& match circuit_scope(table, circuit.type_) {
        Ok(scope) => {
            let methods = methods_of(written.members, written.members.len() as int);
            &&& methods.len() == circuit.functions.len()
            &&& forall|k: int|
                0 <= k < methods.len() ==> match circuit.type_.function(
                    (#[trigger] methods[k]).identifier.name,
                ) {
                    Some(signature) => circuit.functions[k].type_ == signature.function
                        && function_typed(scope, methods[k], circuit.functions[k]),
                    None => false,
                }
        },
        Err(_) => false,
    }
}

/// Whether the declarations of `program` are well typed in `table`, where `written` is the
/// program as it is written: it has one well-typed circuit for each circuit that is
/// written, one well-typed function for each function, and one well-typed test for each
/// test, each in the order of the source.
pub open spec fn declarations_typed(
    table: TableModel,
    written: UnresolvedProgramModel,
    program: ProgramModel,
) -> bool {
    &&& written.circuits.len() == program.circuits.len()
    &&& written.functions.len() == program.functions.len()
    &&& written.tests.len() == program.tests.len()
    &&& forall|i: int|
        0 <= i < written.circuits.len() ==> circuit_typed(
            table,
            #[trigger] written.circuits[i],
            program.circuits[i],
        )
    &&& forall|i: int|
        0 <= i < written.functions.len() ==> function_declared(
            table,
            #[trigger] written.functions[i],
            program.functions[i],
        )
    &&& forall|i: int|
        0 <= i < written.tests.len() ==> test_declared(
            table,
            #[trigger] written.tests[i],
            program.tests[i],
        )
}

/// Whether no two circuits or functions of the program carry one name.
pub open spec fn names_distinct(written: UnresolvedProgramModel) -> bool {
    &&& forall|i: int, j: int|
        0 <= i < j < written.circuits.len() ==> (#[trigger] written.circuits[i]).circuit_name.name
            != (#[trigger] written.circuits[j]).circuit_name.name
    &&& forall|i: int, j: int|
        0 <= i < j < written.functions.len() ==> (#[trigger] written.functions[i]).identifier.name
            != (#[trigger] written.functions[j]).identifier.name
    &&& forall|i: int, j: int|
        0 <= i < written.circuits.len() && 0 <= j < written.functions.len() ==> (
        #[trigger] written.circuits[i]).circuit_name.name != (
        #[trigger] written.functions[j]).identifier.name
}

/// Whether a circuit of the program carries the name `name`.
pub open spec fn circuit_named(written: UnresolvedProgramModel, name: Seq<char>) -> bool {
    exists|k: int|
        0 <= k < written.circuits.len() && (#[trigger] written.circuits[k]).circuit_name.name
            == name
}

/// Whether every circuit that `type_` names is a circuit of the program, and `Self` is
/// written in it only inside a circuit.
pub open spec fn type_known(
    written: UnresolvedProgramModel,
    type_: UnresolvedTypeModel,
    inside: bool,
) -> bool
    decreases type_,
{
    match type_ {
        UnresolvedTypeModel::Array(element, _) => type_known(written, *element, inside),
        UnresolvedTypeModel::Tuple(types) => forall|i: int|
            0 <= i < types.len() ==> type_known(written, #[trigger] types[i], inside),
        UnresolvedTypeModel::Circuit(identifier) => circuit_named(written, identifier.name),
        UnresolvedTypeModel::SelfType => inside,
        _ => true,
    }
}

/// Whether the types of the inputs of `function` and the type that it returns are known.
pub open spec fn signature_known(
    written: UnresolvedProgramModel,
    function: UnresolvedFunctionModel,
    inside: bool,
) -> bool {
    &&& forall|i: int|
        0 <= i < function.input.len() ==> match #[trigger] function.input[i] {
            UnresolvedInputModel::Variable(variable) => type_known(
                written,
                variable.type_,
                inside,
            ),
            UnresolvedInputModel::InputKeyword(_) => true,
        }
    &&& match function.returns {
        Some(type_) => type_known(written, type_, inside),
        None => true,
    }
}

/// Whether the types of the member variables of `circuit` and of the signatures of its
/// member functions are known.
pub open spec fn circuit_known(written: UnresolvedProgramModel, circuit: UnresolvedCircuitModel) -> bool {
    forall|i: int|
        0 <= i < circuit.members.len() ==> match #[trigger] circuit.members[i] {
            UnresolvedCircuitMemberModel::CircuitVariable(_, _, type_) => type_known(
                written,
                type_,
                true,
            ),
            UnresolvedCircuitMemberModel::CircuitFunction(_, function) => signature_known(
                written,
                function,
                true,
            ),
        }
}

/// Whether every type that a definition of the program is written with is known: it names
/// circuits of the program only, and `Self` is not written outside of a circuit.
pub open spec fn types_known(written: UnresolvedProgramModel) -> bool {
    &&& forall|i: int|
        0 <= i < written.circuits.len() ==> circuit_known(written, #[trigger] written.circuits[i])
    &&& forall|i: int|
        0 <= i < written.functions.len() ==> signature_known(
            written,
            #[trigger] written.functions[i],
            false,
        )
}

/// The table of the names and definitions of a program: what the two passes over the program
/// leave.
pub open spec fn definitions_of(written: UnresolvedProgramModel) -> TableModel {
    pass_two(pass_one(TableModel::scope(None), written)->Ok_0, written)->Ok_0
}

/// Whether `program` is a well-typed program, where `written` is the program as it is
/// written: no two of its circuits and functions carry one name; every type that its
/// definitions are written with is known, and `Self` is not written outside of a circuit;
/// and its declarations are well typed in the table of its names and definitions.
pub open spec fn program_typed(written: UnresolvedProgramModel, program: ProgramModel) -> bool {
    &&& names_distinct(written)
    &&& types_known(written)
    &&& declarations_typed(definitions_of(written), written, program)
}

} // verus!
