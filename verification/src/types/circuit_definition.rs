use crate::ast::circuit::{
    Circuit, CircuitMember, UnresolvedCircuitMemberModel, UnresolvedCircuitModel, members_view,
};
use crate::common::{
    IdentifierModel, attributes_of_mutable, attributes_of_static, mutable_attributes,
    static_attributes,
};
use crate::errors::{TypeError, TypeErrorModel, result_view};
use crate::sequence::{lemma_try_fold_error, try_fold};
use crate::symbol_table::{SymbolTable, TableModel};
use crate::types::circuits::{
    CircuitFunctionModel, CircuitFunctionType, CircuitType, CircuitTypeModel, CircuitVariableModel,
    CircuitVariableType, functions_view, variables_view,
};
use crate::types::functions::FunctionType;
use crate::types::resolve::resolve_type;
use crate::types::signature::resolve_signature;
use crate::types::types::Type;
use vstd::prelude::*;

verus! {

/// The member variables and member functions of a circuit that have been resolved so far.
pub type Members = (Seq<CircuitVariableModel>, Seq<CircuitFunctionModel>);

/// The members after one more member of the circuit `name` is resolved. A member variable
/// gets its resolved type and the attribute `Mutable` where it is written as mutable; a
/// member function gets its resolved signature and the attribute `Static` where it is written
/// as static. In both, `Self` is the circuit.
pub open spec fn resolve_member(
    table: TableModel,
    name: IdentifierModel,
    members: Members,
    member: UnresolvedCircuitMemberModel,
) -> Result<Members, TypeErrorModel> {
    match member {
        UnresolvedCircuitMemberModel::CircuitVariable(mutable, identifier, type_) => match resolve_type(
            table,
            type_,
            Some(name),
            name.span,
        ) {
            Err(error) => Err(error),
            Ok(type_) => Ok(
                (
                    members.0.push(
                        CircuitVariableModel {
                            identifier,
                            type_,
                            attributes: mutable_attributes(mutable),
                        },
                    ),
                    members.1,
                ),
            ),
        },
        UnresolvedCircuitMemberModel::CircuitFunction(is_static, function) => match resolve_signature(
            table,
            function,
            Some(name),
        ) {
            Err(error) => Err(error),
            Ok(function) => Ok(
                (
                    members.0,
                    members.1.push(
                        CircuitFunctionModel { function, attributes: static_attributes(is_static) },
                    ),
                ),
            ),
        },
    }
}

/// [`resolve_member`] as a function of the members so far and of the next member.
pub open spec fn member_resolver(table: TableModel, name: IdentifierModel) -> spec_fn(
    Members,
    UnresolvedCircuitMemberModel,
) -> Result<Members, TypeErrorModel> {
    |members: Members, member: UnresolvedCircuitMemberModel|
        resolve_member(table, name, members, member)
}

/// The definition that a written circuit stands for: its members resolved in one pass, in the
/// order in which they are written; or the error of the first member that has one.
pub open spec fn resolve_circuit_type(table: TableModel, circuit: UnresolvedCircuitModel) -> Result<
    CircuitTypeModel,
    TypeErrorModel,
> {
    match try_fold(
        (Seq::<CircuitVariableModel>::empty(), Seq::<CircuitFunctionModel>::empty()),
        circuit.members,
        member_resolver(table, circuit.circuit_name),
        circuit.members.len() as int,
    ) {
        Err(error) => Err(error),
        Ok(members) => Ok(
            CircuitTypeModel {
                identifier: circuit.circuit_name,
                variables: members.0,
                functions: members.1,
            },
        ),
    }
}

impl CircuitType {
    /// Type check a circuit definition
    pub fn resolve(table: &SymbolTable, unresolved: &Circuit) -> (r: Result<Self, TypeError>)
        requires
            table.wf(),
        ensures
            result_view(r) == resolve_circuit_type(table@, unresolved@),
    {
        let circuit_identifier = &unresolved.circuit_name;
        let ghost all = members_view(unresolved.members@);
        let ghost resolver = member_resolver(table@, circuit_identifier@);
        let mut variables: Vec<CircuitVariableType> = Vec::new();
        let mut functions: Vec<CircuitFunctionType> = Vec::new();
        let mut i: usize = 0;
        assert(variables_view(variables@) =~= Seq::empty());
        assert(functions_view(functions@) =~= Seq::empty());
        while i < unresolved.members.len()
            invariant
                table.wf(),
                i <= unresolved.members.len(),
                all == members_view(unresolved.members@),
                circuit_identifier == &unresolved.circuit_name,
                resolver == member_resolver(table@, circuit_identifier@),
                try_fold(
                    (Seq::<CircuitVariableModel>::empty(), Seq::<CircuitFunctionModel>::empty()),
                    all,
                    resolver,
                    i as int,
                ) == Ok::<Members, TypeErrorModel>(
                    (variables_view(variables@), functions_view(functions@)),
                ),
            decreases unresolved.members.len() - i,
        {
            let ghost variables_before = variables_view(variables@);
            let ghost functions_before = functions_view(functions@);
            assert(all[i as int] == unresolved.members[i as int]@);
            match &unresolved.members[i] {
                CircuitMember::CircuitVariable(is_mutable, variable_identifier, type_) => {
                    // Resolve the type of the circuit member variable
                    let type_ = match Type::from_circuit(
                        table,
                        type_,
                        circuit_identifier,
                        circuit_identifier.span,
                    ) {
                        Ok(type_) => type_,
                        Err(error) => {
                            proof {
                                lemma_try_fold_error(
                                    (
                                        Seq::<CircuitVariableModel>::empty(),
                                        Seq::<CircuitFunctionModel>::empty(),
                                    ),
                                    all,
                                    resolver,
                                    i + 1,
                                    all.len() as int,
                                );
                            }
                            return Err(error);
                        },
                    };
                    let attributes = attributes_of_mutable(*is_mutable);
                    let variable = CircuitVariableType {
                        identifier: variable_identifier.clone(),
                        type_,
                        attributes,
                    };
                    variables.push(variable);
                    assert(variables_view(variables@) =~= variables_before.push(variable@));
                },
                CircuitMember::CircuitFunction(is_static, function) => {
                    let function_type = match FunctionType::from_circuit(
                        table,
                        circuit_identifier,
                        function,
                    ) {
                        Ok(function_type) => function_type,
                        Err(error) => {
                            proof {
                                lemma_try_fold_error(
                                    (
                                        Seq::<CircuitVariableModel>::empty(),
                                        Seq::<CircuitFunctionModel>::empty(),
                                    ),
                                    all,
                                    resolver,
                                    i + 1,
                                    all.len() as int,
                                );
                            }
                            return Err(error);
                        },
                    };
                    let attributes = attributes_of_static(*is_static);
                    let function = CircuitFunctionType { function: function_type, attributes };
                    functions.push(function);
                    assert(functions_view(functions@) =~= functions_before.push(function@));
                },
            }
            i += 1;
        }
        Ok(CircuitType { identifier: circuit_identifier.clone(), variables, functions })
    }

    /// Resolve a circuit definition and insert it into the given symbol table.
    pub fn insert_definition(table: &mut SymbolTable, unresolved_circuit: &Circuit) -> (r: Result<
        (),
        TypeError,
    >)
        requires
            old(table).wf(),
        ensures
            final(table).wf(),
            match resolve_circuit_type(old(table)@, unresolved_circuit@) {
                Ok(circuit) => r is Ok && final(table)@ == old(table)@.insert_circuit(
                    unresolved_circuit@.circuit_name.name,
                    circuit,
                ),
                Err(error) => r is Err && r->Err_0@ == error && final(table)@ == old(table)@,
            },
    {
        let circuit = match Self::resolve(table, unresolved_circuit) {
            Ok(circuit) => circuit,
            Err(error) => {
                return Err(error);
            },
        };
        table.insert_circuit(unresolved_circuit.circuit_name.clone(), circuit);
        Ok(())
    }
}

} // verus!
