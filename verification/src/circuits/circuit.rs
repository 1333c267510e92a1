use crate::ast::circuit::{
    Circuit as UnresolvedCircuit, CircuitMember, UnresolvedCircuitMemberModel,
    UnresolvedCircuitModel, members_view,
};
use crate::errors::{
    ResolverError, ResolverErrorModel, SymbolTableError, SymbolTableErrorModel, TypeError,
    TypeErrorModel,
};
use crate::functions::function::{
    Function, FunctionModel, functions_view, resolve_function_body,
};
use crate::sequence::{lemma_try_fold_error, try_fold};
use crate::symbol_table::{Entry, EntryModel, SymbolTable, TableModel};
use crate::types::circuits::{
    CircuitFunctionModel, CircuitFunctionType, CircuitVariableModel, CircuitVariableType,
    functions_view as function_types_view, variables_view,
};
use crate::types::{CircuitType, CircuitTypeModel, Type, TypeModel};
use vstd::prelude::*;

verus! {

/// A resolved circuit definition.
#[derive(Debug, PartialEq, Eq)]
pub struct Circuit {
    /// The definition of the circuit: its name and the types of its members
    pub type_: CircuitType,
    /// The circuit member functions
    pub functions: Vec<Function>,
}

/// What a [`Circuit`] stands for in contracts.
pub ghost struct CircuitModel {
    pub type_: CircuitTypeModel,
    pub functions: Seq<FunctionModel>,
}

impl View for Circuit {
    type V = CircuitModel;

    open spec fn view(&self) -> CircuitModel {
        CircuitModel { type_: self.type_@, functions: functions_view(self.functions@) }
    }
}

/// The view of every circuit of a list.
pub open spec fn circuits_view(circuits: Seq<Circuit>) -> Seq<CircuitModel> {
    circuits.map_values(|circuit: Circuit| circuit@)
}

/// The table after the member variable `variable` is bound in the scope itself, which may not
/// bind its name already.
pub open spec fn bind_member_variable(table: TableModel, variable: CircuitVariableModel) -> Result<
    TableModel,
    ResolverErrorModel,
> {
    if table.local_variable(variable.identifier.name) is Some {
        Err(
            ResolverErrorModel::SymbolTableError(
                SymbolTableErrorModel::DuplicateVariable(variable.identifier),
            ),
        )
    } else {
        Ok(
            table.insert_variable(
                variable.identifier.name,
                EntryModel {
                    identifier: variable.identifier,
                    type_: variable.type_,
                    attributes: variable.attributes,
                },
            ),
        )
    }
}

/// The table after the member function `function` is bound in the scope itself, which may
/// not bind its name already: the name is bound to the function type of that name, and the
/// signature is defined under it.
pub open spec fn bind_member_function(table: TableModel, function: CircuitFunctionModel) -> Result<
    TableModel,
    ResolverErrorModel,
> {
    if table.local_variable(function.function.identifier.name) is Some {
        Err(
            ResolverErrorModel::SymbolTableError(
                SymbolTableErrorModel::DuplicateVariable(function.function.identifier),
            ),
        )
    } else {
        Ok(
            table.insert_variable(
                function.function.identifier.name,
                EntryModel {
                    identifier: function.function.identifier,
                    type_: TypeModel::Function(function.function.identifier.name),
                    attributes: function.attributes,
                },
            ).insert_function(function.function.identifier.name, function.function),
        )
    }
}

/// [`bind_member_variable`] as a step.
pub open spec fn member_variable_binder() -> spec_fn(TableModel, CircuitVariableModel) -> Result<
    TableModel,
    ResolverErrorModel,
> {
    |table: TableModel, variable: CircuitVariableModel| bind_member_variable(table, variable)
}

/// [`bind_member_function`] as a step.
pub open spec fn member_function_binder() -> spec_fn(TableModel, CircuitFunctionModel) -> Result<
    TableModel,
    ResolverErrorModel,
> {
    |table: TableModel, function: CircuitFunctionModel| bind_member_function(table, function)
}

/// The scope of the body of a circuit: nested in `table`, it binds the member variables and
/// then the member functions of the circuit, each in the order of the definition.
pub open spec fn circuit_scope(table: TableModel, circuit: CircuitTypeModel) -> Result<
    TableModel,
    ResolverErrorModel,
> {
    match try_fold(
        table.child(),
        circuit.variables,
        member_variable_binder(),
        circuit.variables.len() as int,
    ) {
        Err(error) => Err(error),
        Ok(scope) => try_fold(
            scope,
            circuit.functions,
            member_function_binder(),
            circuit.functions.len() as int,
        ),
    }
}

/// The resolved member functions after one more member is taken: a member variable adds
/// nothing; a member function is resolved in `scope` with the signature that `circuit` holds
/// under its name, and inside it `Self` is the circuit.
pub open spec fn resolve_method(
    scope: TableModel,
    circuit: CircuitTypeModel,
    resolved: Seq<FunctionModel>,
    member: UnresolvedCircuitMemberModel,
) -> Result<Seq<FunctionModel>, ResolverErrorModel> {
    match member {
        UnresolvedCircuitMemberModel::CircuitVariable(_, _, _) => Ok(resolved),
        UnresolvedCircuitMemberModel::CircuitFunction(_, function) => match circuit.function(
            function.identifier.name,
        ) {
            None => Err(
                ResolverErrorModel::TypeError(
                    TypeErrorModel::UndefinedCircuitMember(function.identifier),
                ),
            ),
            Some(signature) => match resolve_function_body(
                scope,
                function,
                signature.function,
                Some(circuit.identifier),
            ) {
                Err(error) => Err(error),
                Ok(function) => Ok(resolved.push(function)),
            },
        },
    }
}

/// [`resolve_method`] as a step.
pub open spec fn method_resolver(scope: TableModel, circuit: CircuitTypeModel) -> spec_fn(
    Seq<FunctionModel>,
    UnresolvedCircuitMemberModel,
) -> Result<Seq<FunctionModel>, ResolverErrorModel> {
    |resolved: Seq<FunctionModel>, member: UnresolvedCircuitMemberModel|
        resolve_method(scope, circuit, resolved, member)
}

/// The resolved circuit that `circuit` stands for: the definition that `table` holds under
/// its name, and its member functions resolved in the order of the source, in the scope of
/// the body of the circuit.
pub open spec fn resolve_circuit(table: TableModel, circuit: UnresolvedCircuitModel) -> Result<
    CircuitModel,
    ResolverErrorModel,
> {
    match table.get_circuit(circuit.circuit_name.name) {
        None => Err(
            ResolverErrorModel::TypeError(TypeErrorModel::UndefinedCircuit(circuit.circuit_name)),
        ),
        Some(type_) => match circuit_scope(table, type_) {
            Err(error) => Err(error),
            Ok(scope) => match try_fold(
                Seq::<FunctionModel>::empty(),
                circuit.members,
                method_resolver(scope, type_),
                circuit.members.len() as int,
            ) {
                Err(error) => Err(error),
                Ok(functions) => Ok(CircuitModel { type_, functions }),
            },
        },
    }
}

/// Binds the member variables of a circuit in `table`, in order.
fn insert_member_variables(table: &mut SymbolTable, variables: &Vec<CircuitVariableType>) -> (r:
    Result<(), ResolverError>)
    requires
        old(table).wf(),
    ensures
        final(table).wf(),
        match try_fold(
            old(table)@,
            variables_view(variables@),
            member_variable_binder(),
            variables.len() as int,
        ) {
            Ok(after) => r is Ok && final(table)@ == after,
            Err(error) => r is Err && r->Err_0@ == error,
        },
{
    let ghost all = variables_view(variables@);
    let mut i: usize = 0;
    while i < variables.len()
        invariant
            table.wf(),
            i <= variables.len(),
            all == variables_view(variables@),
            try_fold(old(table)@, all, member_variable_binder(), i as int) == Ok::<
                TableModel,
                ResolverErrorModel,
            >(table@),
        decreases variables.len() - i,
    {
        let variable = &variables[i];
        assert(all[i as int] == variable@);
        let entry = Entry {
            identifier: variable.identifier.clone(),
            type_: variable.type_.duplicate(),
            attributes: variable.attributes.clone(),
        };
        if table.insert_variable(variable.identifier.name.clone(), entry).is_some() {
            proof {
                lemma_try_fold_error(
                    old(table)@,
                    all,
                    member_variable_binder(),
                    i + 1,
                    variables.len() as int,
                );
            }
            return Err(
                ResolverError::SymbolTableError(
                    SymbolTableError::DuplicateVariable(variable.identifier.clone()),
                ),
            );
        }
        i += 1;
    }
    Ok(())
}

/// Binds the member functions of a circuit in `table`, in order.
fn insert_member_functions(table: &mut SymbolTable, functions: &Vec<CircuitFunctionType>) -> (r:
    Result<(), ResolverError>)
    requires
        old(table).wf(),
    ensures
        final(table).wf(),
        match try_fold(
            old(table)@,
            function_types_view(functions@),
            member_function_binder(),
            functions.len() as int,
        ) {
            Ok(after) => r is Ok && final(table)@ == after,
            Err(error) => r is Err && r->Err_0@ == error,
        },
{
    let ghost all = function_types_view(functions@);
    let mut i: usize = 0;
    while i < functions.len()
        invariant
            table.wf(),
            i <= functions.len(),
            all == function_types_view(functions@),
            try_fold(old(table)@, all, member_function_binder(), i as int) == Ok::<
                TableModel,
                ResolverErrorModel,
            >(table@),
        decreases functions.len() - i,
    {
        let function = &functions[i];
        assert(all[i as int] == function@);
        let identifier = &function.function.identifier;
        let entry = Entry {
            identifier: identifier.clone(),
            type_: Type::Function(identifier.clone()),
            attributes: function.attributes.clone(),
        };
        if table.insert_variable(identifier.name.clone(), entry).is_some() {
            proof {
                lemma_try_fold_error(
                    old(table)@,
                    all,
                    member_function_binder(),
                    i + 1,
                    functions.len() as int,
                );
            }
            return Err(
                ResolverError::SymbolTableError(
                    SymbolTableError::DuplicateVariable(identifier.clone()),
                ),
            );
        }
        table.insert_function(identifier.clone(), function.function.clone());
        i += 1;
    }
    Ok(())
}

impl Circuit {
    /// Returns a resolved circuit given an unresolved circuit
    pub fn resolve(table: &SymbolTable, unresolved: &UnresolvedCircuit) -> (r: Result<
        Self,
        ResolverError,
    >)
        requires
            table.wf(),
        ensures
            match r {
                Ok(circuit) => resolve_circuit(table@, unresolved@) == Ok::<
                    CircuitModel,
                    ResolverErrorModel,
                >(circuit@),
                Err(error) => resolve_circuit(table@, unresolved@) == Err::<
                    CircuitModel,
                    ResolverErrorModel,
                >(error@),
            },
    {
        let circuit_identifier = &unresolved.circuit_name;
        let type_ = match table.get_circuit(&circuit_identifier.name) {
            Some(type_) => type_,
            None => {
                return Err(
                    ResolverError::TypeError(
                        TypeError::UndefinedCircuit(circuit_identifier.clone()),
                    ),
                );
            },
        };

        // Create circuit context
        let mut scope = table.child();
        match insert_member_variables(&mut scope, &type_.variables) {
            Ok(_) => {},
            Err(error) => {
                return Err(error);
            },
        }
        match insert_member_functions(&mut scope, &type_.functions) {
            Ok(_) => {},
            Err(error) => {
                return Err(error);
            },
        }

        // Resolve all circuit functions
        let ghost all = members_view(unresolved.members@);
        let ghost resolver = method_resolver(scope@, type_@);
        let mut functions: Vec<Function> = Vec::new();
        let mut i: usize = 0;
        assert(functions_view(functions@) =~= Seq::empty());
        while i < unresolved.members.len()
            invariant
                scope.wf(),
                table@.get_circuit(unresolved@.circuit_name.name) == Some(type_@),
                circuit_scope(table@, type_@) == Ok::<TableModel, ResolverErrorModel>(scope@),
                i <= unresolved.members.len(),
                all == members_view(unresolved.members@),
                resolver == method_resolver(scope@, type_@),
                try_fold(Seq::<FunctionModel>::empty(), all, resolver, i as int) == Ok::<
                    Seq<FunctionModel>,
                    ResolverErrorModel,
                >(functions_view(functions@)),
            decreases unresolved.members.len() - i,
        {
            let ghost before = functions_view(functions@);
            assert(all[i as int] == unresolved.members[i as int]@);
            match &unresolved.members[i] {
                CircuitMember::CircuitVariable(_, _, _) => {},
                CircuitMember::CircuitFunction(_, function) => {
                    let signature = match type_.function(&function.identifier.name) {
                        Some(signature) => signature,
                        None => {
                            proof {
                                lemma_try_fold_error(
                                    Seq::<FunctionModel>::empty(),
                                    all,
                                    resolver,
                                    i + 1,
                                    all.len() as int,
                                );
                            }
                            return Err(
                                ResolverError::TypeError(
                                    TypeError::UndefinedCircuitMember(function.identifier.clone()),
                                ),
                            );
                        },
                    };
                    match Function::resolve_body(
                        &scope,
                        function,
                        &signature.function,
                        Some(&type_.identifier),
                    ) {
                        Ok(resolved) => {
                            functions.push(resolved);
                            assert(functions_view(functions@) =~= before.push(resolved@));
                        },
                        Err(error) => {
                            proof {
                                lemma_try_fold_error(
                                    Seq::<FunctionModel>::empty(),
                                    all,
                                    resolver,
                                    i + 1,
                                    all.len() as int,
                                );
                            }
                            return Err(error);
                        },
                    }
                },
            }
            i += 1;
        }
        Ok(Circuit { type_: type_.clone(), functions })
    }
}

} // verus!
