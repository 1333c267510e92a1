use crate::ast::expression::{
    CircuitVariableDefinition as UnresolvedCircuitVariableDefinition,
    Expression as UnresolvedExpression, UnresolvedExpressionModel,
    members_model as unresolved_members_model,
};
use crate::common::{Identifier, Span};
use crate::errors::{TypeError, TypeErrorModel};
use crate::expressions::expression::{
    CircuitVariableDefinition, Expression, ExpressionValue, MemberModel, expression_result_view,
    members_model,
};
use crate::expressions::rules::{
    lemma_resolve_members_error, named_before, resolve_expression, resolve_members,
};
use crate::symbol_table::SymbolTable;
use crate::types::types::optional_type_model;
use crate::types::{CircuitType, Type};
use vstd::prelude::*;

verus! {

/// Whether one of the first `n` members carries the name `name`.
fn is_named_before(members: &Vec<UnresolvedCircuitVariableDefinition>, n: usize, name: &String) -> (r:
    bool)
    requires
        n <= members.len(),
    ensures
        r == named_before(unresolved_members_model(members), n as int, name@),
{
    let ghost all = unresolved_members_model(members);
    let mut j: usize = 0;
    while j < n
        invariant
            j <= n <= members.len(),
            all == unresolved_members_model(members),
            forall|k: int| 0 <= k < j ==> (#[trigger] all[k]).identifier.name != name@,
        decreases n - j,
    {
        if members[j].identifier.name == *name {
            assert(all[j as int].identifier.name == name@);
            return true;
        }
        j += 1;
    }
    false
}

/// Resolves the members of a circuit expression in order and stops at the first error.
fn resolve_circuit_members(
    table: &SymbolTable,
    circuit: &CircuitType,
    members: &Vec<UnresolvedCircuitVariableDefinition>,
) -> (r: Result<Vec<CircuitVariableDefinition>, TypeError>)
    requires
        table.wf(),
    ensures
        match r {
            Ok(resolved) => resolve_members(
                table@,
                circuit@,
                unresolved_members_model(members),
                members.len() as int,
            ) == Ok::<Seq<MemberModel>, TypeErrorModel>(members_model(&resolved)),
            Err(error) => resolve_members(
                table@,
                circuit@,
                unresolved_members_model(members),
                members.len() as int,
            ) == Err::<Seq<MemberModel>, TypeErrorModel>(error@),
        },
    decreases members, 0int,
{
    let ghost all = unresolved_members_model(members);
    let mut resolved: Vec<CircuitVariableDefinition> = Vec::new();
    let mut i: usize = 0;
    assert(members_model(&resolved) =~= Seq::empty());
    while i < members.len()
        invariant
            table.wf(),
            i <= members.len(),
            all == unresolved_members_model(members),
            resolve_members(table@, circuit@, all, i as int) == Ok::<
                Seq<MemberModel>,
                TypeErrorModel,
            >(members_model(&resolved)),
        decreases members.len() - i,
    {
        let ghost before = members_model(&resolved);
        let member = &members[i];
        assert(all[i as int] == member@);
        // Find variable by name
        let variable_type = match circuit.variable(&member.identifier.name) {
            Some(variable_type) => variable_type,
            None => {
                proof {
                    lemma_resolve_members_error(table@, circuit@, all, i + 1, all.len() as int);
                }
                return Err(TypeError::UndefinedCircuitMember(member.identifier.clone()));
            },
        };
        if is_named_before(members, i, &member.identifier.name) {
            proof {
                lemma_resolve_members_error(table@, circuit@, all, i + 1, all.len() as int);
            }
            return Err(TypeError::DuplicateCircuitMember(member.identifier.clone()));
        }
        // Resolve the variable expression using the expected variable type
        let expected_variable_type = Some(variable_type.type_.duplicate());
        match Expression::resolve(table, &expected_variable_type, &member.expression) {
            Ok(expression) => {
                let definition = CircuitVariableDefinition {
                    identifier: member.identifier.clone(),
                    expression,
                };
                resolved.push(definition);
                assert(members_model(&resolved) =~= before.push(definition@));
            },
            Err(error) => {
                proof {
                    lemma_resolve_members_error(table@, circuit@, all, i + 1, all.len() as int);
                }
                return Err(error);
            },
        }
        i += 1;
    }
    Ok(resolved)
}

impl Expression {
    /// Resolves an inline circuit expression
    pub(crate) fn circuit(
        table: &SymbolTable,
        expected_type: &Option<Type>,
        identifier: &Identifier,
        variables: &Vec<UnresolvedCircuitVariableDefinition>,
        span: Span,
        Ghost(whole): Ghost<UnresolvedExpression>,
    ) -> (r: Result<Expression, TypeError>)
        requires
            table.wf(),
            decreases_to!(whole => *variables),
        ensures
            expression_result_view(r) == resolve_expression(
                table@,
                optional_type_model(*expected_type),
                UnresolvedExpressionModel::Circuit(
                    identifier@,
                    unresolved_members_model(variables),
                    span,
                ),
            ),
        decreases whole, 0int,
    {
        // Check expected type
        let type_ = Type::Circuit(identifier.clone());
        match Type::check_type(expected_type, &type_, span) {
            Ok(_) => {},
            Err(error) => {
                return Err(error);
            },
        }
        // Lookup circuit in symbol table
        let circuit = match table.get_circuit(&identifier.name) {
            Some(circuit) => circuit,
            None => {
                return Err(TypeError::UndefinedCircuit(identifier.clone()));
            },
        };
        // Check the number of variables given
        if variables.len() != circuit.variables.len() {
            return Err(
                TypeError::InvalidNumberOfMembers {
                    expected: circuit.variables.len(),
                    found: variables.len(),
                    span,
                },
            );
        }
        // Check the name and type for each circuit variable
        match resolve_circuit_members(table, circuit, variables) {
            Ok(variables_resolved) => Ok(
                Expression {
                    type_,
                    value: ExpressionValue::Circuit(identifier.clone(), variables_resolved, span),
                },
            ),
            Err(error) => Err(error),
        }
    }
}

} // verus!
