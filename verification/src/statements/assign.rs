use crate::ast::expression::{Expression as UnresolvedExpression, RangeOrExpression};
use crate::ast::statement::{
    Assignee as UnresolvedAssignee, AssigneeAccess as UnresolvedAssigneeAccess, accesses_view as
    unresolved_accesses_view,
};
use crate::common::{Identifier, IntegerType, Span};
use crate::errors::{TypeError, TypeErrorModel};
use crate::expressions::expression::Expression;
use crate::statements::rules::{
    lemma_resolve_accesses_error, resolve_access, resolve_accesses, resolve_assign,
};
use crate::statements::statement::{
    AccessModel, Assign, AssignModel, Assignee, AssigneeAccess, Statement, accesses_view,
};
use crate::symbol_table::SymbolTable;
use crate::types::{Type, TypeModel};
use vstd::prelude::*;

verus! {

/// Resolves one access into a value of type `type_`, and gives the type of the part that it
/// reaches.
pub fn get_access_type(
    table: &SymbolTable,
    type_: &Type,
    access: &UnresolvedAssigneeAccess,
    span: Span,
) -> (r: Result<(Type, AssigneeAccess), TypeError>)
    requires
        table.wf(),
    ensures
        match r {
            Ok((next, resolved)) => resolve_access(table@, type_@, access@, span) == Ok::<
                (TypeModel, AccessModel),
                TypeErrorModel,
            >((next@, resolved@)),
            Err(error) => resolve_access(table@, type_@, access@, span) == Err::<
                (TypeModel, AccessModel),
                TypeErrorModel,
            >(error@),
        },
{
    // Check that we are correctly accessing the type
    match access {
        UnresolvedAssigneeAccess::Array(index) => {
            let (element_type, length) = match type_.get_type_array(span) {
                Ok((element, dimensions)) => {
                    if dimensions.len() == 0 {
                        return Err(TypeError::ExpectedArrayType { found: type_.duplicate(), span });
                    }
                    (Type::element_type(element, dimensions), dimensions[0])
                },
                Err(error) => {
                    return Err(error);
                },
            };
            match index {
                RangeOrExpression::Expression(index) => {
                    let index_type = Some(Type::IntegerType(IntegerType::U32));
                    match Expression::resolve(table, &index_type, index) {
                        Ok(index_resolved) => Ok(
                            (element_type, AssigneeAccess::Array(index_resolved)),
                        ),
                        Err(error) => Err(error),
                    }
                },
                RangeOrExpression::Range(from, to) => {
                    let from_resolved = match Expression::range_bound(table, from, 0, span) {
                        Ok(from_resolved) => from_resolved,
                        Err(error) => {
                            return Err(error);
                        },
                    };
                    let to_resolved = match Expression::range_bound(table, to, length, span) {
                        Ok(to_resolved) => to_resolved,
                        Err(error) => {
                            return Err(error);
                        },
                    };
                    Ok((type_.duplicate(), AssigneeAccess::ArrayRange(from_resolved, to_resolved)))
                },
            }
        },
        UnresolvedAssigneeAccess::Tuple(index) => {
            let types = match type_.get_type_tuple(span) {
                Ok(types) => types,
                Err(error) => {
                    return Err(error);
                },
            };
            if *index >= types.len() {
                return Err(
                    TypeError::InvalidTupleIndex { index: *index, length: types.len(), span },
                );
            }
            Ok((types[*index].duplicate(), AssigneeAccess::Tuple(*index)))
        },
        UnresolvedAssigneeAccess::Member(member) => {
            match type_ {
                Type::Circuit(identifier) => {
                    let circuit_type = match table.get_circuit(&identifier.name) {
                        Some(circuit_type) => circuit_type,
                        None => {
                            return Err(
                                TypeError::UndefinedCircuit(
                                    Identifier::new(identifier.name.clone(), span),
                                ),
                            );
                        },
                    };
                    match circuit_type.member_type(member) {
                        Ok(member_type) => Ok(
                            (member_type.duplicate(), AssigneeAccess::Member(member.clone())),
                        ),
                        Err(error) => Err(error),
                    }
                },
                Type::Function(identifier) => {
                    match table.get_function(&identifier.name) {
                        Some(function) => Ok(
                            (
                                function.output.type_.duplicate(),
                                AssigneeAccess::Member(member.clone()),
                            ),
                        ),
                        None => Err(
                            TypeError::UndefinedFunction(
                                Identifier::new(identifier.name.clone(), span),
                            ),
                        ),
                    }
                },
                _ => Err(TypeError::ExpectedCircuitType { found: type_.duplicate(), span }),
            }
        },
    }
}

/// Resolves a chain of accesses into a value of type `type_`, and gives the type of the part
/// that the chain reaches.
pub fn get_inner_assignee_type(
    table: &SymbolTable,
    type_: &Type,
    accesses: &Vec<UnresolvedAssigneeAccess>,
    span: Span,
) -> (r: Result<(Type, Vec<AssigneeAccess>), TypeError>)
    requires
        table.wf(),
    ensures
        match r {
            Ok((inner, resolved)) => resolve_accesses(
                table@,
                type_@,
                unresolved_accesses_view(accesses@),
                accesses.len() as int,
                span,
            ) == Ok::<(TypeModel, Seq<AccessModel>), TypeErrorModel>(
                (inner@, accesses_view(resolved@)),
            ),
            Err(error) => resolve_accesses(
                table@,
                type_@,
                unresolved_accesses_view(accesses@),
                accesses.len() as int,
                span,
            ) == Err::<(TypeModel, Seq<AccessModel>), TypeErrorModel>(error@),
        },
{
    let ghost all = unresolved_accesses_view(accesses@);
    let mut current = type_.duplicate();
    let mut resolved: Vec<AssigneeAccess> = Vec::new();
    let mut i: usize = 0;
    assert(accesses_view(resolved@) =~= Seq::empty());
    while i < accesses.len()
        invariant
            table.wf(),
            i <= accesses.len(),
            all == unresolved_accesses_view(accesses@),
            resolve_accesses(table@, type_@, all, i as int, span) == Ok::<
                (TypeModel, Seq<AccessModel>),
                TypeErrorModel,
            >((current@, accesses_view(resolved@))),
        decreases accesses.len() - i,
    {
        let ghost before = accesses_view(resolved@);
        assert(all[i as int] == accesses[i as int]@);
        match get_access_type(table, &current, &accesses[i], span) {
            Ok((next, access)) => {
                current = next;
                resolved.push(access);
                assert(accesses_view(resolved@) =~= before.push(access@));
            },
            Err(error) => {
                proof {
                    lemma_resolve_accesses_error(
                        table@,
                        type_@,
                        all,
                        i + 1,
                        accesses.len() as int,
                        span,
                    );
                }
                return Err(error);
            },
        }
        i += 1;
    }
    Ok((current, resolved))
}

impl Statement {
    /// Resolves an assign statement
    pub fn assign(
        table: &SymbolTable,
        assignee: &UnresolvedAssignee,
        expression: &UnresolvedExpression,
        span: Span,
    ) -> (r: Result<Self, TypeError>)
        requires
            table.wf(),
        ensures
            match r {
                Ok(statement) => statement is Assign && resolve_assign(
                    table@,
                    assignee@,
                    expression@,
                    span,
                ) == Ok::<AssignModel, TypeErrorModel>(statement->Assign_0@),
                Err(error) => resolve_assign(table@, assignee@, expression@, span) == Err::<
                    AssignModel,
                    TypeErrorModel,
                >(error@),
            },
    {
        // Lookup variable in symbol table
        let key = &assignee.identifier.name;
        let variable = match table.get_variable(key) {
            Some(variable) => variable,
            None => {
                return Err(TypeError::UndefinedVariable(assignee.identifier.clone()));
            },
        };

        // Throw an error if this variable is not mutable
        if !variable.is_mutable() {
            return Err(TypeError::ImmutableAssign(assignee.identifier.clone()));
        }

        // Get inner assignee type
        let (type_, accesses) = match get_inner_assignee_type(
            table,
            &variable.type_,
            &assignee.accesses,
            span,
        ) {
            Ok(inner) => inner,
            Err(error) => {
                return Err(error);
            },
        };

        // Resolve the expression based on the assignee type
        let expected_type = Some(type_);
        match Expression::resolve(table, &expected_type, expression) {
            Ok(expression_resolved) => Ok(
                Statement::Assign(
                    Assign {
                        assignee: Assignee { identifier: assignee.identifier.clone(), accesses },
                        expression: expression_resolved,
                        span,
                    },
                ),
            ),
            Err(error) => Err(error),
        }
    }
}

} // verus!
