use crate::ast::statement::{
    ConditionalNestedOrEndStatement as UnresolvedNestedOrEnd,
    ConditionalStatement as UnresolvedConditional, Statement as UnresolvedStatement,
    statements_model as unresolved_statements_model,
};
use crate::common::{Identifier, Span};
use crate::errors::{ResolverError, ResolverErrorModel};
use crate::expressions::expression::Expression;
use crate::statements::resolve::resolve_statements;
use crate::statements::rules::{resolve_block, resolve_conditional};
use crate::statements::statement::{
    Conditional, ConditionalModel, ConditionalNestedOrEndStatement, Statement, StatementModel,
    statements_model,
};
use crate::symbol_table::SymbolTable;
use crate::types::resolve::optional_name_view;
use crate::types::{FunctionOutputType, Type};
use vstd::prelude::*;

verus! {

/// Resolves the statements of a branch in a new scope, which is dropped after them.
pub fn resolve_branch(
    table: &SymbolTable,
    return_type: &FunctionOutputType,
    circuit: Option<&Identifier>,
    statements: &Vec<UnresolvedStatement>,
) -> (r: Result<Vec<Statement>, ResolverError>)
    requires
        table.wf(),
    ensures
        match r {
            Ok(resolved) => resolve_block(
                table@,
                return_type@,
                optional_name_view(circuit),
                unresolved_statements_model(statements),
            ) == Ok::<Seq<StatementModel>, ResolverErrorModel>(statements_model(&resolved)),
            Err(error) => resolve_block(
                table@,
                return_type@,
                optional_name_view(circuit),
                unresolved_statements_model(statements),
            ) == Err::<Seq<StatementModel>, ResolverErrorModel>(error@),
        },
    decreases statements, 1int,
{
    // Create child symbol table: it sees the names of the parent
    let mut child_table = table.child();
    resolve_statements(&mut child_table, return_type, circuit, statements)
}

impl Conditional {
    /// Resolves a conditional statement: the condition, the statements of the branch, and
    /// what follows the branch.
    pub fn from_unresolved(
        table: &SymbolTable,
        return_type: &FunctionOutputType,
        circuit: Option<&Identifier>,
        conditional: &UnresolvedConditional,
        span: Span,
    ) -> (r: Result<Self, ResolverError>)
        requires
            table.wf(),
        ensures
            match r {
                Ok(resolved) => resolve_conditional(
                    table@,
                    return_type@,
                    optional_name_view(circuit),
                    conditional@,
                    span,
                ) == Ok::<ConditionalModel, ResolverErrorModel>(resolved@),
                Err(error) => resolve_conditional(
                    table@,
                    return_type@,
                    optional_name_view(circuit),
                    conditional@,
                    span,
                ) == Err::<ConditionalModel, ResolverErrorModel>(error@),
            },
        decreases conditional, 2int,
    {
        // Resolve the condition to a boolean
        let type_boolean = Some(Type::Boolean);
        let condition_resolved = match Expression::resolve(
            table,
            &type_boolean,
            &conditional.condition,
        ) {
            Ok(condition_resolved) => condition_resolved,
            Err(error) => {
                return Err(ResolverError::TypeError(error));
            },
        };

        // Resolve all statements
        let statements_resolved = match resolve_branch(
            table,
            return_type,
            circuit,
            &conditional.statements,
        ) {
            Ok(statements_resolved) => statements_resolved,
            Err(error) => {
                return Err(error);
            },
        };
        let next_resolved = match &conditional.next {
            Some(UnresolvedNestedOrEnd::Nested(nested)) => {
                match Self::from_unresolved(table, return_type, circuit, nested, span) {
                    Ok(conditional_resolved) => Some(
                        ConditionalNestedOrEndStatement::Nested(Box::new(conditional_resolved)),
                    ),
                    Err(error) => {
                        return Err(error);
                    },
                }
            },
            Some(UnresolvedNestedOrEnd::End(statements)) => {
                match resolve_branch(table, return_type, circuit, statements) {
                    Ok(statements_resolved) => Some(
                        ConditionalNestedOrEndStatement::End(statements_resolved),
                    ),
                    Err(error) => {
                        return Err(error);
                    },
                }
            },
            None => None,
        };
        Ok(
            Conditional {
                condition: condition_resolved,
                statements: statements_resolved,
                next: next_resolved,
                span,
            },
        )
    }
}

impl Statement {
    /// Resolves a conditional statement
    pub fn conditional(
        table: &SymbolTable,
        return_type: &FunctionOutputType,
        circuit: Option<&Identifier>,
        conditional: &UnresolvedConditional,
        span: Span,
    ) -> (r: Result<Self, ResolverError>)
        requires
            table.wf(),
        ensures
            match r {
                Ok(statement) => statement is Conditional && resolve_conditional(
                    table@,
                    return_type@,
                    optional_name_view(circuit),
                    conditional@,
                    span,
                ) == Ok::<ConditionalModel, ResolverErrorModel>(statement->Conditional_0@),
                Err(error) => resolve_conditional(
                    table@,
                    return_type@,
                    optional_name_view(circuit),
                    conditional@,
                    span,
                ) == Err::<ConditionalModel, ResolverErrorModel>(error@),
            },
        decreases conditional, 3int,
    {
        match Conditional::from_unresolved(table, return_type, circuit, conditional, span) {
            Ok(conditional) => Ok(Statement::Conditional(conditional)),
            Err(error) => Err(error),
        }
    }
}

} // verus!
