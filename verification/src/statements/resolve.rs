use crate::ast::expression::Expression as UnresolvedExpression;
use crate::ast::statement::{
    Statement as UnresolvedStatement, UnresolvedStatementModel, statements_model as
    unresolved_statements_model,
};
use crate::common::{Identifier, Span};
use crate::errors::{ResolverError, ResolverErrorModel};
use crate::expressions::expression::Expression;
use crate::expressions::rules::resolve_expression;
use crate::statements::rules::{
    lemma_resolve_statements_error, loop_entry, resolve_statement, resolve_statements as
    resolve_statements_rule,
};
use crate::statements::statement::{Statement, StatementModel, statements_model};
use crate::symbol_table::{Entry, SymbolTable, TableModel};
use crate::types::resolve::optional_name_view;
use crate::types::{FunctionOutputType, Type};
use vstd::prelude::*;

verus! {

/// The view of a resolved statement or an error, together with the table that is left.
pub open spec fn statement_result_view(result: Result<Statement, ResolverError>, table: TableModel) -> Result<
    (StatementModel, TableModel),
    ResolverErrorModel,
> {
    match result {
        Ok(statement) => Ok((statement@, table)),
        Err(error) => Err(error@),
    }
}

/// The view of a list of resolved statements or an error, together with the table that is
/// left.
pub open spec fn statements_result_view(
    result: Result<Vec<Statement>, ResolverError>,
    table: TableModel,
) -> Result<(Seq<StatementModel>, TableModel), ResolverErrorModel> {
    match result {
        Ok(statements) => Ok((statements_model(&statements), table)),
        Err(error) => Err(error@),
    }
}

/// Resolve an array of statements, each in the table that the statements before it leave.
/// Where one of them is not resolved, the table is left as it was before the first.
pub fn resolve_statements(
    table: &mut SymbolTable,
    return_type: &FunctionOutputType,
    circuit: Option<&Identifier>,
    statements: &Vec<UnresolvedStatement>,
) -> (r: Result<Vec<Statement>, ResolverError>)
    requires
        old(table).wf(),
    ensures
        final(table).wf(),
        statements_result_view(r, final(table)@) == resolve_statements_rule(
            old(table)@,
            return_type@,
            optional_name_view(circuit),
            unresolved_statements_model(statements),
        ),
        r is Err ==> final(table)@ == old(table)@,
    decreases statements, 0int,
{
    let ghost all = unresolved_statements_model(statements);
    let ghost context = optional_name_view(circuit);

    // Resolve in a copy, which takes the place of the table once all statements are resolved
    let mut scope = table.duplicate();
    let mut resolved: Vec<Statement> = Vec::new();
    let mut i: usize = 0;
    assert(all.take(0) =~= Seq::empty());
    assert(statements_model(&resolved) =~= Seq::empty());
    while i < statements.len()
        invariant
            *table == *old(table),
            table.wf(),
            scope.wf(),
            i <= statements.len(),
            all == unresolved_statements_model(statements),
            context == optional_name_view(circuit),
            resolve_statements_rule(table@, return_type@, context, all.take(i as int)) == Ok::<
                (Seq<StatementModel>, TableModel),
                ResolverErrorModel,
            >((statements_model(&resolved), scope@)),
        decreases statements.len() - i,
    {
        let ghost before = statements_model(&resolved);
        proof {
            assert(all.take(i + 1).drop_last() =~= all.take(i as int));
            assert(all.take(i + 1).last() == statements[i as int]@);
        }
        match Statement::resolve(&mut scope, return_type, circuit, &statements[i]) {
            Ok(statement) => {
                resolved.push(statement);
                assert(statements_model(&resolved) =~= before.push(statement@));
            },
            Err(error) => {
                proof {
                    lemma_resolve_statements_error(table@, return_type@, context, all, i + 1);
                }
                return Err(error);
            },
        }
        i += 1;
    }
    assert(all.take(i as int) =~= all);
    *table = scope;
    Ok(resolved)
}

impl Statement {
    /// Resolves a return statement: the value has to have the type that the function returns.
    pub fn resolve_return(
        table: &SymbolTable,
        return_type: &FunctionOutputType,
        expression: &UnresolvedExpression,
        span: Span,
    ) -> (r: Result<Self, ResolverError>)
        requires
            table.wf(),
        ensures
            match resolve_expression(table@, Some(return_type@), expression@) {
                Ok(resolved) => r is Ok && r->Ok_0@ == StatementModel::Return(resolved, span),
                Err(error) => r is Err && r->Err_0@ == ResolverErrorModel::TypeError(error),
            },
    {
        let expected_type = Some(return_type.type_.duplicate());
        match Expression::resolve(table, &expected_type, expression) {
            Ok(expression_resolved) => Ok(Statement::Return(expression_resolved, span)),
            Err(error) => Err(ResolverError::TypeError(error)),
        }
    }

    /// Resolves a loop: the variable of the loop has the type of the start of the range, and
    /// the body is resolved in a new scope that binds it.
    pub fn iteration(
        table: &SymbolTable,
        return_type: &FunctionOutputType,
        circuit: Option<&Identifier>,
        variable: &Identifier,
        start: &UnresolvedExpression,
        stop: &UnresolvedExpression,
        statements: &Vec<UnresolvedStatement>,
        span: Span,
    ) -> (r: Result<Self, ResolverError>)
        requires
            table.wf(),
        ensures
            statement_result_view(r, table@) == resolve_statement(
                table@,
                return_type@,
                optional_name_view(circuit),
                UnresolvedStatementModel::Iteration(
                    variable@,
                    start@,
                    stop@,
                    unresolved_statements_model(statements),
                    span,
                ),
            ),
        decreases statements, 1int,
    {
        let none: Option<Type> = None;
        let start_resolved = match Expression::resolve(table, &none, start) {
            Ok(start_resolved) => start_resolved,
            Err(error) => {
                return Err(ResolverError::TypeError(error));
            },
        };
        match start_resolved.type_.check_type_integer(span) {
            Ok(_) => {},
            Err(error) => {
                return Err(ResolverError::TypeError(error));
            },
        }
        let stop_expected = Some(start_resolved.type_.duplicate());
        let stop_resolved = match Expression::resolve(table, &stop_expected, stop) {
            Ok(stop_resolved) => stop_resolved,
            Err(error) => {
                return Err(ResolverError::TypeError(error));
            },
        };

        // Bind the loop variable in a child symbol table
        let mut child_table = table.child();
        let entry = Entry {
            identifier: variable.clone(),
            type_: start_resolved.type_.duplicate(),
            attributes: Vec::new(),
        };
        assert(entry@ == loop_entry(variable@, start_resolved@.type_));
        child_table.insert_variable(variable.name.clone(), entry);
        match resolve_statements(&mut child_table, return_type, circuit, statements) {
            Ok(statements_resolved) => Ok(
                Statement::Iteration(
                    variable.clone(),
                    start_resolved,
                    stop_resolved,
                    statements_resolved,
                    span,
                ),
            ),
            Err(error) => Err(error),
        }
    }

    /// Resolves `statement` in the scope `table`, inside a function that returns
    /// `return_type`; `circuit` is the circuit whose member the function is, if any.
    pub fn resolve(
        table: &mut SymbolTable,
        return_type: &FunctionOutputType,
        circuit: Option<&Identifier>,
        statement: &UnresolvedStatement,
    ) -> (r: Result<Self, ResolverError>)
        requires
            old(table).wf(),
        ensures
            final(table).wf(),
            statement_result_view(r, final(table)@) == resolve_statement(
                old(table)@,
                return_type@,
                optional_name_view(circuit),
                statement@,
            ),
            r is Err ==> final(table)@ == old(table)@,
        decreases statement, 4int,
    {
        match statement {
            UnresolvedStatement::Return(expression, span) => {
                Self::resolve_return(table, return_type, expression, *span)
            },
            UnresolvedStatement::Definition(declare, variables, expressions, span) => {
                Self::definition(table, circuit, *declare, variables, expressions, *span)
            },
            UnresolvedStatement::Assign(assignee, expression, span) => {
                match Self::assign(table, assignee, expression, *span) {
                    Ok(statement) => Ok(statement),
                    Err(error) => Err(ResolverError::TypeError(error)),
                }
            },
            UnresolvedStatement::Conditional(conditional, span) => {
                Self::conditional(table, return_type, circuit, conditional, *span)
            },
            UnresolvedStatement::Iteration(variable, start, stop, statements, span) => {
                Self::iteration(
                    table,
                    return_type,
                    circuit,
                    variable,
                    start,
                    stop,
                    statements,
                    *span,
                )
            },
            UnresolvedStatement::Expression(expression, span) => {
                let none: Option<Type> = None;
                match Expression::resolve(table, &none, expression) {
                    Ok(expression_resolved) => Ok(Statement::Expression(expression_resolved, *span)),
                    Err(error) => Err(ResolverError::TypeError(error)),
                }
            },
        }
    }
}

} // verus!
