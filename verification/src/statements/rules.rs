use crate::ast::statement::{
    UnresolvedAccessModel, UnresolvedAssigneeModel, UnresolvedConditionalModel,
    UnresolvedNestedOrEndModel, UnresolvedStatementModel, VariableNameModel, VariablesModel,
};
use crate::ast::{RangeOrExpressionModel, UnresolvedExpressionModel};
use crate::common::{Declare, IdentifierModel, Span, mutable_attributes};
use crate::errors::{ResolverErrorModel, SymbolTableErrorModel, TypeErrorModel};
use crate::expressions::expression::types_of;
use crate::expressions::rules::{
    index_type, part_expected, resolve_bound, resolve_expression, resolve_expressions,
};
use crate::statements::statement::{
    AccessModel, AssignModel, AssigneeModel, ConditionalModel, DefinitionModel,
    DefinitionVariablesModel, NestedOrEndModel, StatementModel,
};
use crate::symbol_table::{EntryModel, TableModel};
use crate::types::TypeModel;
use crate::types::resolve::resolve_optional_type;
use vstd::prelude::*;

verus! {

/// The entry of a variable that a definition binds.
pub open spec fn defined_entry(name: VariableNameModel, type_: TypeModel) -> EntryModel {
    EntryModel {
        identifier: name.identifier,
        type_,
        attributes: mutable_attributes(name.mutable),
    }
}

/// The table after `name` is bound to a variable of type `type_` in the scope itself. A name
/// that the scope itself already binds is an error; one that an enclosing scope binds is
/// shadowed.
pub open spec fn define(table: TableModel, name: VariableNameModel, type_: TypeModel) -> Result<
    TableModel,
    ResolverErrorModel,
> {
    if table.local_variable(name.identifier.name) is Some {
        Err(
            ResolverErrorModel::SymbolTableError(
                SymbolTableErrorModel::DuplicateVariable(name.identifier),
            ),
        )
    } else {
        Ok(table.insert_variable(name.identifier.name, defined_entry(name, type_)))
    }
}

/// The table after the first `n` names are bound, in order, each to the type at its position.
pub open spec fn define_all(
    table: TableModel,
    names: Seq<VariableNameModel>,
    types: Seq<TypeModel>,
    n: int,
) -> Result<TableModel, ResolverErrorModel>
    decreases n,
{
    if n <= 0 {
        Ok(table)
    } else {
        match define_all(table, names, types, n - 1) {
            Err(error) => Err(error),
            Ok(table) => define(table, names[n - 1], types[n - 1]),
        }
    }
}

/// What a definition of several names by as many values asks of the type that it is written
/// with: a tuple type of as many parts as there are names, or no type at all.
pub open spec fn check_definition_type(expected: Option<TypeModel>, names: nat, span: Span) -> Result<
    (),
    TypeErrorModel,
> {
    match expected {
        Some(TypeModel::Tuple(types)) => if names != types.len() {
            Err(
                TypeErrorModel::InvalidTupleLength {
                    expected: names as usize,
                    found: types.len() as usize,
                    span,
                },
            )
        } else {
            Ok(())
        },
        Some(other) => Err(TypeErrorModel::ExpectedTupleType { found: other, span }),
        None => Ok(()),
    }
}

/// One name for one value: the value is resolved, and the name is bound to its type.
pub open spec fn resolve_single(
    table: TableModel,
    expected: Option<TypeModel>,
    name: VariableNameModel,
    expression: UnresolvedExpressionModel,
) -> Result<(DefinitionVariablesModel, TableModel), ResolverErrorModel> {
    match resolve_expression(table, expected, expression) {
        Err(error) => Err(ResolverErrorModel::TypeError(error)),
        Ok(expression) => match define(table, name, expression.type_) {
            Err(error) => Err(error),
            Ok(table) => Ok((DefinitionVariablesModel::Single(name, expression), table)),
        },
    }
}

/// One name for several values: the values are resolved as the parts of a tuple, and the name
/// is bound to the type of the tuple.
pub open spec fn resolve_tuple(
    table: TableModel,
    expected: Option<TypeModel>,
    name: VariableNameModel,
    expressions: Seq<UnresolvedExpressionModel>,
    span: Span,
) -> Result<(DefinitionVariablesModel, TableModel), ResolverErrorModel> {
    match resolve_expression(table, expected, UnresolvedExpressionModel::Tuple(expressions, span)) {
        Err(error) => Err(ResolverErrorModel::TypeError(error)),
        Ok(expression) => match define(table, name, expression.type_) {
            Err(error) => Err(error),
            Ok(table) => Ok((DefinitionVariablesModel::Tuple(name, expression), table)),
        },
    }
}

/// Several names for one value: the value is resolved and has to be a tuple of as many parts
/// as there are names; each name is bound to the type of the part at its position.
pub open spec fn resolve_multiple_variable_tuple(
    table: TableModel,
    expected: Option<TypeModel>,
    names: Seq<VariableNameModel>,
    expression: UnresolvedExpressionModel,
    span: Span,
) -> Result<(DefinitionVariablesModel, TableModel), ResolverErrorModel> {
    match resolve_expression(table, expected, expression) {
        Err(error) => Err(ResolverErrorModel::TypeError(error)),
        Ok(expression) => match expression.type_ {
            TypeModel::Tuple(types) => if types.len() != names.len() {
                Err(
                    ResolverErrorModel::TypeError(
                        TypeErrorModel::InvalidTupleLength {
                            expected: names.len() as usize,
                            found: types.len() as usize,
                            span,
                        },
                    ),
                )
            } else {
                match define_all(table, names, types, names.len() as int) {
                    Err(error) => Err(error),
                    Ok(table) => Ok(
                        (DefinitionVariablesModel::MultipleVariableTuple(names, expression), table),
                    ),
                }
            },
            other => Err(
                ResolverErrorModel::TypeError(
                    TypeErrorModel::ExpectedTupleType { found: other, span },
                ),
            ),
        },
    }
}

/// As many names as values: the type that the definition is written with, if any, has to be a
/// tuple type of as many parts; each value is resolved against the part at its position, and
/// after all of them each name is bound to the type of the value at its position.
pub open spec fn resolve_multiple_variable(
    table: TableModel,
    expected: Option<TypeModel>,
    names: Seq<VariableNameModel>,
    expressions: Seq<UnresolvedExpressionModel>,
    span: Span,
) -> Result<(DefinitionVariablesModel, TableModel), ResolverErrorModel> {
    match check_definition_type(expected, names.len(), span) {
        Err(error) => Err(ResolverErrorModel::TypeError(error)),
        Ok(_) => if names.len() != expressions.len() {
            Err(
                ResolverErrorModel::TypeError(
                    TypeErrorModel::InvalidTupleLength {
                        expected: names.len() as usize,
                        found: expressions.len() as usize,
                        span,
                    },
                ),
            )
        } else {
            match resolve_expressions(table, part_expected(expected), expressions) {
                Err(error) => Err(ResolverErrorModel::TypeError(error)),
                Ok(resolved) => match define_all(
                    table,
                    names,
                    types_of(resolved),
                    names.len() as int,
                ) {
                    Err(error) => Err(error),
                    Ok(table) => Ok(
                        (DefinitionVariablesModel::MultipleVariable(names, resolved), table),
                    ),
                },
            }
        },
    }
}

/// The resolved variables of a definition and the table after it. There are four shapes, by
/// the number of names and of values:
/// one name and one value; one name and several values, which make a tuple; several names and
/// one value, which has to be a tuple of as many parts; and, in every other case, as many
/// names as values. Every name is bound in the scope itself, after all values are resolved.
pub open spec fn resolve_definition_variables(
    table: TableModel,
    expected: Option<TypeModel>,
    names: Seq<VariableNameModel>,
    expressions: Seq<UnresolvedExpressionModel>,
    span: Span,
) -> Result<(DefinitionVariablesModel, TableModel), ResolverErrorModel> {
    if names.len() == 1 && expressions.len() == 1 {
        resolve_single(table, expected, names[0], expressions[0])
    } else if names.len() == 1 && expressions.len() > 1 {
        resolve_tuple(table, expected, names[0], expressions, span)
    } else if names.len() > 1 && expressions.len() == 1 {
        resolve_multiple_variable_tuple(table, expected, names, expressions[0], span)
    } else {
        resolve_multiple_variable(table, expected, names, expressions, span)
    }
}

/// The resolved definition and the table after it. The type that the definition is written
/// with is resolved first: inside the definition of `circuit` it may be `Self`.
pub open spec fn resolve_definition(
    table: TableModel,
    circuit: Option<IdentifierModel>,
    declare: Declare,
    variables: VariablesModel,
    expressions: Seq<UnresolvedExpressionModel>,
    span: Span,
) -> Result<(DefinitionModel, TableModel), ResolverErrorModel> {
    match resolve_optional_type(table, variables.type_, circuit, span) {
        Err(error) => Err(ResolverErrorModel::TypeError(error)),
        Ok(expected) => match resolve_definition_variables(
            table,
            expected,
            variables.names,
            expressions,
            span,
        ) {
            Err(error) => Err(error),
            Ok((variables, table)) => Ok((DefinitionModel { declare, variables, span }, table)),
        },
    }
}

/// One access, resolved, and the type of the part that it reaches in a value of type `type_`:
/// an index reaches the element of an array, a range the array itself, a number the part of a
/// tuple, a name the member of a circuit or what a function returns.
pub open spec fn resolve_access(
    table: TableModel,
    type_: TypeModel,
    access: UnresolvedAccessModel,
    span: Span,
) -> Result<(TypeModel, AccessModel), TypeErrorModel> {
    match access {
        UnresolvedAccessModel::Array(index) => if !type_.is_array() {
            Err(TypeErrorModel::ExpectedArrayType { found: type_, span })
        } else {
            match index {
                RangeOrExpressionModel::Expression(index) => match resolve_expression(
                    table,
                    Some(index_type()),
                    index,
                ) {
                    Err(error) => Err(error),
                    Ok(index) => Ok((type_.element_type(), AccessModel::Array(index))),
                },
                RangeOrExpressionModel::Range(from, to) => match resolve_bound(
                    table,
                    from,
                    0,
                    span,
                ) {
                    Err(error) => Err(error),
                    Ok(from) => match resolve_bound(table, to, type_.array_len(), span) {
                        Err(error) => Err(error),
                        Ok(to) => Ok((type_, AccessModel::ArrayRange(from, to))),
                    },
                },
            }
        },
        UnresolvedAccessModel::Tuple(index) => match type_ {
            TypeModel::Tuple(types) => if index >= types.len() {
                Err(
                    TypeErrorModel::InvalidTupleIndex {
                        index,
                        length: types.len() as usize,
                        span,
                    },
                )
            } else {
                Ok((types[index as int], AccessModel::Tuple(index)))
            },
            other => Err(TypeErrorModel::ExpectedTupleType { found: other, span }),
        },
        UnresolvedAccessModel::Member(member) => match type_ {
            TypeModel::Circuit(name) => match table.get_circuit(name) {
                None => Err(TypeErrorModel::UndefinedCircuit(IdentifierModel { name, span })),
                Some(circuit) => match circuit.member_type(member) {
                    Err(error) => Err(error),
                    Ok(type_) => Ok((type_, AccessModel::Member(member))),
                },
            },
            TypeModel::Function(name) => match table.get_function(name) {
                None => Err(TypeErrorModel::UndefinedFunction(IdentifierModel { name, span })),
                Some(function) => Ok((function.output, AccessModel::Member(member))),
            },
            other => Err(TypeErrorModel::ExpectedCircuitType { found: other, span }),
        },
    }
}

/// The first `n` accesses of a chain, resolved, and the type of the part that they reach in
/// a value of type `type_`; or the error of the first access that has one.
pub open spec fn resolve_accesses(
    table: TableModel,
    type_: TypeModel,
    accesses: Seq<UnresolvedAccessModel>,
    n: int,
    span: Span,
) -> Result<(TypeModel, Seq<AccessModel>), TypeErrorModel>
    decreases n,
{
    if n <= 0 {
        Ok((type_, Seq::empty()))
    } else {
        match resolve_accesses(table, type_, accesses, n - 1, span) {
            Err(error) => Err(error),
            Ok((current, resolved)) => match resolve_access(table, current, accesses[n - 1], span) {
                Err(error) => Err(error),
                Ok((next, access)) => Ok((next, resolved.push(access))),
            },
        }
    }
}

/// The resolved assignment. The variable has to be bound and mutable; the value is asked to
/// have the type of the part that the chain of accesses reaches.
pub open spec fn resolve_assign(
    table: TableModel,
    assignee: UnresolvedAssigneeModel,
    expression: UnresolvedExpressionModel,
    span: Span,
) -> Result<AssignModel, TypeErrorModel> {
    match table.get_variable(assignee.identifier.name) {
        None => Err(TypeErrorModel::UndefinedVariable(assignee.identifier)),
        Some(variable) => if !variable.is_mutable() {
            Err(TypeErrorModel::ImmutableAssign(assignee.identifier))
        } else {
            match resolve_accesses(
                table,
                variable.type_,
                assignee.accesses,
                assignee.accesses.len() as int,
                span,
            ) {
                Err(error) => Err(error),
                Ok((type_, accesses)) => match resolve_expression(table, Some(type_), expression) {
                    Err(error) => Err(error),
                    Ok(expression) => Ok(
                        AssignModel {
                            assignee: AssigneeModel { identifier: assignee.identifier, accesses },
                            expression,
                            span,
                        },
                    ),
                },
            }
        },
    }
}

/// The entry of the variable of a loop: it has the type of the start of the range and is not
/// mutable.
pub open spec fn loop_entry(variable: IdentifierModel, type_: TypeModel) -> EntryModel {
    EntryModel { identifier: variable, type_, attributes: Seq::empty() }
}

/// The resolved statement that `statement` stands for and the table after it, in a function
/// that returns `return_type`; `circuit` is the circuit whose member the function is, if any.
///
/// Only a definition changes the table. The statements of a branch and of the body of a loop
/// are resolved in a scope of their own, nested in `table`, which is dropped after them.
pub open spec fn resolve_statement(
    table: TableModel,
    return_type: TypeModel,
    circuit: Option<IdentifierModel>,
    statement: UnresolvedStatementModel,
) -> Result<(StatementModel, TableModel), ResolverErrorModel>
    decreases statement, 0int,
{
    match statement {
        UnresolvedStatementModel::Return(expression, span) => match resolve_expression(
            table,
            Some(return_type),
            expression,
        ) {
            Err(error) => Err(ResolverErrorModel::TypeError(error)),
            Ok(expression) => Ok((StatementModel::Return(expression, span), table)),
        },
        UnresolvedStatementModel::Definition(declare, variables, expressions, span) => match resolve_definition(
            table,
            circuit,
            declare,
            variables,
            expressions,
            span,
        ) {
            Err(error) => Err(error),
            Ok((definition, table)) => Ok((StatementModel::Definition(definition), table)),
        },
        UnresolvedStatementModel::Assign(assignee, expression, span) => match resolve_assign(
            table,
            assignee,
            expression,
            span,
        ) {
            Err(error) => Err(ResolverErrorModel::TypeError(error)),
            Ok(assign) => Ok((StatementModel::Assign(assign), table)),
        },
        UnresolvedStatementModel::Conditional(conditional, span) => match resolve_conditional(
            table,
            return_type,
            circuit,
            conditional,
            span,
        ) {
            Err(error) => Err(error),
            Ok(conditional) => Ok((StatementModel::Conditional(conditional), table)),
        },
        UnresolvedStatementModel::Iteration(variable, start, stop, statements, span) => match resolve_expression(
            table,
            None,
            start,
        ) {
            Err(error) => Err(ResolverErrorModel::TypeError(error)),
            Ok(start) => if !start.type_.is_integer() {
                Err(
                    ResolverErrorModel::TypeError(
                        TypeErrorModel::ExpectedIntegerType { found: start.type_, span },
                    ),
                )
            } else {
                match resolve_expression(table, Some(start.type_), stop) {
                    Err(error) => Err(ResolverErrorModel::TypeError(error)),
                    Ok(stop) => match resolve_statements(
                        table.child().insert_variable(
                            variable.name,
                            loop_entry(variable, start.type_),
                        ),
                        return_type,
                        circuit,
                        statements,
                    ) {
                        Err(error) => Err(error),
                        Ok((statements, _)) => Ok(
                            (
                                StatementModel::Iteration(variable, start, stop, statements, span),
                                table,
                            ),
                        ),
                    },
                }
            },
        },
        UnresolvedStatementModel::Expression(expression, span) => match resolve_expression(
            table,
            None,
            expression,
        ) {
            Err(error) => Err(ResolverErrorModel::TypeError(error)),
            Ok(expression) => Ok((StatementModel::Expression(expression, span), table)),
        },
    }
}

/// The resolved statements that a list stands for and the table after all of them, or the
/// error of the first statement that has one. Each statement is resolved in the table that
/// the statements before it leave.
pub open spec fn resolve_statements(
    table: TableModel,
    return_type: TypeModel,
    circuit: Option<IdentifierModel>,
    statements: Seq<UnresolvedStatementModel>,
) -> Result<(Seq<StatementModel>, TableModel), ResolverErrorModel>
    decreases statements, 1int,
{
    if statements.len() == 0 {
        Ok((Seq::empty(), table))
    } else {
        match resolve_statements(table, return_type, circuit, statements.drop_last()) {
            Err(error) => Err(error),
            Ok((resolved, table)) => match resolve_statement(
                table,
                return_type,
                circuit,
                statements.last(),
            ) {
                Err(error) => Err(error),
                Ok((statement, table)) => Ok((resolved.push(statement), table)),
            },
        }
    }
}

/// The resolved statements of a branch: they are resolved in a new scope nested in `table`.
pub open spec fn resolve_block(
    table: TableModel,
    return_type: TypeModel,
    circuit: Option<IdentifierModel>,
    statements: Seq<UnresolvedStatementModel>,
) -> Result<Seq<StatementModel>, ResolverErrorModel>
    decreases statements, 2int,
{
    match resolve_statements(table.child(), return_type, circuit, statements) {
        Err(error) => Err(error),
        Ok((statements, _)) => Ok(statements),
    }
}

/// The resolved conditional: its condition is a boolean, and each of its branches is resolved
/// in a scope of its own.
pub open spec fn resolve_conditional(
    table: TableModel,
    return_type: TypeModel,
    circuit: Option<IdentifierModel>,
    conditional: UnresolvedConditionalModel,
    span: Span,
) -> Result<ConditionalModel, ResolverErrorModel>
    decreases conditional, 0int,
{
    match resolve_expression(table, Some(TypeModel::Boolean), conditional.condition) {
        Err(error) => Err(ResolverErrorModel::TypeError(error)),
        Ok(condition) => match resolve_block(table, return_type, circuit, conditional.statements) {
            Err(error) => Err(error),
            Ok(statements) => match conditional.next {
                None => Ok(ConditionalModel { condition, statements, next: None, span }),
                Some(UnresolvedNestedOrEndModel::Nested(nested)) => match resolve_conditional(
                    table,
                    return_type,
                    circuit,
                    *nested,
                    span,
                ) {
                    Err(error) => Err(error),
                    Ok(nested) => Ok(
                        ConditionalModel {
                            condition,
                            statements,
                            next: Some(NestedOrEndModel::Nested(Box::new(nested))),
                            span,
                        },
                    ),
                },
                Some(UnresolvedNestedOrEndModel::End(end)) => match resolve_block(
                    table,
                    return_type,
                    circuit,
                    end,
                ) {
                    Err(error) => Err(error),
                    Ok(end) => Ok(
                        ConditionalModel {
                            condition,
                            statements,
                            next: Some(NestedOrEndModel::End(end)),
                            span,
                        },
                    ),
                },
            },
        },
    }
}

/// An error among the first `n` statements is the error of the whole list.
pub proof fn lemma_resolve_statements_error(
    table: TableModel,
    return_type: TypeModel,
    circuit: Option<IdentifierModel>,
    statements: Seq<UnresolvedStatementModel>,
    n: int,
)
    requires
        0 <= n <= statements.len(),
        resolve_statements(table, return_type, circuit, statements.take(n)) is Err,
    ensures
        resolve_statements(table, return_type, circuit, statements) == resolve_statements(
            table,
            return_type,
            circuit,
            statements.take(n),
        ),
    decreases statements.len() - n,
{
    if n < statements.len() {
        assert(statements.take(n + 1).drop_last() =~= statements.take(n));
        lemma_resolve_statements_error(table, return_type, circuit, statements, n + 1);
    } else {
        assert(statements.take(n) =~= statements);
    }
}

/// An error among the first `n` accesses is the error of every longer prefix.
pub proof fn lemma_resolve_accesses_error(
    table: TableModel,
    type_: TypeModel,
    accesses: Seq<UnresolvedAccessModel>,
    n: int,
    m: int,
    span: Span,
)
    requires
        0 <= n <= m,
        resolve_accesses(table, type_, accesses, n, span) is Err,
    ensures
        resolve_accesses(table, type_, accesses, m, span) == resolve_accesses(
            table,
            type_,
            accesses,
            n,
            span,
        ),
    decreases m - n,
{
    if n < m {
        lemma_resolve_accesses_error(table, type_, accesses, n, m - 1, span);
    }
}

/// An error among the first `n` bindings is the error of every longer prefix.
pub proof fn lemma_define_all_error(
    table: TableModel,
    names: Seq<VariableNameModel>,
    types: Seq<TypeModel>,
    n: int,
    m: int,
)
    requires
        0 <= n <= m,
        define_all(table, names, types, n) is Err,
    ensures
        define_all(table, names, types, m) == define_all(table, names, types, n),
    decreases m - n,
{
    if n < m {
        lemma_define_all_error(table, names, types, n, m - 1);
    }
}

} // verus!
