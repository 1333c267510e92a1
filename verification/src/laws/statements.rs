use crate::ast::UnresolvedExpressionModel;
use crate::ast::statement::{
    UnresolvedConditionalModel, UnresolvedNestedOrEndModel, UnresolvedStatementModel,
    VariableNameModel,
};
use crate::common::{IdentifierModel, Span};
use crate::errors::ResolverErrorModel;
use crate::expressions::rules::resolve_expression;
use crate::functions::result::{returns_of, returns_of_conditional, returns_of_statement};
use crate::laws::expressions::lemma_resolved_type_is_expected;
use crate::statements::rules::{
    loop_entry, resolve_block, resolve_conditional, resolve_definition_variables, resolve_statement,
    resolve_statements,
};
use crate::statements::rules::{define_all, defined_entry};
use crate::symbol_table::TableModel;
use crate::types::TypeModel;
use vstd::prelude::*;

verus! {

/// Whether the error says that a value is no tuple, or no tuple of the right number of parts.
pub open spec fn is_tuple_error(error: ResolverErrorModel) -> bool {
    error is TypeError && (error->TypeError_0 is ExpectedTupleType || error->TypeError_0
        is InvalidTupleLength)
}

/// A definition of no name or of several names by one value, where the value is resolved but
/// is no tuple of as many parts as there are names, fails, and the error says so.
pub proof fn lemma_tuple_definition_needs_tuple(
    table: TableModel,
    expected: Option<TypeModel>,
    names: Seq<VariableNameModel>,
    expressions: Seq<UnresolvedExpressionModel>,
    span: Span,
)
    requires
        names.len() != 1,
        expressions.len() == 1,
        match resolve_expression(table, expected, expressions[0]) {
            Ok(resolved) => !(resolved.type_ is Tuple && resolved.type_->Tuple_0.len()
                == names.len()),
            Err(_) => false,
        },
    ensures
        match resolve_definition_variables(table, expected, names, expressions, span) {
            Ok(_) => false,
            Err(error) => is_tuple_error(error),
        },
{
}

/// Every result has the type `type_`.
pub open spec fn all_of_type(results: Seq<(bool, TypeModel)>, type_: TypeModel) -> bool {
    forall|i: int| 0 <= i < results.len() ==> (#[trigger] results[i]).1 == type_
}

/// The value of every return statement of a resolved statement has the type that the
/// function returns.
pub proof fn lemma_return_has_return_type(
    table: TableModel,
    return_type: TypeModel,
    circuit: Option<IdentifierModel>,
    statement: UnresolvedStatementModel,
    unconditional: bool,
)
    requires
        resolve_statement(table, return_type, circuit, statement) is Ok,
    ensures
        all_of_type(
            returns_of_statement(
                resolve_statement(table, return_type, circuit, statement)->Ok_0.0,
                unconditional,
            ),
            return_type,
        ),
    decreases statement, 0int,
{
    match statement {
        UnresolvedStatementModel::Return(expression, span) => {
            lemma_resolved_type_is_expected(table, return_type, expression);
        },
        UnresolvedStatementModel::Conditional(conditional, span) => {
            lemma_conditional_returns_have_return_type(
                table,
                return_type,
                circuit,
                conditional,
                span,
            );
        },
        UnresolvedStatementModel::Iteration(variable, start, stop, statements, span) => {
            let start_resolved = resolve_expression(table, None, start)->Ok_0;
            lemma_returns_have_return_type(
                table.child().insert_variable(
                    variable.name,
                    loop_entry(variable, start_resolved.type_),
                ),
                return_type,
                circuit,
                statements,
                false,
            );
        },
        _ => {},
    }
}

/// The value of every return statement of a resolved list of statements has the type that
/// the function returns.
pub proof fn lemma_returns_have_return_type(
    table: TableModel,
    return_type: TypeModel,
    circuit: Option<IdentifierModel>,
    statements: Seq<UnresolvedStatementModel>,
    unconditional: bool,
)
    requires
        resolve_statements(table, return_type, circuit, statements) is Ok,
    ensures
        all_of_type(
            returns_of(
                resolve_statements(table, return_type, circuit, statements)->Ok_0.0,
                unconditional,
            ),
            return_type,
        ),
    decreases statements, 1int,
{
    if statements.len() > 0 {
        lemma_returns_have_return_type(
            table,
            return_type,
            circuit,
            statements.drop_last(),
            unconditional,
        );
        let (front, middle) = resolve_statements(
            table,
            return_type,
            circuit,
            statements.drop_last(),
        )->Ok_0;
        lemma_return_has_return_type(middle, return_type, circuit, statements.last(), unconditional);
        let (last, _) = resolve_statement(middle, return_type, circuit, statements.last())->Ok_0;
        let resolved = resolve_statements(table, return_type, circuit, statements)->Ok_0.0;
        assert(resolved == front.push(last));
        assert(resolved.drop_last() =~= front);
        assert(resolved.last() == last);
    }
}

/// The value of every return statement in the branches of a resolved conditional has the type
/// that the function returns.
pub proof fn lemma_conditional_returns_have_return_type(
    table: TableModel,
    return_type: TypeModel,
    circuit: Option<IdentifierModel>,
    conditional: UnresolvedConditionalModel,
    span: Span,
)
    requires
        resolve_conditional(table, return_type, circuit, conditional, span) is Ok,
    ensures
        all_of_type(
            returns_of_conditional(
                resolve_conditional(table, return_type, circuit, conditional, span)->Ok_0,
            ),
            return_type,
        ),
    decreases conditional, 0int,
{
    assert(resolve_expression(table, Some(TypeModel::Boolean), conditional.condition) is Ok);
    assert(resolve_block(table, return_type, circuit, conditional.statements) is Ok);
    assert(resolve_statements(table.child(), return_type, circuit, conditional.statements) is Ok);
    lemma_returns_have_return_type(
        table.child(),
        return_type,
        circuit,
        conditional.statements,
        false,
    );
    match conditional.next {
        None => {},
        Some(UnresolvedNestedOrEndModel::Nested(nested)) => {
            lemma_conditional_returns_have_return_type(table, return_type, circuit, *nested, span);
        },
        Some(UnresolvedNestedOrEndModel::End(end)) => {
            assert(resolve_block(table, return_type, circuit, end) is Ok);
            assert(resolve_statements(table.child(), return_type, circuit, end) is Ok);
            lemma_returns_have_return_type(table.child(), return_type, circuit, end, false);
        },
    }
}

/// After the first `n` names of a definition are bound, each of them is bound to the type at
/// its position, mutable if and only if it is written so; no two of them are the same name,
/// and none of them was bound in the scope itself before.
pub proof fn lemma_definition_binds(
    table: TableModel,
    names: Seq<VariableNameModel>,
    types: Seq<TypeModel>,
    n: int,
)
    requires
        0 <= n <= names.len(),
        define_all(table, names, types, n) is Ok,
    ensures
        forall|i: int|
            0 <= i < n ==> define_all(table, names, types, n)->Ok_0.get_variable(
                (#[trigger] names[i]).identifier.name,
            ) == Some(defined_entry(names[i], types[i])),
        forall|i: int|
            0 <= i < n ==> table.local_variable((#[trigger] names[i]).identifier.name) is None,
        forall|i: int, j: int|
            0 <= i < j < n ==> (#[trigger] names[i]).identifier.name != (
            #[trigger] names[j]).identifier.name,
        forall|name: Seq<char>|
            (forall|i: int| 0 <= i < n ==> (#[trigger] names[i]).identifier.name != name)
                ==> define_all(table, names, types, n)->Ok_0.get_variable(name)
                == table.get_variable(name),
        define_all(table, names, types, n)->Ok_0.parent == table.parent,
        forall|name: Seq<char>|
            table.variables.contains_key(name) ==> #[trigger] define_all(
                table,
                names,
                types,
                n,
            )->Ok_0.variables.contains_key(name),
    decreases n,
{
    if n > 0 {
        lemma_definition_binds(table, names, types, n - 1);
        let before = define_all(table, names, types, n - 1)->Ok_0;
        let after = define_all(table, names, types, n)->Ok_0;
        let last = names[n - 1].identifier.name;
        assert(after == before.insert_variable(last, defined_entry(names[n - 1], types[n - 1])));
        assert(before.local_variable(last) is None);
        assert forall|i: int| 0 <= i < n implies after.get_variable(
            (#[trigger] names[i]).identifier.name,
        ) == Some(defined_entry(names[i], types[i])) by {
            if i < n - 1 {
                assert(before.get_variable(names[i].identifier.name) == Some(
                    defined_entry(names[i], types[i]),
                ));
                assert(before.variables.contains_key(names[i].identifier.name)) by {
                    assert(table.local_variable(names[i].identifier.name) is None);
                    lemma_bound_names_are_local(table, names, types, n - 1, i);
                }
            }
        }
        assert forall|i: int, j: int| 0 <= i < j < n implies (#[trigger] names[i]).identifier.name
            != (#[trigger] names[j]).identifier.name by {
            if j == n - 1 {
                lemma_bound_names_are_local(table, names, types, n - 1, i);
            }
        }
        assert forall|i: int| 0 <= i < n implies table.local_variable(
            (#[trigger] names[i]).identifier.name,
        ) is None by {
            if i == n - 1 {
                if table.variables.contains_key(last) {
                    assert(before.variables.contains_key(last));
                }
            }
        }
    }
}

/// After the first `n` names of a definition are bound, the scope itself binds each of them.
pub proof fn lemma_bound_names_are_local(
    table: TableModel,
    names: Seq<VariableNameModel>,
    types: Seq<TypeModel>,
    n: int,
    i: int,
)
    requires
        0 <= i < n <= names.len(),
        define_all(table, names, types, n) is Ok,
    ensures
        define_all(table, names, types, n)->Ok_0.variables.contains_key(names[i].identifier.name),
    decreases n,
{
    if i < n - 1 {
        lemma_bound_names_are_local(table, names, types, n - 1, i);
    }
}

/// Only a definition changes the table: every other statement leaves it as it is, and what
/// is defined inside a branch or the body of a loop is not seen after it.
pub proof fn lemma_only_definitions_bind(
    table: TableModel,
    return_type: TypeModel,
    circuit: Option<IdentifierModel>,
    statement: UnresolvedStatementModel,
)
    requires
        !(statement is Definition),
        resolve_statement(table, return_type, circuit, statement) is Ok,
    ensures
        resolve_statement(table, return_type, circuit, statement)->Ok_0.1 == table,
{
}

} // verus!
