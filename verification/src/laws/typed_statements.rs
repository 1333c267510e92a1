use crate::ast::{UnresolvedExpressionModel, UnresolvedFunctionModel, UnresolvedTypeModel};
use crate::common::{IdentifierModel, Span};
use crate::errors::{ResolverErrorModel, TypeErrorModel};
use crate::expressions::expression::{ExpressionModel, types_of};
use crate::expressions::rules::{part_expected, resolve_bound, resolve_expression};
use crate::expressions::typing::{well_typed, written_all};
use crate::functions::function::{FunctionModel, input_binder, resolve_function_body};
use crate::functions::result::{returns_before, returns_of, select_among};
use crate::functions::typing::function_typed;
use crate::laws::statements::{all_of_type, lemma_returns_have_return_type};
use crate::laws::typed_expressions::{lemma_list_resolves, lemma_well_typed_resolves};
use crate::sequence::try_fold;
use crate::statements::rules::{loop_entry, resolve_access, resolve_accesses, resolve_assign, resolve_block, resolve_conditional, resolve_definition_variables, resolve_multiple_variable, resolve_multiple_variable_tuple, resolve_single, resolve_statement, resolve_statements, resolve_tuple};
use crate::statements::statement::{
    AccessModel, AssignModel, ConditionalModel, DefinitionModel, DefinitionVariablesModel,
    NestedOrEndModel, StatementModel,
};
use crate::statements::typing::{
    access_type, accesses_type, conditional_typed, definition_typed, statement_typed,
    statements_typed, written_statements,
};
use crate::symbol_table::TableModel;
use crate::types::TypeModel;
use crate::types::resolve::resolve_type;
use vstd::prelude::*;

verus! {

/// A well-typed access is resolved to itself, and reaches a part of the type that its
/// typing gives.
pub proof fn lemma_access_resolves(
    table: TableModel,
    type_: TypeModel,
    access: AccessModel,
    span: Span,
)
    requires
        access_type(table, type_, access) is Some,
    ensures
        resolve_access(table, type_, access.written(), span) == Ok::<
            (TypeModel, AccessModel),
            TypeErrorModel,
        >((access_type(table, type_, access)->Some_0, access)),
{
    match access {
        AccessModel::Array(index) => {
            lemma_well_typed_resolves(table, index);
        },
        AccessModel::ArrayRange(from, to) => {
            lemma_well_typed_resolves(table, from);
            lemma_well_typed_resolves(table, to);
            assert(resolve_bound(table, Some(from.written()), 0, span) == Ok::<
                ExpressionModel,
                TypeErrorModel,
            >(from));
            assert(resolve_bound(table, Some(to.written()), type_.array_len(), span) == Ok::<
                ExpressionModel,
                TypeErrorModel,
            >(to));
        },
        _ => {},
    }
}

/// A chain of well-typed accesses is resolved to itself, and reaches a part of the type that
/// its typing gives.
pub proof fn lemma_accesses_resolve(
    table: TableModel,
    type_: TypeModel,
    accesses: Seq<AccessModel>,
    n: int,
    span: Span,
)
    requires
        0 <= n <= accesses.len(),
        accesses_type(table, type_, accesses, n) is Some,
    ensures
        resolve_accesses(
            table,
            type_,
            accesses.map_values(|access: AccessModel| access.written()),
            n,
            span,
        ) == Ok::<(TypeModel, Seq<AccessModel>), TypeErrorModel>(
            (accesses_type(table, type_, accesses, n)->Some_0, accesses.take(n)),
        ),
    decreases n,
{
    if n > 0 {
        lemma_accesses_resolve(table, type_, accesses, n - 1, span);
        let current = accesses_type(table, type_, accesses, n - 1)->Some_0;
        lemma_access_resolves(table, current, accesses[n - 1], span);
        assert(accesses.map_values(|access: AccessModel| access.written())[n - 1] == accesses[n
            - 1].written());
        assert(accesses.take(n - 1).push(accesses[n - 1]) =~= accesses.take(n));
    } else {
        assert(accesses.take(0) =~= Seq::empty());
    }
}

/// A well-typed definition is resolved to itself, and leaves the table that its typing
/// gives, whether it is written without a type or with a type that stands for the type of
/// what it defines.
pub proof fn lemma_written_definition_resolves(
    table: TableModel,
    return_type: TypeModel,
    circuit: Option<IdentifierModel>,
    definition: DefinitionModel,
    type_: Option<UnresolvedTypeModel>,
)
    requires
        definition_typed(table, definition) is Some,
        match type_ {
            Some(type_) => resolve_type(table, type_, circuit, definition.span) == Ok::<
                TypeModel,
                TypeErrorModel,
            >(definition.defined_type()),
            None => true,
        },
    ensures
        resolve_statement(table, return_type, circuit, definition.written_with(type_)) == Ok::<
            (StatementModel, TableModel),
            ResolverErrorModel,
        >((StatementModel::Definition(definition), definition_typed(table, definition)->Some_0)),
{
    let span = definition.span;
    let expected: Option<TypeModel> = match type_ {
        Some(_) => Some(definition.defined_type()),
        None => None,
    };
    let after = definition_typed(table, definition)->Some_0;
    match definition.variables {
        DefinitionVariablesModel::Single(name, expression) => {
            lemma_well_typed_resolves(table, expression);
            let names = seq![name];
            let values = seq![expression.written()];
            assert(names[0] == name && values[0] == expression.written());
            assert(resolve_single(table, expected, name, expression.written()) == Ok::<
                (DefinitionVariablesModel, TableModel),
                ResolverErrorModel,
            >((definition.variables, after)));
            assert(resolve_definition_variables(table, expected, names, values, span)
                == resolve_single(table, expected, name, expression.written()));
        },
        DefinitionVariablesModel::Tuple(name, expression) => {
            lemma_well_typed_resolves(table, expression);
            let names = seq![name];
            let values = written_all(expression.value->Tuple_0);
            assert(names[0] == name);
            assert(expression.written() == UnresolvedExpressionModel::Tuple(values, span));
            assert(resolve_tuple(table, expected, name, values, span) == Ok::<
                (DefinitionVariablesModel, TableModel),
                ResolverErrorModel,
            >((definition.variables, after)));
            assert(resolve_definition_variables(table, expected, names, values, span)
                == resolve_tuple(table, expected, name, values, span));
        },
        DefinitionVariablesModel::MultipleVariable(names, expressions) => {
            let values = written_all(expressions);
            let asked = part_expected(expected);
            assert forall|i: int| 0 <= i < values.len() implies resolve_expression(
                table,
                asked(i),
                #[trigger] values[i],
            ) == Ok::<ExpressionModel, TypeErrorModel>(expressions[i]) by {
                assert(well_typed(table, expressions[i]));
                lemma_well_typed_resolves(table, expressions[i]);
                assert(types_of(expressions)[i] == expressions[i].type_);
                assert(asked(i) == None::<TypeModel> || asked(i) == Some(expressions[i].type_));
            }
            lemma_list_resolves(table, asked, values, expressions);
            assert(resolve_multiple_variable(table, expected, names, values, span) == Ok::<
                (DefinitionVariablesModel, TableModel),
                ResolverErrorModel,
            >((definition.variables, after)));
            assert(resolve_definition_variables(table, expected, names, values, span)
                == resolve_multiple_variable(table, expected, names, values, span));
        },
        DefinitionVariablesModel::MultipleVariableTuple(names, expression) => {
            lemma_well_typed_resolves(table, expression);
            let values = seq![expression.written()];
            assert(values[0] == expression.written());
            assert(resolve_multiple_variable_tuple(
                table,
                expected,
                names,
                expression.written(),
                span,
            ) == Ok::<(DefinitionVariablesModel, TableModel), ResolverErrorModel>(
                (definition.variables, after),
            ));
            assert(resolve_definition_variables(table, expected, names, values, span)
                == resolve_multiple_variable_tuple(
                table,
                expected,
                names,
                expression.written(),
                span,
            ));
        },
    }
}

/// A well-typed definition that is written without a type is resolved to itself, and leaves
/// the table that its typing gives.
pub proof fn lemma_definition_resolves(
    table: TableModel,
    return_type: TypeModel,
    circuit: Option<IdentifierModel>,
    definition: DefinitionModel,
)
    requires
        definition_typed(table, definition) is Some,
    ensures
        resolve_statement(table, return_type, circuit, definition.written()) == Ok::<
            (StatementModel, TableModel),
            ResolverErrorModel,
        >((StatementModel::Definition(definition), definition_typed(table, definition)->Some_0)),
{
    lemma_written_definition_resolves(table, return_type, circuit, definition, None);
}

/// A well-typed assignment is resolved to itself.
pub proof fn lemma_assign_resolves(table: TableModel, return_type: TypeModel, assign: AssignModel)
    requires
        statement_typed(table, return_type, StatementModel::Assign(assign)) is Some,
    ensures
        resolve_assign(
            table,
            assign.assignee.written(),
            assign.expression.written(),
            assign.span,
        ) == Ok::<AssignModel, TypeErrorModel>(assign),
{
    let variable = table.get_variable(assign.assignee.identifier.name)->Some_0;
    let accesses = assign.assignee.accesses;
    lemma_accesses_resolve(table, variable.type_, accesses, accesses.len() as int, assign.span);
    assert(accesses.take(accesses.len() as int) =~= accesses);
    lemma_well_typed_resolves(table, assign.expression);
    assert(assign.assignee.written().accesses.len() == accesses.len());
}

/// Every well-typed statement is resolved: what it is written as resolves to the statement
/// itself and leaves the table that its typing gives, in a function of any circuit or of
/// none.
pub proof fn lemma_typed_statement_resolves(
    table: TableModel,
    return_type: TypeModel,
    circuit: Option<IdentifierModel>,
    statement: StatementModel,
)
    requires
        statement_typed(table, return_type, statement) is Some,
    ensures
        resolve_statement(table, return_type, circuit, statement.written()) == Ok::<
            (StatementModel, TableModel),
            ResolverErrorModel,
        >((statement, statement_typed(table, return_type, statement)->Some_0)),
    decreases statement, 0int,
{
    match statement {
        StatementModel::Return(expression, span) => {
            lemma_well_typed_resolves(table, expression);
        },
        StatementModel::Definition(definition) => {
            lemma_definition_resolves(table, return_type, circuit, definition);
        },
        StatementModel::Assign(assign) => {
            lemma_assign_resolves(table, return_type, assign);
        },
        StatementModel::Conditional(conditional) => {
            lemma_typed_conditional_resolves(table, return_type, circuit, conditional);
        },
        StatementModel::Iteration(variable, start, stop, statements, span) => {
            lemma_well_typed_resolves(table, start);
            lemma_well_typed_resolves(table, stop);
            lemma_typed_statements_resolve(
                table.child().insert_variable(variable.name, loop_entry(variable, start.type_)),
                return_type,
                circuit,
                statements,
            );
        },
        StatementModel::Expression(expression, span) => {
            lemma_well_typed_resolves(table, expression);
        },
    }
}

/// Every list of well-typed statements is resolved to itself, and leaves the table that its
/// typing gives.
pub proof fn lemma_typed_statements_resolve(
    table: TableModel,
    return_type: TypeModel,
    circuit: Option<IdentifierModel>,
    statements: Seq<StatementModel>,
)
    requires
        statements_typed(table, return_type, statements) is Some,
    ensures
        resolve_statements(table, return_type, circuit, written_statements(statements)) == Ok::<
            (Seq<StatementModel>, TableModel),
            ResolverErrorModel,
        >((statements, statements_typed(table, return_type, statements)->Some_0)),
    decreases statements, 1int,
{
    let written = written_statements(statements);
    if statements.len() > 0 {
        let front = statements.drop_last();
        lemma_typed_statements_resolve(table, return_type, circuit, front);
        let middle = statements_typed(table, return_type, front)->Some_0;
        lemma_typed_statement_resolves(middle, return_type, circuit, statements.last());
        assert(written.drop_last() =~= written_statements(front));
        assert(written.last() == statements.last().written());
        assert(front.push(statements.last()) =~= statements);
    } else {
        assert(statements =~= Seq::empty());
    }
}

/// Every well-typed conditional is resolved to itself.
pub proof fn lemma_typed_conditional_resolves(
    table: TableModel,
    return_type: TypeModel,
    circuit: Option<IdentifierModel>,
    conditional: ConditionalModel,
)
    requires
        conditional_typed(table, return_type, conditional),
    ensures
        resolve_conditional(table, return_type, circuit, conditional.written(), conditional.span)
            == Ok::<ConditionalModel, ResolverErrorModel>(conditional),
    decreases conditional, 0int,
{
    lemma_well_typed_resolves(table, conditional.condition);
    lemma_typed_statements_resolve(table.child(), return_type, circuit, conditional.statements);
    assert(resolve_block(
        table,
        return_type,
        circuit,
        written_statements(conditional.statements),
    ) == Ok::<Seq<StatementModel>, ResolverErrorModel>(conditional.statements));
    match conditional.next {
        None => {},
        Some(NestedOrEndModel::Nested(nested)) => {
            lemma_typed_conditional_resolves(table, return_type, circuit, *nested);
        },
        Some(NestedOrEndModel::End(statements)) => {
            lemma_typed_statements_resolve(table.child(), return_type, circuit, statements);
            assert(resolve_block(table, return_type, circuit, written_statements(statements))
                == Ok::<Seq<StatementModel>, ResolverErrorModel>(statements));
        },
    }
}

/// Where no result before `n` is returned on every path, none is selected among them; and
/// where exactly one is, at `selected`, it is the one that is selected.
proof fn lemma_select_among_typed(
    expected: TypeModel,
    results: Seq<(bool, TypeModel)>,
    span: Span,
    selected: int,
    n: int,
)
    requires
        0 <= n <= results.len(),
        0 <= selected < results.len(),
        results[selected].0,
        forall|i: int| 0 <= i < results.len() && i != selected ==> !(#[trigger] results[i]).0,
        all_of_type(results, expected),
    ensures
        select_among(expected, results, span, n) == Ok::<Option<int>, TypeErrorModel>(
            if n <= selected {
                None
            } else {
                Some(selected)
            },
        ),
    decreases n,
{
    if n > 0 {
        lemma_select_among_typed(expected, results, span, selected, n - 1);
        assert(results[n - 1].1 == expected);
    }
}

/// Every well-typed function is resolved: what it is written as resolves, with its
/// signature, to the function itself, as a function of any circuit or of none.
pub proof fn lemma_typed_function_resolves(
    table: TableModel,
    written: UnresolvedFunctionModel,
    circuit: Option<IdentifierModel>,
    function: FunctionModel,
)
    requires
        function_typed(table, written, function),
    ensures
        resolve_function_body(table, written, function.type_, circuit) == Ok::<
            FunctionModel,
            ResolverErrorModel,
        >(function),
{
    let signature = function.type_;
    let scope = try_fold(
        table.child(),
        signature.inputs,
        input_binder(),
        signature.inputs.len() as int,
    )->Ok_0;
    lemma_typed_statements_resolve(scope, signature.output, circuit, function.statements);
    lemma_returns_have_return_type(scope, signature.output, circuit, written.statements, true);
    let results = returns_of(function.statements, true);
    assert(all_of_type(results, signature.output));
    match written.returns {
        Some(_) => {
            let selected = choose|selected: int|
                0 <= selected < results.len() && (#[trigger] results[selected]).0 && forall|i: int|
                    0 <= i < results.len() && i != selected ==> !(#[trigger] results[i]).0;
            lemma_select_among_typed(
                signature.output,
                results,
                written.span,
                selected,
                results.len() as int,
            );
            assert(returns_before(results, results.len() as int));
        },
        None => {},
    }
}

} // verus!
