use crate::ast::expression::{Expression as UnresolvedExpression, expressions_model as unresolved_expressions_model};
use crate::ast::statement::{VariableName, Variables, names_view};
use crate::common::{Declare, Identifier, Span, attributes_of_mutable};
use crate::errors::{ResolverError, ResolverErrorModel, SymbolTableError, TypeError};
use crate::expressions::expression::Expression;
use crate::expressions::resolve::resolve_parts;
use crate::expressions::rules::{lemma_resolved_length, part_expected};
use crate::expressions::tuple::expression_types;
use crate::statements::rules::{
    define, define_all, lemma_define_all_error, resolve_definition, resolve_multiple_variable,
    resolve_multiple_variable_tuple, resolve_single, resolve_tuple,
};
use crate::statements::statement::{
    Definition, DefinitionModel, DefinitionVariables, DefinitionVariablesModel, Statement,
};
use crate::symbol_table::{Entry, SymbolTable, TableModel};
use crate::types::Type;
use crate::types::resolve::optional_name_view;
use crate::types::types::{optional_type_model, types_model};
use vstd::prelude::*;

verus! {

/// Inserts a variable definition into the given symbol table. Where the scope itself binds
/// the name already, nothing is inserted.
pub fn insert_defined_variable(table: &mut SymbolTable, variable: &VariableName, type_: &Type) -> (r:
    Result<(), ResolverError>)
    requires
        old(table).wf(),
    ensures
        final(table).wf(),
        match r {
            Ok(_) => define(old(table)@, variable@, type_@) == Ok::<
                TableModel,
                ResolverErrorModel,
            >(final(table)@),
            Err(error) => define(old(table)@, variable@, type_@) == Err::<
                TableModel,
                ResolverErrorModel,
            >(error@),
        },
        r is Err ==> final(table)@ == old(table)@,
{
    // Check that variable name was not defined before
    if table.defines_variable(&variable.identifier.name) {
        return Err(
            ResolverError::SymbolTableError(
                SymbolTableError::DuplicateVariable(variable.identifier.clone()),
            ),
        );
    }
    let attributes = attributes_of_mutable(variable.mutable);

    // Insert variable into symbol table
    let key = variable.identifier.name.clone();
    let value = Entry {
        identifier: variable.identifier.clone(),
        type_: type_.duplicate(),
        attributes,
    };
    table.insert_variable(key, value);
    Ok(())
}

/// Inserts one variable definition for each name, with the type at its position. Where one of
/// the names cannot be bound, none is.
pub fn insert_defined_variables(
    table: &mut SymbolTable,
    variables: &Vec<VariableName>,
    types: &Vec<Type>,
) -> (r: Result<(), ResolverError>)
    requires
        old(table).wf(),
        variables.len() == types.len(),
    ensures
        final(table).wf(),
        match r {
            Ok(_) => define_all(
                old(table)@,
                names_view(variables@),
                types_model(types),
                variables.len() as int,
            ) == Ok::<TableModel, ResolverErrorModel>(final(table)@),
            Err(error) => define_all(
                old(table)@,
                names_view(variables@),
                types_model(types),
                variables.len() as int,
            ) == Err::<TableModel, ResolverErrorModel>(error@),
        },
        r is Err ==> final(table)@ == old(table)@,
{
    let ghost names = names_view(variables@);
    let ghost all = types_model(types);

    // Bind the names in a copy, which takes the place of the table once all are bound
    let mut scope = table.duplicate();
    let mut i: usize = 0;
    while i < variables.len()
        invariant
            *table == *old(table),
            table.wf(),
            scope.wf(),
            i <= variables.len(),
            variables.len() == types.len(),
            names == names_view(variables@),
            all == types_model(types),
            define_all(table@, names, all, i as int) == Ok::<TableModel, ResolverErrorModel>(
                scope@,
            ),
        decreases variables.len() - i,
    {
        assert(names[i as int] == variables[i as int]@);
        assert(all[i as int] == types[i as int]@);
        match insert_defined_variable(&mut scope, &variables[i], &types[i]) {
            Ok(_) => {},
            Err(error) => {
                proof {
                    lemma_define_all_error(table@, names, all, i + 1, variables.len() as int);
                }
                return Err(error);
            },
        }
        i += 1;
    }
    *table = scope;
    Ok(())
}

/// The view of resolved variables or an error, together with the table that is left.
pub open spec fn variables_result_view(
    result: Result<DefinitionVariables, ResolverError>,
    table: TableModel,
) -> Result<(DefinitionVariablesModel, TableModel), ResolverErrorModel> {
    match result {
        Ok(variables) => Ok((variables@, table)),
        Err(error) => Err(error@),
    }
}

impl DefinitionVariables {
    /// Resolves a single variable with a single value
    pub fn single(
        table: &mut SymbolTable,
        variable: &VariableName,
        expected_type: &Option<Type>,
        expression: &UnresolvedExpression,
    ) -> (r: Result<Self, ResolverError>)
        requires
            old(table).wf(),
        ensures
            final(table).wf(),
            variables_result_view(r, final(table)@) == resolve_single(
                old(table)@,
                optional_type_model(*expected_type),
                variable@,
                expression@,
            ),
            r is Err ==> final(table)@ == old(table)@,
    {
        // Resolve expression with given expected type
        let expression_resolved = match Expression::resolve(table, expected_type, expression) {
            Ok(expression_resolved) => expression_resolved,
            Err(error) => {
                return Err(ResolverError::TypeError(error));
            },
        };

        // Insert variable into symbol table
        match insert_defined_variable(table, variable, &expression_resolved.type_) {
            Ok(_) => {},
            Err(error) => {
                return Err(error);
            },
        }
        Ok(DefinitionVariables::Single(variable.clone(), expression_resolved))
    }

    /// Resolves a tuple (single variable with multiple values)
    pub fn tuple(
        table: &mut SymbolTable,
        variable: &VariableName,
        expected_type: &Option<Type>,
        expressions: &Vec<UnresolvedExpression>,
        span: Span,
    ) -> (r: Result<Self, ResolverError>)
        requires
            old(table).wf(),
        ensures
            final(table).wf(),
            variables_result_view(r, final(table)@) == resolve_tuple(
                old(table)@,
                optional_type_model(*expected_type),
                variable@,
                unresolved_expressions_model(expressions),
                span,
            ),
            r is Err ==> final(table)@ == old(table)@,
    {
        // Resolve tuple of expressions
        let ghost whole = UnresolvedExpression::Tuple(*expressions, span);
        proof {
            assert(whole->Tuple_0 == *expressions);
            assert(decreases_to!(whole => whole->Tuple_0));
        }
        let tuple_resolved = match Expression::tuple(
            table,
            expected_type,
            expressions,
            span,
            Ghost(whole),
        ) {
            Ok(tuple_resolved) => tuple_resolved,
            Err(error) => {
                return Err(ResolverError::TypeError(error));
            },
        };

        // Insert variable into symbol table
        match insert_defined_variable(table, variable, &tuple_resolved.type_) {
            Ok(_) => {},
            Err(error) => {
                return Err(error);
            },
        }
        Ok(DefinitionVariables::Tuple(variable.clone(), tuple_resolved))
    }

    /// Resolves multiple variables for multiple expressions
    pub fn multiple_variable(
        table: &mut SymbolTable,
        variables: &Variables,
        expected_type: &Option<Type>,
        expressions: &Vec<UnresolvedExpression>,
        span: Span,
    ) -> (r: Result<Self, ResolverError>)
        requires
            old(table).wf(),
        ensures
            final(table).wf(),
            variables_result_view(r, final(table)@) == resolve_multiple_variable(
                old(table)@,
                optional_type_model(*expected_type),
                names_view(variables.names@),
                unresolved_expressions_model(expressions),
                span,
            ),
            r is Err ==> final(table)@ == old(table)@,
    {
        // If the expected type is given, then it must be a tuple of as many types
        match expected_type {
            Some(type_) => {
                let types = match type_.get_type_tuple(span) {
                    Ok(types) => types,
                    Err(error) => {
                        return Err(ResolverError::TypeError(error));
                    },
                };
                // Check number of variables == types
                if variables.names.len() != types.len() {
                    return Err(
                        ResolverError::TypeError(
                            TypeError::InvalidTupleLength {
                                expected: variables.names.len(),
                                found: types.len(),
                                span,
                            },
                        ),
                    );
                }
            },
            None => {},
        }

        // Check number of variables == expressions
        if variables.names.len() != expressions.len() {
            return Err(
                ResolverError::TypeError(
                    TypeError::InvalidTupleLength {
                        expected: variables.names.len(),
                        found: expressions.len(),
                        span,
                    },
                ),
            );
        }

        // Resolve expressions
        let expressions_resolved = match resolve_parts(table, expected_type, expressions) {
            Ok(expressions_resolved) => expressions_resolved,
            Err(error) => {
                return Err(ResolverError::TypeError(error));
            },
        };
        proof {
            lemma_resolved_length(
                table@,
                part_expected(optional_type_model(*expected_type)),
                unresolved_expressions_model(expressions),
            );
        }

        // Insert variables into symbol table
        let types = expression_types(&expressions_resolved);
        assert(types.len() == types_model(&types).len());
        match insert_defined_variables(table, &variables.names, &types) {
            Ok(_) => {},
            Err(error) => {
                return Err(error);
            },
        }
        let names = variables.names.clone();
        assert(names_view(names@) =~= names_view(variables.names@));
        Ok(DefinitionVariables::MultipleVariable(names, expressions_resolved))
    }

    /// Resolves multiple variables for an expression that returns a tuple
    pub fn multiple_variable_tuple(
        table: &mut SymbolTable,
        variables: &Variables,
        expected_type: &Option<Type>,
        expression: &UnresolvedExpression,
        span: Span,
    ) -> (r: Result<Self, ResolverError>)
        requires
            old(table).wf(),
        ensures
            final(table).wf(),
            variables_result_view(r, final(table)@) == resolve_multiple_variable_tuple(
                old(table)@,
                optional_type_model(*expected_type),
                names_view(variables.names@),
                expression@,
                span,
            ),
            r is Err ==> final(table)@ == old(table)@,
    {
        // Resolve tuple expression
        let expression_resolved = match Expression::resolve(table, expected_type, expression) {
            Ok(expression_resolved) => expression_resolved,
            Err(error) => {
                return Err(ResolverError::TypeError(error));
            },
        };
        let types = match expression_resolved.type_.get_type_tuple(span) {
            Ok(types) => types,
            Err(error) => {
                return Err(ResolverError::TypeError(error));
            },
        };
        if types.len() != variables.names.len() {
            return Err(
                ResolverError::TypeError(
                    TypeError::InvalidTupleLength {
                        expected: variables.names.len(),
                        found: types.len(),
                        span,
                    },
                ),
            );
        }

        // Insert variables into symbol table
        match insert_defined_variables(table, &variables.names, types) {
            Ok(_) => {},
            Err(error) => {
                return Err(error);
            },
        }
        let names = variables.names.clone();
        assert(names_view(names@) =~= names_view(variables.names@));
        Ok(DefinitionVariables::MultipleVariableTuple(names, expression_resolved))
    }
}

/// The view of a resolved definition or an error, together with the table that is left.
pub open spec fn definition_result_view(result: Result<Statement, ResolverError>, table: TableModel) -> Result<
    (DefinitionModel, TableModel),
    ResolverErrorModel,
> {
    match result {
        Ok(Statement::Definition(definition)) => Ok((definition@, table)),
        Ok(_) => arbitrary(),
        Err(error) => Err(error@),
    }
}

impl Statement {
    /// Resolves a definition statement
    pub fn definition(
        table: &mut SymbolTable,
        circuit: Option<&Identifier>,
        declare: Declare,
        variables: &Variables,
        expressions: &Vec<UnresolvedExpression>,
        span: Span,
    ) -> (r: Result<Self, ResolverError>)
        requires
            old(table).wf(),
        ensures
            final(table).wf(),
            r is Ok ==> r->Ok_0 is Definition,
            definition_result_view(r, final(table)@) == resolve_definition(
                old(table)@,
                optional_name_view(circuit),
                declare,
                variables@,
                unresolved_expressions_model(expressions),
                span,
            ),
            r is Err ==> final(table)@ == old(table)@,
    {
        let num_variables = variables.names.len();
        let num_values = expressions.len();
        let expected_type: Option<Type> = match &variables.type_ {
            Some(type_) => match Type::resolve_in(table, type_, circuit, span) {
                Ok(type_) => Some(type_),
                Err(error) => {
                    return Err(ResolverError::TypeError(error));
                },
            },
            None => None,
        };
        let ghost names = names_view(variables.names@);
        let ghost values = unresolved_expressions_model(expressions);

        let variables_resolved = if num_variables == 1 && num_values == 1 {
            // Define a single variable with a single value
            assert(names[0] == variables.names[0]@);
            assert(values[0] == expressions[0]@);
            DefinitionVariables::single(table, &variables.names[0], &expected_type, &expressions[0])
        } else if num_variables == 1 && num_values > 1 {
            // Define a tuple (single variable with multiple values)
            assert(names[0] == variables.names[0]@);
            DefinitionVariables::tuple(
                table,
                &variables.names[0],
                &expected_type,
                expressions,
                span,
            )
        } else if num_variables > 1 && num_values == 1 {
            // Define multiple variables for an expression that returns a tuple
            assert(values[0] == expressions[0]@);
            DefinitionVariables::multiple_variable_tuple(
                table,
                variables,
                &expected_type,
                &expressions[0],
                span,
            )
        } else {
            // Define multiple variables for multiple expressions
            DefinitionVariables::multiple_variable(
                table,
                variables,
                &expected_type,
                expressions,
                span,
            )
        };
        match variables_resolved {
            Ok(variables) => Ok(Statement::Definition(Definition { declare, variables, span })),
            Err(error) => Err(error),
        }
    }
}

} // verus!
