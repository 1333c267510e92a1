use crate::ast::UnresolvedTypeModel;
use crate::ast::function::{Function as UnresolvedFunction, UnresolvedFunctionModel};
use crate::common::{Identifier, IdentifierModel};
use crate::errors::{
    ResolverError, ResolverErrorModel, SymbolTableError, SymbolTableErrorModel, TypeError,
    TypeErrorModel,
};
use crate::functions::result::{
    collect_returns, conditionally_select_result, results_view, returns_of, select_result,
};
use crate::sequence::{lemma_try_fold_error, try_fold};
use crate::statements::resolve::resolve_statements;
use crate::statements::rules::resolve_statements as resolve_statements_rule;
use crate::statements::statement::{Statement, StatementModel, statements_model};
use crate::symbol_table::{EntryModel, SymbolTable, TableModel};
use crate::types::functions::inputs_view;
use crate::types::resolve::optional_name_view;
use crate::types::{FunctionInputModel, FunctionInputType, FunctionType, FunctionTypeModel, Type, TypeModel};
use vstd::prelude::*;

verus! {

/// A function with its resolved signature and resolved statements.
#[derive(Debug, PartialEq, Eq)]
pub struct Function {
    /// The signature of the function definition
    pub type_: FunctionType,
    /// The function statements
    pub statements: Vec<Statement>,
}

/// What a [`Function`] stands for in contracts.
pub ghost struct FunctionModel {
    pub type_: FunctionTypeModel,
    pub statements: Seq<StatementModel>,
}

impl View for Function {
    type V = FunctionModel;

    open spec fn view(&self) -> FunctionModel {
        FunctionModel { type_: self.type_@, statements: statements_model(&self.statements) }
    }
}

/// The view of every function of a list.
pub open spec fn functions_view(functions: Seq<Function>) -> Seq<FunctionModel> {
    functions.map_values(|function: Function| function@)
}

/// The view of a resolved function or an error.
pub open spec fn function_result_view(result: Result<Function, ResolverError>) -> Result<
    FunctionModel,
    ResolverErrorModel,
> {
    match result {
        Ok(function) => Ok(function@),
        Err(error) => Err(error@),
    }
}

/// The table after `input` is bound in the scope itself: a variable is bound under its name,
/// which the scope may not bind already; the `input` keyword binds nothing.
pub open spec fn bind_input(table: TableModel, input: FunctionInputModel) -> Result<
    TableModel,
    ResolverErrorModel,
> {
    match input {
        FunctionInputModel::InputKeyword(_) => Ok(table),
        FunctionInputModel::Variable(variable) => if table.local_variable(
            variable.identifier.name,
        ) is Some {
            Err(
                ResolverErrorModel::SymbolTableError(
                    SymbolTableErrorModel::DuplicateVariable(variable.identifier),
                ),
            )
        } else {
            Ok(
                table.insert_variable(
                    variable.identifier.name,
                    EntryModel {
                        identifier: variable.identifier,
                        type_: variable.type_,
                        attributes: variable.attributes,
                    },
                ),
            )
        },
    }
}

/// [`bind_input`] as a step.
pub open spec fn input_binder() -> spec_fn(TableModel, FunctionInputModel) -> Result<
    TableModel,
    ResolverErrorModel,
> {
    |table: TableModel, input: FunctionInputModel| bind_input(table, input)
}

/// What the return statements of a function are held to: the type that the function returns,
/// where it is written with one.
pub open spec fn expected_return(returns: Option<UnresolvedTypeModel>, output: TypeModel) -> Option<
    TypeModel,
> {
    match returns {
        Some(_) => Some(output),
        None => None,
    }
}

/// The resolved function that `function` stands for, given its resolved signature. Its
/// statements are resolved in a scope of their own, nested in `table`, which binds the inputs
/// of the function; nothing that the function defines is seen outside of it. After that the
/// return statements are checked.
pub open spec fn resolve_function_body(
    table: TableModel,
    function: UnresolvedFunctionModel,
    signature: FunctionTypeModel,
    circuit: Option<IdentifierModel>,
) -> Result<FunctionModel, ResolverErrorModel> {
    match try_fold(table.child(), signature.inputs, input_binder(), signature.inputs.len() as int) {
        Err(error) => Err(error),
        Ok(scope) => match resolve_statements_rule(
            scope,
            signature.output,
            circuit,
            function.statements,
        ) {
            Err(error) => Err(error),
            Ok((statements, _)) => match select_result(
                expected_return(function.returns, signature.output),
                returns_of(statements, true),
                function.span,
            ) {
                Err(error) => Err(ResolverErrorModel::TypeError(error)),
                Ok(_) => Ok(FunctionModel { type_: signature, statements }),
            },
        },
    }
}

/// The resolved function that a function of the program stands for: its signature is the one
/// that `table` holds under its name.
pub open spec fn resolve_function(table: TableModel, function: UnresolvedFunctionModel) -> Result<
    FunctionModel,
    ResolverErrorModel,
> {
    match table.get_function(function.identifier.name) {
        None => Err(
            ResolverErrorModel::TypeError(TypeErrorModel::UndefinedFunction(function.identifier)),
        ),
        Some(signature) => resolve_function_body(table, function, signature, None),
    }
}

/// Binds the inputs of a function in `table`, in order. Where one of them cannot be bound,
/// none is.
pub fn insert_inputs(table: &mut SymbolTable, inputs: &Vec<FunctionInputType>) -> (r: Result<
    (),
    ResolverError,
>)
    requires
        old(table).wf(),
    ensures
        final(table).wf(),
        match try_fold(old(table)@, inputs_view(inputs@), input_binder(), inputs.len() as int) {
            Ok(after) => r is Ok && final(table)@ == after,
            Err(error) => r is Err && r->Err_0@ == error && final(table)@ == old(table)@,
        },
{
    let ghost all = inputs_view(inputs@);

    // Bind the inputs in a copy, which takes the place of the table once all are bound
    let mut scope = table.duplicate();
    let mut i: usize = 0;
    while i < inputs.len()
        invariant
            *table == *old(table),
            table.wf(),
            scope.wf(),
            i <= inputs.len(),
            all == inputs_view(inputs@),
            try_fold(table@, all, input_binder(), i as int) == Ok::<
                TableModel,
                ResolverErrorModel,
            >(scope@),
        decreases inputs.len() - i,
    {
        assert(all[i as int] == inputs[i as int]@);
        match &inputs[i] {
            FunctionInputType::InputKeyword(_) => {},
            FunctionInputType::Variable(variable) => {
                if scope.defines_variable(&variable.identifier.name) {
                    proof {
                        lemma_try_fold_error(table@, all, input_binder(), i + 1, inputs.len() as int);
                    }
                    return Err(
                        ResolverError::SymbolTableError(
                            SymbolTableError::DuplicateVariable(variable.identifier.clone()),
                        ),
                    );
                }
                variable.insert(&mut scope);
            },
        }
        i += 1;
    }
    *table = scope;
    Ok(())
}

impl Function {
    /// Resolves the statements of a function whose signature is `type_`; `circuit` is the
    /// circuit whose member the function is, if any.
    pub fn resolve_body(
        table: &SymbolTable,
        unresolved: &UnresolvedFunction,
        type_: &FunctionType,
        circuit: Option<&Identifier>,
    ) -> (r: Result<Self, ResolverError>)
        requires
            table.wf(),
        ensures
            function_result_view(r) == resolve_function_body(
                table@,
                unresolved@,
                type_@,
                optional_name_view(circuit),
            ),
    {
        // Create function context
        let mut child_table = table.child();

        // Insert function inputs into symbol table
        match insert_inputs(&mut child_table, &type_.inputs) {
            Ok(_) => {},
            Err(error) => {
                return Err(error);
            },
        }

        // Pass expected function output to resolved statements
        // Resolve all function statements
        let statements = match resolve_statements(
            &mut child_table,
            &type_.output,
            circuit,
            &unresolved.statements,
        ) {
            Ok(statements) => statements,
            Err(error) => {
                return Err(error);
            },
        };

        // Check that one value is returned
        let mut results: Vec<(bool, Type)> = Vec::new();
        assert(results_view(results@) =~= Seq::empty());
        collect_returns(&statements, true, &mut results);
        assert(results_view(results@) =~= returns_of(statements_model(&statements), true));
        let expected_return: Option<Type> = match &unresolved.returns {
            Some(_) => Some(type_.output.type_.duplicate()),
            None => None,
        };
        match conditionally_select_result(&expected_return, &results, unresolved.span) {
            Ok(_) => {},
            Err(error) => {
                return Err(ResolverError::TypeError(error));
            },
        }
        Ok(Function { type_: type_.clone(), statements })
    }

    /// Resolves a function of the program: its signature is looked up in `table` under its
    /// name.
    pub fn resolve(table: &SymbolTable, unresolved: &UnresolvedFunction) -> (r: Result<
        Self,
        ResolverError,
    >)
        requires
            table.wf(),
        ensures
            function_result_view(r) == resolve_function(table@, unresolved@),
    {
        let type_ = match table.get_function(&unresolved.identifier.name) {
            Some(type_) => type_,
            None => {
                return Err(
                    ResolverError::TypeError(
                        TypeError::UndefinedFunction(unresolved.identifier.clone()),
                    ),
                );
            },
        };
        Self::resolve_body(table, unresolved, type_, None)
    }
}

} // verus!
