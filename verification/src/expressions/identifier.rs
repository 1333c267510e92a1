use crate::ast::UnresolvedExpressionModel;
use crate::common::Identifier;
use crate::errors::TypeError;
use crate::expressions::expression::{Expression, ExpressionValue, expression_result_view};
use crate::expressions::rules::resolve_expression;
use crate::symbol_table::SymbolTable;
use crate::types::Type;
use crate::types::types::optional_type_model;
use vstd::prelude::*;

verus! {

impl Expression {
    /// Resolve the type of an identifier expression
    pub fn identifier(table: &SymbolTable, expected_type: &Option<Type>, identifier: &Identifier) -> (r:
        Result<Expression, TypeError>)
        requires
            table.wf(),
        ensures
            expression_result_view(r) == resolve_expression(
                table@,
                optional_type_model(*expected_type),
                UnresolvedExpressionModel::Identifier(identifier@),
            ),
    {
        // Lookup identifier in symbol table
        match table.get_variable(&identifier.name) {
            Some(variable) => {
                // Check the expected type if given
                Self::checked(
                    expected_type,
                    variable.type_().duplicate(),
                    ExpressionValue::Identifier(identifier.clone()),
                    identifier.span,
                )
            },
            None => Err(TypeError::UndefinedVariable(identifier.clone())),
        }
    }
}

} // verus!
