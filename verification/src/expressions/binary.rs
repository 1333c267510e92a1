use crate::ast::expression::{Expression as UnresolvedExpression, UnresolvedExpressionModel};
use crate::common::{BinaryOperation, Span, UnaryOperation};
use crate::errors::TypeError;
use crate::expressions::expression::{Expression, ExpressionValue, expression_result_view};
use crate::expressions::rules::resolve_expression;
use crate::symbol_table::SymbolTable;
use crate::types::Type;
use crate::types::types::{clone_optional_type, optional_type_model};
use vstd::prelude::*;

verus! {

impl Expression {
    /// Resolves an operation on two operands. The left operand is resolved first, and its
    /// type is asked of the right operand.
    pub(crate) fn binary(
        table: &SymbolTable,
        expected_type: &Option<Type>,
        operation: BinaryOperation,
        left: &UnresolvedExpression,
        right: &UnresolvedExpression,
        span: Span,
        Ghost(whole): Ghost<UnresolvedExpression>,
    ) -> (r: Result<Expression, TypeError>)
        requires
            table.wf(),
            decreases_to!(whole => *left),
            decreases_to!(whole => *right),
        ensures
            expression_result_view(r) == resolve_expression(
                table@,
                optional_type_model(*expected_type),
                UnresolvedExpressionModel::Binary(
                    operation,
                    Box::new(left@),
                    Box::new(right@),
                    span,
                ),
            ),
        decreases whole, 0int,
    {
        let arithmetic = operation.arithmetic();
        // Everything but arithmetic gives a boolean
        if !arithmetic {
            match Type::check_type(expected_type, &Type::Boolean, span) {
                Ok(_) => {},
                Err(error) => {
                    return Err(error);
                },
            }
        }
        let left_expected: Option<Type> = if operation.logical() {
            Some(Type::Boolean)
        } else if arithmetic {
            clone_optional_type(expected_type)
        } else {
            None
        };
        let left_resolved = match Expression::resolve(table, &left_expected, left) {
            Ok(left_resolved) => left_resolved,
            Err(error) => {
                return Err(error);
            },
        };
        if arithmetic || operation.ordering() {
            match left_resolved.type_.check_type_integer(span) {
                Ok(_) => {},
                Err(error) => {
                    return Err(error);
                },
            }
        }
        // Ask the type of the left operand of the right operand
        let right_expected = Some(left_resolved.type_.duplicate());
        let right_resolved = match Expression::resolve(table, &right_expected, right) {
            Ok(right_resolved) => right_resolved,
            Err(error) => {
                return Err(error);
            },
        };
        let type_ = if arithmetic {
            left_resolved.type_.duplicate()
        } else {
            Type::Boolean
        };
        Ok(
            Expression {
                type_,
                value: ExpressionValue::Binary(
                    operation,
                    Box::new(left_resolved),
                    Box::new(right_resolved),
                    span,
                ),
            },
        )
    }

    /// Resolves an operation on one operand.
    pub(crate) fn unary(
        table: &SymbolTable,
        expected_type: &Option<Type>,
        operation: UnaryOperation,
        inner: &UnresolvedExpression,
        span: Span,
        Ghost(whole): Ghost<UnresolvedExpression>,
    ) -> (r: Result<Expression, TypeError>)
        requires
            table.wf(),
            decreases_to!(whole => *inner),
        ensures
            expression_result_view(r) == resolve_expression(
                table@,
                optional_type_model(*expected_type),
                UnresolvedExpressionModel::Unary(operation, Box::new(inner@), span),
            ),
        decreases whole, 0int,
    {
        match operation {
            UnaryOperation::Not => {
                match Type::check_type(expected_type, &Type::Boolean, span) {
                    Ok(_) => {},
                    Err(error) => {
                        return Err(error);
                    },
                }
                let type_boolean = Some(Type::Boolean);
                match Expression::resolve(table, &type_boolean, inner) {
                    Ok(inner_resolved) => Ok(
                        Expression {
                            type_: Type::Boolean,
                            value: ExpressionValue::Unary(operation, Box::new(inner_resolved), span),
                        },
                    ),
                    Err(error) => Err(error),
                }
            },
            UnaryOperation::Negate => {
                match Expression::resolve(table, expected_type, inner) {
                    Ok(inner_resolved) => {
                        match inner_resolved.type_.check_type_integer(span) {
                            Ok(_) => {},
                            Err(error) => {
                                return Err(error);
                            },
                        }
                        Ok(
                            Expression {
                                type_: inner_resolved.type_.duplicate(),
                                value: ExpressionValue::Unary(
                                    operation,
                                    Box::new(inner_resolved),
                                    span,
                                ),
                            },
                        )
                    },
                    Err(error) => Err(error),
                }
            },
        }
    }

    /// Resolves a conditional expression. The condition has to be a boolean, and the two
    /// values have to have one type.
    pub(crate) fn if_else(
        table: &SymbolTable,
        expected_type: &Option<Type>,
        condition: &UnresolvedExpression,
        first: &UnresolvedExpression,
        second: &UnresolvedExpression,
        span: Span,
        Ghost(whole): Ghost<UnresolvedExpression>,
    ) -> (r: Result<Expression, TypeError>)
        requires
            table.wf(),
            decreases_to!(whole => *condition),
            decreases_to!(whole => *first),
            decreases_to!(whole => *second),
        ensures
            expression_result_view(r) == resolve_expression(
                table@,
                optional_type_model(*expected_type),
                UnresolvedExpressionModel::IfElse(
                    Box::new(condition@),
                    Box::new(first@),
                    Box::new(second@),
                    span,
                ),
            ),
        decreases whole, 0int,
    {
        // Resolve the condition to a boolean
        let type_boolean = Some(Type::Boolean);
        let condition_resolved = match Expression::resolve(table, &type_boolean, condition) {
            Ok(condition_resolved) => condition_resolved,
            Err(error) => {
                return Err(error);
            },
        };
        let first_resolved = match Expression::resolve(table, expected_type, first) {
            Ok(first_resolved) => first_resolved,
            Err(error) => {
                return Err(error);
            },
        };
        let second_resolved = match Expression::resolve(table, expected_type, second) {
            Ok(second_resolved) => second_resolved,
            Err(error) => {
                return Err(error);
            },
        };
        // The two values have to have one type
        if !first_resolved.type_.same(&second_resolved.type_) {
            return Err(
                TypeError::MismatchedTypes {
                    expected: first_resolved.type_.duplicate(),
                    found: second_resolved.type_.duplicate(),
                    span,
                },
            );
        }
        Ok(
            Expression {
                type_: first_resolved.type_.duplicate(),
                value: ExpressionValue::IfElse(
                    Box::new(condition_resolved),
                    Box::new(first_resolved),
                    Box::new(second_resolved),
                    span,
                ),
            },
        )
    }
}

} // verus!
