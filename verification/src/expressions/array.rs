use crate::ast::expression::{
    Expression as UnresolvedExpression, RangeOrExpression, UnresolvedExpressionModel,
    expressions_model as unresolved_expressions_model, optional_expression_model,
};
use crate::common::{IntegerType, Span};
use crate::decimal::decimal_string;
use crate::errors::TypeError;
use crate::expressions::expression::{Expression, ExpressionValue, expression_result_view};
use crate::expressions::resolve::resolve_elements;
use crate::expressions::rules::{index_literal, resolve_bound, resolve_expression};
use crate::symbol_table::SymbolTable;
use crate::types::Type;
use crate::types::types::{clone_dimensions, optional_type_model};
use vstd::prelude::*;

verus! {

/// The expression that stands for the index `n` where an end of a range is left out.
pub fn index_expression(n: usize, span: Span) -> (r: Expression)
    ensures
        r@ == index_literal(n, span),
{
    Expression {
        type_: Type::IntegerType(IntegerType::U32),
        value: ExpressionValue::Integer(IntegerType::U32, decimal_string(n), span),
    }
}

impl Expression {
    /// Resolves an array expression
    pub(crate) fn array(
        table: &SymbolTable,
        expected_type: &Option<Type>,
        expressions: &Vec<UnresolvedExpression>,
        span: Span,
        Ghost(whole): Ghost<UnresolvedExpression>,
    ) -> (r: Result<Expression, TypeError>)
        requires
            table.wf(),
            decreases_to!(whole => *expressions),
        ensures
            expression_result_view(r) == resolve_expression(
                table@,
                optional_type_model(*expected_type),
                UnresolvedExpressionModel::ArrayInline(
                    unresolved_expressions_model(expressions),
                    span,
                ),
            ),
        decreases whole, 0int,
    {
        match expected_type {
            Some(array_type) => {
                // The expected type has to be an array of as many elements
                let (element, dimensions) = match array_type.get_type_array(span) {
                    Ok(parts) => parts,
                    Err(error) => {
                        return Err(error);
                    },
                };
                if dimensions.len() == 0 {
                    return Err(TypeError::ExpectedArrayType { found: array_type.duplicate(), span });
                }
                if expressions.len() != dimensions[0] {
                    let mut found_dimensions = clone_dimensions(dimensions);
                    found_dimensions.set(0, expressions.len());
                    return Err(
                        TypeError::MismatchedTypes {
                            expected: array_type.duplicate(),
                            found: Type::Array(Box::new(element.duplicate()), found_dimensions),
                            span,
                        },
                    );
                }
                // Expressions should evaluate to the element type of the array
                match resolve_elements(table, expected_type, expressions) {
                    Ok(array) => Ok(
                        Expression {
                            type_: array_type.duplicate(),
                            value: ExpressionValue::Array(array, span),
                        },
                    ),
                    Err(error) => Err(error),
                }
            },
            None => {
                if expressions.len() == 0 {
                    return Err(TypeError::CannotInferType(span));
                }
                match resolve_elements(table, expected_type, expressions) {
                    Ok(array) => {
                        let mut dimensions: Vec<usize> = Vec::new();
                        dimensions.push(expressions.len());
                        assert(dimensions@ =~= seq![expressions.len()]);
                        let element_type = array[0].type_.duplicate();
                        Ok(
                            Expression {
                                type_: Type::Array(Box::new(element_type), dimensions),
                                value: ExpressionValue::Array(array, span),
                            },
                        )
                    },
                    Err(error) => Err(error),
                }
            },
        }
    }

    /// Resolves an array that repeats one element
    pub(crate) fn array_initializer(
        table: &SymbolTable,
        expected_type: &Option<Type>,
        element: &UnresolvedExpression,
        dimensions: &Vec<usize>,
        span: Span,
        Ghost(whole): Ghost<UnresolvedExpression>,
    ) -> (r: Result<Expression, TypeError>)
        requires
            table.wf(),
            decreases_to!(whole => *element),
        ensures
            expression_result_view(r) == resolve_expression(
                table@,
                optional_type_model(*expected_type),
                UnresolvedExpressionModel::ArrayInitializer(Box::new(element@), dimensions@, span),
            ),
        decreases whole, 0int,
    {
        let element_expected: Option<Type> = match expected_type {
            Some(array_type) => {
                match array_type.get_type_array(span) {
                    Ok((element_type, _)) => Some(element_type.duplicate()),
                    Err(error) => {
                        return Err(error);
                    },
                }
            },
            None => None,
        };
        match Expression::resolve(table, &element_expected, element) {
            Ok(element_resolved) => {
                let type_ = Type::Array(
                    Box::new(element_resolved.type_.duplicate()),
                    clone_dimensions(dimensions),
                );
                Self::checked(
                    expected_type,
                    type_,
                    ExpressionValue::ArrayInitializer(
                        Box::new(element_resolved),
                        clone_dimensions(dimensions),
                        span,
                    ),
                    span,
                )
            },
            Err(error) => Err(error),
        }
    }

    /// Resolves one end of a range: the written index, or `default` where none is written.
    pub fn range_bound(
        table: &SymbolTable,
        bound: &Option<UnresolvedExpression>,
        default: usize,
        span: Span,
    ) -> (r: Result<Expression, TypeError>)
        requires
            table.wf(),
        ensures
            expression_result_view(r) == resolve_bound(
                table@,
                optional_expression_model(bound),
                default,
                span,
            ),
        decreases bound, 2int,
    {
        match bound {
            Some(index) => {
                let index_type = Some(Type::IntegerType(IntegerType::U32));
                Expression::resolve(table, &index_type, index)
            },
            None => Ok(index_expression(default, span)),
        }
    }

    /// Resolves the access of an element of an array, or of a range of its elements
    pub(crate) fn array_access(
        table: &SymbolTable,
        expected_type: &Option<Type>,
        array: &UnresolvedExpression,
        index: &RangeOrExpression,
        span: Span,
        Ghost(whole): Ghost<UnresolvedExpression>,
    ) -> (r: Result<Expression, TypeError>)
        requires
            table.wf(),
            decreases_to!(whole => *array),
            decreases_to!(whole => *index),
        ensures
            expression_result_view(r) == resolve_expression(
                table@,
                optional_type_model(*expected_type),
                UnresolvedExpressionModel::ArrayAccess(Box::new(array@), Box::new(index@), span),
            ),
        decreases whole, 0int,
    {
        // We do not know the array type from this context so `expected_type = None`.
        let none: Option<Type> = None;
        let array_resolved = match Expression::resolve(table, &none, array) {
            Ok(array_resolved) => array_resolved,
            Err(error) => {
                return Err(error);
            },
        };
        let (element_type, length) = match array_resolved.type_.get_type_array(span) {
            Ok((element, dimensions)) => {
                if dimensions.len() == 0 {
                    return Err(
                        TypeError::ExpectedArrayType {
                            found: array_resolved.type_.duplicate(),
                            span,
                        },
                    );
                }
                (Type::element_type(element, dimensions), dimensions[0])
            },
            Err(error) => {
                return Err(error);
            },
        };
        match index {
            RangeOrExpression::Expression(index) => {
                let index_type = Some(Type::IntegerType(IntegerType::U32));
                match Expression::resolve(table, &index_type, index) {
                    Ok(index_resolved) => Self::checked(
                        expected_type,
                        element_type,
                        ExpressionValue::ArrayAccess(
                            Box::new(array_resolved),
                            Box::new(index_resolved),
                            span,
                        ),
                        span,
                    ),
                    Err(error) => Err(error),
                }
            },
            RangeOrExpression::Range(from, to) => {
                // Array slice starts at index 0
                let from_resolved = match Self::range_bound(table, from, 0, span) {
                    Ok(from_resolved) => from_resolved,
                    Err(error) => {
                        return Err(error);
                    },
                };
                // Array slice ends at array length
                let to_resolved = match Self::range_bound(table, to, length, span) {
                    Ok(to_resolved) => to_resolved,
                    Err(error) => {
                        return Err(error);
                    },
                };
                Self::checked(
                    expected_type,
                    array_resolved.type_.duplicate(),
                    ExpressionValue::ArrayRangeAccess(
                        Box::new(array_resolved),
                        Box::new(from_resolved),
                        Box::new(to_resolved),
                        span,
                    ),
                    span,
                )
            },
        }
    }
}

} // verus!
