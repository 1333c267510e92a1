use crate::ast::expression::{
    Expression as UnresolvedExpression, UnresolvedExpressionModel,
    expressions_model as unresolved_expressions_model,
};
use crate::common::Span;
use crate::errors::{TypeError, TypeErrorModel};
use crate::expressions::expression::{
    Expression, ExpressionValue, expression_result_view, expressions_model, types_of,
};
use crate::expressions::resolve::resolve_parts;
use crate::expressions::rules::resolve_expression;
use crate::symbol_table::SymbolTable;
use crate::types::types::{optional_type_model, optional_types_model, types_model};
use crate::types::{Type, TypeModel};
use vstd::prelude::*;

verus! {

/// The types of a list of resolved expressions, in order.
pub fn expression_types(expressions: &Vec<Expression>) -> (r: Vec<Type>)
    ensures
        types_model(&r) == types_of(expressions_model(expressions)),
{
    let mut types: Vec<Type> = Vec::new();
    let mut i: usize = 0;
    while i < expressions.len()
        invariant
            i <= expressions.len(),
            types.len() == i,
            forall|j: int| 0 <= j < i ==> types[j]@ == expressions[j]@.type_,
        decreases expressions.len() - i,
    {
        types.push(expressions[i].type_.duplicate());
        i += 1;
    }
    assert(types_model(&types) =~= types_of(expressions_model(expressions)));
    types
}

/// What is asked of each of `length` parts of a tuple, where `expected` is asked of the tuple:
/// the parts of `expected`, which has to be a tuple type; or nothing of any part, where
/// nothing is asked of the tuple.
pub open spec fn tuple_expected(expected: Option<TypeModel>, length: usize, span: Span) -> Result<
    Seq<Option<TypeModel>>,
    TypeErrorModel,
> {
    match expected {
        Some(TypeModel::Tuple(types)) => Ok(types.map_values(|type_: TypeModel| Some(type_))),
        Some(other) => Err(TypeErrorModel::ExpectedTupleType { found: other, span }),
        None => Ok(Seq::new(length as nat, |i: int| None)),
    }
}

/// Return a tuple of types given some expected type tuple. Otherwise return a tuple of `None`
/// types.
pub fn check_tuple_type(expected_type: &Option<Type>, length: usize, span: Span) -> (r: Result<
    Vec<Option<Type>>,
    TypeError,
>)
    ensures
        match r {
            Ok(types) => tuple_expected(optional_type_model(*expected_type), length, span) == Ok::<
                Seq<Option<TypeModel>>,
                TypeErrorModel,
            >(optional_types_model(types@)),
            Err(error) => tuple_expected(optional_type_model(*expected_type), length, span) == Err::<
                Seq<Option<TypeModel>>,
                TypeErrorModel,
            >(error@),
        },
{
    let mut expected: Vec<Option<Type>> = Vec::new();
    match expected_type {
        Some(type_) => {
            let types = match type_.get_type_tuple(span) {
                Ok(types) => types,
                Err(error) => {
                    return Err(error);
                },
            };
            let mut i: usize = 0;
            while i < types.len()
                invariant
                    i <= types.len(),
                    expected.len() == i,
                    forall|j: int|
                        0 <= j < i ==> optional_type_model(#[trigger] expected[j]) == Some(
                            types[j]@,
                        ),
                decreases types.len() - i,
            {
                expected.push(Some(types[i].duplicate()));
                i += 1;
            }
            assert(optional_types_model(expected@) =~= types_model(types).map_values(
                |type_: TypeModel| Some(type_),
            ));
        },
        None => {
            let mut i: usize = 0;
            while i < length
                invariant
                    i <= length,
                    expected.len() == i,
                    forall|j: int| 0 <= j < i ==> (#[trigger] expected[j]) is None,
                decreases length - i,
            {
                expected.push(None);
                i += 1;
            }
            assert(optional_types_model(expected@) =~= Seq::new(
                length as nat,
                |i: int| None::<TypeModel>,
            ));
        },
    }
    Ok(expected)
}

impl Expression {
    /// Resolves a tuple of expressions to the given tuple type
    pub(crate) fn tuple(
        table: &SymbolTable,
        expected_type: &Option<Type>,
        expressions: &Vec<UnresolvedExpression>,
        span: Span,
        Ghost(whole): Ghost<UnresolvedExpression>,
    ) -> (r: Result<Expression, TypeError>)
        requires
            table.wf(),
            decreases_to!(whole => *expressions),
        ensures
            expression_result_view(r) == resolve_expression(
                table@,
                optional_type_model(*expected_type),
                UnresolvedExpressionModel::Tuple(unresolved_expressions_model(expressions), span),
            ),
        decreases whole, 0int,
    {
        match expected_type {
            Some(type_) => {
                // If the expected type is given, then it must be a tuple of types
                let types = match type_.get_type_tuple(span) {
                    Ok(types) => types,
                    Err(error) => {
                        return Err(error);
                    },
                };
                // Check length of tuple against expected types
                if expressions.len() != types.len() {
                    return Err(
                        TypeError::InvalidTupleLength {
                            expected: types.len(),
                            found: expressions.len(),
                            span,
                        },
                    );
                }
            },
            None => {
                // Nothing says which type a tuple without parts has
                if expressions.len() == 0 {
                    return Err(TypeError::CannotInferType(span));
                }
            },
        }
        // Resolve all tuple elements
        match resolve_parts(table, expected_type, expressions) {
            Ok(tuple) => {
                // Define tuple type for expression
                let actual_element_types = expression_types(&tuple);
                Ok(
                    Expression {
                        type_: Type::Tuple(actual_element_types),
                        value: ExpressionValue::Tuple(tuple, span),
                    },
                )
            },
            Err(error) => Err(error),
        }
    }

    /// Resolves the access of one part of a tuple
    pub(crate) fn tuple_access(
        table: &SymbolTable,
        expected_type: &Option<Type>,
        tuple: &UnresolvedExpression,
        index: usize,
        span: Span,
        Ghost(whole): Ghost<UnresolvedExpression>,
    ) -> (r: Result<Expression, TypeError>)
        requires
            table.wf(),
            decreases_to!(whole => *tuple),
        ensures
            expression_result_view(r) == resolve_expression(
                table@,
                optional_type_model(*expected_type),
                UnresolvedExpressionModel::TupleAccess(Box::new(tuple@), index, span),
            ),
        decreases whole, 0int,
    {
        // We do not know the tuple type from this context so `expected_type = None`.
        let none: Option<Type> = None;
        let tuple_resolved = match Expression::resolve(table, &none, tuple) {
            Ok(tuple_resolved) => tuple_resolved,
            Err(error) => {
                return Err(error);
            },
        };
        let type_ = match tuple_resolved.type_.get_type_tuple(span) {
            Ok(types) => {
                if index >= types.len() {
                    return Err(
                        TypeError::InvalidTupleIndex { index, length: types.len(), span },
                    );
                }
                types[index].duplicate()
            },
            Err(error) => {
                return Err(error);
            },
        };
        Self::checked(
            expected_type,
            type_,
            ExpressionValue::TupleAccess(Box::new(tuple_resolved), index, span),
            span,
        )
    }
}

} // verus!
