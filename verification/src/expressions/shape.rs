use crate::ast::{RangeOrExpressionModel, UnresolvedExpressionModel, UnresolvedMemberModel};
use crate::common::Span;
use crate::expressions::expression::{ExpressionModel, ExpressionValueModel, MemberModel};
use crate::expressions::rules::index_literal;
use vstd::prelude::*;

verus! {

/// Whether `resolved` is the end of a range that is written as `written`: the written index
/// where there is one, else the index `default`.
pub open spec fn mirrors_bound(
    written: Option<UnresolvedExpressionModel>,
    resolved: ExpressionModel,
    default: usize,
    span: Span,
) -> bool
    decreases written, 1int,
{
    match written {
        Some(written) => mirrors(written, resolved),
        None => resolved == index_literal(default, span),
    }
}

/// Whether `resolved` is `written`, node for node: the same kind of node with the same
/// names, values and spans, and each part of the one mirrors the part of the other at its
/// place. Two things are made explicit on the way: a number without a type stands as an
/// integer, a field element or a group element; and an end that is left out of a range
/// stands as the first index, or as the number of elements of the array.
pub open spec fn mirrors(written: UnresolvedExpressionModel, resolved: ExpressionModel) -> bool
    decreases written, 0int,
{
    match (written, resolved.value) {
        (
            UnresolvedExpressionModel::Identifier(identifier),
            ExpressionValueModel::Identifier(same),
        ) => identifier == same,
        (
            UnresolvedExpressionModel::Address(value, span),
            ExpressionValueModel::Address(same_value, same_span),
        ) => value == same_value && span == same_span,
        (
            UnresolvedExpressionModel::Boolean(value, span),
            ExpressionValueModel::Boolean(same_value, same_span),
        ) => value == same_value && span == same_span,
        (
            UnresolvedExpressionModel::Field(value, span),
            ExpressionValueModel::Field(same_value, same_span),
        ) => value == same_value && span == same_span,
        (
            UnresolvedExpressionModel::Group(value, span),
            ExpressionValueModel::Group(same_value, same_span),
        ) => value == same_value && span == same_span,
        (
            UnresolvedExpressionModel::Implicit(value, span),
            ExpressionValueModel::Integer(_, same_value, same_span),
        ) => value == same_value && span == same_span,
        (
            UnresolvedExpressionModel::Implicit(value, span),
            ExpressionValueModel::Field(same_value, same_span),
        ) => value == same_value && span == same_span,
        (
            UnresolvedExpressionModel::Implicit(value, span),
            ExpressionValueModel::Group(same_value, same_span),
        ) => value == same_value && span == same_span,
        (
            UnresolvedExpressionModel::Integer(integer, value, span),
            ExpressionValueModel::Integer(same_integer, same_value, same_span),
        ) => integer == same_integer && value == same_value && span == same_span,
        (
            UnresolvedExpressionModel::Binary(operation, left, right, span),
            ExpressionValueModel::Binary(same_operation, same_left, same_right, same_span),
        ) => operation == same_operation && span == same_span && mirrors(*left, *same_left)
            && mirrors(*right, *same_right),
        (
            UnresolvedExpressionModel::Unary(operation, inner, span),
            ExpressionValueModel::Unary(same_operation, same_inner, same_span),
        ) => operation == same_operation && span == same_span && mirrors(*inner, *same_inner),
        (
            UnresolvedExpressionModel::IfElse(condition, first, second, span),
            ExpressionValueModel::IfElse(same_condition, same_first, same_second, same_span),
        ) => span == same_span && mirrors(*condition, *same_condition) && mirrors(
            *first,
            *same_first,
        ) && mirrors(*second, *same_second),
        (
            UnresolvedExpressionModel::ArrayInline(elements, span),
            ExpressionValueModel::Array(same_elements, same_span),
        ) => span == same_span && all_mirror(elements, same_elements),
        (
            UnresolvedExpressionModel::ArrayInitializer(element, dimensions, span),
            ExpressionValueModel::ArrayInitializer(same_element, same_dimensions, same_span),
        ) => dimensions == same_dimensions && span == same_span && mirrors(
            *element,
            *same_element,
        ),
        (
            UnresolvedExpressionModel::ArrayAccess(array, index, span),
            ExpressionValueModel::ArrayAccess(same_array, same_index, same_span),
        ) => span == same_span && mirrors(*array, *same_array) && match *index {
            RangeOrExpressionModel::Expression(index) => mirrors(index, *same_index),
            RangeOrExpressionModel::Range(_, _) => false,
        },
        (
            UnresolvedExpressionModel::ArrayAccess(array, index, span),
            ExpressionValueModel::ArrayRangeAccess(same_array, same_from, same_to, same_span),
        ) => span == same_span && mirrors(*array, *same_array) && match *index {
            RangeOrExpressionModel::Expression(_) => false,
            RangeOrExpressionModel::Range(from, to) => mirrors_bound(from, *same_from, 0, span)
                && mirrors_bound(to, *same_to, same_array.type_.array_len(), span),
        },
        (
            UnresolvedExpressionModel::Tuple(elements, span),
            ExpressionValueModel::Tuple(same_elements, same_span),
        ) => span == same_span && all_mirror(elements, same_elements),
        (
            UnresolvedExpressionModel::TupleAccess(tuple, index, span),
            ExpressionValueModel::TupleAccess(same_tuple, same_index, same_span),
        ) => index == same_index && span == same_span && mirrors(*tuple, *same_tuple),
        (
            UnresolvedExpressionModel::Circuit(name, members, span),
            ExpressionValueModel::Circuit(same_name, same_members, same_span),
        ) => name == same_name && span == same_span && members_mirror(members, same_members),
        (
            UnresolvedExpressionModel::CircuitMemberAccess(circuit, member, span),
            ExpressionValueModel::CircuitMemberAccess(same_circuit, same_member, same_span),
        ) => member == same_member && span == same_span && mirrors(*circuit, *same_circuit),
        (
            UnresolvedExpressionModel::CircuitStaticFunctionAccess(circuit, member, span),
            ExpressionValueModel::CircuitStaticFunctionAccess(
                same_circuit,
                same_member,
                same_span,
            ),
        ) => member == same_member && span == same_span && mirrors(*circuit, *same_circuit),
        (
            UnresolvedExpressionModel::FunctionCall(function, arguments, span),
            ExpressionValueModel::FunctionCall(same_function, same_arguments, same_span),
        ) => span == same_span && mirrors(*function, *same_function) && all_mirror(
            arguments,
            same_arguments,
        ),
        (
            UnresolvedExpressionModel::CoreFunctionCall(name, arguments, span),
            ExpressionValueModel::CoreFunctionCall(same_name, same_arguments, same_span),
        ) => name == same_name && span == same_span && all_mirror(arguments, same_arguments),
        _ => false,
    }
}

/// Whether the two lists are of one length and each resolved expression mirrors the written
/// one at its place.
pub open spec fn all_mirror(
    written: Seq<UnresolvedExpressionModel>,
    resolved: Seq<ExpressionModel>,
) -> bool
    decreases written, 1int,
{
    &&& written.len() == resolved.len()
    &&& forall|i: int| 0 <= i < written.len() ==> mirrors(#[trigger] written[i], resolved[i])
}

/// Whether the two lists are of one length and each resolved member carries the name of the
/// written one at its place, and its value mirrors the written value.
pub open spec fn members_mirror(written: Seq<UnresolvedMemberModel>, resolved: Seq<MemberModel>) -> bool
    decreases written, 1int,
{
    &&& written.len() == resolved.len()
    &&& forall|i: int|
        0 <= i < written.len() ==> (#[trigger] written[i]).identifier == resolved[i].identifier
            && mirrors(written[i].expression, resolved[i].expression)
}

} // verus!
