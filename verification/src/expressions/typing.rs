use crate::ast::{RangeOrExpressionModel, UnresolvedExpressionModel, UnresolvedMemberModel};
use crate::expressions::consistency::consistent;
use crate::expressions::expression::{ExpressionModel, ExpressionValueModel, MemberModel};
use crate::symbol_table::TableModel;
use vstd::prelude::*;

verus! {

/// The expressions that a list of resolved expressions is written as.
pub open spec fn written_all(expressions: Seq<ExpressionModel>) -> Seq<UnresolvedExpressionModel>
    decreases expressions, 1int,
{
    Seq::new(
        expressions.len(),
        |i: int|
            if 0 <= i < expressions.len() {
                expressions[i].written()
            } else {
                arbitrary()
            },
    )
}

/// The members that a list of resolved members is written as.
pub open spec fn written_members(members: Seq<MemberModel>) -> Seq<UnresolvedMemberModel>
    decreases members, 1int,
{
    Seq::new(
        members.len(),
        |i: int|
            if 0 <= i < members.len() {
                UnresolvedMemberModel {
                    identifier: members[i].identifier,
                    expression: members[i].expression.written(),
                }
            } else {
                arbitrary()
            },
    )
}

impl ExpressionModel {
    /// The expression that this resolved expression is written as: the same nodes with the
    /// same names, values and spans, without the types. Every integer is written with its
    /// type, and every range with both of its ends.
    pub open spec fn written(self) -> UnresolvedExpressionModel
        decreases self, 0int,
    {
        match self.value {
            ExpressionValueModel::Identifier(identifier) => UnresolvedExpressionModel::Identifier(
                identifier,
            ),
            ExpressionValueModel::Address(value, span) => UnresolvedExpressionModel::Address(
                value,
                span,
            ),
            ExpressionValueModel::Boolean(value, span) => UnresolvedExpressionModel::Boolean(
                value,
                span,
            ),
            ExpressionValueModel::Field(value, span) => UnresolvedExpressionModel::Field(
                value,
                span,
            ),
            ExpressionValueModel::Group(value, span) => UnresolvedExpressionModel::Group(
                value,
                span,
            ),
            ExpressionValueModel::Integer(integer, value, span) => {
                UnresolvedExpressionModel::Integer(integer, value, span)
            },
            ExpressionValueModel::Binary(operation, left, right, span) => {
                UnresolvedExpressionModel::Binary(
                    operation,
                    Box::new(left.written()),
                    Box::new(right.written()),
                    span,
                )
            },
            ExpressionValueModel::Unary(operation, inner, span) => UnresolvedExpressionModel::Unary(
                operation,
                Box::new(inner.written()),
                span,
            ),
            ExpressionValueModel::IfElse(condition, first, second, span) => {
                UnresolvedExpressionModel::IfElse(
                    Box::new(condition.written()),
                    Box::new(first.written()),
                    Box::new(second.written()),
                    span,
                )
            },
            ExpressionValueModel::Array(elements, span) => UnresolvedExpressionModel::ArrayInline(
                written_all(elements),
                span,
            ),
            ExpressionValueModel::ArrayInitializer(element, dimensions, span) => {
                UnresolvedExpressionModel::ArrayInitializer(
                    Box::new(element.written()),
                    dimensions,
                    span,
                )
            },
            ExpressionValueModel::ArrayAccess(array, index, span) => {
                UnresolvedExpressionModel::ArrayAccess(
                    Box::new(array.written()),
                    Box::new(RangeOrExpressionModel::Expression(index.written())),
                    span,
                )
            },
            ExpressionValueModel::ArrayRangeAccess(array, from, to, span) => {
                UnresolvedExpressionModel::ArrayAccess(
                    Box::new(array.written()),
                    Box::new(
                        RangeOrExpressionModel::Range(Some(from.written()), Some(to.written())),
                    ),
                    span,
                )
            },
            ExpressionValueModel::Tuple(elements, span) => UnresolvedExpressionModel::Tuple(
                written_all(elements),
                span,
            ),
            ExpressionValueModel::TupleAccess(tuple, index, span) => {
                UnresolvedExpressionModel::TupleAccess(Box::new(tuple.written()), index, span)
            },
            ExpressionValueModel::Circuit(name, members, span) => UnresolvedExpressionModel::Circuit(
                name,
                written_members(members),
                span,
            ),
            ExpressionValueModel::CircuitMemberAccess(circuit, member, span) => {
                UnresolvedExpressionModel::CircuitMemberAccess(
                    Box::new(circuit.written()),
                    member,
                    span,
                )
            },
            ExpressionValueModel::CircuitStaticFunctionAccess(circuit, member, span) => {
                UnresolvedExpressionModel::CircuitStaticFunctionAccess(
                    Box::new(circuit.written()),
                    member,
                    span,
                )
            },
            ExpressionValueModel::FunctionCall(function, arguments, span) => {
                UnresolvedExpressionModel::FunctionCall(
                    Box::new(function.written()),
                    written_all(arguments),
                    span,
                )
            },
            ExpressionValueModel::CoreFunctionCall(name, arguments, span) => {
                UnresolvedExpressionModel::CoreFunctionCall(name, written_all(arguments), span)
            },
        }
    }
}

/// Whether the expression itself tells its type, without any help from the place where it
/// stands: nowhere in it a core function is called, an array or a tuple is without
/// elements, or an array expression has a type of several dimensions; and no array
/// expression has more elements than a machine can count.
pub open spec fn inferable(expression: ExpressionModel) -> bool
    decreases expression, 0int,
{
    match expression.value {
        ExpressionValueModel::Binary(_, left, right, _) => inferable(*left) && inferable(*right),
        ExpressionValueModel::Unary(_, inner, _) => inferable(*inner),
        ExpressionValueModel::IfElse(condition, first, second, _) => inferable(*condition)
            && inferable(*first) && inferable(*second),
        ExpressionValueModel::Array(elements, _) => 0 < elements.len() <= usize::MAX
            && expression.type_ is Array && expression.type_->Array_1.len() == 1 && all_inferable(
            elements,
        ),
        ExpressionValueModel::ArrayInitializer(element, _, _) => inferable(*element),
        ExpressionValueModel::ArrayAccess(array, index, _) => inferable(*array) && inferable(
            *index,
        ),
        ExpressionValueModel::ArrayRangeAccess(array, from, to, _) => inferable(*array)
            && inferable(*from) && inferable(*to),
        ExpressionValueModel::Tuple(elements, _) => 0 < elements.len() && all_inferable(elements),
        ExpressionValueModel::TupleAccess(tuple, _, _) => inferable(*tuple),
        ExpressionValueModel::Circuit(_, members, _) => members_inferable(members),
        ExpressionValueModel::CircuitMemberAccess(circuit, _, _) => inferable(*circuit),
        ExpressionValueModel::CircuitStaticFunctionAccess(circuit, _, _) => inferable(*circuit),
        ExpressionValueModel::FunctionCall(function, arguments, _) => inferable(*function)
            && all_inferable(arguments),
        ExpressionValueModel::CoreFunctionCall(_, _, _) => false,
        _ => true,
    }
}

/// Every expression of the list is inferable.
pub open spec fn all_inferable(expressions: Seq<ExpressionModel>) -> bool
    decreases expressions, 1int,
{
    forall|i: int| 0 <= i < expressions.len() ==> inferable(#[trigger] expressions[i])
}

/// The value of every member of the list is inferable.
pub open spec fn members_inferable(members: Seq<MemberModel>) -> bool
    decreases members, 1int,
{
    forall|i: int| 0 <= i < members.len() ==> inferable((#[trigger] members[i]).expression)
}

/// Whether `expression` is well typed in the scope `table`: every node of it carries the
/// type that its value and the types of its parts give, and the expression itself tells its
/// type.
pub open spec fn well_typed(table: TableModel, expression: ExpressionModel) -> bool {
    consistent(table, expression) && inferable(expression)
}

} // verus!
