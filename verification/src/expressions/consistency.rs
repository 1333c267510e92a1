use crate::common::{BinaryOperation, UnaryOperation};
use crate::expressions::expression::{
    ExpressionModel, ExpressionValueModel, MemberModel, types_of,
};
use crate::expressions::rules::{
    callee_signature, index_type, instance_member_type, static_member_type,
};
use crate::symbol_table::TableModel;
use crate::types::{CircuitTypeModel, FunctionTypeModel, TypeModel};
use vstd::prelude::*;

verus! {

/// Whether the type of the result of `operation` and the types of its operands agree: the
/// two operands have one type; arithmetic takes integers and gives their type; `||` and
/// `&&` take booleans; an ordering takes integers; and all but arithmetic give a boolean.
pub open spec fn operation_agrees(
    operation: BinaryOperation,
    result: TypeModel,
    left: TypeModel,
    right: TypeModel,
) -> bool {
    &&& left == right
    &&& operation.is_arithmetic() ==> left.is_integer() && result == left
    &&& !operation.is_arithmetic() ==> result == TypeModel::Boolean
    &&& operation.is_logical() ==> left == TypeModel::Boolean
    &&& operation.is_ordering() ==> left.is_integer()
}

/// Whether every argument of a call has the type of the input at its position, where the
/// input has a type.
pub open spec fn arguments_agree(function: FunctionTypeModel, arguments: Seq<ExpressionModel>) -> bool {
    &&& arguments.len() == function.inputs.len()
    &&& forall|i: int|
        0 <= i < arguments.len() ==> match (#[trigger] function.inputs[i]).expected_type() {
            Some(type_) => arguments[i].type_ == type_,
            None => true,
        }
}

/// Whether every member of a circuit expression names a member variable of `circuit` and
/// has its type, no two members carry one name, and there are as many members as member
/// variables.
pub open spec fn members_agree(circuit: CircuitTypeModel, members: Seq<MemberModel>) -> bool {
    &&& members.len() == circuit.variables.len()
    &&& forall|i: int, j: int|
        0 <= i < j < members.len() ==> (#[trigger] members[i]).identifier.name != (
        #[trigger] members[j]).identifier.name
    &&& forall|i: int|
        0 <= i < members.len() ==> match circuit.variable(
            (#[trigger] members[i]).identifier.name,
        ) {
            Some(variable) => members[i].expression.type_ == variable.type_,
            None => false,
        }
}

/// Whether the type of the node itself agrees with its value and with the types of its
/// parts, as far as the value says what the type is. (A call of a core function says nothing
/// of its type.)
pub open spec fn node_agrees(table: TableModel, expression: ExpressionModel) -> bool {
    let type_ = expression.type_;
    match expression.value {
        ExpressionValueModel::Identifier(identifier) => match table.get_variable(identifier.name) {
            Some(entry) => type_ == entry.type_,
            None => false,
        },
        ExpressionValueModel::Address(_, _) => type_ == TypeModel::Address,
        ExpressionValueModel::Boolean(_, _) => type_ == TypeModel::Boolean,
        ExpressionValueModel::Field(_, _) => type_ == TypeModel::Field,
        ExpressionValueModel::Group(_, _) => type_ == TypeModel::Group,
        ExpressionValueModel::Integer(integer, _, _) => type_ == TypeModel::IntegerType(integer),
        ExpressionValueModel::Binary(operation, left, right, _) => operation_agrees(
            operation,
            type_,
            left.type_,
            right.type_,
        ),
        ExpressionValueModel::Unary(UnaryOperation::Not, inner, _) => inner.type_
            == TypeModel::Boolean && type_ == TypeModel::Boolean,
        ExpressionValueModel::Unary(UnaryOperation::Negate, inner, _) => inner.type_.is_integer()
            && type_ == inner.type_,
        ExpressionValueModel::IfElse(condition, first, second, _) => condition.type_
            == TypeModel::Boolean && first.type_ == type_ && second.type_ == type_,
        ExpressionValueModel::Array(elements, _) => {
            &&& type_.is_array()
            &&& type_.array_len() == elements.len() as usize
            &&& forall|i: int|
                0 <= i < elements.len() ==> (#[trigger] elements[i]).type_ == type_.element_type()
        },
        ExpressionValueModel::ArrayInitializer(element, dimensions, _) => type_
            == TypeModel::Array(Box::new(element.type_), dimensions),
        ExpressionValueModel::ArrayAccess(array, index, _) => array.type_.is_array() && index.type_
            == index_type() && type_ == array.type_.element_type(),
        ExpressionValueModel::ArrayRangeAccess(array, from, to, _) => array.type_.is_array()
            && from.type_ == index_type() && to.type_ == index_type() && type_ == array.type_,
        ExpressionValueModel::Tuple(elements, _) => type_ == TypeModel::Tuple(types_of(elements)),
        ExpressionValueModel::TupleAccess(tuple, index, _) => match tuple.type_ {
            TypeModel::Tuple(types) => index < types.len() && type_ == types[index as int],
            _ => false,
        },
        ExpressionValueModel::Circuit(name, members, _) => type_ == TypeModel::Circuit(name.name)
            && match table.get_circuit(name.name) {
            Some(circuit) => members_agree(circuit, members),
            None => false,
        },
        ExpressionValueModel::CircuitMemberAccess(circuit, member, _) => match circuit.type_ {
            TypeModel::Circuit(name) => match table.get_circuit(name) {
                Some(definition) => instance_member_type(definition, member) == Ok::<
                    TypeModel,
                    crate::errors::TypeErrorModel,
                >(type_),
                None => false,
            },
            _ => false,
        },
        ExpressionValueModel::CircuitStaticFunctionAccess(circuit, member, _) => match circuit.type_ {
            TypeModel::Circuit(name) => match table.get_circuit(name) {
                Some(definition) => static_member_type(definition, member) == Ok::<
                    TypeModel,
                    crate::errors::TypeErrorModel,
                >(type_),
                None => false,
            },
            _ => false,
        },
        ExpressionValueModel::FunctionCall(function, arguments, span) => match callee_signature(
            table,
            *function,
            span,
        ) {
            Ok(signature) => type_ == signature.output && arguments_agree(signature, arguments),
            Err(_) => false,
        },
        ExpressionValueModel::CoreFunctionCall(_, _, _) => true,
    }
}

/// Whether every node of `expression` carries a type that agrees with its value and with the
/// types of its parts.
pub open spec fn consistent(table: TableModel, expression: ExpressionModel) -> bool
    decreases expression, 0int,
{
    &&& node_agrees(table, expression)
    &&& match expression.value {
        ExpressionValueModel::Binary(_, left, right, _) => consistent(table, *left) && consistent(
            table,
            *right,
        ),
        ExpressionValueModel::Unary(_, inner, _) => consistent(table, *inner),
        ExpressionValueModel::IfElse(condition, first, second, _) => consistent(table, *condition)
            && consistent(table, *first) && consistent(table, *second),
        ExpressionValueModel::Array(elements, _) => all_consistent(table, elements),
        ExpressionValueModel::ArrayInitializer(element, _, _) => consistent(table, *element),
        ExpressionValueModel::ArrayAccess(array, index, _) => consistent(table, *array)
            && consistent(table, *index),
        ExpressionValueModel::ArrayRangeAccess(array, from, to, _) => consistent(table, *array)
            && consistent(table, *from) && consistent(table, *to),
        ExpressionValueModel::Tuple(elements, _) => all_consistent(table, elements),
        ExpressionValueModel::TupleAccess(tuple, _, _) => consistent(table, *tuple),
        ExpressionValueModel::Circuit(_, members, _) => members_consistent(table, members),
        ExpressionValueModel::CircuitMemberAccess(circuit, _, _) => consistent(table, *circuit),
        ExpressionValueModel::CircuitStaticFunctionAccess(circuit, _, _) => consistent(
            table,
            *circuit,
        ),
        ExpressionValueModel::FunctionCall(function, arguments, _) => consistent(table, *function)
            && all_consistent(table, arguments),
        ExpressionValueModel::CoreFunctionCall(_, arguments, _) => all_consistent(
            table,
            arguments,
        ),
        _ => true,
    }
}

/// Every expression of the list is consistent.
pub open spec fn all_consistent(table: TableModel, expressions: Seq<ExpressionModel>) -> bool
    decreases expressions, 1int,
{
    forall|i: int| 0 <= i < expressions.len() ==> consistent(table, #[trigger] expressions[i])
}

/// The value of every member of the list is consistent.
pub open spec fn members_consistent(table: TableModel, members: Seq<MemberModel>) -> bool
    decreases members, 1int,
{
    forall|i: int| 0 <= i < members.len() ==> consistent(table, (#[trigger] members[i]).expression)
}

} // verus!
