use crate::ast::{RangeOrExpressionModel, UnresolvedExpressionModel, UnresolvedMemberModel};
use crate::common::{BinaryOperation, IdentifierModel, IntegerType, Span, UnaryOperation};
use crate::decimal::decimal;
use crate::errors::TypeErrorModel;
use crate::expressions::expression::{
    ExpressionModel, ExpressionValueModel, MemberModel, types_of,
};
use crate::symbol_table::TableModel;
use crate::types::{CircuitTypeModel, FunctionTypeModel, TypeModel, check_type};
use vstd::prelude::*;

verus! {

/// `expression`, where its type may stand in a place that asks for `expected`; else the
/// mismatch.
pub open spec fn checked(expected: Option<TypeModel>, expression: ExpressionModel, span: Span) -> Result<
    ExpressionModel,
    TypeErrorModel,
> {
    match check_type(expected, expression.type_, span) {
        Ok(_) => Ok(expression),
        Err(error) => Err(error),
    }
}

/// The type of an index into an array.
pub open spec fn index_type() -> TypeModel {
    TypeModel::IntegerType(IntegerType::U32)
}

/// The expression that stands for the index `n` where an end of a range is left out.
pub open spec fn index_literal(n: usize, span: Span) -> ExpressionModel {
    ExpressionModel {
        type_: index_type(),
        value: ExpressionValueModel::Integer(IntegerType::U32, decimal(n as nat), span),
    }
}

/// What a number stands for whose type the context gives: an integer, a field element or a
/// group element. Another context is an error, and so is none.
pub open spec fn resolve_implicit(expected: Option<TypeModel>, value: Seq<char>, span: Span) -> Result<
    ExpressionModel,
    TypeErrorModel,
> {
    match expected {
        Some(TypeModel::IntegerType(integer)) => Ok(
            ExpressionModel {
                type_: TypeModel::IntegerType(integer),
                value: ExpressionValueModel::Integer(integer, value, span),
            },
        ),
        Some(TypeModel::Field) => Ok(
            ExpressionModel {
                type_: TypeModel::Field,
                value: ExpressionValueModel::Field(value, span),
            },
        ),
        Some(TypeModel::Group) => Ok(
            ExpressionModel {
                type_: TypeModel::Group,
                value: ExpressionValueModel::Group(value, span),
            },
        ),
        Some(other) => Err(TypeErrorModel::ExpectedIntegerType { found: other, span }),
        None => Err(TypeErrorModel::CannotInferType(span)),
    }
}

/// What is asked of the left operand of `operation` where `expected` is asked of the whole:
/// a boolean for `||` and `&&`, the same as of the whole for arithmetic, nothing for a
/// comparison.
pub open spec fn left_expected(operation: BinaryOperation, expected: Option<TypeModel>) -> Option<
    TypeModel,
> {
    if operation.is_logical() {
        Some(TypeModel::Boolean)
    } else if operation.is_arithmetic() {
        expected
    } else {
        None
    }
}

/// Whether the result of `operation` may stand where `expected` is asked for, as far as the
/// operation alone says: arithmetic gives the type of its operands, so nothing is known yet;
/// everything else gives a boolean.
pub open spec fn check_operation(
    operation: BinaryOperation,
    expected: Option<TypeModel>,
    span: Span,
) -> Result<(), TypeErrorModel> {
    if operation.is_arithmetic() {
        Ok(())
    } else {
        check_type(expected, TypeModel::Boolean, span)
    }
}

/// The type of the result of `operation` on operands of type `operand`.
pub open spec fn operation_type(operation: BinaryOperation, operand: TypeModel) -> TypeModel {
    if operation.is_arithmetic() {
        operand
    } else {
        TypeModel::Boolean
    }
}

/// What is asked of each element of an array expression, by position: the element type of
/// the array type asked for; where none is asked for, nothing of the first element and the
/// type of the first element of all others.
pub open spec fn element_expected(expected: Option<TypeModel>, first: TypeModel) -> spec_fn(int) -> Option<
    TypeModel,
> {
    |i: int|
        match expected {
            Some(array) => Some(array.element_type()),
            None => if i == 0 {
                None
            } else {
                Some(first)
            },
        }
}

/// What is asked of each part of a tuple expression, by position: the part of the tuple type
/// asked for, and nothing where none is asked for.
pub open spec fn part_expected(expected: Option<TypeModel>) -> spec_fn(int) -> Option<TypeModel> {
    |i: int|
        match expected {
            Some(TypeModel::Tuple(types)) => if 0 <= i < types.len() {
                Some(types[i])
            } else {
                None
            },
            _ => None,
        }
}

/// What is asked of each argument of a call, by position: the type of the input, and nothing
/// for the `input` keyword.
pub open spec fn argument_expected(function: FunctionTypeModel) -> spec_fn(int) -> Option<
    TypeModel,
> {
    |i: int|
        if 0 <= i < function.inputs.len() {
            function.inputs[i].expected_type()
        } else {
            None
        }
}

/// The type of the member `member` when it is reached through a value of `circuit`: the type
/// of the member variable; else what the member function returns, which must not be static.
pub open spec fn instance_member_type(circuit: CircuitTypeModel, member: IdentifierModel) -> Result<
    TypeModel,
    TypeErrorModel,
> {
    match circuit.variable(member.name) {
        Some(variable) => Ok(variable.type_),
        None => match circuit.function(member.name) {
            Some(function) => if function.is_static() {
                Err(TypeErrorModel::StaticMemberOnInstance(member))
            } else {
                Ok(function.function.output)
            },
            None => Err(TypeErrorModel::UndefinedCircuitMember(member)),
        },
    }
}

/// The type of the member `member` when it is reached through the name of `circuit`: what the
/// member function returns, which must be static.
pub open spec fn static_member_type(circuit: CircuitTypeModel, member: IdentifierModel) -> Result<
    TypeModel,
    TypeErrorModel,
> {
    match circuit.function(member.name) {
        Some(function) => if function.is_static() {
            Ok(function.function.output)
        } else {
            Err(TypeErrorModel::InstanceMemberOnStatic(member))
        },
        None => Err(TypeErrorModel::UndefinedCircuitMember(member)),
    }
}

/// The signature of the function that the resolved expression `function` denotes: for a
/// member of a circuit the member function of that name, unless a member variable hides it;
/// for anything else of function type the function of that name in `table`.
pub open spec fn callee_signature(table: TableModel, function: ExpressionModel, span: Span) -> Result<
    FunctionTypeModel,
    TypeErrorModel,
> {
    match function.value {
        ExpressionValueModel::CircuitMemberAccess(circuit, member, _) => match circuit.type_ {
            TypeModel::Circuit(name) => match table.get_circuit(name) {
                Some(definition) => match definition.function(member.name) {
                    Some(found) => if definition.variable(member.name) is None {
                        Ok(found.function)
                    } else {
                        Err(TypeErrorModel::ExpectedFunctionType { found: function.type_, span })
                    },
                    None => Err(
                        TypeErrorModel::ExpectedFunctionType { found: function.type_, span },
                    ),
                },
                None => Err(TypeErrorModel::ExpectedFunctionType { found: function.type_, span }),
            },
            _ => Err(TypeErrorModel::ExpectedFunctionType { found: function.type_, span }),
        },
        ExpressionValueModel::CircuitStaticFunctionAccess(circuit, member, _) => match circuit.type_ {
            TypeModel::Circuit(name) => match table.get_circuit(name) {
                Some(definition) => match definition.function(member.name) {
                    Some(found) => Ok(found.function),
                    None => Err(
                        TypeErrorModel::ExpectedFunctionType { found: function.type_, span },
                    ),
                },
                None => Err(TypeErrorModel::ExpectedFunctionType { found: function.type_, span }),
            },
            _ => Err(TypeErrorModel::ExpectedFunctionType { found: function.type_, span }),
        },
        _ => match function.type_ {
            TypeModel::Function(name) => match table.get_function(name) {
                Some(signature) => Ok(signature),
                None => Err(TypeErrorModel::UndefinedFunction(IdentifierModel { name, span })),
            },
            other => Err(TypeErrorModel::ExpectedFunctionType { found: other, span }),
        },
    }
}

/// The resolved expression that `expression` stands for in the scope `table`, where a value
/// of type `expected` is asked for, or of any type where `expected` is `None`; or the first
/// error, the parts of the expression taken in the order in which they are written.
///
/// No type is ever converted into another: a value whose type is not the one asked for is a
/// mismatch.
pub open spec fn resolve_expression(
    table: TableModel,
    expected: Option<TypeModel>,
    expression: UnresolvedExpressionModel,
) -> Result<ExpressionModel, TypeErrorModel>
    decreases expression, 0int,
{
    match expression {
        UnresolvedExpressionModel::Identifier(identifier) => match table.get_variable(
            identifier.name,
        ) {
            Some(entry) => checked(
                expected,
                ExpressionModel {
                    type_: entry.type_,
                    value: ExpressionValueModel::Identifier(identifier),
                },
                identifier.span,
            ),
            None => Err(TypeErrorModel::UndefinedVariable(identifier)),
        },
        UnresolvedExpressionModel::Address(value, span) => checked(
            expected,
            ExpressionModel {
                type_: TypeModel::Address,
                value: ExpressionValueModel::Address(value, span),
            },
            span,
        ),
        UnresolvedExpressionModel::Boolean(value, span) => checked(
            expected,
            ExpressionModel {
                type_: TypeModel::Boolean,
                value: ExpressionValueModel::Boolean(value, span),
            },
            span,
        ),
        UnresolvedExpressionModel::Field(value, span) => checked(
            expected,
            ExpressionModel {
                type_: TypeModel::Field,
                value: ExpressionValueModel::Field(value, span),
            },
            span,
        ),
        UnresolvedExpressionModel::Group(value, span) => checked(
            expected,
            ExpressionModel {
                type_: TypeModel::Group,
                value: ExpressionValueModel::Group(value, span),
            },
            span,
        ),
        UnresolvedExpressionModel::Implicit(value, span) => resolve_implicit(expected, value, span),
        UnresolvedExpressionModel::Integer(integer, value, span) => checked(
            expected,
            ExpressionModel {
                type_: TypeModel::IntegerType(integer),
                value: ExpressionValueModel::Integer(integer, value, span),
            },
            span,
        ),
        UnresolvedExpressionModel::Binary(operation, left, right, span) => match check_operation(
            operation,
            expected,
            span,
        ) {
            Err(error) => Err(error),
            Ok(_) => match resolve_expression(table, left_expected(operation, expected), *left) {
                Err(error) => Err(error),
                Ok(left) => if (operation.is_arithmetic() || operation.is_ordering())
                    && !left.type_.is_integer() {
                    Err(TypeErrorModel::ExpectedIntegerType { found: left.type_, span })
                } else {
                    match resolve_expression(table, Some(left.type_), *right) {
                        Err(error) => Err(error),
                        Ok(right) => Ok(
                            ExpressionModel {
                                type_: operation_type(operation, left.type_),
                                value: ExpressionValueModel::Binary(
                                    operation,
                                    Box::new(left),
                                    Box::new(right),
                                    span,
                                ),
                            },
                        ),
                    }
                },
            },
        },
        UnresolvedExpressionModel::Unary(UnaryOperation::Not, inner, span) => match check_type(
            expected,
            TypeModel::Boolean,
            span,
        ) {
            Err(error) => Err(error),
            Ok(_) => match resolve_expression(table, Some(TypeModel::Boolean), *inner) {
                Err(error) => Err(error),
                Ok(inner) => Ok(
                    ExpressionModel {
                        type_: TypeModel::Boolean,
                        value: ExpressionValueModel::Unary(
                            UnaryOperation::Not,
                            Box::new(inner),
                            span,
                        ),
                    },
                ),
            },
        },
        UnresolvedExpressionModel::Unary(UnaryOperation::Negate, inner, span) => match resolve_expression(
            table,
            expected,
            *inner,
        ) {
            Err(error) => Err(error),
            Ok(inner) => if !inner.type_.is_integer() {
                Err(TypeErrorModel::ExpectedIntegerType { found: inner.type_, span })
            } else {
                Ok(
                    ExpressionModel {
                        type_: inner.type_,
                        value: ExpressionValueModel::Unary(
                            UnaryOperation::Negate,
                            Box::new(inner),
                            span,
                        ),
                    },
                )
            },
        },
        UnresolvedExpressionModel::IfElse(condition, first, second, span) => match resolve_expression(
            table,
            Some(TypeModel::Boolean),
            *condition,
        ) {
            Err(error) => Err(error),
            Ok(condition) => match resolve_expression(table, expected, *first) {
                Err(error) => Err(error),
                Ok(first) => match resolve_expression(table, expected, *second) {
                    Err(error) => Err(error),
                    Ok(second) => if first.type_ != second.type_ {
                        Err(
                            TypeErrorModel::MismatchedTypes {
                                expected: first.type_,
                                found: second.type_,
                                span,
                            },
                        )
                    } else {
                        Ok(
                            ExpressionModel {
                                type_: first.type_,
                                value: ExpressionValueModel::IfElse(
                                    Box::new(condition),
                                    Box::new(first),
                                    Box::new(second),
                                    span,
                                ),
                            },
                        )
                    },
                },
            },
        },
        UnresolvedExpressionModel::ArrayInline(elements, span) => match expected {
            Some(array) => if !array.is_array() {
                Err(TypeErrorModel::ExpectedArrayType { found: array, span })
            } else if elements.len() != array.array_len() {
                Err(
                    TypeErrorModel::MismatchedTypes {
                        expected: array,
                        found: TypeModel::Array(
                            array->Array_0,
                            array->Array_1.update(0, elements.len() as usize),
                        ),
                        span,
                    },
                )
            } else {
                match resolve_expressions(table, element_expected(expected, array), elements) {
                    Err(error) => Err(error),
                    Ok(elements) => Ok(
                        ExpressionModel {
                            type_: array,
                            value: ExpressionValueModel::Array(elements, span),
                        },
                    ),
                }
            },
            None => if elements.len() == 0 {
                Err(TypeErrorModel::CannotInferType(span))
            } else {
                match resolve_expression(table, None, elements[0]) {
                    Err(error) => Err(error),
                    Ok(first) => match resolve_expressions(
                        table,
                        element_expected(None, first.type_),
                        elements,
                    ) {
                        Err(error) => Err(error),
                        Ok(resolved) => Ok(
                            ExpressionModel {
                                type_: TypeModel::Array(
                                    Box::new(first.type_),
                                    seq![elements.len() as usize],
                                ),
                                value: ExpressionValueModel::Array(resolved, span),
                            },
                        ),
                    },
                }
            },
        },
        UnresolvedExpressionModel::ArrayInitializer(element, dimensions, span) => match expected {
            Some(array) => if !(array is Array) {
                Err(TypeErrorModel::ExpectedArrayType { found: array, span })
            } else {
                match resolve_expression(table, Some(*array->Array_0), *element) {
                    Err(error) => Err(error),
                    Ok(element) => checked(
                        expected,
                        ExpressionModel {
                            type_: TypeModel::Array(Box::new(element.type_), dimensions),
                            value: ExpressionValueModel::ArrayInitializer(
                                Box::new(element),
                                dimensions,
                                span,
                            ),
                        },
                        span,
                    ),
                }
            },
            None => match resolve_expression(table, None, *element) {
                Err(error) => Err(error),
                Ok(element) => Ok(
                    ExpressionModel {
                        type_: TypeModel::Array(Box::new(element.type_), dimensions),
                        value: ExpressionValueModel::ArrayInitializer(
                            Box::new(element),
                            dimensions,
                            span,
                        ),
                    },
                ),
            },
        },
        UnresolvedExpressionModel::ArrayAccess(array, index, span) => match resolve_expression(
            table,
            None,
            *array,
        ) {
            Err(error) => Err(error),
            Ok(array) => if !array.type_.is_array() {
                Err(TypeErrorModel::ExpectedArrayType { found: array.type_, span })
            } else {
                match *index {
                    RangeOrExpressionModel::Expression(index) => match resolve_expression(
                        table,
                        Some(index_type()),
                        index,
                    ) {
                        Err(error) => Err(error),
                        Ok(index) => checked(
                            expected,
                            ExpressionModel {
                                type_: array.type_.element_type(),
                                value: ExpressionValueModel::ArrayAccess(
                                    Box::new(array),
                                    Box::new(index),
                                    span,
                                ),
                            },
                            span,
                        ),
                    },
                    RangeOrExpressionModel::Range(from, to) => match resolve_bound(
                        table,
                        from,
                        0,
                        span,
                    ) {
                        Err(error) => Err(error),
                        Ok(from) => match resolve_bound(table, to, array.type_.array_len(), span) {
                            Err(error) => Err(error),
                            Ok(to) => checked(
                                expected,
                                ExpressionModel {
                                    type_: array.type_,
                                    value: ExpressionValueModel::ArrayRangeAccess(
                                        Box::new(array),
                                        Box::new(from),
                                        Box::new(to),
                                        span,
                                    ),
                                },
                                span,
                            ),
                        },
                    },
                }
            },
        },
        UnresolvedExpressionModel::Tuple(elements, span) => match expected {
            Some(tuple) => if !(tuple is Tuple) {
                Err(TypeErrorModel::ExpectedTupleType { found: tuple, span })
            } else if elements.len() != tuple->Tuple_0.len() {
                Err(
                    TypeErrorModel::InvalidTupleLength {
                        expected: tuple->Tuple_0.len() as usize,
                        found: elements.len() as usize,
                        span,
                    },
                )
            } else {
                match resolve_expressions(table, part_expected(expected), elements) {
                    Err(error) => Err(error),
                    Ok(elements) => Ok(
                        ExpressionModel {
                            type_: TypeModel::Tuple(types_of(elements)),
                            value: ExpressionValueModel::Tuple(elements, span),
                        },
                    ),
                }
            },
            None => if elements.len() == 0 {
                Err(TypeErrorModel::CannotInferType(span))
            } else {
                match resolve_expressions(table, part_expected(None), elements) {
                    Err(error) => Err(error),
                    Ok(elements) => Ok(
                        ExpressionModel {
                            type_: TypeModel::Tuple(types_of(elements)),
                            value: ExpressionValueModel::Tuple(elements, span),
                        },
                    ),
                }
            },
        },
        UnresolvedExpressionModel::TupleAccess(tuple, index, span) => match resolve_expression(
            table,
            None,
            *tuple,
        ) {
            Err(error) => Err(error),
            Ok(tuple) => match tuple.type_ {
                TypeModel::Tuple(types) => if index >= types.len() {
                    Err(
                        TypeErrorModel::InvalidTupleIndex {
                            index,
                            length: types.len() as usize,
                            span,
                        },
                    )
                } else {
                    checked(
                        expected,
                        ExpressionModel {
                            type_: types[index as int],
                            value: ExpressionValueModel::TupleAccess(Box::new(tuple), index, span),
                        },
                        span,
                    )
                },
                other => Err(TypeErrorModel::ExpectedTupleType { found: other, span }),
            },
        },
        UnresolvedExpressionModel::Circuit(name, members, span) => match check_type(
            expected,
            TypeModel::Circuit(name.name),
            span,
        ) {
            Err(error) => Err(error),
            Ok(_) => match table.get_circuit(name.name) {
                None => Err(TypeErrorModel::UndefinedCircuit(name)),
                Some(circuit) => if members.len() != circuit.variables.len() {
                    Err(
                        TypeErrorModel::InvalidNumberOfMembers {
                            expected: circuit.variables.len() as usize,
                            found: members.len() as usize,
                            span,
                        },
                    )
                } else {
                    match resolve_members(table, circuit, members, members.len() as int) {
                        Err(error) => Err(error),
                        Ok(members) => Ok(
                            ExpressionModel {
                                type_: TypeModel::Circuit(name.name),
                                value: ExpressionValueModel::Circuit(name, members, span),
                            },
                        ),
                    }
                },
            },
        },
        UnresolvedExpressionModel::CircuitMemberAccess(circuit, member, span) => match resolve_expression(
            table,
            None,
            *circuit,
        ) {
            Err(error) => Err(error),
            Ok(circuit) => match circuit.type_ {
                TypeModel::Circuit(name) => match table.get_circuit(name) {
                    None => Err(TypeErrorModel::UndefinedCircuit(IdentifierModel { name, span })),
                    Some(definition) => match instance_member_type(definition, member) {
                        Err(error) => Err(error),
                        Ok(type_) => checked(
                            expected,
                            ExpressionModel {
                                type_,
                                value: ExpressionValueModel::CircuitMemberAccess(
                                    Box::new(circuit),
                                    member,
                                    span,
                                ),
                            },
                            span,
                        ),
                    },
                },
                other => Err(TypeErrorModel::ExpectedCircuitType { found: other, span }),
            },
        },
        UnresolvedExpressionModel::CircuitStaticFunctionAccess(circuit, member, span) => match resolve_expression(
            table,
            None,
            *circuit,
        ) {
            Err(error) => Err(error),
            Ok(circuit) => match circuit.type_ {
                TypeModel::Circuit(name) => match table.get_circuit(name) {
                    None => Err(TypeErrorModel::UndefinedCircuit(IdentifierModel { name, span })),
                    Some(definition) => match static_member_type(definition, member) {
                        Err(error) => Err(error),
                        Ok(type_) => checked(
                            expected,
                            ExpressionModel {
                                type_,
                                value: ExpressionValueModel::CircuitStaticFunctionAccess(
                                    Box::new(circuit),
                                    member,
                                    span,
                                ),
                            },
                            span,
                        ),
                    },
                },
                other => Err(TypeErrorModel::ExpectedCircuitType { found: other, span }),
            },
        },
        UnresolvedExpressionModel::FunctionCall(function, arguments, span) => match resolve_expression(
            table,
            None,
            *function,
        ) {
            Err(error) => Err(error),
            Ok(function) => match callee_signature(table, function, span) {
                Err(error) => Err(error),
                Ok(signature) => if arguments.len() != signature.inputs.len() {
                    Err(
                        TypeErrorModel::InvalidNumberOfArguments {
                            expected: signature.inputs.len() as usize,
                            found: arguments.len() as usize,
                            span,
                        },
                    )
                } else {
                    match resolve_expressions(table, argument_expected(signature), arguments) {
                        Err(error) => Err(error),
                        Ok(arguments) => checked(
                            expected,
                            ExpressionModel {
                                type_: signature.output,
                                value: ExpressionValueModel::FunctionCall(
                                    Box::new(function),
                                    arguments,
                                    span,
                                ),
                            },
                            span,
                        ),
                    }
                },
            },
        },
        UnresolvedExpressionModel::CoreFunctionCall(name, arguments, span) => match expected {
            None => Err(TypeErrorModel::CannotInferType(span)),
            Some(type_) => match resolve_expressions(table, part_expected(None), arguments) {
                Err(error) => Err(error),
                Ok(arguments) => Ok(
                    ExpressionModel {
                        type_,
                        value: ExpressionValueModel::CoreFunctionCall(name, arguments, span),
                    },
                ),
            },
        },
    }
}

/// The end of a range: the written expression resolved as an index, or the index `default`
/// where nothing is written.
pub open spec fn resolve_bound(
    table: TableModel,
    bound: Option<UnresolvedExpressionModel>,
    default: usize,
    span: Span,
) -> Result<ExpressionModel, TypeErrorModel>
    decreases bound, 0int,
{
    match bound {
        Some(bound) => resolve_expression(table, Some(index_type()), bound),
        None => Ok(index_literal(default, span)),
    }
}

/// The resolved expressions that a list stands for, or the error of the first of them that
/// has one. Of the expression at position `i` the type `expected(i)` is asked.
pub open spec fn resolve_expressions(
    table: TableModel,
    expected: spec_fn(int) -> Option<TypeModel>,
    expressions: Seq<UnresolvedExpressionModel>,
) -> Result<Seq<ExpressionModel>, TypeErrorModel>
    decreases expressions, 1int,
{
    if expressions.len() == 0 {
        Ok(Seq::empty())
    } else {
        match resolve_expressions(table, expected, expressions.drop_last()) {
            Err(error) => Err(error),
            Ok(resolved) => match resolve_expression(
                table,
                expected(expressions.len() - 1),
                expressions.last(),
            ) {
                Err(error) => Err(error),
                Ok(expression) => Ok(resolved.push(expression)),
            },
        }
    }
}

/// Whether one of the first `n` members carries the name `name`.
pub open spec fn named_before(members: Seq<UnresolvedMemberModel>, n: int, name: Seq<char>) -> bool {
    exists|j: int| 0 <= j < n && j < members.len() && (#[trigger] members[j]).identifier.name == name
}

/// The first `n` members of a circuit expression, resolved, or the error of the first of
/// them that has one. Each member has to name a member variable of `circuit` that no earlier
/// member names, and its value is asked to have the type of that variable.
pub open spec fn resolve_members(
    table: TableModel,
    circuit: CircuitTypeModel,
    members: Seq<UnresolvedMemberModel>,
    n: int,
) -> Result<Seq<MemberModel>, TypeErrorModel>
    decreases members, 1int, n,
{
    if n <= 0 || n > members.len() {
        Ok(Seq::empty())
    } else {
        match resolve_members(table, circuit, members, n - 1) {
            Err(error) => Err(error),
            Ok(resolved) => {
                let member = members[n - 1];
                match circuit.variable(member.identifier.name) {
                    None => Err(TypeErrorModel::UndefinedCircuitMember(member.identifier)),
                    Some(variable) => if named_before(members, n - 1, member.identifier.name) {
                        Err(TypeErrorModel::DuplicateCircuitMember(member.identifier))
                    } else {
                        match resolve_expression(table, Some(variable.type_), member.expression) {
                            Err(error) => Err(error),
                            Ok(expression) => Ok(
                                resolved.push(
                                    MemberModel { identifier: member.identifier, expression },
                                ),
                            ),
                        }
                    },
                }
            },
        }
    }
}

/// A list is resolved to a list of the same length.
pub proof fn lemma_resolved_length(
    table: TableModel,
    expected: spec_fn(int) -> Option<TypeModel>,
    expressions: Seq<UnresolvedExpressionModel>,
)
    ensures
        match resolve_expressions(table, expected, expressions) {
            Ok(resolved) => resolved.len() == expressions.len(),
            Err(_) => true,
        },
    decreases expressions.len(),
{
    if expressions.len() > 0 {
        lemma_resolved_length(table, expected, expressions.drop_last());
    }
}

/// An error among the first `n` expressions is the error of the whole list.
pub proof fn lemma_resolve_expressions_error(
    table: TableModel,
    expected: spec_fn(int) -> Option<TypeModel>,
    expressions: Seq<UnresolvedExpressionModel>,
    n: int,
)
    requires
        0 <= n <= expressions.len(),
        resolve_expressions(table, expected, expressions.take(n)) is Err,
    ensures
        resolve_expressions(table, expected, expressions) == resolve_expressions(
            table,
            expected,
            expressions.take(n),
        ),
    decreases expressions.len() - n,
{
    if n < expressions.len() {
        assert(expressions.take(n + 1).drop_last() =~= expressions.take(n));
        lemma_resolve_expressions_error(table, expected, expressions, n + 1);
    } else {
        assert(expressions.take(n) =~= expressions);
    }
}

/// An error among the first `n` members is the error of every longer prefix.
pub proof fn lemma_resolve_members_error(
    table: TableModel,
    circuit: CircuitTypeModel,
    members: Seq<UnresolvedMemberModel>,
    n: int,
    m: int,
)
    requires
        0 <= n <= m <= members.len(),
        resolve_members(table, circuit, members, n) is Err,
    ensures
        resolve_members(table, circuit, members, m) == resolve_members(table, circuit, members, n),
    decreases m - n,
{
    if n < m {
        lemma_resolve_members_error(table, circuit, members, n, m - 1);
    }
}

} // verus!
