use crate::common::{BinaryOperation, Identifier, IdentifierModel, IntegerType, Span, UnaryOperation};
use crate::errors::{TypeError, TypeErrorModel};
use crate::types::{Type, TypeModel};
use vstd::prelude::*;

verus! {

/// The value of a resolved expression: the written expression, with every part of it
/// resolved.
#[derive(Debug, PartialEq, Eq)]
pub enum ExpressionValue {
    // Identifier
    Identifier(Identifier),
    // Values
    Address(String, Span),
    Boolean(String, Span),
    Field(String, Span),
    Group(String, Span),
    Integer(IntegerType, String, Span),
    // Operations
    Binary(BinaryOperation, Box<Expression>, Box<Expression>, Span),
    Unary(UnaryOperation, Box<Expression>, Span),
    // Conditionals
    /// (condition, first value, second value, span)
    IfElse(Box<Expression>, Box<Expression>, Box<Expression>, Span),
    // Arrays
    /// (array elements, span)
    Array(Vec<Expression>, Span),
    /// (array element, dimensions, span)
    ArrayInitializer(Box<Expression>, Vec<usize>, Span),
    /// (array, index, span)
    ArrayAccess(Box<Expression>, Box<Expression>, Span),
    /// (array, first index, index after the last, span)
    ArrayRangeAccess(Box<Expression>, Box<Expression>, Box<Expression>, Span),
    // Tuples
    /// (tuple elements, span)
    Tuple(Vec<Expression>, Span),
    /// (tuple, index, span)
    TupleAccess(Box<Expression>, usize, Span),
    // Circuits
    /// (circuit name, circuit members, span)
    Circuit(Identifier, Vec<CircuitVariableDefinition>, Span),
    /// (circuit value, member name, span)
    CircuitMemberAccess(Box<Expression>, Identifier, Span),
    /// (circuit name, static function name, span)
    CircuitStaticFunctionAccess(Box<Expression>, Identifier, Span),
    // Functions
    /// (function, arguments, span)
    FunctionCall(Box<Expression>, Vec<Expression>, Span),
    /// (core function name, arguments, span)
    CoreFunctionCall(String, Vec<Expression>, Span),
}

/// A resolved expression: a value together with the type that it evaluates to.
#[derive(Debug, PartialEq, Eq)]
pub struct Expression {
    /// The type this expression evaluates to
    pub type_: Type,
    /// The value of this expression
    pub value: ExpressionValue,
}

/// One resolved member of a circuit expression: `identifier: expression`.
#[derive(Debug, PartialEq, Eq)]
pub struct CircuitVariableDefinition {
    pub identifier: Identifier,
    pub expression: Expression,
}

/// What an [`ExpressionValue`] stands for in contracts.
pub ghost enum ExpressionValueModel {
    Identifier(IdentifierModel),
    Address(Seq<char>, Span),
    Boolean(Seq<char>, Span),
    Field(Seq<char>, Span),
    Group(Seq<char>, Span),
    Integer(IntegerType, Seq<char>, Span),
    Binary(BinaryOperation, Box<ExpressionModel>, Box<ExpressionModel>, Span),
    Unary(UnaryOperation, Box<ExpressionModel>, Span),
    IfElse(Box<ExpressionModel>, Box<ExpressionModel>, Box<ExpressionModel>, Span),
    Array(Seq<ExpressionModel>, Span),
    ArrayInitializer(Box<ExpressionModel>, Seq<usize>, Span),
    ArrayAccess(Box<ExpressionModel>, Box<ExpressionModel>, Span),
    ArrayRangeAccess(Box<ExpressionModel>, Box<ExpressionModel>, Box<ExpressionModel>, Span),
    Tuple(Seq<ExpressionModel>, Span),
    TupleAccess(Box<ExpressionModel>, usize, Span),
    Circuit(IdentifierModel, Seq<MemberModel>, Span),
    CircuitMemberAccess(Box<ExpressionModel>, IdentifierModel, Span),
    CircuitStaticFunctionAccess(Box<ExpressionModel>, IdentifierModel, Span),
    FunctionCall(Box<ExpressionModel>, Seq<ExpressionModel>, Span),
    CoreFunctionCall(Seq<char>, Seq<ExpressionModel>, Span),
}

/// What an [`Expression`] stands for in contracts.
pub ghost struct ExpressionModel {
    pub type_: TypeModel,
    pub value: ExpressionValueModel,
}

/// What a [`CircuitVariableDefinition`] stands for in contracts.
pub ghost struct MemberModel {
    pub identifier: IdentifierModel,
    pub expression: ExpressionModel,
}

/// The types of a list of resolved expressions, in order.
pub open spec fn types_of(expressions: Seq<ExpressionModel>) -> Seq<TypeModel> {
    expressions.map_values(|expression: ExpressionModel| expression.type_)
}

/// The model of every expression of a list.
pub open spec fn expressions_model(expressions: &Vec<Expression>) -> Seq<ExpressionModel>
    decreases expressions,
{
    Seq::new(
        expressions.len() as nat,
        |i: int|
            if 0 <= i < expressions.len() {
                expressions[i].model()
            } else {
                arbitrary()
            },
    )
}

/// The model of every member of a list.
pub open spec fn members_model(members: &Vec<CircuitVariableDefinition>) -> Seq<MemberModel>
    decreases members,
{
    Seq::new(
        members.len() as nat,
        |i: int|
            if 0 <= i < members.len() {
                members[i].model()
            } else {
                arbitrary()
            },
    )
}

impl ExpressionValue {
    /// The model of this value.
    pub open spec fn model(&self) -> ExpressionValueModel
        decreases self,
    {
        match self {
            ExpressionValue::Identifier(identifier) => ExpressionValueModel::Identifier(
                identifier@,
            ),
            ExpressionValue::Address(value, span) => ExpressionValueModel::Address(value@, *span),
            ExpressionValue::Boolean(value, span) => ExpressionValueModel::Boolean(value@, *span),
            ExpressionValue::Field(value, span) => ExpressionValueModel::Field(value@, *span),
            ExpressionValue::Group(value, span) => ExpressionValueModel::Group(value@, *span),
            ExpressionValue::Integer(integer, value, span) => ExpressionValueModel::Integer(
                *integer,
                value@,
                *span,
            ),
            ExpressionValue::Binary(operation, left, right, span) => ExpressionValueModel::Binary(
                *operation,
                Box::new((**left).model()),
                Box::new((**right).model()),
                *span,
            ),
            ExpressionValue::Unary(operation, inner, span) => ExpressionValueModel::Unary(
                *operation,
                Box::new((**inner).model()),
                *span,
            ),
            ExpressionValue::IfElse(condition, first, second, span) => ExpressionValueModel::IfElse(
                Box::new((**condition).model()),
                Box::new((**first).model()),
                Box::new((**second).model()),
                *span,
            ),
            ExpressionValue::Array(elements, span) => ExpressionValueModel::Array(
                expressions_model(elements),
                *span,
            ),
            ExpressionValue::ArrayInitializer(element, dimensions, span) => {
                ExpressionValueModel::ArrayInitializer(
                    Box::new((**element).model()),
                    dimensions@,
                    *span,
                )
            },
            ExpressionValue::ArrayAccess(array, index, span) => ExpressionValueModel::ArrayAccess(
                Box::new((**array).model()),
                Box::new((**index).model()),
                *span,
            ),
            ExpressionValue::ArrayRangeAccess(array, from, to, span) => {
                ExpressionValueModel::ArrayRangeAccess(
                    Box::new((**array).model()),
                    Box::new((**from).model()),
                    Box::new((**to).model()),
                    *span,
                )
            },
            ExpressionValue::Tuple(elements, span) => ExpressionValueModel::Tuple(
                expressions_model(elements),
                *span,
            ),
            ExpressionValue::TupleAccess(tuple, index, span) => ExpressionValueModel::TupleAccess(
                Box::new((**tuple).model()),
                *index,
                *span,
            ),
            ExpressionValue::Circuit(name, members, span) => ExpressionValueModel::Circuit(
                name@,
                members_model(members),
                *span,
            ),
            ExpressionValue::CircuitMemberAccess(circuit, member, span) => {
                ExpressionValueModel::CircuitMemberAccess(
                    Box::new((**circuit).model()),
                    member@,
                    *span,
                )
            },
            ExpressionValue::CircuitStaticFunctionAccess(circuit, member, span) => {
                ExpressionValueModel::CircuitStaticFunctionAccess(
                    Box::new((**circuit).model()),
                    member@,
                    *span,
                )
            },
            ExpressionValue::FunctionCall(function, arguments, span) => {
                ExpressionValueModel::FunctionCall(
                    Box::new((**function).model()),
                    expressions_model(arguments),
                    *span,
                )
            },
            ExpressionValue::CoreFunctionCall(name, arguments, span) => {
                ExpressionValueModel::CoreFunctionCall(name@, expressions_model(arguments), *span)
            },
        }
    }
}

impl Expression {
    /// The model of this expression.
    pub open spec fn model(&self) -> ExpressionModel
        decreases self,
    {
        ExpressionModel { type_: self.type_@, value: self.value.model() }
    }
}

impl CircuitVariableDefinition {
    /// The model of this member.
    pub open spec fn model(&self) -> MemberModel
        decreases self,
    {
        MemberModel { identifier: self.identifier@, expression: self.expression.model() }
    }
}

impl View for ExpressionValue {
    type V = ExpressionValueModel;

    open spec fn view(&self) -> ExpressionValueModel {
        self.model()
    }
}

impl View for Expression {
    type V = ExpressionModel;

    open spec fn view(&self) -> ExpressionModel {
        self.model()
    }
}

impl View for CircuitVariableDefinition {
    type V = MemberModel;

    open spec fn view(&self) -> MemberModel {
        self.model()
    }
}

/// The view of a resolved expression or an error.
pub open spec fn expression_result_view(result: Result<Expression, TypeError>) -> Result<
    ExpressionModel,
    TypeErrorModel,
> {
    match result {
        Ok(expression) => Ok(expression@),
        Err(error) => Err(error@),
    }
}

/// The view of a list of resolved expressions or an error.
pub open spec fn expressions_result_view(result: Result<Vec<Expression>, TypeError>) -> Result<
    Seq<ExpressionModel>,
    TypeErrorModel,
> {
    match result {
        Ok(expressions) => Ok(expressions_model(&expressions)),
        Err(error) => Err(error@),
    }
}

impl Expression {
    /// Return the type this expression evaluates to
    pub fn type_(&self) -> (r: &Type)
        ensures
            r@ == self@.type_,
    {
        &self.type_
    }

    /// Return the value of this expression
    pub fn value(&self) -> (r: &ExpressionValue)
        ensures
            r@ == self@.value,
    {
        &self.value
    }
}

} // verus!
