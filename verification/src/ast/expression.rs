use crate::common::{BinaryOperation, Identifier, IdentifierModel, IntegerType, Span, UnaryOperation};
use vstd::prelude::*;

verus! {

/// An expression as it is written in the source, before any type is known.
#[derive(Debug, PartialEq, Eq)]
pub enum Expression {
    // Identifier
    Identifier(Identifier),
    // Values
    Address(String, Span),
    Boolean(String, Span),
    Field(String, Span),
    Group(String, Span),
    /// A number whose type the context has to give.
    Implicit(String, Span),
    Integer(IntegerType, String, Span),
    // Operations
    Binary(BinaryOperation, Box<Expression>, Box<Expression>, Span),
    Unary(UnaryOperation, Box<Expression>, Span),
    // Conditionals
    /// (condition, first value, second value, span)
    IfElse(Box<Expression>, Box<Expression>, Box<Expression>, Span),
    // Arrays
    /// (array elements, span)
    ArrayInline(Vec<Expression>, Span),
    /// (array element, dimensions, span)
    ArrayInitializer(Box<Expression>, Vec<usize>, Span),
    /// (array, index or range, span)
    ArrayAccess(Box<Expression>, Box<RangeOrExpression>, Span),
    // Tuples
    /// (tuple elements, span)
    Tuple(Vec<Expression>, Span),
    /// (tuple, index, span)
    TupleAccess(Box<Expression>, usize, Span),
    // Circuits
    /// (circuit name, circuit members, span)
    Circuit(Identifier, Vec<CircuitVariableDefinition>, Span),
    /// (circuit value, member name, span)
    CircuitMemberAccess(Box<Expression>, Identifier, Span),
    /// (circuit name, static function name, span)
    CircuitStaticFunctionAccess(Box<Expression>, Identifier, Span),
    // Functions
    /// (function, arguments, span)
    FunctionCall(Box<Expression>, Vec<Expression>, Span),
    /// (core function name, arguments, span)
    CoreFunctionCall(String, Vec<Expression>, Span),
}

/// An index into an array, or a range of indices of which either end may be left out.
#[derive(Debug, PartialEq, Eq)]
pub enum RangeOrExpression {
    Range(Option<Expression>, Option<Expression>),
    Expression(Expression),
}

/// One member of a circuit expression: `identifier: expression`.
#[derive(Debug, PartialEq, Eq)]
pub struct CircuitVariableDefinition {
    pub identifier: Identifier,
    pub expression: Expression,
}

/// What a written [`Expression`] stands for in contracts.
pub ghost enum UnresolvedExpressionModel {
    Identifier(IdentifierModel),
    Address(Seq<char>, Span),
    Boolean(Seq<char>, Span),
    Field(Seq<char>, Span),
    Group(Seq<char>, Span),
    Implicit(Seq<char>, Span),
    Integer(IntegerType, Seq<char>, Span),
    Binary(BinaryOperation, Box<UnresolvedExpressionModel>, Box<UnresolvedExpressionModel>, Span),
    Unary(UnaryOperation, Box<UnresolvedExpressionModel>, Span),
    IfElse(
        Box<UnresolvedExpressionModel>,
        Box<UnresolvedExpressionModel>,
        Box<UnresolvedExpressionModel>,
        Span,
    ),
    ArrayInline(Seq<UnresolvedExpressionModel>, Span),
    ArrayInitializer(Box<UnresolvedExpressionModel>, Seq<usize>, Span),
    ArrayAccess(Box<UnresolvedExpressionModel>, Box<RangeOrExpressionModel>, Span),
    Tuple(Seq<UnresolvedExpressionModel>, Span),
    TupleAccess(Box<UnresolvedExpressionModel>, usize, Span),
    Circuit(IdentifierModel, Seq<UnresolvedMemberModel>, Span),
    CircuitMemberAccess(Box<UnresolvedExpressionModel>, IdentifierModel, Span),
    CircuitStaticFunctionAccess(Box<UnresolvedExpressionModel>, IdentifierModel, Span),
    FunctionCall(Box<UnresolvedExpressionModel>, Seq<UnresolvedExpressionModel>, Span),
    CoreFunctionCall(Seq<char>, Seq<UnresolvedExpressionModel>, Span),
}

/// What a written [`RangeOrExpression`] stands for in contracts.
pub ghost enum RangeOrExpressionModel {
    Range(Option<UnresolvedExpressionModel>, Option<UnresolvedExpressionModel>),
    Expression(UnresolvedExpressionModel),
}

/// What a written [`CircuitVariableDefinition`] stands for in contracts.
pub ghost struct UnresolvedMemberModel {
    pub identifier: IdentifierModel,
    pub expression: UnresolvedExpressionModel,
}

/// The model of every expression of a list.
pub open spec fn expressions_model(expressions: &Vec<Expression>) -> Seq<UnresolvedExpressionModel>
    decreases expressions,
{
    Seq::new(
        expressions.len() as nat,
        |i: int|
            if 0 <= i < expressions.len() {
                expressions[i].model()
            } else {
                arbitrary()
            },
    )
}

/// The model of every member of a list.
pub open spec fn members_model(members: &Vec<CircuitVariableDefinition>) -> Seq<
    UnresolvedMemberModel,
>
    decreases members,
{
    Seq::new(
        members.len() as nat,
        |i: int|
            if 0 <= i < members.len() {
                members[i].model()
            } else {
                arbitrary()
            },
    )
}

/// The model of an optional expression.
pub open spec fn optional_expression_model(expression: &Option<Expression>) -> Option<
    UnresolvedExpressionModel,
>
    decreases expression,
{
    match expression {
        Some(expression) => Some(expression.model()),
        None => None,
    }
}

impl Expression {
    /// The model of this expression.
    pub open spec fn model(&self) -> UnresolvedExpressionModel
        decreases self,
    {
        match self {
            Expression::Identifier(identifier) => UnresolvedExpressionModel::Identifier(
                identifier@,
            ),
            Expression::Address(value, span) => UnresolvedExpressionModel::Address(value@, *span),
            Expression::Boolean(value, span) => UnresolvedExpressionModel::Boolean(value@, *span),
            Expression::Field(value, span) => UnresolvedExpressionModel::Field(value@, *span),
            Expression::Group(value, span) => UnresolvedExpressionModel::Group(value@, *span),
            Expression::Implicit(value, span) => UnresolvedExpressionModel::Implicit(
                value@,
                *span,
            ),
            Expression::Integer(integer, value, span) => UnresolvedExpressionModel::Integer(
                *integer,
                value@,
                *span,
            ),
            Expression::Binary(operation, left, right, span) => UnresolvedExpressionModel::Binary(
                *operation,
                Box::new((**left).model()),
                Box::new((**right).model()),
                *span,
            ),
            Expression::Unary(operation, inner, span) => UnresolvedExpressionModel::Unary(
                *operation,
                Box::new((**inner).model()),
                *span,
            ),
            Expression::IfElse(condition, first, second, span) => UnresolvedExpressionModel::IfElse(
                Box::new((**condition).model()),
                Box::new((**first).model()),
                Box::new((**second).model()),
                *span,
            ),
            Expression::ArrayInline(elements, span) => UnresolvedExpressionModel::ArrayInline(
                expressions_model(elements),
                *span,
            ),
            Expression::ArrayInitializer(element, dimensions, span) => {
                UnresolvedExpressionModel::ArrayInitializer(
                    Box::new((**element).model()),
                    dimensions@,
                    *span,
                )
            },
            Expression::ArrayAccess(array, index, span) => UnresolvedExpressionModel::ArrayAccess(
                Box::new((**array).model()),
                Box::new((**index).model()),
                *span,
            ),
            Expression::Tuple(elements, span) => UnresolvedExpressionModel::Tuple(
                expressions_model(elements),
                *span,
            ),
            Expression::TupleAccess(tuple, index, span) => UnresolvedExpressionModel::TupleAccess(
                Box::new((**tuple).model()),
                *index,
                *span,
            ),
            Expression::Circuit(name, members, span) => UnresolvedExpressionModel::Circuit(
                name@,
                members_model(members),
                *span,
            ),
            Expression::CircuitMemberAccess(circuit, member, span) => {
                UnresolvedExpressionModel::CircuitMemberAccess(
                    Box::new((**circuit).model()),
                    member@,
                    *span,
                )
            },
            Expression::CircuitStaticFunctionAccess(circuit, member, span) => {
                UnresolvedExpressionModel::CircuitStaticFunctionAccess(
                    Box::new((**circuit).model()),
                    member@,
                    *span,
                )
            },
            Expression::FunctionCall(function, arguments, span) => {
                UnresolvedExpressionModel::FunctionCall(
                    Box::new((**function).model()),
                    expressions_model(arguments),
                    *span,
                )
            },
            Expression::CoreFunctionCall(name, arguments, span) => {
                UnresolvedExpressionModel::CoreFunctionCall(
                    name@,
                    expressions_model(arguments),
                    *span,
                )
            },
        }
    }
}

impl RangeOrExpression {
    /// The model of this index or range.
    pub open spec fn model(&self) -> RangeOrExpressionModel
        decreases self,
    {
        match self {
            RangeOrExpression::Range(from, to) => RangeOrExpressionModel::Range(
                optional_expression_model(from),
                optional_expression_model(to),
            ),
            RangeOrExpression::Expression(expression) => RangeOrExpressionModel::Expression(
                expression.model(),
            ),
        }
    }
}

impl CircuitVariableDefinition {
    /// The model of this member.
    pub open spec fn model(&self) -> UnresolvedMemberModel
        decreases self,
    {
        UnresolvedMemberModel {
            identifier: self.identifier@,
            expression: self.expression.model(),
        }
    }
}

impl View for Expression {
    type V = UnresolvedExpressionModel;

    open spec fn view(&self) -> UnresolvedExpressionModel {
        self.model()
    }
}

impl View for RangeOrExpression {
    type V = RangeOrExpressionModel;

    open spec fn view(&self) -> RangeOrExpressionModel {
        self.model()
    }
}

impl View for CircuitVariableDefinition {
    type V = UnresolvedMemberModel;

    open spec fn view(&self) -> UnresolvedMemberModel {
        self.model()
    }
}

impl UnresolvedExpressionModel {
    /// This expression with `span` in place of its own span, for the nodes whose span can be
    /// replaced: field and group values, operations on two operands, `!`, conditionals, arrays,
    /// tuples, circuits and calls. Every other node is left as it is.
    pub open spec fn with_span(self, span: Span) -> UnresolvedExpressionModel {
        match self {
            UnresolvedExpressionModel::Field(value, _) => UnresolvedExpressionModel::Field(
                value,
                span,
            ),
            UnresolvedExpressionModel::Group(value, _) => UnresolvedExpressionModel::Group(
                value,
                span,
            ),
            UnresolvedExpressionModel::Binary(operation, left, right, _) => {
                UnresolvedExpressionModel::Binary(operation, left, right, span)
            },
            UnresolvedExpressionModel::Unary(UnaryOperation::Not, inner, _) => {
                UnresolvedExpressionModel::Unary(UnaryOperation::Not, inner, span)
            },
            UnresolvedExpressionModel::IfElse(condition, first, second, _) => {
                UnresolvedExpressionModel::IfElse(condition, first, second, span)
            },
            UnresolvedExpressionModel::ArrayInline(elements, _) => {
                UnresolvedExpressionModel::ArrayInline(elements, span)
            },
            UnresolvedExpressionModel::ArrayInitializer(element, dimensions, _) => {
                UnresolvedExpressionModel::ArrayInitializer(element, dimensions, span)
            },
            UnresolvedExpressionModel::ArrayAccess(array, index, _) => {
                UnresolvedExpressionModel::ArrayAccess(array, index, span)
            },
            UnresolvedExpressionModel::Tuple(elements, _) => UnresolvedExpressionModel::Tuple(
                elements,
                span,
            ),
            UnresolvedExpressionModel::TupleAccess(tuple, index, _) => {
                UnresolvedExpressionModel::TupleAccess(tuple, index, span)
            },
            UnresolvedExpressionModel::Circuit(name, members, _) => {
                UnresolvedExpressionModel::Circuit(name, members, span)
            },
            UnresolvedExpressionModel::CircuitMemberAccess(circuit, member, _) => {
                UnresolvedExpressionModel::CircuitMemberAccess(circuit, member, span)
            },
            UnresolvedExpressionModel::CircuitStaticFunctionAccess(circuit, member, _) => {
                UnresolvedExpressionModel::CircuitStaticFunctionAccess(circuit, member, span)
            },
            UnresolvedExpressionModel::FunctionCall(function, arguments, _) => {
                UnresolvedExpressionModel::FunctionCall(function, arguments, span)
            },
            UnresolvedExpressionModel::CoreFunctionCall(name, arguments, _) => {
                UnresolvedExpressionModel::CoreFunctionCall(name, arguments, span)
            },
            other => other,
        }
    }
}

impl Expression {
    /// Replaces the span of this node where it can be replaced.
    pub fn set_span(&mut self, new_span: Span)
        ensures
            final(self)@ == old(self)@.with_span(new_span),
    {
        match self {
            Expression::Field(_, old_span) => *old_span = new_span,
            Expression::Group(_, old_span) => *old_span = new_span,
            Expression::Binary(_, _, _, old_span) => *old_span = new_span,
            Expression::Unary(UnaryOperation::Not, _, old_span) => *old_span = new_span,
            Expression::IfElse(_, _, _, old_span) => *old_span = new_span,
            Expression::ArrayInline(_, old_span) => *old_span = new_span,
            Expression::ArrayInitializer(_, _, old_span) => *old_span = new_span,
            Expression::ArrayAccess(_, _, old_span) => *old_span = new_span,
            Expression::Tuple(_, old_span) => *old_span = new_span,
            Expression::TupleAccess(_, _, old_span) => *old_span = new_span,
            Expression::Circuit(_, _, old_span) => *old_span = new_span,
            Expression::CircuitMemberAccess(_, _, old_span) => *old_span = new_span,
            Expression::CircuitStaticFunctionAccess(_, _, old_span) => *old_span = new_span,
            Expression::FunctionCall(_, _, old_span) => *old_span = new_span,
            Expression::CoreFunctionCall(_, _, old_span) => *old_span = new_span,
            _ => {},
        }
    }
}

} // verus!
