use crate::ast::statement::{VariableName, VariableNameModel, names_view};
use crate::common::{Declare, Identifier, IdentifierModel, Span};
use crate::expressions::expression::{Expression, ExpressionModel, expressions_model};
use vstd::prelude::*;

verus! {

/// One resolved step from a value to a part of it.
#[derive(Debug, PartialEq, Eq)]
pub enum AssigneeAccess {
    /// The element at an index.
    Array(Expression),
    /// The elements from the first index up to the second.
    ArrayRange(Expression, Expression),
    Tuple(usize),
    Member(Identifier),
}

/// What an [`AssigneeAccess`] stands for in contracts.
pub ghost enum AccessModel {
    Array(ExpressionModel),
    ArrayRange(ExpressionModel, ExpressionModel),
    Tuple(usize),
    Member(IdentifierModel),
}

impl View for AssigneeAccess {
    type V = AccessModel;

    open spec fn view(&self) -> AccessModel {
        match self {
            AssigneeAccess::Array(index) => AccessModel::Array(index@),
            AssigneeAccess::ArrayRange(from, to) => AccessModel::ArrayRange(from@, to@),
            AssigneeAccess::Tuple(index) => AccessModel::Tuple(*index),
            AssigneeAccess::Member(member) => AccessModel::Member(member@),
        }
    }
}

/// The view of every access of a list.
pub open spec fn accesses_view(accesses: Seq<AssigneeAccess>) -> Seq<AccessModel> {
    accesses.map_values(|access: AssigneeAccess| access@)
}

/// What a resolved assignment writes to.
#[derive(Debug, PartialEq, Eq)]
pub struct Assignee {
    pub identifier: Identifier,
    pub accesses: Vec<AssigneeAccess>,
}

/// What an [`Assignee`] stands for in contracts.
pub ghost struct AssigneeModel {
    pub identifier: IdentifierModel,
    pub accesses: Seq<AccessModel>,
}

impl View for Assignee {
    type V = AssigneeModel;

    open spec fn view(&self) -> AssigneeModel {
        AssigneeModel { identifier: self.identifier@, accesses: accesses_view(self.accesses@) }
    }
}

/// A statement that assigns `Assignee = Expression;`.
/// The expression has the type of the assignee.
#[derive(Debug, PartialEq, Eq)]
pub struct Assign {
    pub assignee: Assignee,
    pub expression: Expression,
    pub span: Span,
}

/// What an [`Assign`] stands for in contracts.
pub ghost struct AssignModel {
    pub assignee: AssigneeModel,
    pub expression: ExpressionModel,
    pub span: Span,
}

impl View for Assign {
    type V = AssignModel;

    open spec fn view(&self) -> AssignModel {
        AssignModel { assignee: self.assignee@, expression: self.expression@, span: self.span }
    }
}

/// One or more variables with resolved types.
#[derive(Debug, PartialEq, Eq)]
pub enum DefinitionVariables {
    /// One name for one value.
    Single(VariableName, Expression),
    /// One name for the tuple of several values.
    Tuple(VariableName, Expression),
    /// As many names as values.
    MultipleVariable(Vec<VariableName>, Vec<Expression>),
    /// Several names for the parts of one value, which is a tuple.
    MultipleVariableTuple(Vec<VariableName>, Expression),
}

/// What a [`DefinitionVariables`] stands for in contracts.
pub ghost enum DefinitionVariablesModel {
    Single(VariableNameModel, ExpressionModel),
    Tuple(VariableNameModel, ExpressionModel),
    MultipleVariable(Seq<VariableNameModel>, Seq<ExpressionModel>),
    MultipleVariableTuple(Seq<VariableNameModel>, ExpressionModel),
}

impl View for DefinitionVariables {
    type V = DefinitionVariablesModel;

    open spec fn view(&self) -> DefinitionVariablesModel {
        match self {
            DefinitionVariables::Single(name, expression) => DefinitionVariablesModel::Single(
                name@,
                expression@,
            ),
            DefinitionVariables::Tuple(name, expression) => DefinitionVariablesModel::Tuple(
                name@,
                expression@,
            ),
            DefinitionVariables::MultipleVariable(names, expressions) => {
                DefinitionVariablesModel::MultipleVariable(
                    names_view(names@),
                    expressions_model(expressions),
                )
            },
            DefinitionVariables::MultipleVariableTuple(names, expression) => {
                DefinitionVariablesModel::MultipleVariableTuple(names_view(names@), expression@)
            },
        }
    }
}

/// A `let` or `const` definition statement.
/// Defines one or more variables with resolved types.
#[derive(Debug, PartialEq, Eq)]
pub struct Definition {
    pub declare: Declare,
    pub variables: DefinitionVariables,
    pub span: Span,
}

/// What a [`Definition`] stands for in contracts.
pub ghost struct DefinitionModel {
    pub declare: Declare,
    pub variables: DefinitionVariablesModel,
    pub span: Span,
}

impl View for Definition {
    type V = DefinitionModel;

    open spec fn view(&self) -> DefinitionModel {
        DefinitionModel { declare: self.declare, variables: self.variables@, span: self.span }
    }
}

/// A resolved statement.
#[derive(Debug, PartialEq, Eq)]
pub enum Statement {
    Return(Expression, Span),
    Definition(Definition),
    Assign(Assign),
    Conditional(Conditional),
    /// (loop variable, start, end, body, span)
    Iteration(Identifier, Expression, Expression, Vec<Statement>, Span),
    Expression(Expression, Span),
}

/// An `if else` statement with resolved inner statements
#[derive(Debug, PartialEq, Eq)]
pub struct Conditional {
    pub condition: Expression,
    pub statements: Vec<Statement>,
    pub next: Option<ConditionalNestedOrEndStatement>,
    pub span: Span,
}

/// A nested `else if` or an ending `else` clause
#[derive(Debug, PartialEq, Eq)]
pub enum ConditionalNestedOrEndStatement {
    Nested(Box<Conditional>),
    End(Vec<Statement>),
}

/// What a [`Statement`] stands for in contracts.
pub ghost enum StatementModel {
    Return(ExpressionModel, Span),
    Definition(DefinitionModel),
    Assign(AssignModel),
    Conditional(ConditionalModel),
    Iteration(IdentifierModel, ExpressionModel, ExpressionModel, Seq<StatementModel>, Span),
    Expression(ExpressionModel, Span),
}

/// What a [`Conditional`] stands for in contracts.
pub ghost struct ConditionalModel {
    pub condition: ExpressionModel,
    pub statements: Seq<StatementModel>,
    pub next: Option<NestedOrEndModel>,
    pub span: Span,
}

/// What a [`ConditionalNestedOrEndStatement`] stands for in contracts.
pub ghost enum NestedOrEndModel {
    Nested(Box<ConditionalModel>),
    End(Seq<StatementModel>),
}

/// The model of every statement of a list.
pub open spec fn statements_model(statements: &Vec<Statement>) -> Seq<StatementModel>
    decreases statements,
{
    Seq::new(
        statements.len() as nat,
        |i: int|
            if 0 <= i < statements.len() {
                statements[i].model()
            } else {
                arbitrary()
            },
    )
}

impl Statement {
    /// The model of this statement.
    pub open spec fn model(&self) -> StatementModel
        decreases self,
    {
        match self {
            Statement::Return(expression, span) => StatementModel::Return(expression@, *span),
            Statement::Definition(definition) => StatementModel::Definition(definition@),
            Statement::Assign(assign) => StatementModel::Assign(assign@),
            Statement::Conditional(conditional) => StatementModel::Conditional(
                conditional.model(),
            ),
            Statement::Iteration(variable, start, stop, statements, span) => {
                StatementModel::Iteration(
                    variable@,
                    start@,
                    stop@,
                    statements_model(statements),
                    *span,
                )
            },
            Statement::Expression(expression, span) => StatementModel::Expression(
                expression@,
                *span,
            ),
        }
    }
}

impl Conditional {
    /// The model of this conditional.
    pub open spec fn model(&self) -> ConditionalModel
        decreases self,
    {
        ConditionalModel {
            condition: self.condition@,
            statements: statements_model(&self.statements),
            next: match &self.next {
                Some(next) => Some(next.model()),
                None => None,
            },
            span: self.span,
        }
    }
}

impl ConditionalNestedOrEndStatement {
    /// The model of this continuation.
    pub open spec fn model(&self) -> NestedOrEndModel
        decreases self,
    {
        match self {
            ConditionalNestedOrEndStatement::Nested(conditional) => NestedOrEndModel::Nested(
                Box::new((**conditional).model()),
            ),
            ConditionalNestedOrEndStatement::End(statements) => NestedOrEndModel::End(
                statements_model(statements),
            ),
        }
    }
}

impl View for Statement {
    type V = StatementModel;

    open spec fn view(&self) -> StatementModel {
        self.model()
    }
}

impl View for Conditional {
    type V = ConditionalModel;

    open spec fn view(&self) -> ConditionalModel {
        self.model()
    }
}

impl View for ConditionalNestedOrEndStatement {
    type V = NestedOrEndModel;

    open spec fn view(&self) -> NestedOrEndModel {
        self.model()
    }
}

} // verus!
