use crate::ast::expression::{
    Expression, RangeOrExpression, RangeOrExpressionModel, UnresolvedExpressionModel,
    expressions_model,
};
use crate::ast::types::{Type, UnresolvedTypeModel, optional_type_model};
use crate::common::{Declare, Identifier, IdentifierModel, Span};
use vstd::prelude::*;

verus! {

/// A name that a definition binds, mutable or not.
#[derive(Debug, PartialEq, Eq)]
pub struct VariableName {
    pub mutable: bool,
    pub identifier: Identifier,
}

/// What a [`VariableName`] stands for in contracts.
pub ghost struct VariableNameModel {
    pub mutable: bool,
    pub identifier: IdentifierModel,
}

impl View for VariableName {
    type V = VariableNameModel;

    open spec fn view(&self) -> VariableNameModel {
        VariableNameModel { mutable: self.mutable, identifier: self.identifier@ }
    }
}

impl Clone for VariableName {
    fn clone(&self) -> (r: Self)
        ensures
            r@ == self@,
    {
        VariableName { mutable: self.mutable, identifier: self.identifier.clone() }
    }
}

/// The view of every name of a list.
pub open spec fn names_view(names: Seq<VariableName>) -> Seq<VariableNameModel> {
    names.map_values(|name: VariableName| name@)
}

/// The names that a definition binds and the type that it was written with, if any.
#[derive(Debug, PartialEq, Eq)]
pub struct Variables {
    pub names: Vec<VariableName>,
    pub type_: Option<Type>,
}

/// What a [`Variables`] stands for in contracts.
pub ghost struct VariablesModel {
    pub names: Seq<VariableNameModel>,
    pub type_: Option<UnresolvedTypeModel>,
}

impl View for Variables {
    type V = VariablesModel;

    open spec fn view(&self) -> VariablesModel {
        VariablesModel { names: names_view(self.names@), type_: optional_type_model(&self.type_) }
    }
}

/// One step from a value to a part of it.
#[derive(Debug, PartialEq, Eq)]
pub enum AssigneeAccess {
    Array(RangeOrExpression),
    Tuple(usize),
    Member(Identifier),
}

/// What an [`AssigneeAccess`] stands for in contracts.
pub ghost enum UnresolvedAccessModel {
    Array(RangeOrExpressionModel),
    Tuple(usize),
    Member(IdentifierModel),
}

impl View for AssigneeAccess {
    type V = UnresolvedAccessModel;

    open spec fn view(&self) -> UnresolvedAccessModel {
        match self {
            AssigneeAccess::Array(index) => UnresolvedAccessModel::Array(index@),
            AssigneeAccess::Tuple(index) => UnresolvedAccessModel::Tuple(*index),
            AssigneeAccess::Member(member) => UnresolvedAccessModel::Member(member@),
        }
    }
}

/// The view of every access of a list.
pub open spec fn accesses_view(accesses: Seq<AssigneeAccess>) -> Seq<UnresolvedAccessModel> {
    accesses.map_values(|access: AssigneeAccess| access@)
}

/// What an assignment writes to: a variable, or a part of it reached by a chain of accesses.
#[derive(Debug, PartialEq, Eq)]
pub struct Assignee {
    pub identifier: Identifier,
    pub accesses: Vec<AssigneeAccess>,
}

/// What an [`Assignee`] stands for in contracts.
pub ghost struct UnresolvedAssigneeModel {
    pub identifier: IdentifierModel,
    pub accesses: Seq<UnresolvedAccessModel>,
}

impl View for Assignee {
    type V = UnresolvedAssigneeModel;

    open spec fn view(&self) -> UnresolvedAssigneeModel {
        UnresolvedAssigneeModel {
            identifier: self.identifier@,
            accesses: accesses_view(self.accesses@),
        }
    }
}

/// A statement as it is written in the source.
#[derive(Debug, PartialEq, Eq)]
pub enum Statement {
    Return(Expression, Span),
    /// (keyword, names and type, values, span)
    Definition(Declare, Variables, Vec<Expression>, Span),
    Assign(Assignee, Expression, Span),
    Conditional(ConditionalStatement, Span),
    /// (loop variable, start, end, body, span)
    Iteration(Identifier, Expression, Expression, Vec<Statement>, Span),
    Expression(Expression, Span),
}

/// An `if` with its body and what follows it.
#[derive(Debug, PartialEq, Eq)]
pub struct ConditionalStatement {
    pub condition: Expression,
    pub statements: Vec<Statement>,
    pub next: Option<ConditionalNestedOrEndStatement>,
}

/// What follows the body of an `if`: an `else if`, or a closing `else`.
#[derive(Debug, PartialEq, Eq)]
pub enum ConditionalNestedOrEndStatement {
    Nested(Box<ConditionalStatement>),
    End(Vec<Statement>),
}

/// What a written [`Statement`] stands for in contracts.
pub ghost enum UnresolvedStatementModel {
    Return(UnresolvedExpressionModel, Span),
    Definition(Declare, VariablesModel, Seq<UnresolvedExpressionModel>, Span),
    Assign(UnresolvedAssigneeModel, UnresolvedExpressionModel, Span),
    Conditional(UnresolvedConditionalModel, Span),
    Iteration(
        IdentifierModel,
        UnresolvedExpressionModel,
        UnresolvedExpressionModel,
        Seq<UnresolvedStatementModel>,
        Span,
    ),
    Expression(UnresolvedExpressionModel, Span),
}

/// What a written [`ConditionalStatement`] stands for in contracts.
pub ghost struct UnresolvedConditionalModel {
    pub condition: UnresolvedExpressionModel,
    pub statements: Seq<UnresolvedStatementModel>,
    pub next: Option<UnresolvedNestedOrEndModel>,
}

/// What a written [`ConditionalNestedOrEndStatement`] stands for in contracts.
pub ghost enum UnresolvedNestedOrEndModel {
    Nested(Box<UnresolvedConditionalModel>),
    End(Seq<UnresolvedStatementModel>),
}

/// The model of every statement of a list.
pub open spec fn statements_model(statements: &Vec<Statement>) -> Seq<UnresolvedStatementModel>
    decreases statements,
{
    Seq::new(
        statements.len() as nat,
        |i: int|
            if 0 <= i < statements.len() {
                statements[i].model()
            } else {
                arbitrary()
            },
    )
}

impl Statement {
    /// The model of this statement.
    pub open spec fn model(&self) -> UnresolvedStatementModel
        decreases self,
    {
        match self {
            Statement::Return(expression, span) => UnresolvedStatementModel::Return(
                expression@,
                *span,
            ),
            Statement::Definition(declare, variables, expressions, span) => {
                UnresolvedStatementModel::Definition(
                    *declare,
                    variables@,
                    expressions_model(expressions),
                    *span,
                )
            },
            Statement::Assign(assignee, expression, span) => UnresolvedStatementModel::Assign(
                assignee@,
                expression@,
                *span,
            ),
            Statement::Conditional(conditional, span) => UnresolvedStatementModel::Conditional(
                conditional.model(),
                *span,
            ),
            Statement::Iteration(variable, start, stop, statements, span) => {
                UnresolvedStatementModel::Iteration(
                    variable@,
                    start@,
                    stop@,
                    statements_model(statements),
                    *span,
                )
            },
            Statement::Expression(expression, span) => UnresolvedStatementModel::Expression(
                expression@,
                *span,
            ),
        }
    }
}

impl ConditionalStatement {
    /// The model of this conditional.
    pub open spec fn model(&self) -> UnresolvedConditionalModel
        decreases self,
    {
        UnresolvedConditionalModel {
            condition: self.condition@,
            statements: statements_model(&self.statements),
            next: match &self.next {
                Some(next) => Some(next.model()),
                None => None,
            },
        }
    }
}

impl ConditionalNestedOrEndStatement {
    /// The model of this continuation.
    pub open spec fn model(&self) -> UnresolvedNestedOrEndModel
        decreases self,
    {
        match self {
            ConditionalNestedOrEndStatement::Nested(conditional) => {
                UnresolvedNestedOrEndModel::Nested(Box::new((**conditional).model()))
            },
            ConditionalNestedOrEndStatement::End(statements) => UnresolvedNestedOrEndModel::End(
                statements_model(statements),
            ),
        }
    }
}

impl View for Statement {
    type V = UnresolvedStatementModel;

    open spec fn view(&self) -> UnresolvedStatementModel {
        self.model()
    }
}

impl View for ConditionalStatement {
    type V = UnresolvedConditionalModel;

    open spec fn view(&self) -> UnresolvedConditionalModel {
        self.model()
    }
}

impl View for ConditionalNestedOrEndStatement {
    type V = UnresolvedNestedOrEndModel;

    open spec fn view(&self) -> UnresolvedNestedOrEndModel {
        self.model()
    }
}

} // verus!
