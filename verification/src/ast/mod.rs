pub mod circuit;
pub mod display;
pub mod expression;
pub mod function;
pub mod program;
pub mod statement;
pub mod types;

pub use self::circuit::{Circuit, CircuitMember, UnresolvedCircuitMemberModel, UnresolvedCircuitModel};
pub use self::expression::{
    CircuitVariableDefinition, Expression, RangeOrExpression, RangeOrExpressionModel,
    UnresolvedExpressionModel, UnresolvedMemberModel,
};
pub use self::function::{
    Function, FunctionInput, FunctionInputVariable, TestFunction, UnresolvedFunctionModel,
    UnresolvedInputModel, UnresolvedInputVariableModel, UnresolvedTestFunctionModel,
};
pub use self::program::{Program, UnresolvedProgramModel};
pub use self::statement::{
    Assignee, AssigneeAccess, ConditionalNestedOrEndStatement, ConditionalStatement, Statement,
    UnresolvedAccessModel, UnresolvedAssigneeModel, UnresolvedConditionalModel,
    UnresolvedNestedOrEndModel, UnresolvedStatementModel, VariableName, VariableNameModel,
    Variables, VariablesModel,
};
pub use self::types::{Type, UnresolvedTypeModel};
