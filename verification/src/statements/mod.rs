pub mod assign;
pub mod conditional;
pub mod definition;
pub mod resolve;
pub mod rules;
pub mod statement;
pub mod typing;

pub use self::resolve::resolve_statements;
pub use self::rules::resolve_statement;
pub use self::statement::{
    AccessModel, Assign, AssignModel, Assignee, AssigneeAccess, AssigneeModel, Conditional,
    ConditionalModel, ConditionalNestedOrEndStatement, Definition, DefinitionModel,
    DefinitionVariables, DefinitionVariablesModel, NestedOrEndModel, Statement, StatementModel,
};
