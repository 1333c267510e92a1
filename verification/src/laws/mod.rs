pub mod expressions;
pub mod programs;
pub mod scopes;
pub mod statements;
pub mod typed_expressions;
pub mod typed_programs;
pub mod typed_statements;
pub mod types;
