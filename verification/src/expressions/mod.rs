pub mod array;
pub mod binary;
pub mod circuit;
pub mod circuit_access;
pub mod consistency;
pub mod expression;
pub mod function_call;
pub mod identifier;
pub mod resolve;
pub mod rules;
pub mod shape;
pub mod tuple;
pub mod typing;

pub use self::expression::{
    CircuitVariableDefinition, Expression, ExpressionModel, ExpressionValue, ExpressionValueModel,
    MemberModel,
};
pub use self::rules::{resolve_expression, resolve_expressions};
pub use self::tuple::check_tuple_type;
