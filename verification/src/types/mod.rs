pub mod check;
pub mod circuit_definition;
pub mod circuits;
pub mod functions;
pub mod resolve;
pub mod signature;
pub mod types;

pub use self::check::check_type;
pub use self::circuits::{
    CircuitFunctionModel, CircuitFunctionType, CircuitType, CircuitTypeModel, CircuitVariableModel,
    CircuitVariableType,
};
pub use self::functions::{
    FunctionInputModel, FunctionInputType, FunctionInputVariableModel, FunctionInputVariableType,
    FunctionOutputType, FunctionType, FunctionTypeModel,
};
pub use self::resolve::{resolve_type, resolve_types};
pub use self::types::{Type, TypeModel};
