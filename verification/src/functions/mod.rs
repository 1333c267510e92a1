pub mod function;
pub mod result;
pub mod test_function;
pub mod typing;

pub use self::function::{Function, FunctionModel};
pub use self::result::conditionally_select_result;
pub use self::test_function::{TestFunction, TestFunctionModel};
