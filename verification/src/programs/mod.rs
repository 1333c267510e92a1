pub mod program;
pub mod typing;

pub use self::program::{Program, ProgramModel};
