pub mod circuit;

pub use self::circuit::{Circuit, CircuitModel};
