use crate::ast::circuit::{Circuit, UnresolvedCircuitModel, circuits_view};
use crate::ast::function::{
    Function, TestFunction, UnresolvedFunctionModel, UnresolvedTestFunctionModel, functions_view,
    tests_view,
};
use vstd::prelude::*;

verus! {

/// A program as it is written in the source: its circuits, functions and tests, each in the
/// order of the source.
#[derive(Debug, PartialEq, Eq)]
pub struct Program {
    pub circuits: Vec<Circuit>,
    pub functions: Vec<Function>,
    pub tests: Vec<TestFunction>,
}

/// What a written [`Program`] stands for in contracts.
pub ghost struct UnresolvedProgramModel {
    pub circuits: Seq<UnresolvedCircuitModel>,
    pub functions: Seq<UnresolvedFunctionModel>,
    pub tests: Seq<UnresolvedTestFunctionModel>,
}

impl View for Program {
    type V = UnresolvedProgramModel;

    open spec fn view(&self) -> UnresolvedProgramModel {
        UnresolvedProgramModel {
            circuits: circuits_view(self.circuits@),
            functions: functions_view(self.functions@),
            tests: tests_view(self.tests@),
        }
    }
}

impl Program {
    /// A program without circuits, functions or tests.
    pub fn new() -> (r: Self)
        ensures
            r@.circuits.len() == 0,
            r@.functions.len() == 0,
            r@.tests.len() == 0,
    {
        Program { circuits: Vec::new(), functions: Vec::new(), tests: Vec::new() }
    }
}

} // verus!
