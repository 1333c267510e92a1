use crate::ast::function::{TestFunction as UnresolvedTestFunction, UnresolvedTestFunctionModel};
use crate::common::{Identifier, IdentifierModel, optional_identifier_view};
use crate::errors::{ResolverError, ResolverErrorModel};
use crate::functions::function::{Function, FunctionModel, resolve_function};
use crate::symbol_table::{SymbolTable, TableModel};
use vstd::prelude::*;

verus! {

/// A type checked test function
#[derive(Debug, PartialEq, Eq)]
pub struct TestFunction {
    /// The test function definition
    pub function: Function,
    /// The custom test input file
    pub input_file: Option<Identifier>,
}

/// What a [`TestFunction`] stands for in contracts.
pub ghost struct TestFunctionModel {
    pub function: FunctionModel,
    pub input_file: Option<IdentifierModel>,
}

impl View for TestFunction {
    type V = TestFunctionModel;

    open spec fn view(&self) -> TestFunctionModel {
        TestFunctionModel {
            function: self.function@,
            input_file: optional_identifier_view(self.input_file),
        }
    }
}

/// The view of every test function of a list.
pub open spec fn tests_view(tests: Seq<TestFunction>) -> Seq<TestFunctionModel> {
    tests.map_values(|test: TestFunction| test@)
}

/// The resolved test function that `test` stands for: its function resolved, with the same
/// input file.
pub open spec fn resolve_test_function(table: TableModel, test: UnresolvedTestFunctionModel) -> Result<
    TestFunctionModel,
    ResolverErrorModel,
> {
    match resolve_function(table, test.function) {
        Err(error) => Err(error),
        Ok(function) => Ok(TestFunctionModel { function, input_file: test.input_file }),
    }
}

impl TestFunction {
    /// Return a type checked `TestFunction` given an unresolved test function
    pub fn resolve(table: &SymbolTable, unresolved: &UnresolvedTestFunction) -> (r: Result<
        Self,
        ResolverError,
    >)
        requires
            table.wf(),
        ensures
            match r {
                Ok(test) => resolve_test_function(table@, unresolved@) == Ok::<
                    TestFunctionModel,
                    ResolverErrorModel,
                >(test@),
                Err(error) => resolve_test_function(table@, unresolved@) == Err::<
                    TestFunctionModel,
                    ResolverErrorModel,
                >(error@),
            },
    {
        let function = match Function::resolve(table, &unresolved.function) {
            Ok(function) => function,
            Err(error) => {
                return Err(error);
            },
        };
        let input_file = match &unresolved.input_file {
            Some(input_file) => Some(input_file.clone()),
            None => None,
        };
        Ok(TestFunction { function, input_file })
    }
}

} // verus!
