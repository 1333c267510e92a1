use crate::ast::circuit::{
    Circuit as UnresolvedCircuit, UnresolvedCircuitModel, circuits_view as
    unresolved_circuits_view,
};
use crate::ast::function::{
    Function as UnresolvedFunction, TestFunction as UnresolvedTestFunction,
    UnresolvedFunctionModel, UnresolvedTestFunctionModel, functions_view as
    unresolved_functions_view, tests_view as unresolved_tests_view,
};
use crate::ast::program::{Program as UnresolvedProgram, UnresolvedProgramModel};
use crate::circuits::circuit::{Circuit, CircuitModel, circuits_view, resolve_circuit};
use crate::errors::{ResolverError, ResolverErrorModel};
use crate::functions::function::{Function, FunctionModel, functions_view, resolve_function};
use crate::functions::test_function::{
    TestFunction, TestFunctionModel, resolve_test_function, tests_view,
};
use crate::sequence::{lemma_try_map_error, try_map};
use crate::symbol_table::{SymbolTable, TableModel};
use vstd::prelude::*;

verus! {

/// A program with resolved types: its circuits, functions and tests, each in the order of
/// the source.
#[derive(Debug, PartialEq, Eq)]
pub struct Program {
    pub circuits: Vec<Circuit>,
    pub functions: Vec<Function>,
    pub tests: Vec<TestFunction>,
}

/// What a [`Program`] stands for in contracts.
pub ghost struct ProgramModel {
    pub circuits: Seq<CircuitModel>,
    pub functions: Seq<FunctionModel>,
    pub tests: Seq<TestFunctionModel>,
}

impl View for Program {
    type V = ProgramModel;

    open spec fn view(&self) -> ProgramModel {
        ProgramModel {
            circuits: circuits_view(self.circuits@),
            functions: functions_view(self.functions@),
            tests: tests_view(self.tests@),
        }
    }
}

/// The view of a resolved program or an error.
pub open spec fn program_result_view(result: Result<Program, ResolverError>) -> Result<
    ProgramModel,
    ResolverErrorModel,
> {
    match result {
        Ok(program) => Ok(program@),
        Err(error) => Err(error@),
    }
}

/// [`resolve_circuit`] as a function of the circuit alone.
pub open spec fn circuit_resolver(table: TableModel) -> spec_fn(UnresolvedCircuitModel) -> Result<
    CircuitModel,
    ResolverErrorModel,
> {
    |circuit: UnresolvedCircuitModel| resolve_circuit(table, circuit)
}

/// [`resolve_function`] as a function of the function alone.
pub open spec fn function_resolver(table: TableModel) -> spec_fn(UnresolvedFunctionModel) -> Result<
    FunctionModel,
    ResolverErrorModel,
> {
    |function: UnresolvedFunctionModel| resolve_function(table, function)
}

/// [`resolve_test_function`] as a function of the test alone.
pub open spec fn test_resolver(table: TableModel) -> spec_fn(UnresolvedTestFunctionModel) -> Result<
    TestFunctionModel,
    ResolverErrorModel,
> {
    |test: UnresolvedTestFunctionModel| resolve_test_function(table, test)
}

/// The resolved program that `program` stands for, in a table that holds all its names and
/// definitions: its circuits are resolved first, then its functions, then its tests, each in
/// the order of the source. The first error is the error of the whole; each declaration is
/// resolved in `table` itself, so nothing that one of them defines is seen by another.
pub open spec fn resolve_declarations(table: TableModel, program: UnresolvedProgramModel) -> Result<
    ProgramModel,
    ResolverErrorModel,
> {
    match try_map(program.circuits, circuit_resolver(table), program.circuits.len() as int) {
        Err(error) => Err(error),
        Ok(circuits) => match try_map(
            program.functions,
            function_resolver(table),
            program.functions.len() as int,
        ) {
            Err(error) => Err(error),
            Ok(functions) => match try_map(
                program.tests,
                test_resolver(table),
                program.tests.len() as int,
            ) {
                Err(error) => Err(error),
                Ok(tests) => Ok(ProgramModel { circuits, functions, tests }),
            },
        },
    }
}

/// Resolves the circuits of a program in order.
fn resolve_circuits(table: &SymbolTable, circuits: &Vec<UnresolvedCircuit>) -> (r: Result<
    Vec<Circuit>,
    ResolverError,
>)
    requires
        table.wf(),
    ensures
        match r {
            Ok(resolved) => try_map(
                unresolved_circuits_view(circuits@),
                circuit_resolver(table@),
                circuits.len() as int,
            ) == Ok::<Seq<CircuitModel>, ResolverErrorModel>(circuits_view(resolved@)),
            Err(error) => try_map(
                unresolved_circuits_view(circuits@),
                circuit_resolver(table@),
                circuits.len() as int,
            ) == Err::<Seq<CircuitModel>, ResolverErrorModel>(error@),
        },
{
    let ghost all = unresolved_circuits_view(circuits@);
    let mut resolved: Vec<Circuit> = Vec::new();
    let mut i: usize = 0;
    assert(circuits_view(resolved@) =~= Seq::empty());
    while i < circuits.len()
        invariant
            table.wf(),
            i <= circuits.len(),
            all == unresolved_circuits_view(circuits@),
            try_map(all, circuit_resolver(table@), i as int) == Ok::<
                Seq<CircuitModel>,
                ResolverErrorModel,
            >(circuits_view(resolved@)),
        decreases circuits.len() - i,
    {
        let ghost before = circuits_view(resolved@);
        assert(all[i as int] == circuits[i as int]@);
        match Circuit::resolve(table, &circuits[i]) {
            Ok(circuit) => {
                resolved.push(circuit);
                assert(circuits_view(resolved@) =~= before.push(circuit@));
            },
            Err(error) => {
                proof {
                    lemma_try_map_error(all, circuit_resolver(table@), i + 1, circuits.len() as int);
                }
                return Err(error);
            },
        }
        i += 1;
    }
    Ok(resolved)
}

/// Resolves the functions of a program in order.
fn resolve_functions(table: &SymbolTable, functions: &Vec<UnresolvedFunction>) -> (r: Result<
    Vec<Function>,
    ResolverError,
>)
    requires
        table.wf(),
    ensures
        match r {
            Ok(resolved) => try_map(
                unresolved_functions_view(functions@),
                function_resolver(table@),
                functions.len() as int,
            ) == Ok::<Seq<FunctionModel>, ResolverErrorModel>(functions_view(resolved@)),
            Err(error) => try_map(
                unresolved_functions_view(functions@),
                function_resolver(table@),
                functions.len() as int,
            ) == Err::<Seq<FunctionModel>, ResolverErrorModel>(error@),
        },
{
    let ghost all = unresolved_functions_view(functions@);
    let mut resolved: Vec<Function> = Vec::new();
    let mut i: usize = 0;
    assert(functions_view(resolved@) =~= Seq::empty());
    while i < functions.len()
        invariant
            table.wf(),
            i <= functions.len(),
            all == unresolved_functions_view(functions@),
            try_map(all, function_resolver(table@), i as int) == Ok::<
                Seq<FunctionModel>,
                ResolverErrorModel,
            >(functions_view(resolved@)),
        decreases functions.len() - i,
    {
        let ghost before = functions_view(resolved@);
        assert(all[i as int] == functions[i as int]@);
        match Function::resolve(table, &functions[i]) {
            Ok(function) => {
                resolved.push(function);
                assert(functions_view(resolved@) =~= before.push(function@));
            },
            Err(error) => {
                proof {
                    lemma_try_map_error(
                        all,
                        function_resolver(table@),
                        i + 1,
                        functions.len() as int,
                    );
                }
                return Err(error);
            },
        }
        i += 1;
    }
    Ok(resolved)
}

/// Resolves the tests of a program in order.
fn resolve_tests(table: &SymbolTable, tests: &Vec<UnresolvedTestFunction>) -> (r: Result<
    Vec<TestFunction>,
    ResolverError,
>)
    requires
        table.wf(),
    ensures
        match r {
            Ok(resolved) => try_map(
                unresolved_tests_view(tests@),
                test_resolver(table@),
                tests.len() as int,
            ) == Ok::<Seq<TestFunctionModel>, ResolverErrorModel>(tests_view(resolved@)),
            Err(error) => try_map(
                unresolved_tests_view(tests@),
                test_resolver(table@),
                tests.len() as int,
            ) == Err::<Seq<TestFunctionModel>, ResolverErrorModel>(error@),
        },
{
    let ghost all = unresolved_tests_view(tests@);
    let mut resolved: Vec<TestFunction> = Vec::new();
    let mut i: usize = 0;
    assert(tests_view(resolved@) =~= Seq::empty());
    while i < tests.len()
        invariant
            table.wf(),
            i <= tests.len(),
            all == unresolved_tests_view(tests@),
            try_map(all, test_resolver(table@), i as int) == Ok::<
                Seq<TestFunctionModel>,
                ResolverErrorModel,
            >(tests_view(resolved@)),
        decreases tests.len() - i,
    {
        let ghost before = tests_view(resolved@);
        assert(all[i as int] == tests[i as int]@);
        match TestFunction::resolve(table, &tests[i]) {
            Ok(test) => {
                resolved.push(test);
                assert(tests_view(resolved@) =~= before.push(test@));
            },
            Err(error) => {
                proof {
                    lemma_try_map_error(all, test_resolver(table@), i + 1, tests.len() as int);
                }
                return Err(error);
            },
        }
        i += 1;
    }
    Ok(resolved)
}

impl Program {
    /// Returns a resolved program given an unresolved program and a table that holds its
    /// names and definitions
    pub fn resolve(table: &SymbolTable, unresolved: &UnresolvedProgram) -> (r: Result<
        Self,
        ResolverError,
    >)
        requires
            table.wf(),
        ensures
            program_result_view(r) == resolve_declarations(table@, unresolved@),
    {
        // Resolve circuit definitions
        let circuits = match resolve_circuits(table, &unresolved.circuits) {
            Ok(circuits) => circuits,
            Err(error) => {
                return Err(error);
            },
        };

        // Resolve function statements
        let functions = match resolve_functions(table, &unresolved.functions) {
            Ok(functions) => functions,
            Err(error) => {
                return Err(error);
            },
        };

        // Resolve tests
        let tests = match resolve_tests(table, &unresolved.tests) {
            Ok(tests) => tests,
            Err(error) => {
                return Err(error);
            },
        };
        Ok(Program { circuits, functions, tests })
    }
}

} // verus!
