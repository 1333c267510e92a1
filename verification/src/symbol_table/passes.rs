use crate::ast::circuit::{Circuit, UnresolvedCircuitModel, circuits_view};
use crate::ast::function::{Function, UnresolvedFunctionModel, functions_view};
use crate::ast::program::{Program, UnresolvedProgramModel};
use crate::errors::{SymbolTableError, SymbolTableErrorModel, TypeError, TypeErrorModel};
use crate::sequence::{lemma_try_fold_error, try_fold};
use crate::symbol_table::entry::{Entry, EntryModel};
use crate::symbol_table::symbol_table::{SymbolTable, TableModel};
use crate::types::circuit_definition::resolve_circuit_type;
use crate::types::signature::resolve_signature;
use crate::types::{CircuitType, FunctionType};
use vstd::prelude::*;

verus! {

/// The table after the name of `circuit` is bound, in the scope itself, to the circuit type
/// of that name. A name that the scope itself already binds is an error.
pub open spec fn register_circuit(table: TableModel, circuit: UnresolvedCircuitModel) -> Result<
    TableModel,
    SymbolTableErrorModel,
> {
    if table.local_variable(circuit.circuit_name.name) is Some {
        Err(SymbolTableErrorModel::DuplicateCircuitName(circuit.circuit_name))
    } else {
        Ok(
            table.insert_variable(
                circuit.circuit_name.name,
                EntryModel::of_circuit(circuit.circuit_name),
            ),
        )
    }
}

/// The table after the name of `function` is bound, in the scope itself, to the function type
/// of that name. A name that the scope itself already binds is an error.
pub open spec fn register_function(table: TableModel, function: UnresolvedFunctionModel) -> Result<
    TableModel,
    SymbolTableErrorModel,
> {
    if table.local_variable(function.identifier.name) is Some {
        Err(SymbolTableErrorModel::DuplicateFunctionName(function.identifier))
    } else {
        Ok(
            table.insert_variable(
                function.identifier.name,
                EntryModel::of_function(function.identifier),
            ),
        )
    }
}

/// [`register_circuit`] as a step.
pub open spec fn circuit_registrar() -> spec_fn(TableModel, UnresolvedCircuitModel) -> Result<
    TableModel,
    SymbolTableErrorModel,
> {
    |table: TableModel, circuit: UnresolvedCircuitModel| register_circuit(table, circuit)
}

/// [`register_function`] as a step.
pub open spec fn function_registrar() -> spec_fn(TableModel, UnresolvedFunctionModel) -> Result<
    TableModel,
    SymbolTableErrorModel,
> {
    |table: TableModel, function: UnresolvedFunctionModel| register_function(table, function)
}

/// The table after the first pass over `program`: the names of all circuits are bound, in the
/// order of the source, and then the names of all functions. The first name that is bound
/// already is the error of the pass.
pub open spec fn pass_one(table: TableModel, program: UnresolvedProgramModel) -> Result<
    TableModel,
    SymbolTableErrorModel,
> {
    match try_fold(table, program.circuits, circuit_registrar(), program.circuits.len() as int) {
        Err(error) => Err(error),
        Ok(table) => try_fold(
            table,
            program.functions,
            function_registrar(),
            program.functions.len() as int,
        ),
    }
}

/// The table after `circuit` is resolved in it and defined under its name.
pub open spec fn define_circuit(table: TableModel, circuit: UnresolvedCircuitModel) -> Result<
    TableModel,
    TypeErrorModel,
> {
    match resolve_circuit_type(table, circuit) {
        Err(error) => Err(error),
        Ok(definition) => Ok(table.insert_circuit(circuit.circuit_name.name, definition)),
    }
}

/// The table after the signature of `function` is resolved in it and defined under its name.
pub open spec fn define_function(table: TableModel, function: UnresolvedFunctionModel) -> Result<
    TableModel,
    TypeErrorModel,
> {
    match resolve_signature(table, function, None) {
        Err(error) => Err(error),
        Ok(signature) => Ok(table.insert_function(function.identifier.name, signature)),
    }
}

/// [`define_circuit`] as a step.
pub open spec fn circuit_definer() -> spec_fn(TableModel, UnresolvedCircuitModel) -> Result<
    TableModel,
    TypeErrorModel,
> {
    |table: TableModel, circuit: UnresolvedCircuitModel| define_circuit(table, circuit)
}

/// [`define_function`] as a step.
pub open spec fn function_definer() -> spec_fn(TableModel, UnresolvedFunctionModel) -> Result<
    TableModel,
    TypeErrorModel,
> {
    |table: TableModel, function: UnresolvedFunctionModel| define_function(table, function)
}

/// The table after the second pass over `program`: all circuits are defined, in the order
/// of the source, and then all functions. The first type that cannot be resolved is the error
/// of the pass.
pub open spec fn pass_two(table: TableModel, program: UnresolvedProgramModel) -> Result<
    TableModel,
    TypeErrorModel,
> {
    match try_fold(table, program.circuits, circuit_definer(), program.circuits.len() as int) {
        Err(error) => Err(error),
        Ok(table) => try_fold(
            table,
            program.functions,
            function_definer(),
            program.functions.len() as int,
        ),
    }
}

impl SymbolTable {
    /// Binds the names of `circuits`, in order.
    fn register_circuits(&mut self, circuits: &Vec<Circuit>) -> (r: Result<(), SymbolTableError>)
        requires
            old(self).wf(),
        ensures
            final(self).wf(),
            match try_fold(
                old(self)@,
                circuits_view(circuits@),
                circuit_registrar(),
                circuits.len() as int,
            ) {
                Ok(table) => r is Ok && final(self)@ == table,
                Err(error) => r is Err && r->Err_0@ == error,
            },
    {
        let ghost all = circuits_view(circuits@);
        let mut i: usize = 0;
        while i < circuits.len()
            invariant
                self.wf(),
                i <= circuits.len(),
                all == circuits_view(circuits@),
                try_fold(old(self)@, all, circuit_registrar(), i as int) == Ok::<
                    TableModel,
                    SymbolTableErrorModel,
                >(self@),
            decreases circuits.len() - i,
        {
            let circuit = &circuits[i];
            assert(all[i as int] == circuit@);

            // Attempt to insert the circuit name into the symbol table.
            let duplicate = self.insert_variable(
                circuit.circuit_name.name.clone(),
                Entry::from_circuit(circuit),
            );

            // Check circuit name is unique.
            if duplicate.is_some() {
                proof {
                    lemma_try_fold_error(
                        old(self)@,
                        all,
                        circuit_registrar(),
                        i + 1,
                        circuits.len() as int,
                    );
                }
                return Err(SymbolTableError::DuplicateCircuitName(circuit.circuit_name.clone()));
            }
            i += 1;
        }
        Ok(())
    }

    /// Binds the names of `functions`, in order.
    fn register_functions(&mut self, functions: &Vec<Function>) -> (r: Result<
        (),
        SymbolTableError,
    >)
        requires
            old(self).wf(),
        ensures
            final(self).wf(),
            match try_fold(
                old(self)@,
                functions_view(functions@),
                function_registrar(),
                functions.len() as int,
            ) {
                Ok(table) => r is Ok && final(self)@ == table,
                Err(error) => r is Err && r->Err_0@ == error,
            },
    {
        let ghost all = functions_view(functions@);
        let mut i: usize = 0;
        while i < functions.len()
            invariant
                self.wf(),
                i <= functions.len(),
                all == functions_view(functions@),
                try_fold(old(self)@, all, function_registrar(), i as int) == Ok::<
                    TableModel,
                    SymbolTableErrorModel,
                >(self@),
            decreases functions.len() - i,
        {
            let function = &functions[i];
            assert(all[i as int] == function@);

            // Attempt to insert the function name into the symbol table.
            let duplicate = self.insert_variable(
                function.identifier.name.clone(),
                Entry::from_function(function),
            );

            // Check function name is unique.
            if duplicate.is_some() {
                proof {
                    lemma_try_fold_error(
                        old(self)@,
                        all,
                        function_registrar(),
                        i + 1,
                        functions.len() as int,
                    );
                }
                return Err(SymbolTableError::DuplicateFunctionName(function.identifier.clone()));
            }
            i += 1;
        }
        Ok(())
    }

    ///
    /// Checks for duplicate circuit and function names given an unresolved program.
    ///
    /// If a circuit or function name has no collisions, then it is inserted into the symbol
    /// table. Variables defined later in the program cannot have the same name. Where a name
    /// collides, the table is left as it was.
    ///
    pub fn pass_one(&mut self, program: &Program) -> (r: Result<(), SymbolTableError>)
        requires
            old(self).wf(),
        ensures
            final(self).wf(),
            match pass_one(old(self)@, program@) {
                Ok(table) => r is Ok && final(self)@ == table,
                Err(error) => r is Err && r->Err_0@ == error && final(self)@ == old(self)@,
            },
    {
        // Register the names in a copy, which takes the place of the table once all names
        // are registered
        let mut table = self.duplicate();

        // Check circuit names.
        match table.register_circuits(&program.circuits) {
            Ok(_) => {},
            Err(error) => {
                return Err(error);
            },
        }

        // Check function names.
        match table.register_functions(&program.functions) {
            Ok(_) => {},
            Err(error) => {
                return Err(error);
            },
        }
        *self = table;
        Ok(())
    }

    /// Defines `circuits`, in order.
    fn define_circuits(&mut self, circuits: &Vec<Circuit>) -> (r: Result<(), TypeError>)
        requires
            old(self).wf(),
        ensures
            final(self).wf(),
            match try_fold(
                old(self)@,
                circuits_view(circuits@),
                circuit_definer(),
                circuits.len() as int,
            ) {
                Ok(table) => r is Ok && final(self)@ == table,
                Err(error) => r is Err && r->Err_0@ == error,
            },
    {
        let ghost all = circuits_view(circuits@);
        let mut i: usize = 0;
        while i < circuits.len()
            invariant
                self.wf(),
                i <= circuits.len(),
                all == circuits_view(circuits@),
                try_fold(old(self)@, all, circuit_definer(), i as int) == Ok::<
                    TableModel,
                    TypeErrorModel,
                >(self@),
            decreases circuits.len() - i,
        {
            assert(all[i as int] == circuits[i as int]@);

            // Attempt to insert the circuit definition into the symbol table.
            match CircuitType::insert_definition(self, &circuits[i]) {
                Ok(_) => {},
                Err(error) => {
                    proof {
                        lemma_try_fold_error(
                            old(self)@,
                            all,
                            circuit_definer(),
                            i + 1,
                            circuits.len() as int,
                        );
                    }
                    return Err(error);
                },
            }
            i += 1;
        }
        Ok(())
    }

    /// Defines the signatures of `functions`, in order.
    fn define_functions(&mut self, functions: &Vec<Function>) -> (r: Result<(), TypeError>)
        requires
            old(self).wf(),
        ensures
            final(self).wf(),
            match try_fold(
                old(self)@,
                functions_view(functions@),
                function_definer(),
                functions.len() as int,
            ) {
                Ok(table) => r is Ok && final(self)@ == table,
                Err(error) => r is Err && r->Err_0@ == error,
            },
    {
        let ghost all = functions_view(functions@);
        let mut i: usize = 0;
        while i < functions.len()
            invariant
                self.wf(),
                i <= functions.len(),
                all == functions_view(functions@),
                try_fold(old(self)@, all, function_definer(), i as int) == Ok::<
                    TableModel,
                    TypeErrorModel,
                >(self@),
            decreases functions.len() - i,
        {
            assert(all[i as int] == functions[i as int]@);

            // Attempt to insert the function definition into the symbol table
            match FunctionType::insert_definition(self, &functions[i]) {
                Ok(_) => {},
                Err(error) => {
                    proof {
                        lemma_try_fold_error(
                            old(self)@,
                            all,
                            function_definer(),
                            i + 1,
                            functions.len() as int,
                        );
                    }
                    return Err(error);
                },
            }
            i += 1;
        }
        Ok(())
    }

    ///
    /// Checks for unknown types in circuit and function definitions given an unresolved
    /// program.
    ///
    /// If a circuit or function definition only contains known types, then it is inserted
    /// into the symbol table. Variables defined later in the program can lookup the
    /// definition and refer to its expected types. Where a type is unknown, the table is left
    /// as it was.
    ///
    pub fn pass_two(&mut self, program: &Program) -> (r: Result<(), TypeError>)
        requires
            old(self).wf(),
        ensures
            final(self).wf(),
            match pass_two(old(self)@, program@) {
                Ok(table) => r is Ok && final(self)@ == table,
                Err(error) => r is Err && r->Err_0@ == error && final(self)@ == old(self)@,
            },
    {
        // Define in a copy, which takes the place of the table once everything is defined
        let mut table = self.duplicate();

        // Check circuit definitions.
        match table.define_circuits(&program.circuits) {
            Ok(_) => {},
            Err(error) => {
                return Err(error);
            },
        }

        // Check function definitions.
        match table.define_functions(&program.functions) {
            Ok(_) => {},
            Err(error) => {
                return Err(error);
            },
        }
        *self = table;
        Ok(())
    }
}

} // verus!
