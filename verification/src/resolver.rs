use crate::ast::program::{Program as UnresolvedProgram, UnresolvedProgramModel};
use crate::errors::{ResolverError, ResolverErrorModel};
use crate::programs::program::{Program, ProgramModel, resolve_declarations};
use crate::symbol_table::passes::{pass_one, pass_two};
use crate::symbol_table::{SymbolTable, TableModel};
use vstd::prelude::*;

verus! {

/// The resolved program that `program` stands for, or the reason why it has none.
///
/// The program is resolved in a table of its own, in three steps that follow one another:
/// the names of all circuits and functions are bound; then all circuits and the signatures
/// of all functions are defined, so that a definition may refer to a name that is written
/// after it; then the circuits, functions and tests are resolved. The first error ends the
/// resolution.
pub open spec fn resolve_program(program: UnresolvedProgramModel) -> Result<
    ProgramModel,
    ResolverErrorModel,
> {
    match pass_one(TableModel::scope(None), program) {
        Err(error) => Err(ResolverErrorModel::SymbolTableError(error)),
        Ok(names) => match pass_two(names, program) {
            Err(error) => Err(ResolverErrorModel::TypeError(error)),
            Ok(definitions) => resolve_declarations(definitions, program),
        },
    }
}

/// A resolved syntax tree is represented as a `Program` without implicitly typed values.
#[derive(Debug, PartialEq, Eq)]
pub struct LeoResolvedAst {
    pub resolved_ast: Program,
}

impl View for LeoResolvedAst {
    type V = ProgramModel;

    open spec fn view(&self) -> ProgramModel {
        self.resolved_ast@
    }
}

impl LeoResolvedAst {
    /// Creates a new resolved syntax tree from a given unresolved syntax tree
    pub fn new(program: &UnresolvedProgram) -> (r: Result<Self, ResolverError>)
        ensures
            match r {
                Ok(resolved) => resolve_program(program@) == Ok::<
                    ProgramModel,
                    ResolverErrorModel,
                >(resolved@),
                Err(error) => resolve_program(program@) == Err::<
                    ProgramModel,
                    ResolverErrorModel,
                >(error@),
            },
    {
        // Create a symbol table for the program
        let mut symbol_table = SymbolTable::new(None);

        // Pass 1: Insert circuits and functions as variable types
        match symbol_table.pass_one(program) {
            Ok(_) => {},
            Err(error) => {
                return Err(ResolverError::SymbolTableError(error));
            },
        }

        // Pass 2: Insert circuits and functions as definitions
        match symbol_table.pass_two(program) {
            Ok(_) => {},
            Err(error) => {
                return Err(ResolverError::TypeError(error));
            },
        }

        // Perform semantic analysis on program
        // At each node:
        //    1. Resolve all child nodes
        //    2. Resolve current node
        match Program::resolve(&symbol_table, program) {
            Ok(resolved_ast) => Ok(LeoResolvedAst { resolved_ast }),
            Err(error) => Err(error),
        }
    }
}

} // verus!
