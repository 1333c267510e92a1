use crate::ast::function::{
    Function as UnresolvedFunction, FunctionInput, FunctionInputVariable, UnresolvedFunctionModel,
    UnresolvedInputModel, UnresolvedInputVariableModel, inputs_view as unresolved_inputs_view,
};
use crate::ast::types::{Type as UnresolvedType, UnresolvedTypeModel, optional_type_model as
    optional_unresolved_type_model};
use crate::common::{Identifier, IdentifierModel, Span, attributes_of_mutable, mutable_attributes};
use crate::errors::{TypeError, TypeErrorModel, result_view};
use crate::sequence::{lemma_try_map_error, try_map};
use crate::symbol_table::entry::optional_entry_model;
use crate::symbol_table::{Entry, EntryModel, SymbolTable, TableModel};
use crate::types::functions::{
    FunctionInputModel, FunctionInputType, FunctionInputVariableModel, FunctionInputVariableType,
    FunctionOutputType, FunctionType, FunctionTypeModel, inputs_view,
};
use crate::types::resolve::{optional_name_view, resolve_type};
use crate::types::types::{Type, TypeModel};
use vstd::prelude::*;

verus! {

/// The resolved input variable that a written one stands for: its type resolved, and the
/// attribute `Mutable` where it is written as mutable.
pub open spec fn resolve_input_variable(
    table: TableModel,
    variable: UnresolvedInputVariableModel,
    circuit: Option<IdentifierModel>,
) -> Result<FunctionInputVariableModel, TypeErrorModel> {
    match resolve_type(table, variable.type_, circuit, variable.span) {
        Err(error) => Err(error),
        Ok(type_) => Ok(
            FunctionInputVariableModel {
                identifier: variable.identifier,
                type_,
                attributes: mutable_attributes(variable.mutable),
                span: variable.span,
            },
        ),
    }
}

/// The resolved input that a written one stands for. The `input` keyword has no type and
/// passes through.
pub open spec fn resolve_input(
    table: TableModel,
    input: UnresolvedInputModel,
    circuit: Option<IdentifierModel>,
) -> Result<FunctionInputModel, TypeErrorModel> {
    match input {
        UnresolvedInputModel::InputKeyword(identifier) => Ok(
            FunctionInputModel::InputKeyword(identifier),
        ),
        UnresolvedInputModel::Variable(variable) => match resolve_input_variable(
            table,
            variable,
            circuit,
        ) {
            Err(error) => Err(error),
            Ok(variable) => Ok(FunctionInputModel::Variable(variable)),
        },
    }
}

/// [`resolve_input`] as a function of the input alone.
pub open spec fn input_resolver(table: TableModel, circuit: Option<IdentifierModel>) -> spec_fn(
    UnresolvedInputModel,
) -> Result<FunctionInputModel, TypeErrorModel> {
    |input: UnresolvedInputModel| resolve_input(table, input, circuit)
}

/// The type that a function returns: the written type resolved, and the empty tuple where
/// none is written.
pub open spec fn resolve_output(
    table: TableModel,
    returns: Option<UnresolvedTypeModel>,
    circuit: Option<IdentifierModel>,
    span: Span,
) -> Result<TypeModel, TypeErrorModel> {
    match returns {
        None => Ok(TypeModel::unit()),
        Some(type_) => resolve_type(table, type_, circuit, span),
    }
}

/// The signature of a written function: its inputs resolved in order, then what it returns.
/// Inside the definition of `circuit` the types may be `Self`.
pub open spec fn resolve_signature(
    table: TableModel,
    function: UnresolvedFunctionModel,
    circuit: Option<IdentifierModel>,
) -> Result<FunctionTypeModel, TypeErrorModel> {
    match try_map(function.input, input_resolver(table, circuit), function.input.len() as int) {
        Err(error) => Err(error),
        Ok(inputs) => match resolve_output(table, function.returns, circuit, function.span) {
            Err(error) => Err(error),
            Ok(output) => Ok(FunctionTypeModel { identifier: function.identifier, inputs, output }),
        },
    }
}

impl FunctionInputVariableType {
    /// Type check an input to a function that is written inside the definition of `circuit`,
    /// or outside of any circuit.
    pub fn resolve_in(
        table: &SymbolTable,
        unresolved: &FunctionInputVariable,
        circuit: Option<&Identifier>,
    ) -> (r: Result<Self, TypeError>)
        requires
            table.wf(),
        ensures
            result_view(r) == resolve_input_variable(
                table@,
                unresolved@,
                optional_name_view(circuit),
            ),
    {
        let type_ = match Type::resolve_in(table, &unresolved.type_, circuit, unresolved.span) {
            Ok(type_) => type_,
            Err(error) => {
                return Err(error);
            },
        };
        let attributes = attributes_of_mutable(unresolved.mutable);
        Ok(
            FunctionInputVariableType {
                identifier: unresolved.identifier.clone(),
                type_,
                attributes,
                span: unresolved.span,
            },
        )
    }

    /// Type check an input to a function
    pub fn resolve(table: &SymbolTable, unresolved: &FunctionInputVariable) -> (r: Result<
        Self,
        TypeError,
    >)
        requires
            table.wf(),
        ensures
            result_view(r) == resolve_input_variable(table@, unresolved@, None),
    {
        Self::resolve_in(table, unresolved, None)
    }

    /// Return a resolved function input variable given an unresolved function input variable
    pub fn from_unresolved(table: &SymbolTable, unresolved_function_input: &FunctionInputVariable) -> (r:
        Result<Self, TypeError>)
        requires
            table.wf(),
        ensures
            result_view(r) == resolve_input_variable(table@, unresolved_function_input@, None),
    {
        Self::resolve_in(table, unresolved_function_input, None)
    }

    /// Return a resolved function input variable from inside of a circuit
    pub fn from_circuit(
        table: &SymbolTable,
        unresolved_function_input: &FunctionInputVariable,
        circuit_name: &Identifier,
    ) -> (r: Result<Self, TypeError>)
        requires
            table.wf(),
        ensures
            result_view(r) == resolve_input_variable(
                table@,
                unresolved_function_input@,
                Some(circuit_name@),
            ),
    {
        Self::resolve_in(table, unresolved_function_input, Some(circuit_name))
    }

    /// Insert this function variable into the given symbol table
    pub fn insert(&self, table: &mut SymbolTable) -> (r: Option<Entry>)
        requires
            old(table).wf(),
        ensures
            final(table).wf(),
            final(table)@ == old(table)@.insert_variable(
                self@.identifier.name,
                EntryModel {
                    identifier: self@.identifier,
                    type_: self@.type_,
                    attributes: self@.attributes,
                },
            ),
            optional_entry_model(r) == old(table)@.local_variable(self@.identifier.name),
    {
        let key = self.identifier.name.clone();
        let value = Entry::from_input(self);
        table.insert_variable(key, value)
    }
}

impl FunctionInputType {
    /// Return a resolved function input that is written inside the definition of `circuit`,
    /// or outside of any circuit.
    pub fn resolve_in(table: &SymbolTable, unresolved: &FunctionInput, circuit: Option<&Identifier>) -> (r:
        Result<Self, TypeError>)
        requires
            table.wf(),
        ensures
            result_view(r) == resolve_input(table@, unresolved@, optional_name_view(circuit)),
    {
        match unresolved {
            FunctionInput::InputKeyword(identifier) => Ok(
                FunctionInputType::InputKeyword(identifier.clone()),
            ),
            FunctionInput::Variable(variable) => {
                match FunctionInputVariableType::resolve_in(table, variable, circuit) {
                    Ok(variable) => Ok(FunctionInputType::Variable(variable)),
                    Err(error) => Err(error),
                }
            },
        }
    }

    /// Return a resolved function input given an unresolved function input
    pub fn from_unresolved(table: &SymbolTable, unresolved_input_variable: &FunctionInput) -> (r:
        Result<Self, TypeError>)
        requires
            table.wf(),
        ensures
            result_view(r) == resolve_input(table@, unresolved_input_variable@, None),
    {
        Self::resolve_in(table, unresolved_input_variable, None)
    }

    /// Return a resolved function input from inside of a circuit
    pub fn from_circuit(
        table: &SymbolTable,
        unresolved_input: &FunctionInput,
        circuit_name: &Identifier,
    ) -> (r: Result<Self, TypeError>)
        requires
            table.wf(),
        ensures
            result_view(r) == resolve_input(table@, unresolved_input@, Some(circuit_name@)),
    {
        Self::resolve_in(table, unresolved_input, Some(circuit_name))
    }
}

impl FunctionOutputType {
    /// Return a resolved function output type that is written inside the definition of
    /// `circuit`, or outside of any circuit.
    pub fn resolve_in(
        table: &SymbolTable,
        unresolved: &Option<UnresolvedType>,
        circuit: Option<&Identifier>,
        span: Span,
    ) -> (r: Result<Self, TypeError>)
        requires
            table.wf(),
        ensures
            result_view(r) == resolve_output(
                table@,
                optional_unresolved_type_model(unresolved),
                optional_name_view(circuit),
                span,
            ),
    {
        let type_ = match unresolved {
            // functions with no return value return an empty tuple
            None => Type::unit(),
            Some(type_) => match Type::resolve_in(table, type_, circuit, span) {
                Ok(type_) => type_,
                Err(error) => {
                    return Err(error);
                },
            },
        };
        Ok(FunctionOutputType { type_ })
    }

    /// Return a resolved function output type
    pub fn resolve(table: &SymbolTable, unresolved: &Option<UnresolvedType>, span: Span) -> (r:
        Result<Self, TypeError>)
        requires
            table.wf(),
        ensures
            result_view(r) == resolve_output(
                table@,
                optional_unresolved_type_model(unresolved),
                None,
                span,
            ),
    {
        Self::resolve_in(table, unresolved, None, span)
    }

    /// Return a resolved function output type from inside of a circuit
    pub fn from_circuit(
        table: &SymbolTable,
        circuit_name: &Identifier,
        unresolved: &Option<UnresolvedType>,
        span: Span,
    ) -> (r: Result<Self, TypeError>)
        requires
            table.wf(),
        ensures
            result_view(r) == resolve_output(
                table@,
                optional_unresolved_type_model(unresolved),
                Some(circuit_name@),
                span,
            ),
    {
        Self::resolve_in(table, unresolved, Some(circuit_name), span)
    }
}

impl FunctionType {
    /// Resolve the signature of a function that is written inside the definition of
    /// `circuit`, or outside of any circuit.
    pub fn resolve_in(
        table: &SymbolTable,
        unresolved_function: &UnresolvedFunction,
        circuit: Option<&Identifier>,
    ) -> (r: Result<Self, TypeError>)
        requires
            table.wf(),
        ensures
            result_view(r) == resolve_signature(
                table@,
                unresolved_function@,
                optional_name_view(circuit),
            ),
    {
        let ghost all = unresolved_inputs_view(unresolved_function.input@);
        let ghost resolver = input_resolver(table@, optional_name_view(circuit));
        let mut inputs: Vec<FunctionInputType> = Vec::new();
        let mut i: usize = 0;
        assert(inputs_view(inputs@) =~= Seq::empty());

        // Type check function inputs
        while i < unresolved_function.input.len()
            invariant
                table.wf(),
                i <= unresolved_function.input.len(),
                all == unresolved_inputs_view(unresolved_function.input@),
                resolver == input_resolver(table@, optional_name_view(circuit)),
                try_map(all, resolver, i as int) == Ok::<Seq<FunctionInputModel>, TypeErrorModel>(
                    inputs_view(inputs@),
                ),
            decreases unresolved_function.input.len() - i,
        {
            let ghost before = inputs_view(inputs@);
            assert(all[i as int] == unresolved_function.input[i as int]@);
            match FunctionInputType::resolve_in(table, &unresolved_function.input[i], circuit) {
                Ok(input) => {
                    inputs.push(input);
                    assert(inputs_view(inputs@) =~= before.push(input@));
                },
                Err(error) => {
                    proof {
                        lemma_try_map_error(all, resolver, i + 1, all.len() as int);
                    }
                    return Err(error);
                },
            }
            i += 1;
        }

        // Type check function output
        let output = match FunctionOutputType::resolve_in(
            table,
            &unresolved_function.returns,
            circuit,
            unresolved_function.span,
        ) {
            Ok(output) => output,
            Err(error) => {
                return Err(error);
            },
        };
        Ok(FunctionType { identifier: unresolved_function.identifier.clone(), inputs, output })
    }

    /// Resolve a function definition and insert it into the given symbol table
    pub fn insert_definition(table: &mut SymbolTable, unresolved_function: &UnresolvedFunction) -> (r:
        Result<(), TypeError>)
        requires
            old(table).wf(),
        ensures
            final(table).wf(),
            match resolve_signature(old(table)@, unresolved_function@, None) {
                Ok(function) => r is Ok && final(table)@ == old(table)@.insert_function(
                    unresolved_function@.identifier.name,
                    function,
                ),
                Err(error) => r is Err && r->Err_0@ == error && final(table)@ == old(table)@,
            },
    {
        let function = match Self::resolve_in(table, unresolved_function, None) {
            Ok(function) => function,
            Err(error) => {
                return Err(error);
            },
        };
        table.insert_function(unresolved_function.identifier.clone(), function);
        Ok(())
    }

    /// Resolve a circuit function definition and return it
    pub fn from_circuit(
        table: &SymbolTable,
        circuit_name: &Identifier,
        unresolved_function: &UnresolvedFunction,
    ) -> (r: Result<Self, TypeError>)
        requires
            table.wf(),
        ensures
            result_view(r) == resolve_signature(table@, unresolved_function@, Some(circuit_name@)),
    {
        Self::resolve_in(table, unresolved_function, Some(circuit_name))
    }
}

} // verus!
