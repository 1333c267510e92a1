use crate::ast::expression::{
    Expression as UnresolvedExpression, UnresolvedExpressionModel,
    expressions_model as unresolved_expressions_model,
};
use crate::common::{Identifier, Span};
use crate::errors::{TypeError, TypeErrorModel};
use crate::expressions::expression::{
    Expression, ExpressionValue, ExpressionValueModel, expression_result_view,
};
use crate::expressions::resolve::{resolve_arguments, resolve_parts};
use crate::expressions::rules::{callee_signature, resolve_expression};
use crate::symbol_table::SymbolTable;
use crate::types::types::optional_type_model;
use crate::types::{FunctionType, FunctionTypeModel, Type};
use vstd::prelude::*;

verus! {

/// The signature of the function that a member of a circuit denotes, where the circuit value
/// has the type `circuit_type`. A member variable of the name hides the function, unless the
/// member is reached through the name of the circuit.
fn member_signature<'a>(
    table: &'a SymbolTable,
    circuit_type: &Type,
    member: &Identifier,
    through_name: bool,
) -> (r: Option<&'a FunctionType>)
    requires
        table.wf(),
    ensures
        match r {
            Some(signature) => {
                &&& circuit_type@ is Circuit
                &&& table@.get_circuit(circuit_type@->Circuit_0) is Some
                &&& table@.get_circuit(circuit_type@->Circuit_0)->Some_0.function(member@.name)
                    is Some
                &&& signature@ == table@.get_circuit(circuit_type@->Circuit_0)->Some_0.function(
                    member@.name,
                )->Some_0.function
                &&& (through_name || table@.get_circuit(
                    circuit_type@->Circuit_0,
                )->Some_0.variable(member@.name) is None)
            },
            None => {
                ||| !(circuit_type@ is Circuit)
                ||| table@.get_circuit(circuit_type@->Circuit_0) is None
                ||| table@.get_circuit(circuit_type@->Circuit_0)->Some_0.function(member@.name)
                    is None
                ||| (!through_name && table@.get_circuit(
                    circuit_type@->Circuit_0,
                )->Some_0.variable(member@.name) is Some)
            },
        },
{
    match circuit_type {
        Type::Circuit(name) => match table.get_circuit(&name.name) {
            Some(definition) => match definition.function(&member.name) {
                Some(found) => {
                    if !through_name && definition.variable(&member.name).is_some() {
                        None
                    } else {
                        Some(&found.function)
                    }
                },
                None => None,
            },
            None => None,
        },
        _ => None,
    }
}

/// The signature of the function that the resolved expression `function` denotes.
pub fn signature_of<'a>(table: &'a SymbolTable, function: &Expression, span: Span) -> (r: Result<
    &'a FunctionType,
    TypeError,
>)
    requires
        table.wf(),
    ensures
        match r {
            Ok(signature) => callee_signature(table@, function@, span) == Ok::<
                FunctionTypeModel,
                TypeErrorModel,
            >(signature@),
            Err(error) => callee_signature(table@, function@, span) == Err::<
                FunctionTypeModel,
                TypeErrorModel,
            >(error@),
        },
{
    match &function.value {
        ExpressionValue::CircuitMemberAccess(circuit, member, member_span) => {
            assert(function@.value == ExpressionValueModel::CircuitMemberAccess(
                Box::new(circuit@),
                member@,
                *member_span,
            ));
            match member_signature(table, &circuit.type_, member, false) {
                Some(signature) => Ok(signature),
                None => Err(
                    TypeError::ExpectedFunctionType { found: function.type_.duplicate(), span },
                ),
            }
        },
        ExpressionValue::CircuitStaticFunctionAccess(circuit, member, member_span) => {
            assert(function@.value == ExpressionValueModel::CircuitStaticFunctionAccess(
                Box::new(circuit@),
                member@,
                *member_span,
            ));
            match member_signature(table, &circuit.type_, member, true) {
                Some(signature) => Ok(signature),
                None => Err(
                    TypeError::ExpectedFunctionType { found: function.type_.duplicate(), span },
                ),
            }
        },
        _ => {
            let name = match function.type_.get_type_function(span) {
                Ok(name) => name,
                Err(error) => {
                    return Err(error);
                },
            };
            match table.get_function(&name.name) {
                Some(signature) => Ok(signature),
                None => Err(
                    TypeError::UndefinedFunction(Identifier::new(name.name.clone(), span)),
                ),
            }
        },
    }
}

impl Expression {
    /// Resolves the call of a function. The arguments are resolved against the inputs of the
    /// function, position by position.
    pub(crate) fn function_call(
        table: &SymbolTable,
        expected_type: &Option<Type>,
        function: &UnresolvedExpression,
        arguments: &Vec<UnresolvedExpression>,
        span: Span,
        Ghost(whole): Ghost<UnresolvedExpression>,
    ) -> (r: Result<Expression, TypeError>)
        requires
            table.wf(),
            decreases_to!(whole => *function),
            decreases_to!(whole => *arguments),
        ensures
            expression_result_view(r) == resolve_expression(
                table@,
                optional_type_model(*expected_type),
                UnresolvedExpressionModel::FunctionCall(
                    Box::new(function@),
                    unresolved_expressions_model(arguments),
                    span,
                ),
            ),
        decreases whole, 0int,
    {
        // We do not know the function type from this context so `expected_type = None`.
        let none: Option<Type> = None;
        let function_resolved = match Expression::resolve(table, &none, function) {
            Ok(function_resolved) => function_resolved,
            Err(error) => {
                return Err(error);
            },
        };
        let signature = match signature_of(table, &function_resolved, span) {
            Ok(signature) => signature,
            Err(error) => {
                return Err(error);
            },
        };
        // Check the number of arguments given
        if arguments.len() != signature.inputs.len() {
            return Err(
                TypeError::InvalidNumberOfArguments {
                    expected: signature.inputs.len(),
                    found: arguments.len(),
                    span,
                },
            );
        }
        match resolve_arguments(table, signature, arguments) {
            Ok(arguments_resolved) => Self::checked(
                expected_type,
                signature.output.type_.duplicate(),
                ExpressionValue::FunctionCall(Box::new(function_resolved), arguments_resolved, span),
                span,
            ),
            Err(error) => Err(error),
        }
    }

    /// Resolves the call of a core function. Nothing is known of its inputs or of what it
    /// returns, so the context has to give the type.
    pub(crate) fn core_function_call(
        table: &SymbolTable,
        expected_type: &Option<Type>,
        name: &String,
        arguments: &Vec<UnresolvedExpression>,
        span: Span,
        Ghost(whole): Ghost<UnresolvedExpression>,
    ) -> (r: Result<Expression, TypeError>)
        requires
            table.wf(),
            decreases_to!(whole => *arguments),
        ensures
            expression_result_view(r) == resolve_expression(
                table@,
                optional_type_model(*expected_type),
                UnresolvedExpressionModel::CoreFunctionCall(
                    name@,
                    unresolved_expressions_model(arguments),
                    span,
                ),
            ),
        decreases whole, 0int,
    {
        let type_ = match expected_type {
            Some(type_) => type_.duplicate(),
            None => {
                return Err(TypeError::CannotInferType(span));
            },
        };
        let none: Option<Type> = None;
        match resolve_parts(table, &none, arguments) {
            Ok(arguments_resolved) => Ok(
                Expression {
                    type_,
                    value: ExpressionValue::CoreFunctionCall(name.clone(), arguments_resolved, span),
                },
            ),
            Err(error) => Err(error),
        }
    }
}

} // verus!
