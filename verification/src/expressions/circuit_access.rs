use crate::ast::expression::{Expression as UnresolvedExpression, UnresolvedExpressionModel};
use crate::common::{Attribute, Identifier, Span, has_attribute};
use crate::errors::{TypeError, TypeErrorModel};
use crate::expressions::expression::{Expression, ExpressionValue, expression_result_view};
use crate::expressions::rules::{instance_member_type, resolve_expression, static_member_type};
use crate::symbol_table::SymbolTable;
use crate::types::types::optional_type_model;
use crate::types::{CircuitType, Type, TypeModel};
use vstd::prelude::*;

verus! {

impl CircuitType {
    /// The type of a member that is reached through a value of the circuit.
    pub fn instance_member_type(&self, member: &Identifier) -> (r: Result<Type, TypeError>)
        ensures
            match r {
                Ok(type_) => instance_member_type(self@, member@) == Ok::<
                    TypeModel,
                    TypeErrorModel,
                >(type_@),
                Err(error) => instance_member_type(self@, member@) == Err::<
                    TypeModel,
                    TypeErrorModel,
                >(error@),
            },
    {
        // Resolve the circuit member as a circuit variable
        match self.variable(&member.name) {
            // Return variable type
            Some(variable) => Ok(variable.type_.duplicate()),
            None => {
                // Resolve the circuit member as a circuit function
                match self.function(&member.name) {
                    // Return function output type
                    Some(function) => {
                        // Check non-static method
                        if has_attribute(&function.attributes, Attribute::Static) {
                            return Err(TypeError::StaticMemberOnInstance(member.clone()));
                        }
                        Ok(function.function.output.type_.duplicate())
                    },
                    None => Err(TypeError::UndefinedCircuitMember(member.clone())),
                }
            },
        }
    }

    /// The type of a member that is reached through the name of the circuit.
    pub fn static_member_type(&self, member: &Identifier) -> (r: Result<Type, TypeError>)
        ensures
            match r {
                Ok(type_) => static_member_type(self@, member@) == Ok::<TypeModel, TypeErrorModel>(
                    type_@,
                ),
                Err(error) => static_member_type(self@, member@) == Err::<
                    TypeModel,
                    TypeErrorModel,
                >(error@),
            },
    {
        match self.function(&member.name) {
            Some(function) => {
                // Check static method
                if !has_attribute(&function.attributes, Attribute::Static) {
                    return Err(TypeError::InstanceMemberOnStatic(member.clone()));
                }
                Ok(function.function.output.type_.duplicate())
            },
            None => Err(TypeError::UndefinedCircuitMember(member.clone())),
        }
    }
}

impl Expression {
    /// Resolve the type of a circuit member
    pub(crate) fn circuit_access(
        table: &SymbolTable,
        expected_type: &Option<Type>,
        circuit: &UnresolvedExpression,
        member: &Identifier,
        span: Span,
        Ghost(whole): Ghost<UnresolvedExpression>,
    ) -> (r: Result<Expression, TypeError>)
        requires
            table.wf(),
            decreases_to!(whole => *circuit),
        ensures
            expression_result_view(r) == resolve_expression(
                table@,
                optional_type_model(*expected_type),
                UnresolvedExpressionModel::CircuitMemberAccess(Box::new(circuit@), member@, span),
            ),
        decreases whole, 0int,
    {
        // Lookup the circuit in the symbol table.
        // We do not know the exact circuit type from this context so `expected_type = None`.
        let none: Option<Type> = None;
        let circuit_resolved = match Expression::resolve(table, &none, circuit) {
            Ok(circuit_resolved) => circuit_resolved,
            Err(error) => {
                return Err(error);
            },
        };
        let circuit_name = match circuit_resolved.type_.get_type_circuit(span) {
            Ok(circuit_name) => circuit_name,
            Err(error) => {
                return Err(error);
            },
        };
        // Lookup the circuit type in the symbol table
        let circuit_type = match table.get_circuit(&circuit_name.name) {
            Some(circuit_type) => circuit_type,
            None => {
                return Err(
                    TypeError::UndefinedCircuit(Identifier::new(circuit_name.name.clone(), span)),
                );
            },
        };
        let type_ = match circuit_type.instance_member_type(member) {
            Ok(type_) => type_,
            Err(error) => {
                return Err(error);
            },
        };
        // Check type of circuit member
        Self::checked(
            expected_type,
            type_,
            ExpressionValue::CircuitMemberAccess(Box::new(circuit_resolved), member.clone(), span),
            span,
        )
    }

    /// Resolve the type of a static circuit function
    pub(crate) fn circuit_static_access(
        table: &SymbolTable,
        expected_type: &Option<Type>,
        circuit: &UnresolvedExpression,
        member: &Identifier,
        span: Span,
        Ghost(whole): Ghost<UnresolvedExpression>,
    ) -> (r: Result<Expression, TypeError>)
        requires
            table.wf(),
            decreases_to!(whole => *circuit),
        ensures
            expression_result_view(r) == resolve_expression(
                table@,
                optional_type_model(*expected_type),
                UnresolvedExpressionModel::CircuitStaticFunctionAccess(
                    Box::new(circuit@),
                    member@,
                    span,
                ),
            ),
        decreases whole, 0int,
    {
        let none: Option<Type> = None;
        let circuit_resolved = match Expression::resolve(table, &none, circuit) {
            Ok(circuit_resolved) => circuit_resolved,
            Err(error) => {
                return Err(error);
            },
        };
        let circuit_name = match circuit_resolved.type_.get_type_circuit(span) {
            Ok(circuit_name) => circuit_name,
            Err(error) => {
                return Err(error);
            },
        };
        // Lookup the circuit type in the symbol table
        let circuit_type = match table.get_circuit(&circuit_name.name) {
            Some(circuit_type) => circuit_type,
            None => {
                return Err(
                    TypeError::UndefinedCircuit(Identifier::new(circuit_name.name.clone(), span)),
                );
            },
        };
        let type_ = match circuit_type.static_member_type(member) {
            Ok(type_) => type_,
            Err(error) => {
                return Err(error);
            },
        };
        // Check type of circuit member
        Self::checked(
            expected_type,
            type_,
            ExpressionValue::CircuitStaticFunctionAccess(
                Box::new(circuit_resolved),
                member.clone(),
                span,
            ),
            span,
        )
    }
}

} // verus!
