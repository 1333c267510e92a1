use crate::common::{Identifier, IdentifierModel, Span};
use crate::types::{Type, TypeModel};
use vstd::prelude::*;

verus! {

/// A name that is bound twice where it may be bound once.
#[derive(Debug, PartialEq, Eq)]
pub enum SymbolTableError {
    /// Two top-level definitions carry this name, and the later one is a circuit.
    DuplicateCircuitName(Identifier),
    /// Two top-level definitions carry this name, and the later one is a function.
    DuplicateFunctionName(Identifier),
    /// The scope already binds this name.
    DuplicateVariable(Identifier),
}

/// What a [`SymbolTableError`] stands for in contracts.
pub ghost enum SymbolTableErrorModel {
    DuplicateCircuitName(IdentifierModel),
    DuplicateFunctionName(IdentifierModel),
    DuplicateVariable(IdentifierModel),
}

impl View for SymbolTableError {
    type V = SymbolTableErrorModel;

    open spec fn view(&self) -> SymbolTableErrorModel {
        match self {
            SymbolTableError::DuplicateCircuitName(identifier) => {
                SymbolTableErrorModel::DuplicateCircuitName(identifier@)
            },
            SymbolTableError::DuplicateFunctionName(identifier) => {
                SymbolTableErrorModel::DuplicateFunctionName(identifier@)
            },
            SymbolTableError::DuplicateVariable(identifier) => {
                SymbolTableErrorModel::DuplicateVariable(identifier@)
            },
        }
    }
}

/// A program that cannot be given types.
#[derive(Debug, PartialEq, Eq)]
#[allow(inconsistent_fields)]
pub enum TypeError {
    /// A value of type `found` stands where the context asks for `expected`.
    MismatchedTypes { expected: Type, found: Type, span: Span },
    /// The name denotes no circuit.
    UndefinedCircuit(Identifier),
    /// The circuit has no member of this name.
    UndefinedCircuitMember(Identifier),
    /// The name denotes no function.
    UndefinedFunction(Identifier),
    /// No scope binds the name.
    UndefinedVariable(Identifier),
    /// `Self` is written outside of a circuit.
    SelfNotAvailable(Span),
    /// An integer is needed, `found` is there.
    ExpectedIntegerType { found: Type, span: Span },
    /// An array is needed, `found` is there.
    ExpectedArrayType { found: Type, span: Span },
    /// A tuple is needed, `found` is there.
    ExpectedTupleType { found: Type, span: Span },
    /// A circuit is needed, `found` is there.
    ExpectedCircuitType { found: Type, span: Span },
    /// A function is needed, `found` is there.
    ExpectedFunctionType { found: Type, span: Span },
    /// A tuple of `found` parts stands where one of `expected` parts is needed.
    InvalidTupleLength { expected: usize, found: usize, span: Span },
    /// A tuple of `length` parts has no part `index`.
    InvalidTupleIndex { index: usize, length: usize, span: Span },
    /// A function of `expected` inputs is called with `found` arguments.
    InvalidNumberOfArguments { expected: usize, found: usize, span: Span },
    /// A circuit of `expected` member variables is built from `found` values.
    InvalidNumberOfMembers { expected: usize, found: usize, span: Span },
    /// A circuit expression gives this member twice.
    DuplicateCircuitMember(Identifier),
    /// A function that returns `expected` values holds `found` return statements.
    InvalidNumberOfReturns { expected: usize, found: usize, span: Span },
    /// A function that has to return `expected` does not return on every path.
    NoReturn { expected: Type, span: Span },
    /// More than one return statement is taken on every path.
    MultipleReturns(Span),
    /// A static function is reached through a value of the circuit.
    StaticMemberOnInstance(Identifier),
    /// A function that is not static is reached through the name of the circuit.
    InstanceMemberOnStatic(Identifier),
    /// The variable that is assigned to is not mutable.
    ImmutableAssign(Identifier),
    /// Nothing says which type the value has.
    CannotInferType(Span),
}

/// What a [`TypeError`] stands for in contracts.
#[allow(inconsistent_fields)]
pub ghost enum TypeErrorModel {
    MismatchedTypes { expected: TypeModel, found: TypeModel, span: Span },
    UndefinedCircuit(IdentifierModel),
    UndefinedCircuitMember(IdentifierModel),
    UndefinedFunction(IdentifierModel),
    UndefinedVariable(IdentifierModel),
    SelfNotAvailable(Span),
    ExpectedIntegerType { found: TypeModel, span: Span },
    ExpectedArrayType { found: TypeModel, span: Span },
    ExpectedTupleType { found: TypeModel, span: Span },
    ExpectedCircuitType { found: TypeModel, span: Span },
    ExpectedFunctionType { found: TypeModel, span: Span },
    InvalidTupleLength { expected: usize, found: usize, span: Span },
    InvalidTupleIndex { index: usize, length: usize, span: Span },
    InvalidNumberOfArguments { expected: usize, found: usize, span: Span },
    InvalidNumberOfMembers { expected: usize, found: usize, span: Span },
    DuplicateCircuitMember(IdentifierModel),
    InvalidNumberOfReturns { expected: usize, found: usize, span: Span },
    NoReturn { expected: TypeModel, span: Span },
    MultipleReturns(Span),
    StaticMemberOnInstance(IdentifierModel),
    InstanceMemberOnStatic(IdentifierModel),
    ImmutableAssign(IdentifierModel),
    CannotInferType(Span),
}

impl View for TypeError {
    type V = TypeErrorModel;

    open spec fn view(&self) -> TypeErrorModel {
        match self {
            TypeError::MismatchedTypes { expected, found, span } => {
                TypeErrorModel::MismatchedTypes { expected: expected@, found: found@, span: *span }
            },
            TypeError::UndefinedCircuit(identifier) => TypeErrorModel::UndefinedCircuit(
                identifier@,
            ),
            TypeError::UndefinedCircuitMember(identifier) => {
                TypeErrorModel::UndefinedCircuitMember(identifier@)
            },
            TypeError::UndefinedFunction(identifier) => TypeErrorModel::UndefinedFunction(
                identifier@,
            ),
            TypeError::UndefinedVariable(identifier) => TypeErrorModel::UndefinedVariable(
                identifier@,
            ),
            TypeError::SelfNotAvailable(span) => TypeErrorModel::SelfNotAvailable(*span),
            TypeError::ExpectedIntegerType { found, span } => {
                TypeErrorModel::ExpectedIntegerType { found: found@, span: *span }
            },
            TypeError::ExpectedArrayType { found, span } => TypeErrorModel::ExpectedArrayType {
                found: found@,
                span: *span,
            },
            TypeError::ExpectedTupleType { found, span } => TypeErrorModel::ExpectedTupleType {
                found: found@,
                span: *span,
            },
            TypeError::ExpectedCircuitType { found, span } => {
                TypeErrorModel::ExpectedCircuitType { found: found@, span: *span }
            },
            TypeError::ExpectedFunctionType { found, span } => {
                TypeErrorModel::ExpectedFunctionType { found: found@, span: *span }
            },
            TypeError::InvalidTupleLength { expected, found, span } => {
                TypeErrorModel::InvalidTupleLength {
                    expected: *expected,
                    found: *found,
                    span: *span,
                }
            },
            TypeError::InvalidTupleIndex { index, length, span } => {
                TypeErrorModel::InvalidTupleIndex { index: *index, length: *length, span: *span }
            },
            TypeError::InvalidNumberOfArguments { expected, found, span } => {
                TypeErrorModel::InvalidNumberOfArguments {
                    expected: *expected,
                    found: *found,
                    span: *span,
                }
            },
            TypeError::InvalidNumberOfMembers { expected, found, span } => {
                TypeErrorModel::InvalidNumberOfMembers {
                    expected: *expected,
                    found: *found,
                    span: *span,
                }
            },
            TypeError::DuplicateCircuitMember(identifier) => {
                TypeErrorModel::DuplicateCircuitMember(identifier@)
            },
            TypeError::InvalidNumberOfReturns { expected, found, span } => {
                TypeErrorModel::InvalidNumberOfReturns {
                    expected: *expected,
                    found: *found,
                    span: *span,
                }
            },
            TypeError::NoReturn { expected, span } => TypeErrorModel::NoReturn {
                expected: expected@,
                span: *span,
            },
            TypeError::MultipleReturns(span) => TypeErrorModel::MultipleReturns(*span),
            TypeError::StaticMemberOnInstance(identifier) => {
                TypeErrorModel::StaticMemberOnInstance(identifier@)
            },
            TypeError::InstanceMemberOnStatic(identifier) => {
                TypeErrorModel::InstanceMemberOnStatic(identifier@)
            },
            TypeError::ImmutableAssign(identifier) => TypeErrorModel::ImmutableAssign(identifier@),
            TypeError::CannotInferType(span) => TypeErrorModel::CannotInferType(*span),
        }
    }
}

/// The view of a result: the view of what it holds, on either side.
pub open spec fn result_view<T: View, E: View>(result: Result<T, E>) -> Result<T::V, E::V> {
    match result {
        Ok(value) => Ok(value@),
        Err(error) => Err(error@),
    }
}

/// Why a program was not resolved.
#[derive(Debug, PartialEq, Eq)]
pub enum ResolverError {
    SymbolTableError(SymbolTableError),
    TypeError(TypeError),
}

/// What a [`ResolverError`] stands for in contracts.
pub ghost enum ResolverErrorModel {
    SymbolTableError(SymbolTableErrorModel),
    TypeError(TypeErrorModel),
}

impl View for ResolverError {
    type V = ResolverErrorModel;

    open spec fn view(&self) -> ResolverErrorModel {
        match self {
            ResolverError::SymbolTableError(error) => ResolverErrorModel::SymbolTableError(
                error@,
            ),
            ResolverError::TypeError(error) => ResolverErrorModel::TypeError(error@),
        }
    }
}

} // verus!
