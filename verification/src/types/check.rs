use crate::common::{Identifier, Span};
use crate::errors::{TypeError, TypeErrorModel};
use crate::types::types::{Type, TypeModel, optional_type_model, types_model};
use vstd::prelude::*;

verus! {

/// Whether a value of type `actual` may stand where `expected` is asked for: always where
/// nothing is asked for, else only where the two types are the same.
pub open spec fn check_type(expected: Option<TypeModel>, actual: TypeModel, span: Span) -> Result<
    (),
    TypeErrorModel,
> {
    match expected {
        Some(expected) => if expected == actual {
            Ok(())
        } else {
            Err(TypeErrorModel::MismatchedTypes { expected, found: actual, span })
        },
        None => Ok(()),
    }
}

/// The view of a check that gives nothing or an error.
pub open spec fn check_view(result: Result<(), TypeError>) -> Result<(), TypeErrorModel> {
    match result {
        Ok(_) => Ok(()),
        Err(error) => Err(error@),
    }
}

impl Type {
    /// Returns `Ok` if the given expected type is `None`, or is `Some` and equal to the actual
    /// type.
    pub fn check_type(expected_option: &Option<Self>, actual: &Type, span: Span) -> (r: Result<
        (),
        TypeError,
    >)
        ensures
            check_view(r) == check_type(optional_type_model(*expected_option), actual@, span),
    {
        if let Some(expected) = expected_option {
            if !expected.same(actual) {
                return Err(
                    TypeError::MismatchedTypes {
                        expected: expected.duplicate(),
                        found: actual.duplicate(),
                        span,
                    },
                );
            }
        }
        Ok(())
    }

    /// Returns `Ok` if self is an expected integer type `Type::IntegerType`
    pub fn check_type_integer(&self, span: Span) -> (r: Result<(), TypeError>)
        ensures
            check_view(r) == (if self@.is_integer() {
                Ok::<(), TypeErrorModel>(())
            } else {
                Err(TypeErrorModel::ExpectedIntegerType { found: self@, span })
            }),
    {
        match self {
            Type::IntegerType(_) => Ok(()),
            _ => Err(TypeError::ExpectedIntegerType { found: self.duplicate(), span }),
        }
    }

    /// Returns array element type and dimensions if self is an expected array type
    /// `Type::Array`
    pub fn get_type_array(&self, span: Span) -> (r: Result<(&Type, &Vec<usize>), TypeError>)
        ensures
            match r {
                Ok((element, dimensions)) => self@ == TypeModel::Array(
                    Box::new(element@),
                    dimensions@,
                ),
                Err(error) => !(self@ is Array) && error@ == (TypeErrorModel::ExpectedArrayType {
                    found: self@,
                    span,
                }),
            },
    {
        match self {
            Type::Array(element_type, dimensions) => Ok((element_type, dimensions)),
            _ => Err(TypeError::ExpectedArrayType { found: self.duplicate(), span }),
        }
    }

    /// Returns tuple element types if self is an expected tuple type `Type::Tuple`
    pub fn get_type_tuple(&self, span: Span) -> (r: Result<&Vec<Type>, TypeError>)
        ensures
            match r {
                Ok(types) => self@ == TypeModel::Tuple(types_model(types)),
                Err(error) => !(self@ is Tuple) && error@ == (TypeErrorModel::ExpectedTupleType {
                    found: self@,
                    span,
                }),
            },
    {
        match self {
            Type::Tuple(types) => Ok(types),
            _ => Err(TypeError::ExpectedTupleType { found: self.duplicate(), span }),
        }
    }

    /// Returns circuit identifier if self is an expected circuit type `Type::Circuit`
    pub fn get_type_circuit(&self, span: Span) -> (r: Result<&Identifier, TypeError>)
        ensures
            match r {
                Ok(identifier) => self@ == TypeModel::Circuit(identifier@.name),
                Err(error) => !(self@ is Circuit) && error@
                    == (TypeErrorModel::ExpectedCircuitType { found: self@, span }),
            },
    {
        match self {
            Type::Circuit(identifier) => Ok(identifier),
            _ => Err(TypeError::ExpectedCircuitType { found: self.duplicate(), span }),
        }
    }

    /// Returns function identifier if self is an expected function type `Type::Function`
    pub fn get_type_function(&self, span: Span) -> (r: Result<&Identifier, TypeError>)
        ensures
            match r {
                Ok(identifier) => self@ == TypeModel::Function(identifier@.name),
                Err(error) => !(self@ is Function) && error@
                    == (TypeErrorModel::ExpectedFunctionType { found: self@, span }),
            },
    {
        match self {
            Type::Function(identifier) => Ok(identifier),
            _ => Err(TypeError::ExpectedFunctionType { found: self.duplicate(), span }),
        }
    }

    /// The type of the elements of the array type that is written with the element type
    /// `element` and the dimensions `dimensions`: a copy of `element`.
    pub fn element_type(element: &Type, dimensions: &Vec<usize>) -> (r: Type)
        ensures
            r@ == TypeModel::Array(Box::new(element@), dimensions@).element_type(),
    {
        element.duplicate()
    }
}

} // verus!
