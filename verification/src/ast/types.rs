use crate::common::{Identifier, IdentifierModel, IntegerType};
use vstd::prelude::*;

verus! {

/// A type as it is written in the source: it may name a circuit that does not exist, or be
/// `Self`.
#[derive(Debug, PartialEq, Eq)]
pub enum Type {
    Address,
    Boolean,
    Field,
    Group,
    IntegerType(IntegerType),
    /// The element type and the dimensions, outermost first.
    Array(Box<Type>, Vec<usize>),
    Tuple(Vec<Type>),
    Circuit(Identifier),
    SelfType,
}

/// What a written [`Type`] stands for in contracts.
pub ghost enum UnresolvedTypeModel {
    Address,
    Boolean,
    Field,
    Group,
    IntegerType(IntegerType),
    Array(Box<UnresolvedTypeModel>, Seq<usize>),
    Tuple(Seq<UnresolvedTypeModel>),
    Circuit(IdentifierModel),
    SelfType,
}

/// The model of every type of a list.
pub open spec fn types_model(types: &Vec<Type>) -> Seq<UnresolvedTypeModel>
    decreases types,
{
    Seq::new(
        types.len() as nat,
        |i: int|
            if 0 <= i < types.len() {
                types[i].model()
            } else {
                UnresolvedTypeModel::SelfType
            },
    )
}

impl Type {
    /// The model of this type.
    pub open spec fn model(&self) -> UnresolvedTypeModel
        decreases self,
    {
        match self {
            Type::Address => UnresolvedTypeModel::Address,
            Type::Boolean => UnresolvedTypeModel::Boolean,
            Type::Field => UnresolvedTypeModel::Field,
            Type::Group => UnresolvedTypeModel::Group,
            Type::IntegerType(integer) => UnresolvedTypeModel::IntegerType(*integer),
            Type::Array(element, dimensions) => UnresolvedTypeModel::Array(
                Box::new((**element).model()),
                dimensions@,
            ),
            Type::Tuple(types) => UnresolvedTypeModel::Tuple(types_model(types)),
            Type::Circuit(identifier) => UnresolvedTypeModel::Circuit(identifier@),
            Type::SelfType => UnresolvedTypeModel::SelfType,
        }
    }
}

impl View for Type {
    type V = UnresolvedTypeModel;

    open spec fn view(&self) -> UnresolvedTypeModel {
        self.model()
    }
}

/// The model of an optional written type.
pub open spec fn optional_type_model(type_: &Option<Type>) -> Option<UnresolvedTypeModel> {
    match type_ {
        Some(type_) => Some(type_@),
        None => None,
    }
}

} // verus!
