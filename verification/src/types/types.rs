use crate::common::{Identifier, IntegerType};
use vstd::prelude::*;

verus! {

/// The type of a value in a resolved program. It is never implicit and never `Self`.
#[derive(Debug, PartialEq, Eq)]
pub enum Type {
    // Data types
    Address,
    Boolean,
    Field,
    Group,
    IntegerType(IntegerType),
    // Data type wrappers
    /// The element type and the dimensions, outermost first.
    Array(Box<Type>, Vec<usize>),
    Tuple(Vec<Type>),
    // User defined types
    Circuit(Identifier),
    Function(Identifier),
}

/// What a [`Type`] stands for in contracts. A circuit or function type is its name: where the
/// name was written does not matter.
pub ghost enum TypeModel {
    Address,
    Boolean,
    Field,
    Group,
    IntegerType(IntegerType),
    Array(Box<TypeModel>, Seq<usize>),
    Tuple(Seq<TypeModel>),
    Circuit(Seq<char>),
    Function(Seq<char>),
}

impl TypeModel {
    /// The type of a function that returns nothing: the empty tuple.
    pub open spec fn unit() -> TypeModel {
        TypeModel::Tuple(Seq::empty())
    }

    /// The type is an integer type.
    pub open spec fn is_integer(self) -> bool {
        self is IntegerType
    }

    /// The type is an array type with at least one dimension.
    pub open spec fn is_array(self) -> bool {
        self is Array && self->Array_1.len() > 0
    }

    /// The number of elements of an array type: its outermost dimension.
    pub open spec fn array_len(self) -> usize
        recommends
            self.is_array(),
    {
        self->Array_1[0]
    }

    /// The type of the elements of an array type: the element type that the array type is
    /// written with, whatever its dimensions are.
    pub open spec fn element_type(self) -> TypeModel
        recommends
            self is Array,
    {
        *self->Array_0
    }
}

/// The model of every type of a list.
pub open spec fn types_model(types: &Vec<Type>) -> Seq<TypeModel>
    decreases types,
{
    Seq::new(
        types.len() as nat,
        |i: int|
            if 0 <= i < types.len() {
                types[i].model()
            } else {
                arbitrary()
            },
    )
}

impl Type {
    /// The model of this type.
    pub open spec fn model(&self) -> TypeModel
        decreases self,
    {
        match self {
            Type::Address => TypeModel::Address,
            Type::Boolean => TypeModel::Boolean,
            Type::Field => TypeModel::Field,
            Type::Group => TypeModel::Group,
            Type::IntegerType(integer) => TypeModel::IntegerType(*integer),
            Type::Array(element, dimensions) => TypeModel::Array(
                Box::new((**element).model()),
                dimensions@,
            ),
            Type::Tuple(types) => TypeModel::Tuple(types_model(types)),
            Type::Circuit(identifier) => TypeModel::Circuit(identifier.name@),
            Type::Function(identifier) => TypeModel::Function(identifier.name@),
        }
    }
}

impl View for Type {
    type V = TypeModel;

    open spec fn view(&self) -> TypeModel {
        self.model()
    }
}

/// The model of an optional type.
pub open spec fn optional_type_model(type_: Option<Type>) -> Option<TypeModel> {
    match type_ {
        Some(type_) => Some(type_@),
        None => None,
    }
}

/// The model of every optional type of a list.
pub open spec fn optional_types_model(types: Seq<Option<Type>>) -> Seq<Option<TypeModel>> {
    types.map_values(|type_: Option<Type>| optional_type_model(type_))
}

/// A copy of a list of dimensions.
pub fn clone_dimensions(dimensions: &Vec<usize>) -> (r: Vec<usize>)
    ensures
        r@ == dimensions@,
{
    let mut r: Vec<usize> = Vec::new();
    let mut i: usize = 0;
    while i < dimensions.len()
        invariant
            i <= dimensions.len(),
            r.len() == i,
            forall|j: int| 0 <= j < i ==> r[j] == dimensions[j],
        decreases dimensions.len() - i,
    {
        r.push(dimensions[i]);
        i += 1;
    }
    assert(r@ =~= dimensions@);
    r
}

/// Whether two lists of dimensions are the same.
pub fn same_dimensions(a: &Vec<usize>, b: &Vec<usize>) -> (r: bool)
    ensures
        r == (a@ == b@),
{
    if a.len() != b.len() {
        return false;
    }
    let mut i: usize = 0;
    while i < a.len()
        invariant
            i <= a.len(),
            a.len() == b.len(),
            forall|j: int| 0 <= j < i ==> a[j] == b[j],
        decreases a.len() - i,
    {
        if a[i] != b[i] {
            return false;
        }
        i += 1;
    }
    assert(a@ =~= b@);
    true
}

/// A copy of a list of types.
pub fn clone_types(types: &Vec<Type>) -> (r: Vec<Type>)
    ensures
        types_model(&r) == types_model(types),
    decreases types,
{
    let mut r: Vec<Type> = Vec::new();
    let mut i: usize = 0;
    while i < types.len()
        invariant
            i <= types.len(),
            r.len() == i,
            forall|j: int| 0 <= j < i ==> r[j]@ == types[j]@,
        decreases types.len() - i,
    {
        r.push(types[i].duplicate());
        i += 1;
    }
    assert(types_model(&r) =~= types_model(types));
    r
}

/// Whether two lists of types are the same, element by element.
pub fn same_types(a: &Vec<Type>, b: &Vec<Type>) -> (r: bool)
    ensures
        r == (types_model(a) == types_model(b)),
    decreases a,
{
    if a.len() != b.len() {
        assert(types_model(a).len() != types_model(b).len());
        return false;
    }
    let mut i: usize = 0;
    while i < a.len()
        invariant
            i <= a.len(),
            a.len() == b.len(),
            forall|j: int| 0 <= j < i ==> a[j]@ == b[j]@,
        decreases a.len() - i,
    {
        if !a[i].same(&b[i]) {
            assert(types_model(a)[i as int] != types_model(b)[i as int]);
            return false;
        }
        i += 1;
    }
    assert(types_model(a) =~= types_model(b));
    true
}

impl Type {
    /// The type of a function that returns nothing: the empty tuple.
    pub fn unit() -> (r: Type)
        ensures
            r@ == TypeModel::unit(),
    {
        let types: Vec<Type> = Vec::new();
        assert(types_model(&types) =~= Seq::empty());
        Type::Tuple(types)
    }

    /// A copy of this type.
    pub fn duplicate(&self) -> (r: Type)
        ensures
            r@ == self@,
        decreases self,
    {
        match self {
            Type::Address => Type::Address,
            Type::Boolean => Type::Boolean,
            Type::Field => Type::Field,
            Type::Group => Type::Group,
            Type::IntegerType(integer) => Type::IntegerType(*integer),
            Type::Array(element, dimensions) => Type::Array(
                Box::new(element.duplicate()),
                clone_dimensions(dimensions),
            ),
            Type::Tuple(types) => Type::Tuple(clone_types(types)),
            Type::Circuit(identifier) => Type::Circuit(identifier.clone()),
            Type::Function(identifier) => Type::Function(identifier.clone()),
        }
    }

    /// Whether this type and `other` are the same type: the same variant with the same
    /// parts. Circuit and function types are compared by name.
    pub fn same(&self, other: &Type) -> (r: bool)
        ensures
            r == (self@ == other@),
        decreases self,
    {
        match (self, other) {
            (Type::Address, Type::Address) => true,
            (Type::Boolean, Type::Boolean) => true,
            (Type::Field, Type::Field) => true,
            (Type::Group, Type::Group) => true,
            (Type::IntegerType(a), Type::IntegerType(b)) => *a == *b,
            (Type::Array(a, a_dimensions), Type::Array(b, b_dimensions)) => a.same(b)
                && same_dimensions(a_dimensions, b_dimensions),
            (Type::Tuple(a), Type::Tuple(b)) => same_types(a, b),
            (Type::Circuit(a), Type::Circuit(b)) => a.name == b.name,
            (Type::Function(a), Type::Function(b)) => a.name == b.name,
            _ => false,
        }
    }
}

impl Clone for Type {
    fn clone(&self) -> (r: Self)
        ensures
            r@ == self@,
    {
        self.duplicate()
    }
}

/// A copy of an optional type.
pub fn clone_optional_type(type_: &Option<Type>) -> (r: Option<Type>)
    ensures
        optional_type_model(r) == optional_type_model(*type_),
{
    match type_ {
        Some(type_) => Some(type_.duplicate()),
        None => None,
    }
}

} // verus!
