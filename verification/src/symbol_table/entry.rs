use crate::ast::{Circuit, Function};
use crate::common::{Attribute, Identifier, IdentifierModel, has_attribute};
use crate::types::{FunctionInputVariableType, Type, TypeModel};
use vstd::prelude::*;

verus! {

/// A symbol table entry stores the type and attribute information for an identifier.
#[derive(Debug, PartialEq, Eq)]
pub struct Entry {
    pub identifier: Identifier,
    pub type_: Type,
    pub attributes: Vec<Attribute>,
}

/// What an [`Entry`] stands for in contracts.
pub ghost struct EntryModel {
    pub identifier: IdentifierModel,
    pub type_: TypeModel,
    pub attributes: Seq<Attribute>,
}

impl EntryModel {
    /// The value of the variable can be modified.
    pub open spec fn is_mutable(self) -> bool {
        self.attributes.contains(Attribute::Mutable)
    }

    /// The value of the variable is static.
    pub open spec fn is_static(self) -> bool {
        self.attributes.contains(Attribute::Static)
    }

    /// The entry that stands for the name of a circuit.
    pub open spec fn of_circuit(identifier: IdentifierModel) -> EntryModel {
        EntryModel {
            identifier,
            type_: TypeModel::Circuit(identifier.name),
            attributes: Seq::empty(),
        }
    }

    /// The entry that stands for the name of a function.
    pub open spec fn of_function(identifier: IdentifierModel) -> EntryModel {
        EntryModel {
            identifier,
            type_: TypeModel::Function(identifier.name),
            attributes: Seq::empty(),
        }
    }
}

impl View for Entry {
    type V = EntryModel;

    open spec fn view(&self) -> EntryModel {
        EntryModel {
            identifier: self.identifier@,
            type_: self.type_@,
            attributes: self.attributes@,
        }
    }
}

/// The view of an optional entry.
pub open spec fn optional_entry_model(entry: Option<Entry>) -> Option<EntryModel> {
    match entry {
        Some(entry) => Some(entry@),
        None => None,
    }
}

impl Clone for Entry {
    fn clone(&self) -> (r: Self)
        ensures
            r@ == self@,
    {
        Entry {
            identifier: self.identifier.clone(),
            type_: self.type_.duplicate(),
            attributes: self.attributes.clone(),
        }
    }
}

impl Entry {
    /// Returns the type of the variable
    pub fn type_(&self) -> (r: &Type)
        ensures
            r@ == self@.type_,
    {
        &self.type_
    }

    /// Returns `true` if this variable's value can be modified
    pub fn is_mutable(&self) -> (r: bool)
        ensures
            r == self@.is_mutable(),
    {
        has_attribute(&self.attributes, Attribute::Mutable)
    }

    /// Returns `true` if this variable's value is static
    pub fn is_static(&self) -> (r: bool)
        ensures
            r == self@.is_static(),
    {
        has_attribute(&self.attributes, Attribute::Static)
    }

    /// Writes the entry: the name that it binds.
    pub fn to_string(&self) -> (r: String)
        ensures
            r@ == self@.identifier.name,
    {
        self.identifier.name.clone()
    }

    /// The entry under which the name of a circuit is known before its definition is.
    pub fn from_circuit(value: &Circuit) -> (r: Entry)
        ensures
            r@ == EntryModel::of_circuit(value@.circuit_name),
    {
        Entry {
            identifier: value.circuit_name.clone(),
            type_: Type::Circuit(value.circuit_name.clone()),
            attributes: Vec::new(),
        }
    }

    /// The entry under which the name of a function is known before its definition is.
    pub fn from_function(value: &Function) -> (r: Entry)
        ensures
            r@ == EntryModel::of_function(value@.identifier),
    {
        Entry {
            identifier: value.identifier.clone(),
            type_: Type::Function(value.identifier.clone()),
            attributes: Vec::new(),
        }
    }

    /// The entry of a function input: its name, type and attributes.
    pub fn from_input(value: &FunctionInputVariableType) -> (r: Entry)
        ensures
            r@ == (EntryModel {
                identifier: value@.identifier,
                type_: value@.type_,
                attributes: value@.attributes,
            }),
    {
        Entry {
            identifier: value.identifier.clone(),
            type_: value.type_.duplicate(),
            attributes: value.attributes.clone(),
        }
    }
}

} // verus!
