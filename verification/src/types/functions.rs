use crate::common::{Attribute, Identifier, IdentifierModel, Span};
use crate::types::types::{Type, TypeModel};
use vstd::prelude::*;

verus! {

/// An input of a function with its resolved type.
#[derive(Debug, PartialEq, Eq)]
pub struct FunctionInputVariableType {
    /// Name of function input
    pub identifier: Identifier,
    /// Type of function input
    pub type_: Type,
    /// The attributes of the function input
    pub attributes: Vec<Attribute>,
    /// The span of the function input
    pub span: Span,
}

/// What a [`FunctionInputVariableType`] stands for in contracts.
pub ghost struct FunctionInputVariableModel {
    pub identifier: IdentifierModel,
    pub type_: TypeModel,
    pub attributes: Seq<Attribute>,
    pub span: Span,
}

impl View for FunctionInputVariableType {
    type V = FunctionInputVariableModel;

    open spec fn view(&self) -> FunctionInputVariableModel {
        FunctionInputVariableModel {
            identifier: self.identifier@,
            type_: self.type_@,
            attributes: self.attributes@,
            span: self.span,
        }
    }
}

impl Clone for FunctionInputVariableType {
    fn clone(&self) -> (r: Self)
        ensures
            r@ == self@,
    {
        FunctionInputVariableType {
            identifier: self.identifier.clone(),
            type_: self.type_.duplicate(),
            attributes: self.attributes.clone(),
            span: self.span,
        }
    }
}

/// An input of a function: the `input` keyword, or a variable with its type.
#[derive(Debug, PartialEq, Eq)]
pub enum FunctionInputType {
    InputKeyword(Identifier),
    Variable(FunctionInputVariableType),
}

/// What a [`FunctionInputType`] stands for in contracts.
pub ghost enum FunctionInputModel {
    InputKeyword(IdentifierModel),
    Variable(FunctionInputVariableModel),
}

impl FunctionInputModel {
    /// The type that an argument for this input has to have, where the input has a type.
    pub open spec fn expected_type(self) -> Option<TypeModel> {
        match self {
            FunctionInputModel::InputKeyword(_) => None,
            FunctionInputModel::Variable(variable) => Some(variable.type_),
        }
    }
}

impl View for FunctionInputType {
    type V = FunctionInputModel;

    open spec fn view(&self) -> FunctionInputModel {
        match self {
            FunctionInputType::InputKeyword(identifier) => FunctionInputModel::InputKeyword(
                identifier@,
            ),
            FunctionInputType::Variable(variable) => FunctionInputModel::Variable(variable@),
        }
    }
}

impl Clone for FunctionInputType {
    fn clone(&self) -> (r: Self)
        ensures
            r@ == self@,
    {
        match self {
            FunctionInputType::InputKeyword(identifier) => FunctionInputType::InputKeyword(
                identifier.clone(),
            ),
            FunctionInputType::Variable(variable) => FunctionInputType::Variable(
                variable.clone(),
            ),
        }
    }
}

/// The resolved type that a function returns.
#[derive(Debug, PartialEq, Eq)]
pub struct FunctionOutputType {
    /// Type of function output
    pub type_: Type,
}

impl View for FunctionOutputType {
    type V = TypeModel;

    open spec fn view(&self) -> TypeModel {
        self.type_@
    }
}

impl Clone for FunctionOutputType {
    fn clone(&self) -> (r: Self)
        ensures
            r@ == self@,
    {
        FunctionOutputType { type_: self.type_.duplicate() }
    }
}

/// The signature of a function: its name, its inputs in order, and what it returns.
#[derive(Debug, PartialEq, Eq)]
pub struct FunctionType {
    /// The name of the function definition
    pub identifier: Identifier,
    /// The function inputs
    pub inputs: Vec<FunctionInputType>,
    /// The function return output
    pub output: FunctionOutputType,
}

/// What a [`FunctionType`] stands for in contracts.
pub ghost struct FunctionTypeModel {
    pub identifier: IdentifierModel,
    pub inputs: Seq<FunctionInputModel>,
    pub output: TypeModel,
}

impl FunctionTypeModel {
}

/// The view of every input of a list.
pub open spec fn inputs_view(inputs: Seq<FunctionInputType>) -> Seq<FunctionInputModel> {
    inputs.map_values(|input: FunctionInputType| input@)
}

impl View for FunctionType {
    type V = FunctionTypeModel;

    open spec fn view(&self) -> FunctionTypeModel {
        FunctionTypeModel {
            identifier: self.identifier@,
            inputs: inputs_view(self.inputs@),
            output: self.output@,
        }
    }
}

impl Clone for FunctionType {
    fn clone(&self) -> (r: Self)
        ensures
            r@ == self@,
    {
        let inputs = self.inputs.clone();
        assert(inputs_view(inputs@) =~= inputs_view(self.inputs@));
        FunctionType {
            identifier: self.identifier.clone(),
            inputs,
            output: self.output.clone(),
        }
    }
}

} // verus!
