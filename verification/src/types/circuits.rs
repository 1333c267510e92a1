use crate::common::{Attribute, Identifier, IdentifierModel};
use crate::errors::{TypeError, TypeErrorModel};
use crate::search::{find, lemma_position_found, lemma_position_none};
use crate::types::functions::{FunctionType, FunctionTypeModel};
use crate::types::types::{Type, TypeModel};
use vstd::prelude::*;

verus! {

/// A member variable of a circuit with its resolved type.
#[derive(Debug, PartialEq, Eq)]
pub struct CircuitVariableType {
    /// The name of the circuit member variable
    pub identifier: Identifier,
    /// The type of the circuit member variable
    pub type_: Type,
    /// The attributes of the circuit member variable
    pub attributes: Vec<Attribute>,
}

/// What a [`CircuitVariableType`] stands for in contracts.
pub ghost struct CircuitVariableModel {
    pub identifier: IdentifierModel,
    pub type_: TypeModel,
    pub attributes: Seq<Attribute>,
}

impl View for CircuitVariableType {
    type V = CircuitVariableModel;

    open spec fn view(&self) -> CircuitVariableModel {
        CircuitVariableModel {
            identifier: self.identifier@,
            type_: self.type_@,
            attributes: self.attributes@,
        }
    }
}

impl Clone for CircuitVariableType {
    fn clone(&self) -> (r: Self)
        ensures
            r@ == self@,
    {
        CircuitVariableType {
            identifier: self.identifier.clone(),
            type_: self.type_.duplicate(),
            attributes: self.attributes.clone(),
        }
    }
}

/// A member function of a circuit with its resolved signature.
#[derive(Debug, PartialEq, Eq)]
pub struct CircuitFunctionType {
    /// The function signature of the circuit function
    pub function: FunctionType,
    /// The attributes of the circuit function
    pub attributes: Vec<Attribute>,
}

/// What a [`CircuitFunctionType`] stands for in contracts.
pub ghost struct CircuitFunctionModel {
    pub function: FunctionTypeModel,
    pub attributes: Seq<Attribute>,
}

impl CircuitFunctionModel {
    /// The function is called on the circuit itself, not on a value of it.
    pub open spec fn is_static(self) -> bool {
        self.attributes.contains(Attribute::Static)
    }
}

impl View for CircuitFunctionType {
    type V = CircuitFunctionModel;

    open spec fn view(&self) -> CircuitFunctionModel {
        CircuitFunctionModel { function: self.function@, attributes: self.attributes@ }
    }
}

impl Clone for CircuitFunctionType {
    fn clone(&self) -> (r: Self)
        ensures
            r@ == self@,
    {
        CircuitFunctionType {
            function: self.function.clone(),
            attributes: self.attributes.clone(),
        }
    }
}

/// The definition of a circuit: its name, its member variables and its member functions,
/// each in the order of the source.
#[derive(Debug, PartialEq, Eq)]
pub struct CircuitType {
    /// The name of the circuit definition
    pub identifier: Identifier,
    /// The circuit member variables
    pub variables: Vec<CircuitVariableType>,
    /// The circuit member functions
    pub functions: Vec<CircuitFunctionType>,
}

/// What a [`CircuitType`] stands for in contracts.
pub ghost struct CircuitTypeModel {
    pub identifier: IdentifierModel,
    pub variables: Seq<CircuitVariableModel>,
    pub functions: Seq<CircuitFunctionModel>,
}

impl CircuitTypeModel {
    /// The first member variable called `name`.
    pub open spec fn variable(self, name: Seq<char>) -> Option<CircuitVariableModel> {
        find(self.variables, |variable: CircuitVariableModel| variable.identifier.name == name)
    }

    /// The first member function called `name`.
    pub open spec fn function(self, name: Seq<char>) -> Option<CircuitFunctionModel> {
        find(
            self.functions,
            |function: CircuitFunctionModel| function.function.identifier.name == name,
        )
    }

    /// The type of the member variable `member`; where there is no such variable, what the
    /// member function `member` returns; an error where there is neither.
    pub open spec fn member_type(self, member: IdentifierModel) -> Result<
        TypeModel,
        TypeErrorModel,
    > {
        match self.variable(member.name) {
            Some(variable) => Ok(variable.type_),
            None => match self.function(member.name) {
                Some(function) => Ok(function.function.output),
                None => Err(TypeErrorModel::UndefinedCircuitMember(member)),
            },
        }
    }
}

/// The view of every member variable of a list.
pub open spec fn variables_view(variables: Seq<CircuitVariableType>) -> Seq<CircuitVariableModel> {
    variables.map_values(|variable: CircuitVariableType| variable@)
}

/// The view of every member function of a list.
pub open spec fn functions_view(functions: Seq<CircuitFunctionType>) -> Seq<CircuitFunctionModel> {
    functions.map_values(|function: CircuitFunctionType| function@)
}

impl View for CircuitType {
    type V = CircuitTypeModel;

    open spec fn view(&self) -> CircuitTypeModel {
        CircuitTypeModel {
            identifier: self.identifier@,
            variables: variables_view(self.variables@),
            functions: functions_view(self.functions@),
        }
    }
}

impl Clone for CircuitType {
    fn clone(&self) -> (r: Self)
        ensures
            r@ == self@,
    {
        let variables = self.variables.clone();
        let functions = self.functions.clone();
        assert(variables_view(variables@) =~= variables_view(self.variables@));
        assert(functions_view(functions@) =~= functions_view(self.functions@));
        CircuitType { identifier: self.identifier.clone(), variables, functions }
    }
}

impl CircuitType {
    /// The first member variable called `name`.
    pub fn variable(&self, name: &String) -> (r: Option<&CircuitVariableType>)
        ensures
            match r {
                Some(variable) => self@.variable(name@) == Some(variable@),
                None => self@.variable(name@) is None,
            },
    {
        let ghost p = |variable: CircuitVariableModel| variable.identifier.name == name@;
        let mut i: usize = 0;
        while i < self.variables.len()
            invariant
                i <= self.variables.len(),
                p == (|variable: CircuitVariableModel| variable.identifier.name == name@),
                forall|j: int| 0 <= j < i ==> !p(#[trigger] self@.variables[j]),
            decreases self.variables.len() - i,
        {
            if self.variables[i].identifier.name == *name {
                proof {
                    lemma_position_found(self@.variables, p, i as int);
                }
                return Some(&self.variables[i]);
            }
            i += 1;
        }
        proof {
            lemma_position_none(self@.variables, p);
        }
        None
    }

    /// The first member function called `name`.
    pub fn function(&self, name: &String) -> (r: Option<&CircuitFunctionType>)
        ensures
            match r {
                Some(function) => self@.function(name@) == Some(function@),
                None => self@.function(name@) is None,
            },
    {
        let ghost p = |function: CircuitFunctionModel| function.function.identifier.name == name@;
        let mut i: usize = 0;
        while i < self.functions.len()
            invariant
                i <= self.functions.len(),
                p == (|function: CircuitFunctionModel| function.function.identifier.name == name@),
                forall|j: int| 0 <= j < i ==> !p(#[trigger] self@.functions[j]),
            decreases self.functions.len() - i,
        {
            if self.functions[i].function.identifier.name == *name {
                proof {
                    lemma_position_found(self@.functions, p, i as int);
                }
                return Some(&self.functions[i]);
            }
            i += 1;
        }
        proof {
            lemma_position_none(self@.functions, p);
        }
        None
    }

    /// Resolves the type of a circuit variable or the return type of a circuit function.
    pub fn member_type(&self, identifier: &Identifier) -> (r: Result<&Type, TypeError>)
        ensures
            match r {
                Ok(type_) => self@.member_type(identifier@) == Ok::<TypeModel, TypeErrorModel>(
                    type_@,
                ),
                Err(error) => self@.member_type(identifier@) == Err::<TypeModel, TypeErrorModel>(
                    error@,
                ),
            },
    {
        match self.variable(&identifier.name) {
            Some(variable) => Ok(&variable.type_),
            None => match self.function(&identifier.name) {
                Some(function) => Ok(&function.function.output.type_),
                None => Err(TypeError::UndefinedCircuitMember(identifier.clone())),
            },
        }
    }
}

} // verus!
