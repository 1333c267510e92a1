use crate::ast::function::{Function, UnresolvedFunctionModel};
use crate::ast::types::{Type, UnresolvedTypeModel};
use crate::common::{Identifier, IdentifierModel};
use vstd::prelude::*;

verus! {

/// A member of a circuit as it is written in the source.
#[derive(Debug, PartialEq, Eq)]
pub enum CircuitMember {
    /// (is mutable, name, type)
    CircuitVariable(bool, Identifier, Type),
    /// (is static, function)
    CircuitFunction(bool, Function),
}

/// What a written [`CircuitMember`] stands for in contracts.
pub ghost enum UnresolvedCircuitMemberModel {
    CircuitVariable(bool, IdentifierModel, UnresolvedTypeModel),
    CircuitFunction(bool, UnresolvedFunctionModel),
}

impl View for CircuitMember {
    type V = UnresolvedCircuitMemberModel;

    open spec fn view(&self) -> UnresolvedCircuitMemberModel {
        match self {
            CircuitMember::CircuitVariable(mutable, identifier, type_) => {
                UnresolvedCircuitMemberModel::CircuitVariable(*mutable, identifier@, type_@)
            },
            CircuitMember::CircuitFunction(is_static, function) => {
                UnresolvedCircuitMemberModel::CircuitFunction(*is_static, function@)
            },
        }
    }
}

/// The view of every member of a list.
pub open spec fn members_view(members: Seq<CircuitMember>) -> Seq<UnresolvedCircuitMemberModel> {
    members.map_values(|member: CircuitMember| member@)
}

/// A circuit as it is written in the source.
#[derive(Debug, PartialEq, Eq)]
pub struct Circuit {
    pub circuit_name: Identifier,
    pub members: Vec<CircuitMember>,
}

/// What a written [`Circuit`] stands for in contracts.
pub ghost struct UnresolvedCircuitModel {
    pub circuit_name: IdentifierModel,
    pub members: Seq<UnresolvedCircuitMemberModel>,
}

impl View for Circuit {
    type V = UnresolvedCircuitModel;

    open spec fn view(&self) -> UnresolvedCircuitModel {
        UnresolvedCircuitModel {
            circuit_name: self.circuit_name@,
            members: members_view(self.members@),
        }
    }
}

/// The view of every circuit of a list.
pub open spec fn circuits_view(circuits: Seq<Circuit>) -> Seq<UnresolvedCircuitModel> {
    circuits.map_values(|circuit: Circuit| circuit@)
}

} // verus!
