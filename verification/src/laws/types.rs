use crate::ast::UnresolvedTypeModel;
use crate::common::{IdentifierModel, Span};
use crate::errors::TypeErrorModel;
use crate::symbol_table::TableModel;
use crate::types::TypeModel;
use crate::types::resolve::{resolve_type, resolve_types};
use vstd::prelude::*;

verus! {

/// Whether `type_` names a circuit that `table` does not know as a circuit.
pub open spec fn names_undefined_circuit(table: TableModel, type_: UnresolvedTypeModel) -> bool
    decreases type_,
{
    match type_ {
        UnresolvedTypeModel::Array(element, _) => names_undefined_circuit(table, *element),
        UnresolvedTypeModel::Tuple(types) => exists|i: int|
            0 <= i < types.len() && names_undefined_circuit(table, #[trigger] types[i]),
        UnresolvedTypeModel::Circuit(identifier) => !table.denotes_circuit(identifier.name),
        _ => false,
    }
}

/// Whether `Self` is written in `type_`.
pub open spec fn names_self(type_: UnresolvedTypeModel) -> bool
    decreases type_,
{
    match type_ {
        UnresolvedTypeModel::Array(element, _) => names_self(*element),
        UnresolvedTypeModel::Tuple(types) => exists|i: int|
            0 <= i < types.len() && names_self(#[trigger] types[i]),
        UnresolvedTypeModel::SelfType => true,
        _ => false,
    }
}

/// The error says that a circuit is not defined, and its name denotes no circuit in `table`.
pub open spec fn is_undefined_circuit(table: TableModel, error: TypeErrorModel) -> bool {
    error is UndefinedCircuit && !table.denotes_circuit(error->UndefinedCircuit_0.name)
}

/// A type in which `Self` is not written out of place is resolved if and only if every
/// circuit that it names is known; and if it names one that is not, the error says that a
/// circuit is not defined.
pub proof fn lemma_undefined_circuit_is_reported(
    table: TableModel,
    type_: UnresolvedTypeModel,
    circuit: Option<IdentifierModel>,
    span: Span,
)
    requires
        circuit is Some || !names_self(type_),
    ensures
        match resolve_type(table, type_, circuit, span) {
            Ok(_) => !names_undefined_circuit(table, type_),
            Err(error) => names_undefined_circuit(table, type_) && is_undefined_circuit(
                table,
                error,
            ),
        },
    decreases type_, 0int,
{
    match type_ {
        UnresolvedTypeModel::Array(element, _) => {
            lemma_undefined_circuit_is_reported(table, *element, circuit, span);
        },
        UnresolvedTypeModel::Tuple(types) => {
            assert forall|i: int| 0 <= i < types.len() implies (circuit is Some || !names_self(
                #[trigger] types[i],
            )) by {}
            lemma_undefined_circuits_are_reported(table, types, circuit, span);
        },
        _ => {},
    }
}

/// The law of [`lemma_undefined_circuit_is_reported`] for a list of types.
pub proof fn lemma_undefined_circuits_are_reported(
    table: TableModel,
    types: Seq<UnresolvedTypeModel>,
    circuit: Option<IdentifierModel>,
    span: Span,
)
    requires
        forall|i: int| 0 <= i < types.len() ==> (circuit is Some || !names_self(#[trigger] types[i])),
    ensures
        match resolve_types(table, types, circuit, span) {
            Ok(_) => forall|i: int|
                0 <= i < types.len() ==> !names_undefined_circuit(table, #[trigger] types[i]),
            Err(error) => (exists|i: int|
                0 <= i < types.len() && names_undefined_circuit(table, #[trigger] types[i]))
                && is_undefined_circuit(table, error),
        },
    decreases types, 1int,
{
    if types.len() > 0 {
        let front = types.drop_last();
        assert forall|i: int| 0 <= i < front.len() implies (circuit is Some || !names_self(
            #[trigger] front[i],
        )) by {
            assert(front[i] == types[i]);
        }
        lemma_undefined_circuits_are_reported(table, front, circuit, span);
        lemma_undefined_circuit_is_reported(table, types.last(), circuit, span);
        match resolve_types(table, front, circuit, span) {
            Err(error) => {
                let i = choose|i: int|
                    0 <= i < front.len() && names_undefined_circuit(table, #[trigger] front[i]);
                assert(front[i] == types[i]);
            },
            Ok(_) => {
                match resolve_type(table, types.last(), circuit, span) {
                    Err(error) => {
                        assert(names_undefined_circuit(table, types[types.len() - 1]));
                    },
                    Ok(_) => {
                        assert forall|i: int| 0 <= i < types.len() implies !names_undefined_circuit(
                            table,
                            #[trigger] types[i],
                        ) by {
                            if i < types.len() - 1 {
                                assert(front[i] == types[i]);
                            }
                        }
                    },
                }
            },
        }
    }
}

/// The type that `type_` stands for where every circuit that it names is defined: the same
/// type, variant by variant, with the same dimensions and the same parts in the same order;
/// `Self` stands for `circuit`.
pub open spec fn type_as_written(type_: UnresolvedTypeModel, circuit: Seq<char>) -> TypeModel
    decreases type_,
{
    match type_ {
        UnresolvedTypeModel::Address => TypeModel::Address,
        UnresolvedTypeModel::Boolean => TypeModel::Boolean,
        UnresolvedTypeModel::Field => TypeModel::Field,
        UnresolvedTypeModel::Group => TypeModel::Group,
        UnresolvedTypeModel::IntegerType(integer) => TypeModel::IntegerType(integer),
        UnresolvedTypeModel::Array(element, dimensions) => TypeModel::Array(
            Box::new(type_as_written(*element, circuit)),
            dimensions,
        ),
        UnresolvedTypeModel::Tuple(types) => TypeModel::Tuple(
            Seq::new(
                types.len(),
                |i: int|
                    if 0 <= i < types.len() {
                        type_as_written(types[i], circuit)
                    } else {
                        arbitrary()
                    },
            ),
        ),
        UnresolvedTypeModel::Circuit(identifier) => TypeModel::Circuit(identifier.name),
        UnresolvedTypeModel::SelfType => TypeModel::Circuit(circuit),
    }
}

/// The name of the circuit that `Self` stands for, where there is one.
pub open spec fn self_name(circuit: Option<IdentifierModel>) -> Seq<char> {
    match circuit {
        Some(circuit) => circuit.name,
        None => Seq::empty(),
    }
}

/// A type that is resolved is the type as it is written; and `Self` is resolved only inside
/// a circuit.
pub proof fn lemma_resolved_type_is_as_written(
    table: TableModel,
    type_: UnresolvedTypeModel,
    circuit: Option<IdentifierModel>,
    span: Span,
)
    requires
        resolve_type(table, type_, circuit, span) is Ok,
    ensures
        resolve_type(table, type_, circuit, span)->Ok_0 == type_as_written(
            type_,
            self_name(circuit),
        ),
        circuit is Some || !names_self(type_),
    decreases type_, 0int,
{
    match type_ {
        UnresolvedTypeModel::Array(element, _) => {
            lemma_resolved_type_is_as_written(table, *element, circuit, span);
        },
        UnresolvedTypeModel::Tuple(types) => {
            lemma_resolved_types_are_as_written(table, types, circuit, span);
            assert(resolve_types(table, types, circuit, span)->Ok_0 =~= type_as_written(
                type_,
                self_name(circuit),
            )->Tuple_0);
        },
        _ => {},
    }
}

/// The law of [`lemma_resolved_type_is_as_written`] for a list of types.
pub proof fn lemma_resolved_types_are_as_written(
    table: TableModel,
    types: Seq<UnresolvedTypeModel>,
    circuit: Option<IdentifierModel>,
    span: Span,
)
    requires
        resolve_types(table, types, circuit, span) is Ok,
    ensures
        resolve_types(table, types, circuit, span)->Ok_0.len() == types.len(),
        forall|i: int|
            0 <= i < types.len() ==> (#[trigger] resolve_types(table, types, circuit, span)->Ok_0[i])
                == type_as_written(types[i], self_name(circuit)),
        forall|i: int| 0 <= i < types.len() ==> (circuit is Some || !names_self(#[trigger] types[i])),
    decreases types, 1int,
{
    if types.len() > 0 {
        let front = types.drop_last();
        lemma_resolved_types_are_as_written(table, front, circuit, span);
        lemma_resolved_type_is_as_written(table, types.last(), circuit, span);
        let resolved = resolve_types(table, types, circuit, span)->Ok_0;
        let prefix = resolve_types(table, front, circuit, span)->Ok_0;
        assert forall|i: int| 0 <= i < types.len() implies (#[trigger] resolved[i])
            == type_as_written(types[i], self_name(circuit)) by {
            if i < types.len() - 1 {
                assert(resolved[i] == prefix[i]);
                assert(front[i] == types[i]);
            }
        }
        assert forall|i: int| 0 <= i < types.len() implies (circuit is Some || !names_self(
            #[trigger] types[i],
        )) by {
            if i < types.len() - 1 {
                assert(front[i] == types[i]);
            }
        }
    }
}

/// A type is resolved if and only if every name in it denotes a circuit and `Self` is
/// written in it only inside a circuit.
pub proof fn lemma_type_resolves_iff(
    table: TableModel,
    type_: UnresolvedTypeModel,
    circuit: Option<IdentifierModel>,
    span: Span,
)
    ensures
        resolve_type(table, type_, circuit, span) is Ok <==> (!names_undefined_circuit(
            table,
            type_,
        ) && (circuit is Some || !names_self(type_))),
{
    if resolve_type(table, type_, circuit, span) is Ok {
        lemma_resolved_type_is_as_written(table, type_, circuit, span);
    }
    if circuit is Some || !names_self(type_) {
        lemma_undefined_circuit_is_reported(table, type_, circuit, span);
    }
}

} // verus!
