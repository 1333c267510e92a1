use crate::ast::types::{Type as UnresolvedType, UnresolvedTypeModel, types_model as unresolved_types_model};
use crate::common::{Identifier, IdentifierModel, Span};
use crate::errors::{TypeError, TypeErrorModel, result_view};
use crate::symbol_table::{SymbolTable, TableModel};
use crate::types::types::{Type, TypeModel, clone_dimensions, types_model};
use vstd::prelude::*;

verus! {

/// The type that a written type stands for. `circuit` is the circuit inside whose definition
/// the type is written, if any: there `Self` is that circuit, elsewhere it is an error. The
/// name of a circuit has to denote a circuit in `table`: a name that is not bound, or is bound
/// to something else, is the name of no circuit. The parts of a tuple are resolved in order,
/// and the first error is the error of the whole.
pub open spec fn resolve_type(
    table: TableModel,
    type_: UnresolvedTypeModel,
    circuit: Option<IdentifierModel>,
    span: Span,
) -> Result<TypeModel, TypeErrorModel>
    decreases type_, 0int,
{
    match type_ {
        UnresolvedTypeModel::Address => Ok(TypeModel::Address),
        UnresolvedTypeModel::Boolean => Ok(TypeModel::Boolean),
        UnresolvedTypeModel::Field => Ok(TypeModel::Field),
        UnresolvedTypeModel::Group => Ok(TypeModel::Group),
        UnresolvedTypeModel::IntegerType(integer) => Ok(TypeModel::IntegerType(integer)),
        UnresolvedTypeModel::Array(element, dimensions) => match resolve_type(
            table,
            *element,
            circuit,
            span,
        ) {
            Ok(element) => Ok(TypeModel::Array(Box::new(element), dimensions)),
            Err(error) => Err(error),
        },
        UnresolvedTypeModel::Tuple(types) => match resolve_types(table, types, circuit, span) {
            Ok(types) => Ok(TypeModel::Tuple(types)),
            Err(error) => Err(error),
        },
        UnresolvedTypeModel::Circuit(identifier) => if table.denotes_circuit(identifier.name) {
            Ok(TypeModel::Circuit(identifier.name))
        } else {
            Err(TypeErrorModel::UndefinedCircuit(identifier))
        },
        UnresolvedTypeModel::SelfType => match circuit {
            Some(circuit) => Ok(TypeModel::Circuit(circuit.name)),
            None => Err(TypeErrorModel::SelfNotAvailable(span)),
        },
    }
}

/// The types that a list of written types stands for, or the error of the first of them that
/// has one.
pub open spec fn resolve_types(
    table: TableModel,
    types: Seq<UnresolvedTypeModel>,
    circuit: Option<IdentifierModel>,
    span: Span,
) -> Result<Seq<TypeModel>, TypeErrorModel>
    decreases types, 1int,
{
    if types.len() == 0 {
        Ok(Seq::empty())
    } else {
        match resolve_types(table, types.drop_last(), circuit, span) {
            Err(error) => Err(error),
            Ok(resolved) => match resolve_type(table, types.last(), circuit, span) {
                Err(error) => Err(error),
                Ok(type_) => Ok(resolved.push(type_)),
            },
        }
    }
}

/// The type that an optional written type stands for, where it is there.
pub open spec fn resolve_optional_type(
    table: TableModel,
    type_: Option<UnresolvedTypeModel>,
    circuit: Option<IdentifierModel>,
    span: Span,
) -> Result<Option<TypeModel>, TypeErrorModel> {
    match type_ {
        None => Ok(None),
        Some(type_) => match resolve_type(table, type_, circuit, span) {
            Ok(type_) => Ok(Some(type_)),
            Err(error) => Err(error),
        },
    }
}

/// The view of an optional borrowed identifier.
pub open spec fn optional_name_view(identifier: Option<&Identifier>) -> Option<IdentifierModel> {
    match identifier {
        Some(identifier) => Some(identifier@),
        None => None,
    }
}

/// The view of a list of types or an error.
pub open spec fn types_result_view(result: Result<Vec<Type>, TypeError>) -> Result<
    Seq<TypeModel>,
    TypeErrorModel,
> {
    match result {
        Ok(types) => Ok(types_model(&types)),
        Err(error) => Err(error@),
    }
}

/// Resolves a list of types in order and stops at the first error.
fn resolve_types_in(
    table: &SymbolTable,
    types: &Vec<UnresolvedType>,
    circuit: Option<&Identifier>,
    span: Span,
) -> (r: Result<Vec<Type>, TypeError>)
    requires
        table.wf(),
    ensures
        types_result_view(r) == resolve_types(
            table@,
            unresolved_types_model(types),
            optional_name_view(circuit),
            span,
        ),
    decreases types, 1int,
{
    let ghost all = unresolved_types_model(types);
    let ghost context = optional_name_view(circuit);
    let mut resolved: Vec<Type> = Vec::new();
    let mut i: usize = 0;
    assert(all.take(0) =~= Seq::empty());
    assert(types_model(&resolved) =~= Seq::empty());
    while i < types.len()
        invariant
            table.wf(),
            i <= types.len(),
            all == unresolved_types_model(types),
            context == optional_name_view(circuit),
            resolve_types(table@, all.take(i as int), context, span) == Ok::<
                Seq<TypeModel>,
                TypeErrorModel,
            >(types_model(&resolved)),
        decreases types.len() - i,
    {
        let ghost before = types_model(&resolved);
        proof {
            assert(all.take(i + 1).drop_last() =~= all.take(i as int));
            assert(all.take(i + 1).last() == types[i as int]@);
        }
        match Type::resolve_in(table, &types[i], circuit, span) {
            Ok(type_) => {
                resolved.push(type_);
                assert(types_model(&resolved) =~= before.push(type_@));
            },
            Err(error) => {
                proof {
                    lemma_resolve_types_error(table@, all, context, span, i + 1);
                }
                return Err(error);
            },
        }
        i += 1;
    }
    assert(all.take(i as int) =~= all);
    Ok(resolved)
}

/// An error among the first `n` types is the error of the whole list.
pub proof fn lemma_resolve_types_error(
    table: TableModel,
    types: Seq<UnresolvedTypeModel>,
    circuit: Option<IdentifierModel>,
    span: Span,
    n: int,
)
    requires
        0 <= n <= types.len(),
        resolve_types(table, types.take(n), circuit, span) is Err,
    ensures
        resolve_types(table, types, circuit, span) == resolve_types(
            table,
            types.take(n),
            circuit,
            span,
        ),
    decreases types.len() - n,
{
    if n < types.len() {
        assert(types.take(n + 1).drop_last() =~= types.take(n));
        lemma_resolve_types_error(table, types, circuit, span, n + 1);
    } else {
        assert(types.take(n) =~= types);
    }
}

impl Type {
    /// Resolves a type that is written inside the definition of `circuit`, or outside of any
    /// circuit where `circuit` is `None`.
    pub fn resolve_in(
        table: &SymbolTable,
        type_: &UnresolvedType,
        circuit: Option<&Identifier>,
        span: Span,
    ) -> (r: Result<Type, TypeError>)
        requires
            table.wf(),
        ensures
            result_view(r) == resolve_type(table@, type_@, optional_name_view(circuit), span),
        decreases type_, 0int,
    {
        match type_ {
            UnresolvedType::Address => Ok(Type::Address),
            UnresolvedType::Boolean => Ok(Type::Boolean),
            UnresolvedType::Field => Ok(Type::Field),
            UnresolvedType::Group => Ok(Type::Group),
            UnresolvedType::IntegerType(integer) => Ok(Type::IntegerType(*integer)),
            UnresolvedType::Array(element, dimensions) => {
                match Type::resolve_in(table, element, circuit, span) {
                    Ok(element) => Ok(Type::Array(Box::new(element), clone_dimensions(dimensions))),
                    Err(error) => Err(error),
                }
            },
            UnresolvedType::Tuple(types) => {
                match resolve_types_in(table, types, circuit, span) {
                    Ok(types) => Ok(Type::Tuple(types)),
                    Err(error) => Err(error),
                }
            },
            UnresolvedType::Circuit(identifier) => {
                // Lookup the circuit type in the symbol table
                let exists = table.denotes_circuit(&identifier.name);

                // Throw an error if the circuit does not exist
                if !exists {
                    return Err(TypeError::UndefinedCircuit(identifier.clone()));
                }
                Ok(Type::Circuit(identifier.clone()))
            },
            UnresolvedType::SelfType => match circuit {
                Some(circuit) => Ok(Type::Circuit(circuit.clone())),
                // Throw an error for using `Self` outside of a circuit
                None => Err(TypeError::SelfNotAvailable(span)),
            },
        }
    }

    /// Resolves the given type outside of any circuit: `Self` is an error.
    pub fn resolve(table: &SymbolTable, type_: &UnresolvedType, span: Span) -> (r: Result<
        Type,
        TypeError,
    >)
        requires
            table.wf(),
        ensures
            result_view(r) == resolve_type(table@, type_@, None, span),
    {
        Type::resolve_in(table, type_, None, span)
    }

    /// Resolve a type inside of a circuit definition.
    /// If this type is SelfType, return the circuit's type
    pub fn from_circuit(
        table: &SymbolTable,
        type_: &UnresolvedType,
        circuit_name: &Identifier,
        span: Span,
    ) -> (r: Result<Type, TypeError>)
        requires
            table.wf(),
        ensures
            result_view(r) == resolve_type(table@, type_@, Some(circuit_name@), span),
    {
        Type::resolve_in(table, type_, Some(circuit_name), span)
    }
}

} // verus!
