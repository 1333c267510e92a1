use crate::ast::statement::VariableNameModel;
use crate::statements::rules::define;
use crate::symbol_table::{EntryModel, TableModel};
use crate::types::TypeModel;
use vstd::prelude::*;

verus! {

/// A nested scope sees every name of the scope around it.
pub proof fn lemma_child_sees_parent(table: TableModel, name: Seq<char>)
    ensures
        table.child().get_variable(name) == table.get_variable(name),
        table.child().get_circuit(name) == table.get_circuit(name),
        table.child().get_function(name) == table.get_function(name),
{
}

/// A name that is bound in a nested scope hides the binding of the scope around it, and
/// leaves every other name as it is.
pub proof fn lemma_binding_shadows(
    table: TableModel,
    name: Seq<char>,
    entry: EntryModel,
    other: Seq<char>,
)
    ensures
        table.child().insert_variable(name, entry).get_variable(name) == Some(entry),
        other != name ==> table.child().insert_variable(name, entry).get_variable(other)
            == table.get_variable(other),
{
}

/// A new scope binds nothing itself, so a definition in it never fails, whatever the scopes
/// around it bind.
pub proof fn lemma_shadowing_is_allowed(table: TableModel, name: VariableNameModel, type_: TypeModel)
    ensures
        define(table.child(), name, type_) is Ok,
{
}

} // verus!
