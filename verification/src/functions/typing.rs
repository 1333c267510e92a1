use crate::ast::UnresolvedFunctionModel;
use crate::functions::function::{FunctionModel, input_binder};
use crate::functions::result::returns_of;
use crate::sequence::try_fold;
use crate::statements::typing::{statements_typed, written_statements};
use crate::symbol_table::TableModel;
use crate::types::TypeModel;
use vstd::prelude::*;

verus! {

/// Whether exactly one of the results is returned on every path.
pub open spec fn returns_once(results: Seq<(bool, TypeModel)>) -> bool {
    exists|selected: int|
        0 <= selected < results.len() && (#[trigger] results[selected]).0 && forall|i: int|
            0 <= i < results.len() && i != selected ==> !(#[trigger] results[i]).0
}

/// Whether `function` is well typed in the scope `table`, where `written` is the function as
/// it is written: it is written with these statements; its inputs can be bound in a scope of
/// their own, nested in `table`; its statements are well typed in that scope; and where it
/// is written with a return type, exactly one of its return statements is reached on every
/// path, else it holds no return statement at all.
pub open spec fn function_typed(
    table: TableModel,
    written: UnresolvedFunctionModel,
    function: FunctionModel,
) -> bool {
    &&& written.statements == written_statements(function.statements)
    &&& match try_fold(
        table.child(),
        function.type_.inputs,
        input_binder(),
        function.type_.inputs.len() as int,
    ) {
        Ok(scope) => statements_typed(scope, function.type_.output, function.statements) is Some,
        Err(_) => false,
    }
    &&& match written.returns {
        Some(_) => returns_once(returns_of(function.statements, true)),
        None => returns_of(function.statements, true).len() == 0,
    }
}

} // verus!
