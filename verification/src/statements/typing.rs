use crate::ast::statement::{
    UnresolvedAccessModel, UnresolvedAssigneeModel, UnresolvedConditionalModel,
    UnresolvedNestedOrEndModel, UnresolvedStatementModel, VariablesModel,
};
use crate::ast::{RangeOrExpressionModel, UnresolvedTypeModel};
use crate::expressions::expression::types_of;
use crate::expressions::rules::index_type;
use crate::expressions::typing::{well_typed, written_all};
use crate::statements::rules::{define, define_all, loop_entry};
use crate::statements::statement::{
    AccessModel, AssigneeModel, ConditionalModel, DefinitionModel, DefinitionVariablesModel,
    NestedOrEndModel, StatementModel,
};
use crate::symbol_table::TableModel;
use crate::types::TypeModel;
use vstd::prelude::*;

verus! {

impl AccessModel {
    /// The access that this resolved access is written as.
    pub open spec fn written(self) -> UnresolvedAccessModel {
        match self {
            AccessModel::Array(index) => UnresolvedAccessModel::Array(
                RangeOrExpressionModel::Expression(index.written()),
            ),
            AccessModel::ArrayRange(from, to) => UnresolvedAccessModel::Array(
                RangeOrExpressionModel::Range(Some(from.written()), Some(to.written())),
            ),
            AccessModel::Tuple(index) => UnresolvedAccessModel::Tuple(index),
            AccessModel::Member(member) => UnresolvedAccessModel::Member(member),
        }
    }
}

impl AssigneeModel {
    /// The assignee that this resolved assignee is written as.
    pub open spec fn written(self) -> UnresolvedAssigneeModel {
        UnresolvedAssigneeModel {
            identifier: self.identifier,
            accesses: self.accesses.map_values(|access: AccessModel| access.written()),
        }
    }
}

impl DefinitionModel {
    /// The statement that this resolved definition is written as, with the type `type_` or
    /// without a type: one value for one name or for the parts of a tuple, the parts of a
    /// tuple for one name, or as many values as names.
    pub open spec fn written_with(self, type_: Option<UnresolvedTypeModel>) -> UnresolvedStatementModel {
        match self.variables {
            DefinitionVariablesModel::Single(name, expression) => {
                UnresolvedStatementModel::Definition(
                    self.declare,
                    VariablesModel { names: seq![name], type_ },
                    seq![expression.written()],
                    self.span,
                )
            },
            DefinitionVariablesModel::Tuple(name, expression) => {
                UnresolvedStatementModel::Definition(
                    self.declare,
                    VariablesModel { names: seq![name], type_ },
                    written_all(expression.value->Tuple_0),
                    self.span,
                )
            },
            DefinitionVariablesModel::MultipleVariable(names, expressions) => {
                UnresolvedStatementModel::Definition(
                    self.declare,
                    VariablesModel { names, type_ },
                    written_all(expressions),
                    self.span,
                )
            },
            DefinitionVariablesModel::MultipleVariableTuple(names, expression) => {
                UnresolvedStatementModel::Definition(
                    self.declare,
                    VariablesModel { names, type_ },
                    seq![expression.written()],
                    self.span,
                )
            },
        }
    }

    /// The statement that this resolved definition is written as, without a type.
    pub open spec fn written(self) -> UnresolvedStatementModel {
        self.written_with(None)
    }

    /// The type of what the definition defines: the type of its one value, or the tuple of
    /// the types of its values.
    pub open spec fn defined_type(self) -> TypeModel {
        match self.variables {
            DefinitionVariablesModel::Single(_, expression) => expression.type_,
            DefinitionVariablesModel::Tuple(_, expression) => expression.type_,
            DefinitionVariablesModel::MultipleVariable(_, expressions) => TypeModel::Tuple(
                types_of(expressions),
            ),
            DefinitionVariablesModel::MultipleVariableTuple(_, expression) => expression.type_,
        }
    }
}

/// The statements that a list of resolved statements is written as.
pub open spec fn written_statements(statements: Seq<StatementModel>) -> Seq<
    UnresolvedStatementModel,
>
    decreases statements, 1int,
{
    Seq::new(
        statements.len(),
        |i: int|
            if 0 <= i < statements.len() {
                statements[i].written()
            } else {
                arbitrary()
            },
    )
}

impl StatementModel {
    /// The statement that this resolved statement is written as.
    pub open spec fn written(self) -> UnresolvedStatementModel
        decreases self, 0int,
    {
        match self {
            StatementModel::Return(expression, span) => UnresolvedStatementModel::Return(
                expression.written(),
                span,
            ),
            StatementModel::Definition(definition) => definition.written(),
            StatementModel::Assign(assign) => UnresolvedStatementModel::Assign(
                assign.assignee.written(),
                assign.expression.written(),
                assign.span,
            ),
            StatementModel::Conditional(conditional) => UnresolvedStatementModel::Conditional(
                conditional.written(),
                conditional.span,
            ),
            StatementModel::Iteration(variable, start, stop, statements, span) => {
                UnresolvedStatementModel::Iteration(
                    variable,
                    start.written(),
                    stop.written(),
                    written_statements(statements),
                    span,
                )
            },
            StatementModel::Expression(expression, span) => UnresolvedStatementModel::Expression(
                expression.written(),
                span,
            ),
        }
    }
}

impl ConditionalModel {
    /// The conditional that this resolved conditional is written as.
    pub open spec fn written(self) -> UnresolvedConditionalModel
        decreases self, 0int,
    {
        UnresolvedConditionalModel {
            condition: self.condition.written(),
            statements: written_statements(self.statements),
            next: match self.next {
                None => None,
                Some(NestedOrEndModel::Nested(nested)) => Some(
                    UnresolvedNestedOrEndModel::Nested(Box::new(nested.written())),
                ),
                Some(NestedOrEndModel::End(statements)) => Some(
                    UnresolvedNestedOrEndModel::End(written_statements(statements)),
                ),
            },
        }
    }
}

/// The type of the part that `access` reaches in a value of type `type_`, where the access
/// is well typed: an index is an index and reaches into an array, a number reaches into a
/// tuple that has such a part, a name reaches into a circuit that has such a member, or
/// into what a function returns.
pub open spec fn access_type(table: TableModel, type_: TypeModel, access: AccessModel) -> Option<
    TypeModel,
> {
    match access {
        AccessModel::Array(index) => if type_.is_array() && well_typed(table, index) && index.type_
            == index_type() {
            Some(type_.element_type())
        } else {
            None
        },
        AccessModel::ArrayRange(from, to) => if type_.is_array() && well_typed(table, from)
            && from.type_ == index_type() && well_typed(table, to) && to.type_ == index_type() {
            Some(type_)
        } else {
            None
        },
        AccessModel::Tuple(index) => match type_ {
            TypeModel::Tuple(types) => if index < types.len() {
                Some(types[index as int])
            } else {
                None
            },
            _ => None,
        },
        AccessModel::Member(member) => match type_ {
            TypeModel::Circuit(name) => match table.get_circuit(name) {
                Some(circuit) => match circuit.member_type(member) {
                    Ok(type_) => Some(type_),
                    Err(_) => None,
                },
                None => None,
            },
            TypeModel::Function(name) => match table.get_function(name) {
                Some(function) => Some(function.output),
                None => None,
            },
            _ => None,
        },
    }
}

/// The type of the part that the first `n` accesses reach in a value of type `type_`, where
/// each of them is well typed.
pub open spec fn accesses_type(
    table: TableModel,
    type_: TypeModel,
    accesses: Seq<AccessModel>,
    n: int,
) -> Option<TypeModel>
    decreases n,
{
    if n <= 0 {
        Some(type_)
    } else {
        match accesses_type(table, type_, accesses, n - 1) {
            None => None,
            Some(current) => access_type(table, current, accesses[n - 1]),
        }
    }
}

/// The table after a well-typed definition, and nothing where the definition is not well
/// typed. Every value is well typed; the names and values have one of the four shapes of a
/// definition; and every name can be bound in the scope itself.
pub open spec fn definition_typed(table: TableModel, definition: DefinitionModel) -> Option<
    TableModel,
> {
    match definition.variables {
        DefinitionVariablesModel::Single(name, expression) => if well_typed(table, expression) {
            match define(table, name, expression.type_) {
                Ok(after) => Some(after),
                Err(_) => None,
            }
        } else {
            None
        },
        DefinitionVariablesModel::Tuple(name, expression) => if well_typed(table, expression)
            && expression.value is Tuple && expression.value->Tuple_0.len() > 1
            && expression.value->Tuple_1 == definition.span {
            match define(table, name, expression.type_) {
                Ok(after) => Some(after),
                Err(_) => None,
            }
        } else {
            None
        },
        DefinitionVariablesModel::MultipleVariable(names, expressions) => if names.len()
            == expressions.len() && names.len() != 1 && (forall|i: int|
            0 <= i < expressions.len() ==> well_typed(table, #[trigger] expressions[i])) {
            match define_all(table, names, types_of(expressions), names.len() as int) {
                Ok(after) => Some(after),
                Err(_) => None,
            }
        } else {
            None
        },
        DefinitionVariablesModel::MultipleVariableTuple(names, expression) => if names.len() > 1
            && well_typed(table, expression) && expression.type_ is Tuple
            && expression.type_->Tuple_0.len() == names.len() {
            match define_all(table, names, expression.type_->Tuple_0, names.len() as int) {
                Ok(after) => Some(after),
                Err(_) => None,
            }
        } else {
            None
        },
    }
}

/// The table after a well-typed statement of a function that returns `return_type`, and
/// nothing where the statement is not well typed.
///
/// A return statement returns a well-typed value of the type that the function returns. An
/// assignment writes a well-typed value to a mutable variable, or to a part of it, and the
/// value has the type of what it is written to. The condition of a conditional is a
/// well-typed boolean, and each of its branches is well typed in a scope of its own. The
/// ends of a loop are well-typed integers of one type, and its body is well typed in a scope
/// of its own that binds the variable of the loop.
pub open spec fn statement_typed(
    table: TableModel,
    return_type: TypeModel,
    statement: StatementModel,
) -> Option<TableModel>
    decreases statement, 0int,
{
    match statement {
        StatementModel::Return(expression, _) => if well_typed(table, expression)
            && expression.type_ == return_type {
            Some(table)
        } else {
            None
        },
        StatementModel::Definition(definition) => definition_typed(table, definition),
        StatementModel::Assign(assign) => match table.get_variable(assign.assignee.identifier.name) {
            Some(variable) => if variable.is_mutable() && accesses_type(
                table,
                variable.type_,
                assign.assignee.accesses,
                assign.assignee.accesses.len() as int,
            ) == Some(assign.expression.type_) && well_typed(table, assign.expression) {
                Some(table)
            } else {
                None
            },
            None => None,
        },
        StatementModel::Conditional(conditional) => if conditional_typed(
            table,
            return_type,
            conditional,
        ) {
            Some(table)
        } else {
            None
        },
        StatementModel::Iteration(variable, start, stop, statements, _) => if well_typed(
            table,
            start,
        ) && start.type_.is_integer() && well_typed(table, stop) && stop.type_ == start.type_
            && statements_typed(
            table.child().insert_variable(variable.name, loop_entry(variable, start.type_)),
            return_type,
            statements,
        ) is Some {
            Some(table)
        } else {
            None
        },
        StatementModel::Expression(expression, _) => if well_typed(table, expression) {
            Some(table)
        } else {
            None
        },
    }
}

/// The table after a list of well-typed statements, each typed in the table that the
/// statements before it leave; and nothing where one of them is not well typed.
pub open spec fn statements_typed(
    table: TableModel,
    return_type: TypeModel,
    statements: Seq<StatementModel>,
) -> Option<TableModel>
    decreases statements, 1int,
{
    if statements.len() == 0 {
        Some(table)
    } else {
        match statements_typed(table, return_type, statements.drop_last()) {
            None => None,
            Some(table) => statement_typed(table, return_type, statements.last()),
        }
    }
}

/// Whether a conditional is well typed: its condition is a well-typed boolean, each of its
/// branches is well typed in a scope of its own, and what follows it is written as a part
/// of it.
pub open spec fn conditional_typed(
    table: TableModel,
    return_type: TypeModel,
    conditional: ConditionalModel,
) -> bool
    decreases conditional, 0int,
{
    &&& well_typed(table, conditional.condition)
    &&& conditional.condition.type_ == TypeModel::Boolean
    &&& statements_typed(table.child(), return_type, conditional.statements) is Some
    &&& match conditional.next {
        None => true,
        Some(NestedOrEndModel::Nested(nested)) => nested.span == conditional.span
            && conditional_typed(table, return_type, *nested),
        Some(NestedOrEndModel::End(statements)) => statements_typed(
            table.child(),
            return_type,
            statements,
        ) is Some,
    }
}

} // verus!
