use crate::ast::UnresolvedExpressionModel;
use crate::errors::TypeErrorModel;
use crate::expressions::consistency::{
    all_consistent, arguments_agree, consistent, members_agree, members_consistent,
};
use crate::expressions::expression::{ExpressionModel, ExpressionValueModel, MemberModel, types_of};
use crate::expressions::rules::{argument_expected, callee_signature, element_expected, named_before, part_expected, resolve_bound, resolve_expression, resolve_expressions, resolve_members};
use crate::expressions::typing::{
    all_inferable, inferable, members_inferable, well_typed, written_all, written_members,
};
use crate::symbol_table::TableModel;
use crate::types::{CircuitTypeModel, TypeModel};
use vstd::prelude::*;

verus! {

/// Where each expression of a list is resolved to the expression at its place, the list is
/// resolved to the list.
pub proof fn lemma_list_resolves(
    table: TableModel,
    expected: spec_fn(int) -> Option<TypeModel>,
    written: Seq<UnresolvedExpressionModel>,
    resolved: Seq<ExpressionModel>,
)
    requires
        written.len() == resolved.len(),
        forall|i: int|
            0 <= i < written.len() ==> resolve_expression(table, expected(i), #[trigger] written[i])
                == Ok::<ExpressionModel, TypeErrorModel>(resolved[i]),
    ensures
        resolve_expressions(table, expected, written) == Ok::<
            Seq<ExpressionModel>,
            TypeErrorModel,
        >(resolved),
    decreases written.len(),
{
    if written.len() > 0 {
        let front = written.drop_last();
        assert forall|i: int| 0 <= i < front.len() implies resolve_expression(
            table,
            expected(i),
            #[trigger] front[i],
        ) == Ok::<ExpressionModel, TypeErrorModel>(resolved.drop_last()[i]) by {
            assert(front[i] == written[i]);
        }
        lemma_list_resolves(table, expected, front, resolved.drop_last());
        assert(written.last() == written[written.len() - 1]);
        assert(resolved.drop_last().push(resolved[resolved.len() - 1]) =~= resolved);
    } else {
        assert(resolved =~= Seq::empty());
    }
}

/// Where each member of a circuit expression names a member variable of the circuit, no two
/// members carry one name, and the value of each is resolved to the value at its place
/// where the type of its variable is asked for, the first `n` members are resolved to the
/// first `n` members.
pub proof fn lemma_members_resolve(
    table: TableModel,
    circuit: CircuitTypeModel,
    members: Seq<MemberModel>,
    n: int,
)
    requires
        0 <= n <= members.len(),
        forall|i: int, j: int|
            0 <= i < j < members.len() ==> (#[trigger] members[i]).identifier.name != (
            #[trigger] members[j]).identifier.name,
        forall|i: int|
            0 <= i < members.len() ==> circuit.variable((#[trigger] members[i]).identifier.name)
                is Some && resolve_expression(
                table,
                Some(circuit.variable(members[i].identifier.name)->Some_0.type_),
                members[i].expression.written(),
            ) == Ok::<ExpressionModel, TypeErrorModel>(members[i].expression),
    ensures
        resolve_members(table, circuit, written_members(members), n) == Ok::<
            Seq<MemberModel>,
            TypeErrorModel,
        >(members.take(n)),
    decreases n,
{
    let written = written_members(members);
    if n > 0 {
        lemma_members_resolve(table, circuit, members, n - 1);
        let member = written[n - 1];
        assert(member.identifier == members[n - 1].identifier);
        assert(member.expression == members[n - 1].expression.written());
        assert(!named_before(written, n - 1, member.identifier.name)) by {
            if named_before(written, n - 1, member.identifier.name) {
                let j = choose|j: int|
                    0 <= j < n - 1 && j < written.len() && (#[trigger] written[j]).identifier.name
                        == member.identifier.name;
                assert(written[j].identifier == members[j].identifier);
                assert(members[j].identifier.name != members[n - 1].identifier.name);
            }
        }
        assert(members.take(n - 1).push(members[n - 1]) =~= members.take(n));
    } else {
        assert(members.take(0) =~= Seq::empty());
    }
}

/// The law of resolution of well-typed expressions for operations and conditionals.
proof fn lemma_resolves_operation(table: TableModel, expression: ExpressionModel)
    requires
        well_typed(table, expression),
        expression.value is Binary || expression.value is Unary || expression.value is IfElse,
    ensures
        resolve_expression(table, None, expression.written()) == Ok::<
            ExpressionModel,
            TypeErrorModel,
        >(expression),
        resolve_expression(table, Some(expression.type_), expression.written()) == Ok::<
            ExpressionModel,
            TypeErrorModel,
        >(expression),
    decreases expression, 0int,
{
    match expression.value {
        ExpressionValueModel::Binary(operation, left, right, span) => {
            lemma_well_typed_resolves(table, *left);
            lemma_well_typed_resolves(table, *right);
        },
        ExpressionValueModel::Unary(operation, inner, span) => {
            lemma_well_typed_resolves(table, *inner);
        },
        ExpressionValueModel::IfElse(condition, first, second, span) => {
            lemma_well_typed_resolves(table, *condition);
            lemma_well_typed_resolves(table, *first);
            lemma_well_typed_resolves(table, *second);
        },
        _ => {},
    }
}

/// The law of resolution of well-typed expressions for arrays.
proof fn lemma_resolves_array(table: TableModel, expression: ExpressionModel)
    requires
        well_typed(table, expression),
        expression.value is Array || expression.value is ArrayInitializer
            || expression.value is ArrayAccess || expression.value is ArrayRangeAccess,
    ensures
        resolve_expression(table, None, expression.written()) == Ok::<
            ExpressionModel,
            TypeErrorModel,
        >(expression),
        resolve_expression(table, Some(expression.type_), expression.written()) == Ok::<
            ExpressionModel,
            TypeErrorModel,
        >(expression),
    decreases expression, 0int,
{
    match expression.value {
        ExpressionValueModel::Array(elements, span) => {
            let array = expression.type_;
            let written = written_all(elements);
            assert(all_consistent(table, elements));
            assert(all_inferable(elements));
            assert forall|i: int| 0 <= i < elements.len() implies resolve_expression(
                table,
                None,
                #[trigger] written[i],
            ) == Ok::<ExpressionModel, TypeErrorModel>(elements[i]) && resolve_expression(
                table,
                Some(array.element_type()),
                written[i],
            ) == Ok::<ExpressionModel, TypeErrorModel>(elements[i]) by {
                assert(elements[i].type_ == array.element_type());
                assert(consistent(table, elements[i]) && inferable(elements[i]));
                lemma_well_typed_resolves(table, elements[i]);
            }
            let asked = element_expected(Some(array), array);
            assert forall|i: int| 0 <= i < written.len() implies resolve_expression(
                table,
                asked(i),
                #[trigger] written[i],
            ) == Ok::<ExpressionModel, TypeErrorModel>(elements[i]) by {
                assert(asked(i) == Some(array.element_type()));
            }
            lemma_list_resolves(table, asked, written, elements);
            let chained = element_expected(None, elements[0].type_);
            assert forall|i: int| 0 <= i < written.len() implies resolve_expression(
                table,
                chained(i),
                #[trigger] written[i],
            ) == Ok::<ExpressionModel, TypeErrorModel>(elements[i]) by {
                if i > 0 {
                    assert(chained(i) == Some(elements[0].type_));
                    assert(elements[i].type_ == array.element_type());
                    assert(elements[0].type_ == array.element_type());
                } else {
                    assert(chained(i) == None::<TypeModel>);
                }
            }
            lemma_list_resolves(table, chained, written, elements);
            assert(written[0] == elements[0].written());
            assert(array->Array_1 =~= seq![elements.len() as usize]);
            assert(array == TypeModel::Array(
                Box::new(elements[0].type_),
                seq![written.len() as usize],
            ));
        },
        ExpressionValueModel::ArrayInitializer(element, dimensions, span) => {
            lemma_well_typed_resolves(table, *element);
        },
        ExpressionValueModel::ArrayAccess(array, index, span) => {
            lemma_well_typed_resolves(table, *array);
            lemma_well_typed_resolves(table, *index);
        },
        ExpressionValueModel::ArrayRangeAccess(array, from, to, span) => {
            lemma_well_typed_resolves(table, *array);
            lemma_well_typed_resolves(table, *from);
            lemma_well_typed_resolves(table, *to);
            assert(resolve_bound(table, Some(from.written()), 0, span) == Ok::<
                ExpressionModel,
                TypeErrorModel,
            >(*from));
            assert(resolve_bound(table, Some(to.written()), array.type_.array_len(), span) == Ok::<
                ExpressionModel,
                TypeErrorModel,
            >(*to));
        },
        _ => {},
    }
}

/// The law of resolution of well-typed expressions for tuples.
proof fn lemma_resolves_tuple(table: TableModel, expression: ExpressionModel)
    requires
        well_typed(table, expression),
        expression.value is Tuple || expression.value is TupleAccess,
    ensures
        resolve_expression(table, None, expression.written()) == Ok::<
            ExpressionModel,
            TypeErrorModel,
        >(expression),
        resolve_expression(table, Some(expression.type_), expression.written()) == Ok::<
            ExpressionModel,
            TypeErrorModel,
        >(expression),
    decreases expression, 0int,
{
    match expression.value {
        ExpressionValueModel::Tuple(elements, span) => {
            let written = written_all(elements);
            let types = types_of(elements);
            assert(all_consistent(table, elements));
            assert(all_inferable(elements));
            assert forall|i: int| 0 <= i < elements.len() implies resolve_expression(
                table,
                None,
                #[trigger] written[i],
            ) == Ok::<ExpressionModel, TypeErrorModel>(elements[i]) && resolve_expression(
                table,
                Some(elements[i].type_),
                written[i],
            ) == Ok::<ExpressionModel, TypeErrorModel>(elements[i]) by {
                lemma_well_typed_resolves(table, elements[i]);
            }
            let free = part_expected(None);
            assert forall|i: int| 0 <= i < written.len() implies resolve_expression(
                table,
                free(i),
                #[trigger] written[i],
            ) == Ok::<ExpressionModel, TypeErrorModel>(elements[i]) by {
                assert(free(i) == None::<TypeModel>);
            }
            lemma_list_resolves(table, free, written, elements);
            let asked = part_expected(Some(expression.type_));
            assert forall|i: int| 0 <= i < written.len() implies resolve_expression(
                table,
                asked(i),
                #[trigger] written[i],
            ) == Ok::<ExpressionModel, TypeErrorModel>(elements[i]) by {
                assert(types[i] == elements[i].type_);
                assert(asked(i) == Some(elements[i].type_));
            }
            lemma_list_resolves(table, asked, written, elements);
        },
        ExpressionValueModel::TupleAccess(tuple, index, span) => {
            lemma_well_typed_resolves(table, *tuple);
        },
        _ => {},
    }
}

/// The law of resolution of well-typed expressions for calls.
proof fn lemma_resolves_call(table: TableModel, expression: ExpressionModel)
    requires
        well_typed(table, expression),
        expression.value is FunctionCall,
    ensures
        resolve_expression(table, None, expression.written()) == Ok::<
            ExpressionModel,
            TypeErrorModel,
        >(expression),
        resolve_expression(table, Some(expression.type_), expression.written()) == Ok::<
            ExpressionModel,
            TypeErrorModel,
        >(expression),
    decreases expression, 0int,
{
    match expression.value {
        ExpressionValueModel::FunctionCall(function, arguments, span) => {
            lemma_well_typed_resolves(table, *function);
            let signature = callee_signature(table, *function, span)->Ok_0;
            let written = written_all(arguments);
            let asked = argument_expected(signature);
            assert(all_consistent(table, arguments));
            assert(all_inferable(arguments));
            assert(arguments_agree(signature, arguments));
            assert forall|i: int| 0 <= i < written.len() implies resolve_expression(
                table,
                asked(i),
                #[trigger] written[i],
            ) == Ok::<ExpressionModel, TypeErrorModel>(arguments[i]) by {
                assert(consistent(table, arguments[i]) && inferable(arguments[i]));
                lemma_well_typed_resolves(table, arguments[i]);
                assert(asked(i) == signature.inputs[i].expected_type());
            }
            lemma_list_resolves(table, asked, written, arguments);
        },
        _ => {},
    }
}

/// The law of resolution of well-typed expressions for circuits.
proof fn lemma_resolves_circuit(table: TableModel, expression: ExpressionModel)
    requires
        well_typed(table, expression),
        expression.value is Circuit || expression.value is CircuitMemberAccess
            || expression.value is CircuitStaticFunctionAccess,
    ensures
        resolve_expression(table, None, expression.written()) == Ok::<
            ExpressionModel,
            TypeErrorModel,
        >(expression),
        resolve_expression(table, Some(expression.type_), expression.written()) == Ok::<
            ExpressionModel,
            TypeErrorModel,
        >(expression),
    decreases expression, 0int,
{
    match expression.value {
        ExpressionValueModel::Circuit(name, members, span) => {
            let circuit = table.get_circuit(name.name)->Some_0;
            assert(members_agree(circuit, members));
            assert(members_consistent(table, members));
            assert(members_inferable(members));
            assert forall|i: int| 0 <= i < members.len() implies circuit.variable(
                (#[trigger] members[i]).identifier.name,
            ) is Some && resolve_expression(
                table,
                Some(circuit.variable(members[i].identifier.name)->Some_0.type_),
                members[i].expression.written(),
            ) == Ok::<ExpressionModel, TypeErrorModel>(members[i].expression) by {
                assert(consistent(table, members[i].expression) && inferable(
                    members[i].expression,
                ));
                lemma_well_typed_resolves(table, members[i].expression);
            }
            lemma_members_resolve(table, circuit, members, members.len() as int);
            assert(members.take(members.len() as int) =~= members);
        },
        ExpressionValueModel::CircuitMemberAccess(circuit, member, span) => {
            lemma_well_typed_resolves(table, *circuit);
        },
        ExpressionValueModel::CircuitStaticFunctionAccess(circuit, member, span) => {
            lemma_well_typed_resolves(table, *circuit);
        },
        _ => {},
    }
}

/// Every well-typed expression is resolved: what it is written as resolves to the
/// expression itself, with the very types that it carries, whether its type is asked for or
/// nothing is asked.
pub proof fn lemma_well_typed_resolves(table: TableModel, expression: ExpressionModel)
    requires
        well_typed(table, expression),
    ensures
        resolve_expression(table, None, expression.written()) == Ok::<
            ExpressionModel,
            TypeErrorModel,
        >(expression),
        resolve_expression(table, Some(expression.type_), expression.written()) == Ok::<
            ExpressionModel,
            TypeErrorModel,
        >(expression),
    decreases expression, 1int,
{
    let value = expression.value;
    if value is Binary || value is Unary || value is IfElse {
        lemma_resolves_operation(table, expression);
    } else if value is Array || value is ArrayInitializer || value is ArrayAccess
        || value is ArrayRangeAccess {
        lemma_resolves_array(table, expression);
    } else if value is Tuple || value is TupleAccess {
        lemma_resolves_tuple(table, expression);
    } else if value is FunctionCall {
        lemma_resolves_call(table, expression);
    } else if value is Circuit || value is CircuitMemberAccess
        || value is CircuitStaticFunctionAccess {
        lemma_resolves_circuit(table, expression);
    }
}

} // verus!
