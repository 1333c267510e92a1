use crate::ast::RangeOrExpressionModel;
use crate::ast::{UnresolvedExpressionModel, UnresolvedMemberModel};
use crate::common::{Span, UnaryOperation};
use crate::errors::TypeErrorModel;
use crate::expressions::consistency::{
    all_consistent, arguments_agree, consistent, members_agree, members_consistent, node_agrees,
};
use crate::expressions::expression::ExpressionValueModel;
use crate::expressions::expression::{ExpressionModel, types_of};
use crate::expressions::rules::{
    argument_expected, callee_signature, element_expected, index_type, left_expected,
    named_before, part_expected, resolve_bound, resolve_expression, resolve_expressions,
    resolve_members,
};
use crate::expressions::shape::{all_mirror, members_mirror, mirrors, mirrors_bound};
use crate::symbol_table::TableModel;
use crate::types::CircuitTypeModel;
use crate::types::TypeModel;
use vstd::prelude::*;

verus! {

/// Each expression of a resolved list is what the expression at its position resolves to,
/// with what is asked of that position.
pub proof fn lemma_resolved_elements(
    table: TableModel,
    expected: spec_fn(int) -> Option<TypeModel>,
    expressions: Seq<UnresolvedExpressionModel>,
)
    requires
        resolve_expressions(table, expected, expressions) is Ok,
    ensures
        resolve_expressions(table, expected, expressions)->Ok_0.len() == expressions.len(),
        forall|i: int|
            0 <= i < expressions.len() ==> resolve_expression(
                table,
                expected(i),
                #[trigger] expressions[i],
            ) == Ok::<ExpressionModel, TypeErrorModel>(
                resolve_expressions(table, expected, expressions)->Ok_0[i],
            ),
    decreases expressions.len(),
{
    if expressions.len() > 0 {
        lemma_resolved_elements(table, expected, expressions.drop_last());
        let resolved = resolve_expressions(table, expected, expressions)->Ok_0;
        let prefix = resolve_expressions(table, expected, expressions.drop_last())->Ok_0;
        assert forall|i: int| 0 <= i < expressions.len() implies resolve_expression(
            table,
            expected(i),
            #[trigger] expressions[i],
        ) == Ok::<ExpressionModel, TypeErrorModel>(resolved[i]) by {
            if i < expressions.len() - 1 {
                assert(expressions.drop_last()[i] == expressions[i]);
                assert(resolved[i] == prefix[i]);
            }
        }
    }
}

/// No type is converted: an expression that is resolved where a type is asked for has that
/// type.
pub proof fn lemma_resolved_type_is_expected(
    table: TableModel,
    expected: TypeModel,
    expression: UnresolvedExpressionModel,
)
    requires
        resolve_expression(table, Some(expected), expression) is Ok,
    ensures
        resolve_expression(table, Some(expected), expression)->Ok_0.type_ == expected,
    decreases expression,
{
    match expression {
        UnresolvedExpressionModel::Binary(operation, left, right, span) => {
            if operation.is_arithmetic() {
                lemma_resolved_type_is_expected(table, expected, *left);
            }
        },
        UnresolvedExpressionModel::Unary(UnaryOperation::Negate, inner, span) => {
            lemma_resolved_type_is_expected(table, expected, *inner);
        },
        UnresolvedExpressionModel::IfElse(condition, first, second, span) => {
            lemma_resolved_type_is_expected(table, expected, *first);
        },
        UnresolvedExpressionModel::Tuple(elements, span) => {
            let asked = part_expected(Some(expected));
            let resolved = resolve_expressions(table, asked, elements)->Ok_0;
            lemma_resolved_elements(table, asked, elements);
            assert forall|i: int| 0 <= i < elements.len() implies (#[trigger] resolved[i]).type_
                == expected->Tuple_0[i] by {
                assert(asked(i) == Some(expected->Tuple_0[i]));
                assert(resolve_expression(table, asked(i), elements[i]) == Ok::<
                    ExpressionModel,
                    TypeErrorModel,
                >(resolved[i]));
                lemma_resolved_type_is_expected(table, expected->Tuple_0[i], elements[i]);
            }
            assert(types_of(resolved) =~= expected->Tuple_0);
        },
        _ => {},
    }
}

/// Each member of a resolved circuit expression names a member variable of the circuit, and
/// its value is what the written value resolves to where the type of that variable is asked
/// for.
pub proof fn lemma_resolved_members(
    table: TableModel,
    circuit: CircuitTypeModel,
    members: Seq<UnresolvedMemberModel>,
    n: int,
)
    requires
        0 <= n <= members.len(),
        resolve_members(table, circuit, members, n) is Ok,
    ensures
        resolve_members(table, circuit, members, n)->Ok_0.len() == n,
        forall|i: int, j: int|
            0 <= i < j < n ==> (#[trigger] members[i]).identifier.name != (
            #[trigger] members[j]).identifier.name,
        forall|i: int|
            0 <= i < n ==> {
                let resolved = #[trigger] resolve_members(table, circuit, members, n)->Ok_0[i];
                &&& resolved.identifier == members[i].identifier
                &&& circuit.variable(members[i].identifier.name) is Some
                &&& resolve_expression(
                    table,
                    Some(circuit.variable(members[i].identifier.name)->Some_0.type_),
                    members[i].expression,
                ) == Ok::<ExpressionModel, TypeErrorModel>(resolved.expression)
            },
    decreases n,
{
    if n > 0 {
        lemma_resolved_members(table, circuit, members, n - 1);
        let all = resolve_members(table, circuit, members, n)->Ok_0;
        let prefix = resolve_members(table, circuit, members, n - 1)->Ok_0;
        assert(!named_before(members, n - 1, members[n - 1].identifier.name));
        assert forall|i: int| 0 <= i < n implies {
            let resolved = #[trigger] all[i];
            &&& resolved.identifier == members[i].identifier
            &&& circuit.variable(members[i].identifier.name) is Some
            &&& resolve_expression(
                table,
                Some(circuit.variable(members[i].identifier.name)->Some_0.type_),
                members[i].expression,
            ) == Ok::<ExpressionModel, TypeErrorModel>(resolved.expression)
        } by {
            if i < n - 1 {
                assert(all[i] == prefix[i]);
            }
        }
    }
}

/// The end of a range is resolved to a consistent index.
proof fn lemma_resolved_bound_is_consistent(
    table: TableModel,
    bound: Option<UnresolvedExpressionModel>,
    default: usize,
    span: Span,
)
    requires
        resolve_bound(table, bound, default, span) is Ok,
    ensures
        consistent(table, resolve_bound(table, bound, default, span)->Ok_0),
        resolve_bound(table, bound, default, span)->Ok_0.type_ == index_type(),
    decreases bound, 2int,
{
    match bound {
        Some(bound) => {
            lemma_resolved_is_consistent(table, Some(index_type()), bound);
            lemma_resolved_type_is_expected(table, index_type(), bound);
        },
        None => {},
    }
}

/// Every expression of a resolved list is consistent.
proof fn lemma_resolved_list_is_consistent(
    table: TableModel,
    expected: spec_fn(int) -> Option<TypeModel>,
    expressions: Seq<UnresolvedExpressionModel>,
)
    requires
        resolve_expressions(table, expected, expressions) is Ok,
    ensures
        all_consistent(table, resolve_expressions(table, expected, expressions)->Ok_0),
    decreases expressions, 2int,
{
    let resolved = resolve_expressions(table, expected, expressions)->Ok_0;
    lemma_resolved_elements(table, expected, expressions);
    assert forall|i: int| 0 <= i < resolved.len() implies consistent(
        table,
        #[trigger] resolved[i],
    ) by {
        assert(resolve_expression(table, expected(i), expressions[i]) == Ok::<
            ExpressionModel,
            TypeErrorModel,
        >(resolved[i]));
        lemma_resolved_is_consistent(table, expected(i), expressions[i]);
    }
}

/// Every expression of a resolved list has the type that is asked of its position.
proof fn lemma_resolved_list_types(
    table: TableModel,
    expected: spec_fn(int) -> Option<TypeModel>,
    expressions: Seq<UnresolvedExpressionModel>,
)
    requires
        resolve_expressions(table, expected, expressions) is Ok,
    ensures
        forall|i: int|
            0 <= i < expressions.len() && expected(i) is Some ==> (#[trigger] resolve_expressions(
                table,
                expected,
                expressions,
            )->Ok_0[i]).type_ == expected(i)->Some_0,
{
    let resolved = resolve_expressions(table, expected, expressions)->Ok_0;
    lemma_resolved_elements(table, expected, expressions);
    assert forall|i: int| 0 <= i < expressions.len() && expected(i) is Some implies (
    #[trigger] resolved[i]).type_ == expected(i)->Some_0 by {
        assert(resolve_expression(table, expected(i), expressions[i]) == Ok::<
            ExpressionModel,
            TypeErrorModel,
        >(resolved[i]));
        lemma_resolved_type_is_expected(table, expected(i)->Some_0, expressions[i]);
    }
}

/// The law of consistency for operations and conditionals.
proof fn lemma_consistent_operation(
    table: TableModel,
    expected: Option<TypeModel>,
    expression: UnresolvedExpressionModel,
)
    requires
        resolve_expression(table, expected, expression) is Ok,
        expression is Binary || expression is Unary || expression is IfElse,
    ensures
        consistent(table, resolve_expression(table, expected, expression)->Ok_0),
    decreases expression, 0int,
{
    let resolved = resolve_expression(table, expected, expression)->Ok_0;
    match expression {
        UnresolvedExpressionModel::Binary(operation, left, right, span) => {
            let asked = left_expected(operation, expected);
            lemma_resolved_is_consistent(table, asked, *left);
            let left_resolved = resolve_expression(table, asked, *left)->Ok_0;
            lemma_resolved_is_consistent(table, Some(left_resolved.type_), *right);
            lemma_resolved_type_is_expected(table, left_resolved.type_, *right);
            if operation.is_logical() {
                lemma_resolved_type_is_expected(table, TypeModel::Boolean, *left);
            }
        },
        UnresolvedExpressionModel::Unary(UnaryOperation::Not, inner, span) => {
            lemma_resolved_is_consistent(table, Some(TypeModel::Boolean), *inner);
            lemma_resolved_type_is_expected(table, TypeModel::Boolean, *inner);
        },
        UnresolvedExpressionModel::Unary(UnaryOperation::Negate, inner, span) => {
            lemma_resolved_is_consistent(table, expected, *inner);
        },
        UnresolvedExpressionModel::IfElse(condition, first, second, span) => {
            lemma_resolved_is_consistent(table, Some(TypeModel::Boolean), *condition);
            lemma_resolved_type_is_expected(table, TypeModel::Boolean, *condition);
            lemma_resolved_is_consistent(table, expected, *first);
            lemma_resolved_is_consistent(table, expected, *second);
        },
        _ => {},
    }
}

/// The law of consistency for arrays.
proof fn lemma_consistent_array(
    table: TableModel,
    expected: Option<TypeModel>,
    expression: UnresolvedExpressionModel,
)
    requires
        resolve_expression(table, expected, expression) is Ok,
        expression is ArrayInline || expression is ArrayInitializer || expression is ArrayAccess,
    ensures
        consistent(table, resolve_expression(table, expected, expression)->Ok_0),
    decreases expression, 0int,
{
    let resolved = resolve_expression(table, expected, expression)->Ok_0;
    match expression {
        UnresolvedExpressionModel::ArrayInline(elements, span) => {
            match expected {
                Some(array) => {
                    let asked = element_expected(expected, array);
                    lemma_resolved_list_is_consistent(table, asked, elements);
                    lemma_resolved_list_types(table, asked, elements);
                    lemma_resolved_elements(table, asked, elements);
                    let items = resolve_expressions(table, asked, elements)->Ok_0;
                    assert forall|i: int| 0 <= i < items.len() implies (#[trigger] items[i]).type_
                        == array.element_type() by {
                        assert(asked(i) == Some(array.element_type()));
                    }
                },
                None => {
                    let first = resolve_expression(table, None, elements[0])->Ok_0;
                    let asked = element_expected(None, first.type_);
                    lemma_resolved_list_is_consistent(table, asked, elements);
                    lemma_resolved_list_types(table, asked, elements);
                    lemma_resolved_elements(table, asked, elements);
                    let items = resolve_expressions(table, asked, elements)->Ok_0;
                    assert(asked(0) == None::<TypeModel>);
                    assert(items[0] == first);
                    assert forall|i: int| 0 <= i < items.len() implies (#[trigger] items[i]).type_
                        == first.type_ by {
                        if i > 0 {
                            assert(asked(i) == Some(first.type_));
                        }
                    }
                    assert(resolved.type_.element_type() == first.type_);
                },
            }
        },
        UnresolvedExpressionModel::ArrayInitializer(element, dimensions, span) => {
            match expected {
                Some(array) => {
                    lemma_resolved_is_consistent(table, Some(*array->Array_0), *element);
                },
                None => {
                    lemma_resolved_is_consistent(table, None, *element);
                },
            }
        },
        UnresolvedExpressionModel::ArrayAccess(array, index, span) => {
            lemma_resolved_is_consistent(table, None, *array);
            let array_resolved = resolve_expression(table, None, *array)->Ok_0;
            match *index {
                RangeOrExpressionModel::Expression(index) => {
                    lemma_resolved_is_consistent(table, Some(index_type()), index);
                    lemma_resolved_type_is_expected(table, index_type(), index);
                },
                RangeOrExpressionModel::Range(from, to) => {
                    lemma_resolved_bound_is_consistent(table, from, 0, span);
                    lemma_resolved_bound_is_consistent(
                        table,
                        to,
                        array_resolved.type_.array_len(),
                        span,
                    );
                },
            }
        },
        _ => {},
    }
}

/// The law of consistency for tuples.
proof fn lemma_consistent_tuple(
    table: TableModel,
    expected: Option<TypeModel>,
    expression: UnresolvedExpressionModel,
)
    requires
        resolve_expression(table, expected, expression) is Ok,
        expression is Tuple || expression is TupleAccess,
    ensures
        consistent(table, resolve_expression(table, expected, expression)->Ok_0),
    decreases expression, 0int,
{
    let resolved = resolve_expression(table, expected, expression)->Ok_0;
    match expression {
        UnresolvedExpressionModel::Tuple(elements, span) => {
            lemma_resolved_list_is_consistent(table, part_expected(expected), elements);
        },
        UnresolvedExpressionModel::TupleAccess(tuple, index, span) => {
            lemma_resolved_is_consistent(table, None, *tuple);
        },
        _ => {},
    }
}

/// The law of consistency for circuits.
proof fn lemma_consistent_circuit(
    table: TableModel,
    expected: Option<TypeModel>,
    expression: UnresolvedExpressionModel,
)
    requires
        resolve_expression(table, expected, expression) is Ok,
        expression is Circuit || expression is CircuitMemberAccess
            || expression is CircuitStaticFunctionAccess,
    ensures
        consistent(table, resolve_expression(table, expected, expression)->Ok_0),
    decreases expression, 0int,
{
    let resolved = resolve_expression(table, expected, expression)->Ok_0;
    match expression {
        UnresolvedExpressionModel::Circuit(name, members, span) => {
            let circuit = table.get_circuit(name.name)->Some_0;
            lemma_resolved_members(table, circuit, members, members.len() as int);
            let items = resolve_members(table, circuit, members, members.len() as int)->Ok_0;
            assert forall|i: int| 0 <= i < items.len() implies consistent(
                table,
                (#[trigger] items[i]).expression,
            ) && circuit.variable(items[i].identifier.name) is Some && items[i].expression.type_
                == circuit.variable(items[i].identifier.name)->Some_0.type_ by {
                let variable = circuit.variable(members[i].identifier.name)->Some_0;
                assert(items[i].identifier == members[i].identifier);
                assert(resolve_expression(table, Some(variable.type_), members[i].expression)
                    == Ok::<ExpressionModel, TypeErrorModel>(items[i].expression));
                lemma_resolved_is_consistent(table, Some(variable.type_), members[i].expression);
                lemma_resolved_type_is_expected(table, variable.type_, members[i].expression);
            }
            assert(items.len() == circuit.variables.len());
            assert(members_agree(circuit, items));
            assert(members_consistent(table, items));
            assert(resolved.value == ExpressionValueModel::Circuit(name, items, span));
            assert(resolved.type_ == TypeModel::Circuit(name.name));
            assert(node_agrees(table, resolved));
        },
        UnresolvedExpressionModel::CircuitMemberAccess(circuit, member, span) => {
            lemma_resolved_is_consistent(table, None, *circuit);
        },
        UnresolvedExpressionModel::CircuitStaticFunctionAccess(circuit, member, span) => {
            lemma_resolved_is_consistent(table, None, *circuit);
        },
        _ => {},
    }
}

/// The law of consistency for calls.
proof fn lemma_consistent_call(
    table: TableModel,
    expected: Option<TypeModel>,
    expression: UnresolvedExpressionModel,
)
    requires
        resolve_expression(table, expected, expression) is Ok,
        expression is FunctionCall || expression is CoreFunctionCall,
    ensures
        consistent(table, resolve_expression(table, expected, expression)->Ok_0),
    decreases expression, 0int,
{
    let resolved = resolve_expression(table, expected, expression)->Ok_0;
    match expression {
        UnresolvedExpressionModel::FunctionCall(function, arguments, span) => {
            lemma_resolved_is_consistent(table, None, *function);
            let callee = resolve_expression(table, None, *function)->Ok_0;
            let signature = callee_signature(table, callee, span)->Ok_0;
            let asked = argument_expected(signature);
            lemma_resolved_list_is_consistent(table, asked, arguments);
            lemma_resolved_list_types(table, asked, arguments);
            lemma_resolved_elements(table, asked, arguments);
            let items = resolve_expressions(table, asked, arguments)->Ok_0;
            assert forall|i: int| 0 <= i < items.len() implies match (
            #[trigger] signature.inputs[i]).expected_type() {
                Some(type_) => items[i].type_ == type_,
                None => true,
            } by {
                assert(asked(i) == signature.inputs[i].expected_type());
            }
            assert(arguments_agree(signature, items));
        },
        UnresolvedExpressionModel::CoreFunctionCall(name, arguments, span) => {
            lemma_resolved_list_is_consistent(table, part_expected(None), arguments);
        },
        _ => {},
    }
}

/// Every node of a resolved expression carries a type that agrees with its value and with
/// the types of its parts.
pub proof fn lemma_resolved_is_consistent(
    table: TableModel,
    expected: Option<TypeModel>,
    expression: UnresolvedExpressionModel,
)
    requires
        resolve_expression(table, expected, expression) is Ok,
    ensures
        consistent(table, resolve_expression(table, expected, expression)->Ok_0),
    decreases expression, 1int,
{
    if expression is Binary || expression is Unary || expression is IfElse {
        lemma_consistent_operation(table, expected, expression);
    } else if expression is ArrayInline || expression is ArrayInitializer
        || expression is ArrayAccess {
        lemma_consistent_array(table, expected, expression);
    } else if expression is Tuple || expression is TupleAccess {
        lemma_consistent_tuple(table, expected, expression);
    } else if expression is Circuit || expression is CircuitMemberAccess
        || expression is CircuitStaticFunctionAccess {
        lemma_consistent_circuit(table, expected, expression);
    } else if expression is FunctionCall || expression is CoreFunctionCall {
        lemma_consistent_call(table, expected, expression);
    }
}

/// Each expression of a resolved list mirrors the written one at its place.
proof fn lemma_resolved_list_mirrors(
    table: TableModel,
    expected: spec_fn(int) -> Option<TypeModel>,
    expressions: Seq<UnresolvedExpressionModel>,
)
    requires
        resolve_expressions(table, expected, expressions) is Ok,
    ensures
        all_mirror(expressions, resolve_expressions(table, expected, expressions)->Ok_0),
    decreases expressions, 2int,
{
    let resolved = resolve_expressions(table, expected, expressions)->Ok_0;
    lemma_resolved_elements(table, expected, expressions);
    assert forall|i: int| 0 <= i < expressions.len() implies mirrors(
        #[trigger] expressions[i],
        resolved[i],
    ) by {
        assert(resolve_expression(table, expected(i), expressions[i]) == Ok::<
            ExpressionModel,
            TypeErrorModel,
        >(resolved[i]));
        lemma_resolved_mirrors_written(table, expected(i), expressions[i]);
    }
}

/// The resolved end of a range mirrors the written one.
proof fn lemma_resolved_bound_mirrors(
    table: TableModel,
    bound: Option<UnresolvedExpressionModel>,
    default: usize,
    span: Span,
)
    requires
        resolve_bound(table, bound, default, span) is Ok,
    ensures
        mirrors_bound(bound, resolve_bound(table, bound, default, span)->Ok_0, default, span),
    decreases bound, 2int,
{
    match bound {
        Some(bound) => {
            lemma_resolved_mirrors_written(table, Some(index_type()), bound);
        },
        None => {},
    }
}

/// The law of mirroring for operations and conditionals.
proof fn lemma_mirrors_operation(
    table: TableModel,
    expected: Option<TypeModel>,
    expression: UnresolvedExpressionModel,
)
    requires
        resolve_expression(table, expected, expression) is Ok,
        expression is Binary || expression is Unary || expression is IfElse,
    ensures
        mirrors(expression, resolve_expression(table, expected, expression)->Ok_0),
    decreases expression, 0int,
{
    match expression {
        UnresolvedExpressionModel::Binary(operation, left, right, span) => {
            let asked = left_expected(operation, expected);
            lemma_resolved_mirrors_written(table, asked, *left);
            let left_resolved = resolve_expression(table, asked, *left)->Ok_0;
            lemma_resolved_mirrors_written(table, Some(left_resolved.type_), *right);
        },
        UnresolvedExpressionModel::Unary(UnaryOperation::Not, inner, span) => {
            lemma_resolved_mirrors_written(table, Some(TypeModel::Boolean), *inner);
        },
        UnresolvedExpressionModel::Unary(UnaryOperation::Negate, inner, span) => {
            lemma_resolved_mirrors_written(table, expected, *inner);
        },
        UnresolvedExpressionModel::IfElse(condition, first, second, span) => {
            lemma_resolved_mirrors_written(table, Some(TypeModel::Boolean), *condition);
            lemma_resolved_mirrors_written(table, expected, *first);
            lemma_resolved_mirrors_written(table, expected, *second);
        },
        _ => {},
    }
}

/// The law of mirroring for arrays.
proof fn lemma_mirrors_array(
    table: TableModel,
    expected: Option<TypeModel>,
    expression: UnresolvedExpressionModel,
)
    requires
        resolve_expression(table, expected, expression) is Ok,
        expression is ArrayInline || expression is ArrayInitializer || expression is ArrayAccess,
    ensures
        mirrors(expression, resolve_expression(table, expected, expression)->Ok_0),
    decreases expression, 0int,
{
    match expression {
        UnresolvedExpressionModel::ArrayInline(elements, span) => {
            match expected {
                Some(array) => {
                    lemma_resolved_list_mirrors(table, element_expected(expected, array), elements);
                },
                None => {
                    let first = resolve_expression(table, None, elements[0])->Ok_0;
                    lemma_resolved_list_mirrors(
                        table,
                        element_expected(None, first.type_),
                        elements,
                    );
                },
            }
        },
        UnresolvedExpressionModel::ArrayInitializer(element, dimensions, span) => {
            match expected {
                Some(array) => {
                    lemma_resolved_mirrors_written(table, Some(*array->Array_0), *element);
                },
                None => {
                    lemma_resolved_mirrors_written(table, None, *element);
                },
            }
        },
        UnresolvedExpressionModel::ArrayAccess(array, index, span) => {
            lemma_resolved_mirrors_written(table, None, *array);
            let array_resolved = resolve_expression(table, None, *array)->Ok_0;
            match *index {
                RangeOrExpressionModel::Expression(index) => {
                    lemma_resolved_mirrors_written(table, Some(index_type()), index);
                },
                RangeOrExpressionModel::Range(from, to) => {
                    lemma_resolved_bound_mirrors(table, from, 0, span);
                    lemma_resolved_bound_mirrors(
                        table,
                        to,
                        array_resolved.type_.array_len(),
                        span,
                    );
                },
            }
        },
        _ => {},
    }
}

/// The law of mirroring for tuples, circuits and calls.
proof fn lemma_mirrors_composite(
    table: TableModel,
    expected: Option<TypeModel>,
    expression: UnresolvedExpressionModel,
)
    requires
        resolve_expression(table, expected, expression) is Ok,
        expression is Tuple || expression is TupleAccess || expression is Circuit
            || expression is CircuitMemberAccess || expression is CircuitStaticFunctionAccess
            || expression is FunctionCall || expression is CoreFunctionCall,
    ensures
        mirrors(expression, resolve_expression(table, expected, expression)->Ok_0),
    decreases expression, 0int,
{
    match expression {
        UnresolvedExpressionModel::Tuple(elements, span) => {
            lemma_resolved_list_mirrors(table, part_expected(expected), elements);
        },
        UnresolvedExpressionModel::TupleAccess(tuple, index, span) => {
            lemma_resolved_mirrors_written(table, None, *tuple);
        },
        UnresolvedExpressionModel::Circuit(name, members, span) => {
            let circuit = table.get_circuit(name.name)->Some_0;
            lemma_resolved_members(table, circuit, members, members.len() as int);
            let items = resolve_members(table, circuit, members, members.len() as int)->Ok_0;
            assert forall|i: int| 0 <= i < members.len() implies (#[trigger] members[i]).identifier
                == items[i].identifier && mirrors(members[i].expression, items[i].expression) by {
                let variable = circuit.variable(members[i].identifier.name)->Some_0;
                assert(items[i].identifier == members[i].identifier);
                assert(resolve_expression(table, Some(variable.type_), members[i].expression)
                    == Ok::<ExpressionModel, TypeErrorModel>(items[i].expression));
                lemma_resolved_mirrors_written(table, Some(variable.type_), members[i].expression);
            }
            assert(members_mirror(members, items));
        },
        UnresolvedExpressionModel::CircuitMemberAccess(circuit, member, span) => {
            lemma_resolved_mirrors_written(table, None, *circuit);
        },
        UnresolvedExpressionModel::CircuitStaticFunctionAccess(circuit, member, span) => {
            lemma_resolved_mirrors_written(table, None, *circuit);
        },
        UnresolvedExpressionModel::FunctionCall(function, arguments, span) => {
            lemma_resolved_mirrors_written(table, None, *function);
            let callee = resolve_expression(table, None, *function)->Ok_0;
            let signature = callee_signature(table, callee, span)->Ok_0;
            lemma_resolved_list_mirrors(table, argument_expected(signature), arguments);
        },
        UnresolvedExpressionModel::CoreFunctionCall(name, arguments, span) => {
            lemma_resolved_list_mirrors(table, part_expected(None), arguments);
        },
        _ => {},
    }
}

/// A resolved expression is the written expression, node for node: nothing is dropped,
/// added or moved, and every number and every range has become explicit.
pub proof fn lemma_resolved_mirrors_written(
    table: TableModel,
    expected: Option<TypeModel>,
    expression: UnresolvedExpressionModel,
)
    requires
        resolve_expression(table, expected, expression) is Ok,
    ensures
        mirrors(expression, resolve_expression(table, expected, expression)->Ok_0),
    decreases expression, 1int,
{
    if expression is Binary || expression is Unary || expression is IfElse {
        lemma_mirrors_operation(table, expected, expression);
    } else if expression is ArrayInline || expression is ArrayInitializer
        || expression is ArrayAccess {
        lemma_mirrors_array(table, expected, expression);
    } else if expression is Tuple || expression is TupleAccess || expression is Circuit
        || expression is CircuitMemberAccess || expression is CircuitStaticFunctionAccess
        || expression is FunctionCall || expression is CoreFunctionCall {
        lemma_mirrors_composite(table, expected, expression);
    }
}

} // verus!
