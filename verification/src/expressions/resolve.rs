use crate::ast::expression::{Expression as UnresolvedExpression, expressions_model as unresolved_expressions_model};
use crate::common::{IntegerType, Span};
use crate::errors::{TypeError, TypeErrorModel};
use crate::expressions::expression::{
    Expression, ExpressionModel, ExpressionValue, ExpressionValueModel, expression_result_view,
    expressions_model, expressions_result_view,
};
use crate::expressions::rules::{
    argument_expected, checked, element_expected, lemma_resolve_expressions_error, part_expected,
    resolve_expression, resolve_expressions, resolve_implicit,
};
use crate::symbol_table::SymbolTable;
use crate::types::types::{optional_type_model, types_model};
use crate::types::{FunctionInputType, FunctionType, Type, TypeModel};
use vstd::prelude::*;

verus! {

impl Expression {
    /// The expression of the given type and value, where the type may stand in a place that
    /// asks for `expected_type`.
    pub fn checked(expected_type: &Option<Type>, type_: Type, value: ExpressionValue, span: Span) -> (r:
        Result<Expression, TypeError>)
        ensures
            expression_result_view(r) == checked(
                optional_type_model(*expected_type),
                ExpressionModel { type_: type_@, value: value@ },
                span,
            ),
    {
        match Type::check_type(expected_type, &type_, span) {
            Ok(_) => Ok(Expression { type_, value }),
            Err(error) => Err(error),
        }
    }

    /// Resolve an address expression
    pub fn resolve_address(expected_type: &Option<Type>, address_string: &String, span: Span) -> (r:
        Result<Expression, TypeError>)
        ensures
            expression_result_view(r) == checked(
                optional_type_model(*expected_type),
                ExpressionModel {
                    type_: TypeModel::Address,
                    value: ExpressionValueModel::Address(address_string@, span),
                },
                span,
            ),
    {
        Self::checked(
            expected_type,
            Type::Address,
            ExpressionValue::Address(address_string.clone(), span),
            span,
        )
    }

    /// Resolve an boolean expression
    pub fn resolve_boolean(expected_type: &Option<Type>, boolean_string: &String, span: Span) -> (r:
        Result<Expression, TypeError>)
        ensures
            expression_result_view(r) == checked(
                optional_type_model(*expected_type),
                ExpressionModel {
                    type_: TypeModel::Boolean,
                    value: ExpressionValueModel::Boolean(boolean_string@, span),
                },
                span,
            ),
    {
        Self::checked(
            expected_type,
            Type::Boolean,
            ExpressionValue::Boolean(boolean_string.clone(), span),
            span,
        )
    }

    /// Resolve an field expression
    pub fn resolve_field(expected_type: &Option<Type>, field_string: &String, span: Span) -> (r:
        Result<Expression, TypeError>)
        ensures
            expression_result_view(r) == checked(
                optional_type_model(*expected_type),
                ExpressionModel {
                    type_: TypeModel::Field,
                    value: ExpressionValueModel::Field(field_string@, span),
                },
                span,
            ),
    {
        Self::checked(
            expected_type,
            Type::Field,
            ExpressionValue::Field(field_string.clone(), span),
            span,
        )
    }

    /// Resolve an group expression
    pub fn resolve_group(expected_type: &Option<Type>, group_string: &String, span: Span) -> (r:
        Result<Expression, TypeError>)
        ensures
            expression_result_view(r) == checked(
                optional_type_model(*expected_type),
                ExpressionModel {
                    type_: TypeModel::Group,
                    value: ExpressionValueModel::Group(group_string@, span),
                },
                span,
            ),
    {
        Self::checked(
            expected_type,
            Type::Group,
            ExpressionValue::Group(group_string.clone(), span),
            span,
        )
    }

    /// Resolve an implicit expression: a number that takes its type from the context.
    pub fn resolve_implicit(expected_type: &Option<Type>, implicit_string: &String, span: Span) -> (r:
        Result<Expression, TypeError>)
        ensures
            expression_result_view(r) == resolve_implicit(
                optional_type_model(*expected_type),
                implicit_string@,
                span,
            ),
    {
        match expected_type {
            Some(Type::IntegerType(integer)) => Ok(
                Expression {
                    type_: Type::IntegerType(*integer),
                    value: ExpressionValue::Integer(*integer, implicit_string.clone(), span),
                },
            ),
            Some(Type::Field) => Ok(
                Expression {
                    type_: Type::Field,
                    value: ExpressionValue::Field(implicit_string.clone(), span),
                },
            ),
            Some(Type::Group) => Ok(
                Expression {
                    type_: Type::Group,
                    value: ExpressionValue::Group(implicit_string.clone(), span),
                },
            ),
            Some(other) => Err(TypeError::ExpectedIntegerType { found: other.duplicate(), span }),
            None => Err(TypeError::CannotInferType(span)),
        }
    }

    /// Resolve an integer expression
    pub fn resolve_integer(
        expected_type: &Option<Type>,
        integer_type: IntegerType,
        integer_string: &String,
        span: Span,
    ) -> (r: Result<Expression, TypeError>)
        ensures
            expression_result_view(r) == checked(
                optional_type_model(*expected_type),
                ExpressionModel {
                    type_: TypeModel::IntegerType(integer_type),
                    value: ExpressionValueModel::Integer(integer_type, integer_string@, span),
                },
                span,
            ),
    {
        Self::checked(
            expected_type,
            Type::IntegerType(integer_type),
            ExpressionValue::Integer(integer_type, integer_string.clone(), span),
            span,
        )
    }

    /// Resolves `expression` in the scope `table`, where a value of type `expected_type` is
    /// asked for, or of any type where it is `None`.
    pub fn resolve(
        table: &SymbolTable,
        expected_type: &Option<Type>,
        expression: &UnresolvedExpression,
    ) -> (r: Result<Expression, TypeError>)
        requires
            table.wf(),
        ensures
            expression_result_view(r) == resolve_expression(
                table@,
                optional_type_model(*expected_type),
                expression@,
            ),
        decreases expression, 1int,
    {
        match expression {
            UnresolvedExpression::Identifier(identifier) => Self::identifier(
                table,
                expected_type,
                identifier,
            ),
            UnresolvedExpression::Address(string, span) => Self::resolve_address(
                expected_type,
                string,
                *span,
            ),
            UnresolvedExpression::Boolean(string, span) => Self::resolve_boolean(
                expected_type,
                string,
                *span,
            ),
            UnresolvedExpression::Field(string, span) => Self::resolve_field(
                expected_type,
                string,
                *span,
            ),
            UnresolvedExpression::Group(string, span) => Self::resolve_group(
                expected_type,
                string,
                *span,
            ),
            UnresolvedExpression::Implicit(string, span) => Self::resolve_implicit(
                expected_type,
                string,
                *span,
            ),
            UnresolvedExpression::Integer(integer_type, string, span) => Self::resolve_integer(
                expected_type,
                *integer_type,
                string,
                *span,
            ),
            UnresolvedExpression::Binary(operation, left, right, span) => Self::binary(
                table,
                expected_type,
                *operation,
                left,
                right,
                *span,
                Ghost(*expression),
            ),
            UnresolvedExpression::Unary(operation, inner, span) => Self::unary(
                table,
                expected_type,
                *operation,
                inner,
                *span,
                Ghost(*expression),
            ),
            UnresolvedExpression::IfElse(condition, first, second, span) => Self::if_else(
                table,
                expected_type,
                condition,
                first,
                second,
                *span,
                Ghost(*expression),
            ),
            UnresolvedExpression::ArrayInline(elements, span) => Self::array(
                table,
                expected_type,
                elements,
                *span,
                Ghost(*expression),
            ),
            UnresolvedExpression::ArrayInitializer(element, dimensions, span) => {
                Self::array_initializer(
                    table,
                    expected_type,
                    element,
                    dimensions,
                    *span,
                    Ghost(*expression),
                )
            },
            UnresolvedExpression::ArrayAccess(array, index, span) => Self::array_access(
                table,
                expected_type,
                array,
                index,
                *span,
                Ghost(*expression),
            ),
            UnresolvedExpression::Tuple(elements, span) => Self::tuple(
                table,
                expected_type,
                elements,
                *span,
                Ghost(*expression),
            ),
            UnresolvedExpression::TupleAccess(tuple, index, span) => Self::tuple_access(
                table,
                expected_type,
                tuple,
                *index,
                *span,
                Ghost(*expression),
            ),
            UnresolvedExpression::Circuit(name, members, span) => Self::circuit(
                table,
                expected_type,
                name,
                members,
                *span,
                Ghost(*expression),
            ),
            UnresolvedExpression::CircuitMemberAccess(circuit, member, span) => {
                Self::circuit_access(
                    table,
                    expected_type,
                    circuit,
                    member,
                    *span,
                    Ghost(*expression),
                )
            },
            UnresolvedExpression::CircuitStaticFunctionAccess(circuit, member, span) => {
                Self::circuit_static_access(
                    table,
                    expected_type,
                    circuit,
                    member,
                    *span,
                    Ghost(*expression),
                )
            },
            UnresolvedExpression::FunctionCall(function, arguments, span) => Self::function_call(
                table,
                expected_type,
                function,
                arguments,
                *span,
                Ghost(*expression),
            ),
            UnresolvedExpression::CoreFunctionCall(name, arguments, span) => {
                Self::core_function_call(
                    table,
                    expected_type,
                    name,
                    arguments,
                    *span,
                    Ghost(*expression),
                )
            },
        }
    }
}

/// Resolves the elements of an array expression in order and stops at the first error.
///
/// `expected_type` is the array type that is asked of the whole. Where it is `None`, the
/// first element may have any type and every other element has to have the type of the first.
pub(crate) fn resolve_elements(
    table: &SymbolTable,
    expected_type: &Option<Type>,
    elements: &Vec<UnresolvedExpression>,
) -> (r: Result<Vec<Expression>, TypeError>)
    requires
        table.wf(),
        match *expected_type {
            Some(array) => array@.is_array(),
            None => elements.len() > 0,
        },
    ensures
        match *expected_type {
            Some(array) => expressions_result_view(r) == resolve_expressions(
                table@,
                element_expected(Some(array@), array@),
                unresolved_expressions_model(elements),
            ),
            None => match resolve_expression(table@, None, unresolved_expressions_model(elements)[0]) {
                Err(error) => expressions_result_view(r) == Err::<
                    Seq<ExpressionModel>,
                    TypeErrorModel,
                >(error),
                Ok(first) => {
                    &&& expressions_result_view(r) == resolve_expressions(
                        table@,
                        element_expected(None, first.type_),
                        unresolved_expressions_model(elements),
                    )
                    &&& r is Ok ==> r->Ok_0[0]@ == first
                },
            },
        },
        r is Ok ==> r->Ok_0.len() == elements.len(),
    decreases elements, 0int,
{
    let ghost all = unresolved_expressions_model(elements);
    let mut resolved: Vec<Expression> = Vec::new();
    let mut i: usize = 0;
    let element_type: Option<Type>;
    let ghost expected: spec_fn(int) -> Option<TypeModel>;
    let ghost first_model: ExpressionModel = arbitrary();
    assert(all.take(0) =~= Seq::empty());
    assert(expressions_model(&resolved) =~= Seq::empty());
    match expected_type {
        Some(array) => {
            match array {
                Type::Array(element, dimensions) => {
                    element_type = Some(Type::element_type(element, dimensions));
                },
                _ => {
                    element_type = None;
                },
            }
            proof {
                expected = element_expected(Some(array@), array@);
                assert(resolve_expressions(table@, expected, all.take(0)) == Ok::<
                    Seq<ExpressionModel>,
                    TypeErrorModel,
                >(Seq::empty()));
            }
        },
        None => {
            let none: Option<Type> = None;
            match Expression::resolve(table, &none, &elements[0]) {
                Err(error) => {
                    return Err(error);
                },
                Ok(first) => {
                    element_type = Some(first.type_.duplicate());
                    proof {
                        expected = element_expected(None, first@.type_);
                        first_model = first@;
                        assert(resolve_expressions(table@, expected, all.take(0)) == Ok::<
                            Seq<ExpressionModel>,
                            TypeErrorModel,
                        >(Seq::empty()));
                        assert(all.take(1).drop_last() =~= all.take(0));
                        assert(all.take(1).last() == all[0]);
                        assert(expected(0) == None::<TypeModel>);
                    }
                    resolved.push(first);
                    assert(expressions_model(&resolved) =~= Seq::<ExpressionModel>::empty().push(
                        first@,
                    ));
                    i = 1;
                },
            }
        },
    }
    while i < elements.len()
        invariant
            table.wf(),
            i <= elements.len(),
            all == unresolved_expressions_model(elements),
            match *expected_type {
                Some(array) => {
                    &&& array@.is_array()
                    &&& expected == element_expected(Some(array@), array@)
                    &&& optional_type_model(element_type) == Some(array@.element_type())
                },
                None => {
                    &&& expected == element_expected(None, first_model.type_)
                    &&& optional_type_model(element_type) == Some(first_model.type_)
                    &&& resolve_expression(table@, None, all[0]) == Ok::<
                        ExpressionModel,
                        TypeErrorModel,
                    >(first_model)
                },
            },
            resolve_expressions(table@, expected, all.take(i as int)) == Ok::<
                Seq<ExpressionModel>,
                TypeErrorModel,
            >(expressions_model(&resolved)),
            resolved.len() == i,
            *expected_type is None ==> i > 0 && resolved[0]@ == first_model,
        decreases elements.len() - i,
    {
        let ghost before = expressions_model(&resolved);
        proof {
            assert(all.take(i + 1).drop_last() =~= all.take(i as int));
            assert(all.take(i + 1).last() == elements[i as int]@);
            assert(expected(i as int) == optional_type_model(element_type));
        }
        match Expression::resolve(table, &element_type, &elements[i]) {
            Ok(expression) => {
                resolved.push(expression);
                assert(expressions_model(&resolved) =~= before.push(expression@));
            },
            Err(error) => {
                proof {
                    lemma_resolve_expressions_error(table@, expected, all, i + 1);
                }
                return Err(error);
            },
        }
        i += 1;
    }
    assert(all.take(i as int) =~= all);
    Ok(resolved)
}

/// Resolves the parts of a tuple expression in order and stops at the first error.
///
/// `expected_type` is the tuple type that is asked of the whole, if any.
pub(crate) fn resolve_parts(
    table: &SymbolTable,
    expected_type: &Option<Type>,
    elements: &Vec<UnresolvedExpression>,
) -> (r: Result<Vec<Expression>, TypeError>)
    requires
        table.wf(),
    ensures
        expressions_result_view(r) == resolve_expressions(
            table@,
            part_expected(optional_type_model(*expected_type)),
            unresolved_expressions_model(elements),
        ),
    decreases elements, 0int,
{
    let ghost all = unresolved_expressions_model(elements);
    let ghost expected = part_expected(optional_type_model(*expected_type));
    let mut resolved: Vec<Expression> = Vec::new();
    let mut i: usize = 0;
    assert(all.take(0) =~= Seq::empty());
    assert(expressions_model(&resolved) =~= Seq::empty());
    while i < elements.len()
        invariant
            table.wf(),
            i <= elements.len(),
            all == unresolved_expressions_model(elements),
            expected == part_expected(optional_type_model(*expected_type)),
            resolve_expressions(table@, expected, all.take(i as int)) == Ok::<
                Seq<ExpressionModel>,
                TypeErrorModel,
            >(expressions_model(&resolved)),
        decreases elements.len() - i,
    {
        let ghost before = expressions_model(&resolved);
        let part_type: Option<Type> = match expected_type {
            Some(Type::Tuple(types)) => if i < types.len() {
                Some(types[i].duplicate())
            } else {
                None
            },
            _ => None,
        };
        proof {
            assert(all.take(i + 1).drop_last() =~= all.take(i as int));
            assert(all.take(i + 1).last() == elements[i as int]@);
            match expected_type {
                Some(Type::Tuple(types)) => {
                    assert(optional_type_model(*expected_type) == Some(
                        TypeModel::Tuple(types_model(types)),
                    ));
                    if i < types.len() {
                        assert(types_model(types)[i as int] == types[i as int]@);
                    }
                },
                _ => {},
            }
            assert(expected(i as int) == optional_type_model(part_type));
        }
        match Expression::resolve(table, &part_type, &elements[i]) {
            Ok(expression) => {
                resolved.push(expression);
                assert(expressions_model(&resolved) =~= before.push(expression@));
            },
            Err(error) => {
                proof {
                    lemma_resolve_expressions_error(table@, expected, all, i + 1);
                }
                return Err(error);
            },
        }
        i += 1;
    }
    assert(all.take(i as int) =~= all);
    Ok(resolved)
}

/// Resolves the arguments of a call of `function` in order and stops at the first error.
pub(crate) fn resolve_arguments(
    table: &SymbolTable,
    function: &FunctionType,
    arguments: &Vec<UnresolvedExpression>,
) -> (r: Result<Vec<Expression>, TypeError>)
    requires
        table.wf(),
    ensures
        expressions_result_view(r) == resolve_expressions(
            table@,
            argument_expected(function@),
            unresolved_expressions_model(arguments),
        ),
    decreases arguments, 0int,
{
    let ghost all = unresolved_expressions_model(arguments);
    let ghost expected = argument_expected(function@);
    let mut resolved: Vec<Expression> = Vec::new();
    let mut i: usize = 0;
    assert(all.take(0) =~= Seq::empty());
    assert(expressions_model(&resolved) =~= Seq::empty());
    while i < arguments.len()
        invariant
            table.wf(),
            i <= arguments.len(),
            all == unresolved_expressions_model(arguments),
            expected == argument_expected(function@),
            resolve_expressions(table@, expected, all.take(i as int)) == Ok::<
                Seq<ExpressionModel>,
                TypeErrorModel,
            >(expressions_model(&resolved)),
        decreases arguments.len() - i,
    {
        let ghost before = expressions_model(&resolved);
        let argument_type: Option<Type> = if i < function.inputs.len() {
            match &function.inputs[i] {
                FunctionInputType::Variable(variable) => Some(variable.type_.duplicate()),
                FunctionInputType::InputKeyword(_) => None,
            }
        } else {
            None
        };
        proof {
            assert(all.take(i + 1).drop_last() =~= all.take(i as int));
            assert(all.take(i + 1).last() == arguments[i as int]@);
            assert(expected(i as int) == optional_type_model(argument_type));
        }
        match Expression::resolve(table, &argument_type, &arguments[i]) {
            Ok(expression) => {
                resolved.push(expression);
                assert(expressions_model(&resolved) =~= before.push(expression@));
            },
            Err(error) => {
                proof {
                    lemma_resolve_expressions_error(table@, expected, all, i + 1);
                }
                return Err(error);
            },
        }
        i += 1;
    }
    assert(all.take(i as int) =~= all);
    Ok(resolved)
}

} // verus!
