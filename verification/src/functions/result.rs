use crate::common::Span;
use crate::errors::{TypeError, TypeErrorModel};
use crate::statements::statement::{
    Conditional, ConditionalModel, ConditionalNestedOrEndStatement, NestedOrEndModel, Statement,
    StatementModel, statements_model,
};
use crate::types::types::optional_type_model;
use crate::types::{Type, TypeModel};
use vstd::prelude::*;

verus! {

/// The return statements of `statement` in the order of the source, each with its indicator
/// and the type of its value. The indicator of a return statement is `unconditional` where it
/// is the statement itself; inside a branch or the body of a loop it is `false`: whether such
/// a statement is reached is known only when the program runs.
pub open spec fn returns_of_statement(statement: StatementModel, unconditional: bool) -> Seq<
    (bool, TypeModel),
>
    decreases statement, 0int,
{
    match statement {
        StatementModel::Return(expression, _) => seq![(unconditional, expression.type_)],
        StatementModel::Conditional(conditional) => returns_of_conditional(conditional),
        StatementModel::Iteration(_, _, _, statements, _) => returns_of(statements, false),
        _ => Seq::empty(),
    }
}

/// The return statements of a list of statements, in the order of the source.
pub open spec fn returns_of(statements: Seq<StatementModel>, unconditional: bool) -> Seq<
    (bool, TypeModel),
>
    decreases statements, 1int,
{
    if statements.len() == 0 {
        Seq::empty()
    } else {
        returns_of(statements.drop_last(), unconditional) + returns_of_statement(
            statements.last(),
            unconditional,
        )
    }
}

/// The return statements of the branches of a conditional, in the order of the source.
pub open spec fn returns_of_conditional(conditional: ConditionalModel) -> Seq<(bool, TypeModel)>
    decreases conditional, 0int,
{
    returns_of(conditional.statements, false) + match conditional.next {
        None => Seq::empty(),
        Some(NestedOrEndModel::Nested(nested)) => returns_of_conditional(*nested),
        Some(NestedOrEndModel::End(statements)) => returns_of(statements, false),
    }
}

/// The view of a list of results.
pub open spec fn results_view(results: Seq<(bool, Type)>) -> Seq<(bool, TypeModel)> {
    results.map_values(|result: (bool, Type)| (result.0, result.1@))
}

/// Appends the return statements of `statements` to `results`.
pub fn collect_returns(statements: &Vec<Statement>, unconditional: bool, results: &mut Vec<(bool, Type)>)
    ensures
        results_view(final(results)@) == results_view(old(results)@) + returns_of(
            statements_model(statements),
            unconditional,
        ),
    decreases statements, 0int,
{
    let ghost all = statements_model(statements);
    let ghost start = results_view(results@);
    let mut i: usize = 0;
    assert(all.take(0) =~= Seq::empty());
    assert(start + returns_of(all.take(0), unconditional) =~= start);
    while i < statements.len()
        invariant
            i <= statements.len(),
            all == statements_model(statements),
            start == results_view(old(results)@),
            results_view(results@) == start + returns_of(all.take(i as int), unconditional),
        decreases statements.len() - i,
    {
        let ghost before = results_view(results@);
        proof {
            assert(all.take(i + 1).drop_last() =~= all.take(i as int));
            assert(all.take(i + 1).last() == statements[i as int]@);
        }
        collect_statement_returns(&statements[i], unconditional, results);
        assert(results_view(results@) =~= start + returns_of(all.take(i + 1), unconditional));
        i += 1;
    }
    assert(all.take(i as int) =~= all);
}

/// Appends the return statements of `statement` to `results`.
pub fn collect_statement_returns(
    statement: &Statement,
    unconditional: bool,
    results: &mut Vec<(bool, Type)>,
)
    ensures
        results_view(final(results)@) == results_view(old(results)@) + returns_of_statement(
            statement@,
            unconditional,
        ),
    decreases statement, 1int,
{
    match statement {
        Statement::Return(expression, _) => {
            let ghost before = results_view(results@);
            results.push((unconditional, expression.type_.duplicate()));
            assert(results_view(results@) =~= before + seq![(unconditional, expression@.type_)]);
        },
        Statement::Conditional(conditional) => {
            collect_conditional_returns(conditional, results);
        },
        Statement::Iteration(_, _, _, statements, _) => {
            collect_returns(statements, false, results);
        },
        _ => {
            assert(results_view(results@) + Seq::<(bool, TypeModel)>::empty() =~= results_view(
                results@,
            ));
        },
    }
}

/// Appends the return statements of the branches of `conditional` to `results`.
pub fn collect_conditional_returns(conditional: &Conditional, results: &mut Vec<(bool, Type)>)
    ensures
        results_view(final(results)@) == results_view(old(results)@) + returns_of_conditional(
            conditional@,
        ),
    decreases conditional, 1int,
{
    let ghost start = results_view(results@);
    collect_returns(&conditional.statements, false, results);
    let ghost middle = results_view(results@);
    match &conditional.next {
        None => {
            assert(middle + Seq::<(bool, TypeModel)>::empty() =~= middle);
        },
        Some(ConditionalNestedOrEndStatement::Nested(nested)) => {
            collect_conditional_returns(nested, results);
        },
        Some(ConditionalNestedOrEndStatement::End(statements)) => {
            collect_returns(statements, false, results);
        },
    }
    assert(results_view(results@) =~= start + returns_of_conditional(conditional@));
}

/// Whether one of the first `n` results is returned on every path.
pub open spec fn returns_before(results: Seq<(bool, TypeModel)>, n: int) -> bool {
    exists|i: int| 0 <= i < n && i < results.len() && (#[trigger] results[i]).0
}

/// The position of the one result among the first `n` that is returned on every path, if
/// there is one. A result of another type than `expected` is an error, and so is a second
/// result that is returned on every path; the first error in the order of the results is the
/// error of the whole.
pub open spec fn select_among(
    expected: TypeModel,
    results: Seq<(bool, TypeModel)>,
    span: Span,
    n: int,
) -> Result<Option<int>, TypeErrorModel>
    decreases n,
{
    if n <= 0 {
        Ok(None)
    } else {
        match select_among(expected, results, span, n - 1) {
            Err(error) => Err(error),
            Ok(selected) => if results[n - 1].1 != expected {
                Err(
                    TypeErrorModel::MismatchedTypes {
                        expected,
                        found: results[n - 1].1,
                        span,
                    },
                )
            } else if results[n - 1].0 {
                if selected is Some {
                    Err(TypeErrorModel::MultipleReturns(span))
                } else {
                    Ok(Some(n - 1))
                }
            } else {
                Ok(selected)
            },
        }
    }
}

/// The position of the result that a function returns where no other result applies.
///
/// A function that is written without a return type may hold no return statement. A function
/// that is written with one has to hold exactly one return statement that is reached on every
/// path: with none it does not return on every path, with two it returns twice. Every result
/// has to have the type `expected_return`.
pub open spec fn select_result(
    expected_return: Option<TypeModel>,
    results: Seq<(bool, TypeModel)>,
    span: Span,
) -> Result<Option<int>, TypeErrorModel> {
    match expected_return {
        None => if results.len() == 0 {
            Ok(None)
        } else {
            Err(
                TypeErrorModel::InvalidNumberOfReturns {
                    expected: 0,
                    found: results.len() as usize,
                    span,
                },
            )
        },
        Some(expected) => if !returns_before(results, results.len() as int) {
            Err(TypeErrorModel::NoReturn { expected, span })
        } else {
            select_among(expected, results, span, results.len() as int)
        },
    }
}

/// An error among the first `n` results is the error of every longer run.
pub proof fn lemma_select_among_error(
    expected: TypeModel,
    results: Seq<(bool, TypeModel)>,
    span: Span,
    n: int,
    m: int,
)
    requires
        0 <= n <= m,
        select_among(expected, results, span, n) is Err,
    ensures
        select_among(expected, results, span, m) == select_among(expected, results, span, n),
    decreases m - n,
{
    if n < m {
        lemma_select_among_error(expected, results, span, n, m - 1);
    }
}

/// The view of a selection or an error.
pub open spec fn selection_view(result: Result<Option<usize>, TypeError>) -> Result<
    Option<int>,
    TypeErrorModel,
> {
    match result {
        Ok(Some(position)) => Ok(Some(position as int)),
        Ok(None) => Ok(None),
        Err(error) => Err(error@),
    }
}

/// Iterates through a vector of results and selects the one that is returned on every path.
/// Each result comes with its indicator: `true` where the return statement is reached on
/// every path. The results with another indicator are the ones among which the value is
/// selected when the program runs.
pub fn conditionally_select_result(
    expected_return: &Option<Type>,
    results: &Vec<(bool, Type)>,
    span: Span,
) -> (r: Result<Option<usize>, TypeError>)
    ensures
        selection_view(r) == select_result(
            optional_type_model(*expected_return),
            results_view(results@),
            span,
        ),
{
    let ghost all = results_view(results@);

    // if the function does not expect a return type, make sure there are no returned results.
    let return_type = match expected_return {
        Some(return_type) => return_type,
        None => {
            if results.len() == 0 {
                return Ok(None);
            } else {
                return Err(
                    TypeError::InvalidNumberOfReturns { expected: 0, found: results.len(), span },
                );
            }
        },
    };

    // Error if the function or one of its branches does not return
    let mut found: bool = false;
    let mut k: usize = 0;
    while k < results.len()
        invariant
            k <= results.len(),
            all == results_view(results@),
            found == returns_before(all, k as int),
        decreases results.len() - k,
    {
        assert(all[k as int].0 == results[k as int].0);
        if results[k].0 {
            found = true;
        }
        k += 1;
    }
    if !found {
        return Err(TypeError::NoReturn { expected: return_type.duplicate(), span });
    }

    // Find the return value
    let mut selected: Option<usize> = None;
    let mut i: usize = 0;
    while i < results.len()
        invariant
            i <= results.len(),
            all == results_view(results@),
            returns_before(all, results.len() as int),
            *expected_return == Some(*return_type),
            select_among(return_type@, all, span, i as int) == Ok::<Option<int>, TypeErrorModel>(
                match selected {
                    Some(position) => Some(position as int),
                    None => None,
                },
            ),
        decreases results.len() - i,
    {
        assert(all[i as int] == (results[i as int].0, results[i as int].1@));
        // Error if a statement returned a result with an incorrect type
        if !results[i].1.same(return_type) {
            proof {
                lemma_select_among_error(return_type@, all, span, i + 1, results.len() as int);
            }
            return Err(
                TypeError::MismatchedTypes {
                    expected: return_type.duplicate(),
                    found: results[i].1.duplicate(),
                    span,
                },
            );
        }
        if results[i].0 {
            // Error if we already have a return value
            if selected.is_some() {
                proof {
                    lemma_select_among_error(return_type@, all, span, i + 1, results.len() as int);
                }
                return Err(TypeError::MultipleReturns(span));
            } else {
                selected = Some(i);
            }
        }
        i += 1;
    }
    Ok(selected)
}

} // verus!
