use vstd::prelude::*;

verus! {

/// The state after the first `n` items are applied to `state` in order, each by `step`; or
/// the error of the first step that fails.
pub open spec fn try_fold<S, A, E>(
    state: S,
    items: Seq<A>,
    step: spec_fn(S, A) -> Result<S, E>,
    n: int,
) -> Result<S, E>
    decreases n,
{
    if n <= 0 {
        Ok(state)
    } else {
        match try_fold(state, items, step, n - 1) {
            Err(error) => Err(error),
            Ok(state) => step(state, items[n - 1]),
        }
    }
}

/// An error among the first `n` steps is the error of every longer run.
pub proof fn lemma_try_fold_error<S, A, E>(
    state: S,
    items: Seq<A>,
    step: spec_fn(S, A) -> Result<S, E>,
    n: int,
    m: int,
)
    requires
        0 <= n <= m,
        try_fold(state, items, step, n) is Err,
    ensures
        try_fold(state, items, step, m) == try_fold(state, items, step, n),
    decreases m - n,
{
    if n < m {
        lemma_try_fold_error(state, items, step, n, m - 1);
    }
}

/// The results of `f` on the first `n` items in order; or the error of the first item on
/// which `f` fails.
pub open spec fn try_map<A, B, E>(items: Seq<A>, f: spec_fn(A) -> Result<B, E>, n: int) -> Result<
    Seq<B>,
    E,
>
    decreases n,
{
    if n <= 0 {
        Ok(Seq::empty())
    } else {
        match try_map(items, f, n - 1) {
            Err(error) => Err(error),
            Ok(mapped) => match f(items[n - 1]) {
                Err(error) => Err(error),
                Ok(value) => Ok(mapped.push(value)),
            },
        }
    }
}

/// An error among the first `n` items is the error of every longer run.
pub proof fn lemma_try_map_error<A, B, E>(
    items: Seq<A>,
    f: spec_fn(A) -> Result<B, E>,
    n: int,
    m: int,
)
    requires
        0 <= n <= m,
        try_map(items, f, n) is Err,
    ensures
        try_map(items, f, m) == try_map(items, f, n),
    decreases m - n,
{
    if n < m {
        lemma_try_map_error(items, f, n, m - 1);
    }
}

/// A run of steps that succeeds has succeeded at every step before.
pub proof fn lemma_try_fold_prefix<S, A, E>(
    state: S,
    items: Seq<A>,
    step: spec_fn(S, A) -> Result<S, E>,
    n: int,
    m: int,
)
    requires
        0 <= n <= m,
        try_fold(state, items, step, m) is Ok,
    ensures
        try_fold(state, items, step, n) is Ok,
{
    if try_fold(state, items, step, n) is Err {
        lemma_try_fold_error(state, items, step, n, m);
    }
}

/// Where `f` fails on none of the items, the run over the first `n` items does not fail.
pub proof fn lemma_try_map_succeeds<A, B, E>(items: Seq<A>, f: spec_fn(A) -> Result<B, E>, n: int)
    requires
        0 <= n <= items.len(),
        forall|i: int| 0 <= i < items.len() ==> f(#[trigger] items[i]) is Ok,
    ensures
        try_map(items, f, n) is Ok,
    decreases n,
{
    if n > 0 {
        lemma_try_map_succeeds(items, f, n - 1);
    }
}

/// Where `step` fails on none of the items, whatever the state is, the run over the first
/// `n` items does not fail.
pub proof fn lemma_try_fold_succeeds<S, A, E>(
    state: S,
    items: Seq<A>,
    step: spec_fn(S, A) -> Result<S, E>,
    n: int,
)
    requires
        0 <= n <= items.len(),
        forall|state: S, i: int| 0 <= i < items.len() ==> #[trigger] step(state, items[i]) is Ok,
    ensures
        try_fold(state, items, step, n) is Ok,
    decreases n,
{
    if n > 0 {
        lemma_try_fold_succeeds(state, items, step, n - 1);
    }
}

/// Where `f` gives for each item the result at its place, the run over the first `n` items
/// gives the first `n` results.
pub proof fn lemma_try_map_all<A, B, E>(
    items: Seq<A>,
    f: spec_fn(A) -> Result<B, E>,
    results: Seq<B>,
    n: int,
)
    requires
        0 <= n <= items.len(),
        items.len() == results.len(),
        forall|i: int| 0 <= i < items.len() ==> f(#[trigger] items[i]) == Ok::<B, E>(results[i]),
    ensures
        try_map(items, f, n) == Ok::<Seq<B>, E>(results.take(n)),
    decreases n,
{
    if n > 0 {
        lemma_try_map_all(items, f, results, n - 1);
        assert(results.take(n - 1).push(results[n - 1]) =~= results.take(n));
    } else {
        assert(results.take(0) =~= Seq::empty());
    }
}

} // verus!
