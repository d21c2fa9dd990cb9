use vstd::prelude::*;
use vstd::std_specs::cmp::PartialEqSpec;
use crate::memo::{reports_for, run_spec};

verus! {

/// The outcomes of attempts that fail with `fails`, in order, and then succeed with `v`.
pub open spec fn fails_then<T, E>(fails: Seq<E>, v: T) -> Seq<Result<T, E>> {
    fails.map_values(|e: E| Err::<T, E>(e)).push(Ok(v))
}

/// Each attempt invokes the operation once and consumes one outcome: whatever an operation
/// would bring after its first success, a run whose attempts fail with `fails` and then
/// succeed with `v` makes exactly `fails.len() + 1` attempts and returns `v`, with one
/// diagnostic line for each failure that differs from the one remembered before it.
pub proof fn lemma_one_invocation_per_attempt<T, E: PartialEqSpec>(
    last: Option<E>,
    fails: Seq<E>,
    v: T,
    rest: Seq<Result<T, E>>,
)
    ensures
        run_spec(last, fails_then(fails, v) + rest) == (
            Some(v),
            fails.len() + 1,
            reports_for(last, fails),
        ),
    decreases fails.len(),
{
    let outcomes = fails_then(fails, v) + rest;
    if fails.len() == 0 {
        assert(outcomes[0] == Ok::<T, E>(v));
    } else {
        let tail = fails.skip(1);
        assert(outcomes[0] == Err::<T, E>(fails[0]));
        assert(outcomes.skip(1) =~= fails_then(tail, v) + rest);
        let next = crate::memo::settle_spec::<(), E>(last, Err(fails[0])).1;
        lemma_one_invocation_per_attempt(next, tail, v, rest);
    }
}

/// The executor eventually succeeds: on an operation whose outcomes are any number of
/// failures followed by a success with `v`, it returns `v` after exactly as many attempts as
/// there are outcomes.
pub proof fn lemma_eventual_success<T, E: PartialEqSpec>(fails: Seq<E>, v: T)
    ensures
        run_spec(None, fails_then(fails, v)).0 == Some(v),
        run_spec(None, fails_then(fails, v)).1 == fails_then(fails, v).len(),
{
    lemma_one_invocation_per_attempt(None, fails, v, Seq::empty());
    assert(fails_then(fails, v) + Seq::empty() =~= fails_then(fails, v));
}

/// Once a failure `a` is remembered, further failures equal to it bring no diagnostic line.
pub proof fn lemma_repeats_are_quiet<E: PartialEqSpec>(a: E, n: nat)
    requires
        a.eq_spec(&a),
    ensures
        reports_for(Some(a), Seq::new(n, |i: int| a)) == 0,
    decreases n,
{
    if n > 0 {
        assert(Seq::new(n, |i: int| a).skip(1) =~= Seq::new((n - 1) as nat, |i: int| a));
        lemma_repeats_are_quiet(a, (n - 1) as nat);
    }
}

/// A failure that repeats `n >= 1` times in a row from the start brings exactly one
/// diagnostic line, for its first occurrence; the repeats are suppressed.
pub proof fn lemma_diagnostic_suppression<E: PartialEqSpec>(a: E, n: nat)
    requires
        a.eq_spec(&a),
        n >= 1,
    ensures
        reports_for(None, Seq::new(n, |i: int| a)) == 1,
{
    assert(Seq::new(n, |i: int| a).skip(1) =~= Seq::new((n - 1) as nat, |i: int| a));
    lemma_repeats_are_quiet(a, (n - 1) as nat);
}

/// A change of failure brings a new diagnostic line: for failures `a`, `a`, `b` with `b`
/// different from `a`, there are exactly two lines, for the first `a` and for `b`.
pub proof fn lemma_diagnostic_on_change<E: PartialEqSpec>(a: E, b: E)
    requires
        a.eq_spec(&a),
        !a.eq_spec(&b),
    ensures
        reports_for(None, seq![a, a, b]) == 2,
{
    let s = seq![a, a, b];
    assert(s.skip(1) =~= seq![a, b]);
    assert(s.skip(1).skip(1) =~= seq![b]);
    assert(s.skip(1).skip(1).skip(1) =~= Seq::<E>::empty());
    assert(reports_for(Some(b), seq![b].skip(1)) == 0);
    assert(reports_for(Some(a), seq![b]) == 1);
    assert(reports_for(Some(a), seq![a, b]) == 1);
}

} // verus!
