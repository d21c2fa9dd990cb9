use vstd::prelude::*;
use vstd::std_specs::cmp::PartialEqSpec;

verus! {

/// The pause, in milliseconds, between a failed asynchronous attempt and the next one when the
/// caller names none.
pub const DEFAULT_WAIT_MS: u64 = 50;

/// What the executor does after one outcome.
pub enum Step<T> {
    /// The operation succeeded: the executor returns this value.
    Done(T),
    /// The operation failed: the executor tries again, after a diagnostic line if `report`.
    Retry { report: bool },
}

/// Whether `step` asks for a diagnostic line.
pub open spec fn reported<T>(step: Step<T>) -> bool {
    match step {
        Step::Done(_) => false,
        Step::Retry { report } => report,
    }
}

/// Whether failure `e` repeats the remembered failure `last`, by the error type's `==`.
pub open spec fn repeats<E: PartialEqSpec>(last: Option<E>, e: E) -> bool {
    match last {
        Some(p) => p.eq_spec(&e),
        None => false,
    }
}

/// The step taken on `outcome` and the memo after it, from memo `last`.
pub open spec fn settle_spec<T, E: PartialEqSpec>(last: Option<E>, outcome: Result<T, E>) -> (
    Step<T>,
    Option<E>,
) {
    match outcome {
        Ok(v) => (Step::Done(v), last),
        Err(e) => if repeats(last, e) {
            (Step::Retry { report: false }, last)
        } else {
            (Step::Retry { report: true }, Some(e))
        },
    }
}

/// How many diagnostic lines the failures `fails` bring, settled in order from memo `last`.
pub open spec fn reports_for<E: PartialEqSpec>(last: Option<E>, fails: Seq<E>) -> nat
    decreases fails.len(),
{
    if fails.len() == 0 {
        0
    } else {
        let (step, next) = settle_spec::<(), E>(last, Err(fails[0]));
        (if reported(step) {
            1nat
        } else {
            0nat
        }) + reports_for(next, fails.skip(1))
    }
}

/// A run of the executor over the outcomes that successive attempts bring, from memo `last`:
/// the value returned (none if no outcome succeeds), the number of attempts made, and the
/// number of diagnostic lines.
pub open spec fn run_spec<T, E: PartialEqSpec>(last: Option<E>, outcomes: Seq<Result<T, E>>) -> (
    Option<T>,
    nat,
    nat,
)
    decreases outcomes.len(),
{
    if outcomes.len() == 0 {
        (None, 0, 0)
    } else {
        let (step, next) = settle_spec(last, outcomes[0]);
        match step {
            Step::Done(v) => (Some(v), 1, 0),
            Step::Retry { report } => {
                let (res, n, k) = run_spec(next, outcomes.skip(1));
                (res, n + 1, k + if report {
                    1nat
                } else {
                    0nat
                })
            },
        }
    }
}

/// The last failure that a result-bearing executor has announced.
///
/// A failure is announced when it differs from the remembered one (or nothing is remembered
/// yet), and it is then remembered in its place. A success leaves the memo as it is.
pub struct FailureMemo<E> {
    last: Option<E>,
}

impl<E> View for FailureMemo<E> {
    type V = Option<E>;

    closed spec fn view(&self) -> Option<E> {
        self.last
    }
}

impl<E: PartialEq + PartialEqSpec> FailureMemo<E> {
    /// A memo that remembers no failure: the first failure will be announced.
    pub fn new() -> (r: Self)
        ensures
            r@ is None,
    {
        FailureMemo { last: None }
    }

    /// The failure announced last, if any.
    pub fn last_failure(&self) -> (r: Option<&E>)
        ensures
            (r is Some) == (self@ is Some),
            (r is Some) ==> (*r->Some_0 == self@->Some_0),
    {
        self.last.as_ref()
    }

    /// Settles one outcome: a success ends the run with its value; a failure asks for another
    /// attempt, and for a diagnostic line exactly when it differs from the remembered one.
    pub fn settle<T>(&mut self, outcome: Result<T, E>) -> (r: Step<T>)
        ensures
            E::obeys_eq_spec() ==> (r, final(self)@) == settle_spec(old(self)@, outcome),
            (outcome is Ok) ==> (r == Step::<T>::Done(outcome->Ok_0)),
            (outcome is Ok) ==> (final(self)@ == old(self)@),
            (outcome is Err) ==> (r is Retry),
            (outcome is Err && reported(r)) ==> (final(self)@ == Some(outcome->Err_0)),
            (outcome is Err && !reported(r)) ==> (final(self)@ == old(self)@),
            (outcome is Err && old(self)@ is None) ==> (reported(r)),
    {
        match outcome {
            Ok(v) => Step::Done(v),
            Err(e) => {
                let same = match &self.last {
                    Some(prev) => *prev == e,
                    None => false,
                };
                if !same {
                    self.last = Some(e);
                }
                Step::Retry { report: !same }
            },
        }
    }
}

/// Whether an option-bearing executor has announced an absence yet.
pub struct AbsenceMemo {
    announced: bool,
}

impl View for AbsenceMemo {
    type V = bool;

    closed spec fn view(&self) -> bool {
        self.announced
    }
}

impl AbsenceMemo {
    /// A memo before any absence: the first absence will be announced.
    pub fn new() -> (r: Self)
        ensures
            !r@,
    {
        AbsenceMemo { announced: false }
    }

    /// Settles one outcome: a present value ends the run; an absence asks for another attempt,
    /// and for a diagnostic line only if it is the first absence.
    pub fn settle<T>(&mut self, outcome: Option<T>) -> (r: Step<T>)
        ensures
            (outcome is Some) ==> (r == Step::<T>::Done(outcome->Some_0)),
            (outcome is Some) ==> (final(self)@ == old(self)@),
            (outcome is None) ==> (r is Retry && reported(r) == !old(self)@),
            (outcome is None) ==> (final(self)@),
    {
        match outcome {
            Some(v) => Step::Done(v),
            None => {
                let report = !self.announced;
                self.announced = true;
                Step::Retry { report }
            },
        }
    }
}

} // verus!
