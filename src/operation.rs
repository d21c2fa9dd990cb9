use vstd::prelude::*;
use vstd::std_specs::cmp::PartialEqSpec;
use crate::memo::{FailureMemo, Step, settle_spec};

verus! {

/// A repeatable operation that yields a value or an error, driven to success one attempt at a
/// time: a caller repeats [`RetryableResultFn::attempt`] until it returns [`Step::Done`],
/// printing a diagnostic line whenever the step asks for one.
pub trait RetryableResultFn<T, E: PartialEq + PartialEqSpec>: FnMut() -> Result<T, E> + Sized {
    /// Invokes the operation exactly once and settles its outcome in `memo`.
    fn attempt(&mut self, memo: &mut FailureMemo<E>) -> (r: Step<T>)
        requires
            call_requires(*old(self), ()),
        ensures
            exists|o: Result<T, E>|
                {
                    &&& #[trigger] call_ensures(*old(self), (), o)
                    &&& E::obeys_eq_spec() ==> (r, final(memo)@) == settle_spec(old(memo)@, o)
                    &&& (o is Ok) ==> (r == Step::<T>::Done(o->Ok_0) && final(memo)@ == old(memo)@)
                    &&& (o is Err) ==> (r is Retry)
                },
    ;
}

impl<T, E: PartialEq + PartialEqSpec, F: FnMut() -> Result<T, E>> RetryableResultFn<T, E> for F {
    fn attempt(&mut self, memo: &mut FailureMemo<E>) -> (r: Step<T>) {
        let outcome = (self)();
        let r = memo.settle(outcome);
        assert(call_ensures(*old(self), (), outcome));
        r
    }
}

} // verus!
