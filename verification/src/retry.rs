//! A fixed budget of attempts for a step that may fail: the first success
//! ends it, and when the budget is spent the last failure is the result.

use vstd::prelude::*;

verus! {

/// The attempts that a download is given.
pub const ATTEMPTS: usize = 32;

/// The attempts that a step may still make. There is always at least one: a
/// budget of none cannot be built.
#[derive(Debug, PartialEq, Eq)]
pub struct Retry {
    left: usize,
}

/// What follows an attempt.
#[derive(Debug, PartialEq, Eq)]
pub enum Step<T, E> {
    /// The step is over, with this result.
    Done(Result<T, E>),
    /// The step is to be tried again, with the budget that is left.
    Again(Retry),
}

/// What follows an attempt that was made with `left` attempts in hand and
/// came out as `outcome`: `Ok` with a success or with the last failure, else
/// the number of attempts that remain.
pub open spec fn after_attempt<T, E>(left: nat, outcome: Result<T, E>) -> Result<
    Result<T, E>,
    nat,
> {
    if outcome is Ok || left <= 1 {
        Ok(outcome)
    } else {
        Err((left - 1) as nat)
    }
}

/// The result of a step that is given `left` attempts and whose attempts come
/// out as `outcomes`, in this order.
pub open spec fn retried<T, E>(left: nat, outcomes: Seq<Result<T, E>>) -> Result<T, E>
    recommends
        1 <= left <= outcomes.len(),
    decreases left,
{
    match after_attempt(left, outcomes[0]) {
        Ok(result) => result,
        Err(rest) => retried(rest, outcomes.drop_first()),
    }
}

impl Retry {
    /// The attempts that are left.
    pub closed spec fn left(&self) -> nat {
        self.left as nat
    }

    /// A budget of `attempts` attempts; none where `attempts` is zero.
    pub fn new(attempts: usize) -> (retry: Option<Retry>)
        ensures
            attempts == 0 <==> retry is None,
            retry matches Some(r) ==> r.left() == attempts,
    {
        if attempts == 0 {
            None
        } else {
            Some(Retry { left: attempts })
        }
    }

    /// The budget of a download.
    pub fn standard() -> (retry: Retry)
        ensures
            retry.left() == ATTEMPTS,
    {
        Retry { left: ATTEMPTS }
    }

    /// The attempts that are left.
    pub fn attempts_left(&self) -> (n: usize)
        ensures
            n == self.left(),
    {
        self.left
    }

    /// Makes attempts until one succeeds or the budget is spent. The result is
    /// an outcome of `attempt`: which one depends on what each call returns,
    /// as `retried` says for the outcomes in their order.
    pub fn run<T, E, F: Fn() -> Result<T, E>>(self, attempt: F) -> (result: Result<T, E>)
        requires
            attempt.requires(()),
        ensures
            attempt.ensures((), result),
    {
        let mut retry = self;
        loop
            invariant
                attempt.requires(()),
            decreases retry.left,
        {
            let outcome = attempt();
            match retry.next(outcome) {
                Step::Done(result) => {
                    return result;
                },
                Step::Again(rest) => {
                    retry = rest;
                },
            }
        }
    }

    /// Takes the outcome of one attempt: a success ends the step at once, a
    /// failure ends it only when it was the last attempt of the budget.
    pub fn next<T, E>(self, outcome: Result<T, E>) -> (step: Step<T, E>)
        ensures
            match after_attempt(self.left(), outcome) {
                Ok(result) => step == Step::<T, E>::Done(result),
                Err(rest) => step matches Step::Again(r) && r.left() == rest,
            },
    {
        match outcome {
            Ok(value) => Step::Done(Ok(value)),
            Err(error) => {
                if self.left <= 1 {
                    Step::Done(Err(error))
                } else {
                    Step::Again(Retry { left: self.left - 1 })
                }
            },
        }
    }
}

/// A step whose first success comes at attempt `at` (counted from zero) within
/// the budget ends with that success.
pub proof fn first_success_is_returned<T, E>(left: nat, outcomes: Seq<Result<T, E>>, at: int)
    requires
        0 <= at < left <= outcomes.len(),
        outcomes[at] is Ok,
        forall|i: int| 0 <= i < at ==> outcomes[i] is Err,
    ensures
        retried(left, outcomes) == outcomes[at],
    decreases at,
{
    if at > 0 {
        let rest = outcomes.drop_first();
        assert(rest[at - 1] == outcomes[at]);
        assert forall|i: int| 0 <= i < at - 1 implies rest[i] is Err by {
            assert(rest[i] == outcomes[i + 1]);
        }
        first_success_is_returned((left - 1) as nat, rest, at - 1);
    }
}

/// A step whose attempts all fail ends with the failure of the last attempt
/// of the budget, not with an earlier one.
pub proof fn last_failure_is_returned<T, E>(left: nat, outcomes: Seq<Result<T, E>>)
    requires
        1 <= left <= outcomes.len(),
        forall|i: int| 0 <= i < left ==> outcomes[i] is Err,
    ensures
        retried(left, outcomes) == outcomes[left - 1],
    decreases left,
{
    if left > 1 {
        let rest = outcomes.drop_first();
        assert forall|i: int| 0 <= i < left - 1 implies rest[i] is Err by {
            assert(rest[i] == outcomes[i + 1]);
        }
        assert(rest[left - 2] == outcomes[left - 1]);
        last_failure_is_returned((left - 1) as nat, rest);
    }
}

} // verus!
