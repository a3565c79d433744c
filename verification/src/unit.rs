//! Service unit states and the polling waiter.
//!
//! A convergent check waits for a unit to reach a target activation state.
//! The query itself (asking the service manager for the unit's state) is
//! performed outside the library; the decision of when to stop is made here,
//! one observation at a time, by [`UnitWaiter`]. The waiter issues exactly
//! one query when no timeout is given, otherwise it retries with a fixed
//! one-second backoff until the state matches or the timeout budget is
//! exhausted. A state that never converges is a legitimate negative result
//! (`Ok(false)`), not an error; a failed query aborts the wait at once.

use crate::errors::{GreenlightError, GreenlightErrorView};
use vstd::prelude::*;

verus! {

/// The activation state a service unit reports. `Unknown` stands for any
/// report that cannot be classified; probes return it rather than erroring.
#[derive(Debug, Clone, Copy, PartialEq, Eq, Hash, Structural)]
pub enum ActiveState {
    Active,
    Inactive,
    Failed,
    Activating,
    Deactivating,
    Unknown,
}

/// The activation state that a lower-cased, trimmed state token denotes.
/// Every token outside the five well-known states is `Unknown`.
pub open spec fn state_of_token(s: Seq<char>) -> ActiveState {
    if s == "active"@ {
        ActiveState::Active
    } else if s == "inactive"@ {
        ActiveState::Inactive
    } else if s == "failed"@ {
        ActiveState::Failed
    } else if s == "activating"@ {
        ActiveState::Activating
    } else if s == "deactivating"@ {
        ActiveState::Deactivating
    } else {
        ActiveState::Unknown
    }
}

/// Classifies the state token that a service-manager query printed.
pub fn active_state_from_token(s: &str) -> (r: ActiveState)
    ensures
        r == state_of_token(s@),
{
    if crate::str_eq(s, "active") {
        ActiveState::Active
    } else if crate::str_eq(s, "inactive") {
        ActiveState::Inactive
    } else if crate::str_eq(s, "failed") {
        ActiveState::Failed
    } else if crate::str_eq(s, "activating") {
        ActiveState::Activating
    } else if crate::str_eq(s, "deactivating") {
        ActiveState::Deactivating
    } else {
        ActiveState::Unknown
    }
}

/// How many queries a wait may issue: one when no timeout is given (a
/// zero-duration budget), otherwise one per second of the timeout, the
/// last second being spent on the final backoff sleep.
pub open spec fn poll_budget(timeout_secs: Option<u64>) -> u64 {
    match timeout_secs {
        Option::None => 1,
        Option::Some(t) => if t == 0 {
            1
        } else {
            t
        },
    }
}

/// What the waiter asks its driver to do after an observation.
#[derive(Debug)]
pub enum WaitStep {
    /// The wait is over, with the result of the whole wait.
    Finished(Result<bool, GreenlightError>),
    /// Sleep for the fixed one-second backoff, query again, and hand the
    /// observation back.
    Sleep,
}

/// The bounded-retry state of one wait for a unit to reach a target state.
pub struct UnitWaiter {
    /// The activation state the wait converges on.
    pub expected: ActiveState,
    /// How many more queries this wait may issue.
    pub remaining: u64,
}

impl UnitWaiter {
    /// Starts a wait for `expected` under the given timeout budget.
    pub fn new(expected: ActiveState, timeout_secs: Option<u64>) -> (w: Self)
        ensures
            w.expected == expected,
            w.remaining == poll_budget(timeout_secs),
    {
        let remaining: u64 = match timeout_secs {
            Option::None => 1,
            Option::Some(t) => if t == 0 {
                1
            } else {
                t
            },
        };
        UnitWaiter { expected, remaining }
    }

    /// Absorbs one observation: a query error ends the wait with that error;
    /// the expected state ends it with success; otherwise the wait retries
    /// until its budget is spent, and ends with failure when it is.
    pub fn on_query(&mut self, observed: Result<ActiveState, GreenlightError>) -> (step:
        WaitStep)
        requires
            old(self).remaining >= 1,
        ensures
            final(self).expected == old(self).expected,
            (match observed {
                Result::Err(e) => step == WaitStep::Finished(
                    Result::<bool, GreenlightError>::Err(e),
                ) && final(self).remaining == old(self).remaining,
                Result::Ok(s) => if s == old(self).expected {
                    step == WaitStep::Finished(Result::<bool, GreenlightError>::Ok(true))
                        && final(self).remaining == old(self).remaining
                } else if old(self).remaining == 1 {
                    step == WaitStep::Finished(Result::<bool, GreenlightError>::Ok(false))
                        && final(self).remaining == 0
                } else {
                    step == WaitStep::Sleep && final(self).remaining == old(self).remaining
                        - 1
                },
            }),
    {
        match observed {
            Result::Err(e) => WaitStep::Finished(Result::Err(e)),
            Result::Ok(s) => {
                if s == self.expected {
                    WaitStep::Finished(Result::Ok(true))
                } else {
                    self.remaining = self.remaining - 1;
                    if self.remaining == 0 {
                        WaitStep::Finished(Result::Ok(false))
                    } else {
                        WaitStep::Sleep
                    }
                }
            },
        }
    }
}

/// Model of one query observation.
pub open spec fn obs_model(r: Result<ActiveState, GreenlightError>) -> Result<
    ActiveState,
    GreenlightErrorView,
> {
    match r {
        Result::Ok(s) => Result::Ok(s),
        Result::Err(e) => Result::Err(e@),
    }
}

/// Model of a wait result.
pub open spec fn wait_result_model(r: Result<bool, GreenlightError>) -> Result<
    bool,
    GreenlightErrorView,
> {
    match r {
        Result::Ok(b) => Result::Ok(b),
        Result::Err(e) => Result::Err(e@),
    }
}

/// The result and query count of a wait, given the observations that the
/// successive queries would return and a budget of `budget` queries.
pub open spec fn wait_spec(
    obs: Seq<Result<ActiveState, GreenlightErrorView>>,
    expected: ActiveState,
    budget: nat,
) -> (Result<bool, GreenlightErrorView>, nat)
    recommends
        budget >= 1,
        obs.len() >= budget,
    decreases budget,
{
    match obs[0] {
        Result::Err(e) => (Result::Err(e), 1),
        Result::Ok(s) => if s == expected {
            (Result::Ok(true), 1)
        } else if budget <= 1 {
            (Result::Ok(false), 1)
        } else {
            let rest = wait_spec(obs.drop_first(), expected, (budget - 1) as nat);
            (rest.0, rest.1 + 1)
        },
    }
}

fn clone_observation(r: &Result<ActiveState, GreenlightError>) -> (c: Result<
    ActiveState,
    GreenlightError,
>)
    ensures
        obs_model(c) == obs_model(*r),
{
    match r {
        Result::Ok(s) => Result::Ok(*s),
        Result::Err(e) => Result::Err(e.clone()),
    }
}

/// Replays a whole wait over a pre-recorded sequence of observations,
/// returning the wait's result and how many queries it issued. With no
/// timeout, exactly one query is issued.
pub fn replay_wait(
    observations: &Vec<Result<ActiveState, GreenlightError>>,
    expected: ActiveState,
    timeout_secs: Option<u64>,
) -> (r: (Result<bool, GreenlightError>, usize))
    requires
        observations@.len() >= poll_budget(timeout_secs),
    ensures
        ({
            let outcome = wait_spec(
                observations@.map_values(|o: Result<ActiveState, GreenlightError>| obs_model(o)),
                expected,
                poll_budget(timeout_secs) as nat,
            );
            wait_result_model(r.0) == outcome.0 && r.1 as nat == outcome.1
        }),
        timeout_secs is None ==> r.1 == 1,
        1 <= r.1 <= poll_budget(timeout_secs),
{
    let ghost model = observations@.map_values(
        |o: Result<ActiveState, GreenlightError>| obs_model(o),
    );
    let ghost budget = poll_budget(timeout_secs) as nat;
    let n = observations.len();
    let mut waiter = UnitWaiter::new(expected, timeout_secs);
    let mut polls: usize = 0;
    proof {
        assert(model.skip(0) =~= model);
    }
    loop
        invariant
            waiter.expected == expected,
            n == observations@.len(),
            n >= budget,
            model == observations@.map_values(
                |o: Result<ActiveState, GreenlightError>| obs_model(o),
            ),
            budget == poll_budget(timeout_secs) as nat,
            polls < budget,
            waiter.remaining == budget - polls,
            ({
                let full = wait_spec(model, expected, budget);
                let rest = wait_spec(model.skip(polls as int), expected, (budget - polls) as nat);
                full.0 == rest.0 && full.1 == rest.1 + polls
            }),
        decreases budget - polls,
    {
        assert(model.skip(polls as int)[0] == model[polls as int]);
        let observed = clone_observation(&observations[polls]);
        let step = waiter.on_query(observed);
        match step {
            WaitStep::Finished(result) => {
                return (result, polls + 1);
            },
            WaitStep::Sleep => {
                assert(model.skip(polls as int).drop_first() =~= model.skip(polls as int + 1));
                polls = polls + 1;
            },
        }
    }
}

/// One observation that keeps a wait going: a classified state other than
/// the expected one.
pub open spec fn non_matching(
    o: Result<ActiveState, GreenlightErrorView>,
    expected: ActiveState,
) -> bool {
    o matches Result::Ok(s) && s != expected
}

/// With no timeout the budget is a single query, and the wait ends on its
/// first observation: success exactly when that observation is the expected
/// state, the observation's own error on a failed query, and failure
/// otherwise.
pub proof fn lemma_wait_no_timeout(
    obs: Seq<Result<ActiveState, GreenlightErrorView>>,
    expected: ActiveState,
)
    requires
        obs.len() >= 1,
    ensures
        poll_budget(None) == 1,
        wait_spec(obs, expected, 1).1 == 1,
        wait_spec(obs, expected, 1).0 == (match obs[0] {
            Result::Err(e) => Result::<bool, GreenlightErrorView>::Err(e),
            Result::Ok(s) => Result::<bool, GreenlightErrorView>::Ok(s == expected),
        }),
{
}

/// A wait over observations that never match — and never error — spends its
/// whole budget and reports failure, not an error: a state that does not
/// converge is a negative result, and the wait does not outlive its budget.
pub proof fn lemma_wait_never_matching(
    obs: Seq<Result<ActiveState, GreenlightErrorView>>,
    expected: ActiveState,
    budget: nat,
)
    requires
        budget >= 1,
        obs.len() >= budget,
        forall|i: int| 0 <= i < budget ==> non_matching(#[trigger] obs[i], expected),
    ensures
        wait_spec(obs, expected, budget) == (
            Result::<bool, GreenlightErrorView>::Ok(false),
            budget,
        ),
    decreases budget,
{
    if budget > 1 {
        lemma_wait_never_matching(obs.drop_first(), expected, (budget - 1) as nat);
    }
}

/// A wait whose observations first match at poll `k`, within budget, ends
/// with success after exactly `k + 1` queries: convergence before the
/// timeout is reported as a pass, before the budget is spent.
pub proof fn lemma_wait_converges(
    obs: Seq<Result<ActiveState, GreenlightErrorView>>,
    expected: ActiveState,
    budget: nat,
    k: int,
)
    requires
        budget >= 1,
        obs.len() >= budget,
        0 <= k < budget,
        obs[k] == Result::<ActiveState, GreenlightErrorView>::Ok(expected),
        forall|j: int| 0 <= j < k ==> non_matching(#[trigger] obs[j], expected),
    ensures
        wait_spec(obs, expected, budget) == (
            Result::<bool, GreenlightErrorView>::Ok(true),
            (k + 1) as nat,
        ),
    decreases k,
{
    if k > 0 {
        lemma_wait_converges(obs.drop_first(), expected, (budget - 1) as nat, k - 1);
    }
}

} // verus!
