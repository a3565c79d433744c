//! Folding plugin results into the run's policy.
//!
//! An optional plugin mechanism can contribute extra checks; running such a
//! module happens outside the library, and its report reaches the engine as
//! the value of the report's `status` field, if any. The policy here is the
//! aggregation policy of the run: a `success` status passes, a `fail`
//! status is a hard failure, and an unrecognized or missing status is
//! treated the same as a hard failure, never as a pass.

use crate::errors::{GreenlightError, GreenlightErrorView};
use vstd::prelude::*;

verus! {

/// Model of an optional status field.
pub open spec fn status_model(status: Option<&str>) -> Option<Seq<char>> {
    match status {
        Option::Some(s) => Some(s@),
        Option::None => None,
    }
}

/// Model of a plugin policy decision.
pub open spec fn plugin_result_model(r: Result<(), GreenlightError>) -> Result<
    (),
    GreenlightErrorView,
> {
    match r {
        Result::Ok(u) => Result::Ok(u),
        Result::Err(e) => Result::Err(e@),
    }
}

/// The policy decision a plugin status calls for: only `success` lets the
/// run go on; `fail` and anything unrecognized abort it as a failed check.
pub open spec fn plugin_outcome_spec(status: Option<Seq<char>>) -> Result<
    (),
    GreenlightErrorView,
> {
    match status {
        Option::Some(s) => if s == "success"@ {
            Result::Ok(())
        } else if s == "fail"@ {
            Result::Err(GreenlightErrorView::CheckFailed("A plugin returned failure"@))
        } else {
            Result::Err(GreenlightErrorView::CheckFailed("A plugin produced an invalid result"@))
        },
        Option::None => Result::Err(
            GreenlightErrorView::CheckFailed("A plugin produced an invalid result"@),
        ),
    }
}

/// Applies the plugin policy to the `status` field of one plugin's report.
pub fn plugin_outcome(status: Option<&str>) -> (r: Result<(), GreenlightError>)
    ensures
        plugin_result_model(r) == plugin_outcome_spec(status_model(status)),
{
    match status {
        Option::Some(s) => {
            if crate::str_eq(s, "success") {
                Result::Ok(())
            } else if crate::str_eq(s, "fail") {
                Result::Err(GreenlightError::CheckFailed("A plugin returned failure".to_owned()))
            } else {
                Result::Err(
                    GreenlightError::CheckFailed("A plugin produced an invalid result".to_owned()),
                )
            }
        },
        Option::None => Result::Err(
            GreenlightError::CheckFailed("A plugin produced an invalid result".to_owned()),
        ),
    }
}

} // verus!
