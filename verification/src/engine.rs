//! The run plan and the result aggregator.
//!
//! A run folds the required and wanted buckets into one deduplicated plan —
//! a check present in both buckets is required; required always wins — then
//! evaluates each planned check and aggregates the outcomes: any probe
//! error or failed required check is a hard failure, failed wanted checks
//! are recorded without aborting, and a run without failures passes.
//! Aggregation is order-independent but for which hard failure is surfaced
//! first; the merge resolves importance before any check runs.

use crate::checks::{check_eq, Check, CheckOutcome, CheckOutcomeView, CheckView};
use crate::cli::Importance;
use crate::errors::{GreenlightError, GreenlightErrorView};
use vstd::prelude::*;

verus! {

/// Whether a bucket lists a check with this identity.
pub open spec fn bucket_has(s: Seq<Check>, c: CheckView) -> bool {
    exists|i: int| 0 <= i < s.len() && s[i]@ == c
}

/// Whether a plan carries an entry for a check with this identity.
pub open spec fn plan_has(s: Seq<(Check, Importance)>, c: CheckView) -> bool {
    exists|i: int| 0 <= i < s.len() && s[i].0@ == c
}

/// The importance the merged plan assigns to a check: required exactly when
/// the required bucket lists it, wanted otherwise.
pub open spec fn merged_importance(
    required: Seq<Check>,
    wanted: Seq<Check>,
    c: CheckView,
) -> Importance {
    if bucket_has(required, c) {
        Importance::Required
    } else {
        Importance::Wanted
    }
}

fn bucket_contains(v: &Vec<Check>, c: &Check) -> (r: bool)
    ensures
        r == bucket_has(v@, c@),
{
    let mut i: usize = 0;
    while i < v.len()
        invariant
            0 <= i <= v@.len(),
            forall|j: int| 0 <= j < i ==> (#[trigger] v@[j])@ != c@,
        decreases v@.len() - i,
    {
        if check_eq(&v[i], c) {
            assert(v@[i as int]@ == c@);
            assert(bucket_has(v@, c@));
            return true;
        }
        i = i + 1;
    }
    false
}

fn plan_contains(v: &Vec<(Check, Importance)>, c: &Check) -> (r: bool)
    ensures
        r == plan_has(v@, c@),
{
    let mut i: usize = 0;
    while i < v.len()
        invariant
            0 <= i <= v@.len(),
            forall|j: int| 0 <= j < i ==> (#[trigger] v@[j]).0@ != c@,
        decreases v@.len() - i,
    {
        if check_eq(&v[i].0, c) {
            assert(v@[i as int].0@ == c@);
            assert(plan_has(v@, c@));
            return true;
        }
        i = i + 1;
    }
    false
}

proof fn lemma_plan_has_push(s: Seq<(Check, Importance)>, e: (Check, Importance))
    ensures
        forall|c: CheckView| plan_has(s, c) ==> plan_has(#[trigger] s.push(e), c),
        plan_has(s.push(e), e.0@),
{
    assert forall|c: CheckView| plan_has(s, c) implies plan_has(s.push(e), c) by {
        let w = choose|i: int| 0 <= i < s.len() && s[i].0@ == c;
        assert(s.push(e)[w] == s[w]);
    }
    assert(s.push(e)[s.len() as int] == e);
}

/// Folds the two severity buckets into one deduplicated plan. Every check
/// listed in either bucket appears in the plan exactly once; a check listed
/// in the required bucket is required, whatever the wanted bucket says —
/// an explicit two-pass merge, not a reliance on insertion order.
pub fn merge_checks(required: &Vec<Check>, wanted: &Vec<Check>) -> (r: Vec<(Check, Importance)>)
    ensures
        forall|k: int|
            0 <= k < r@.len() ==> bucket_has(required@, (#[trigger] r@[k]).0@) || bucket_has(
                wanted@,
                r@[k].0@,
            ),
        forall|k: int|
            0 <= k < r@.len() ==> (#[trigger] r@[k]).1 == merged_importance(
                required@,
                wanted@,
                r@[k].0@,
            ),
        forall|c: CheckView|
            bucket_has(required@, c) || bucket_has(wanted@, c) ==> plan_has(r@, c),
        forall|k1: int, k2: int|
            0 <= k1 < k2 < r@.len() ==> (#[trigger] r@[k1]).0@ != (#[trigger] r@[k2]).0@,
{
    let mut out: Vec<(Check, Importance)> = Vec::new();
    let mut i: usize = 0;
    while i < wanted.len()
        invariant
            0 <= i <= wanted@.len(),
            forall|k: int|
                0 <= k < out@.len() ==> (#[trigger] out@[k]).1 == Importance::Wanted,
            forall|k: int|
                0 <= k < out@.len() ==> !bucket_has(required@, (#[trigger] out@[k]).0@)
                    && bucket_has(wanted@, out@[k].0@),
            forall|j: int|
                0 <= j < i ==> bucket_has(required@, (#[trigger] wanted@[j])@) || plan_has(
                    out@,
                    wanted@[j]@,
                ),
            forall|k1: int, k2: int|
                0 <= k1 < k2 < out@.len() ==> (#[trigger] out@[k1]).0@ != (#[trigger] out@[k2]).0@,
        decreases wanted@.len() - i,
    {
        let c = &wanted[i];
        if !bucket_contains(required, c) && !plan_contains(&out, c) {
            let ghost before = out@;
            let entry = (c.clone(), Importance::Wanted);
            let ghost e = entry;
            out.push(entry);
            proof {
                lemma_plan_has_push(before, e);
                assert(out@[out@.len() - 1].0@ == wanted@[i as int]@);
            }
        }
        assert(bucket_has(required@, wanted@[i as int]@) || plan_has(out@, wanted@[i as int]@));
        i = i + 1;
    }
    let ghost wanted_pass = out@;
    let mut j: usize = 0;
    while j < required.len()
        invariant
            0 <= j <= required@.len(),
            forall|k: int|
                0 <= k < out@.len() ==> ((#[trigger] out@[k]).1 == Importance::Wanted
                    || out@[k].1 == Importance::Required),
            forall|k: int|
                0 <= k < out@.len() ==> ((#[trigger] out@[k]).1 == Importance::Wanted
                    ==> !bucket_has(required@, out@[k].0@) && bucket_has(wanted@, out@[k].0@)),
            forall|k: int|
                0 <= k < out@.len() ==> ((#[trigger] out@[k]).1 == Importance::Required
                    ==> bucket_has(required@, out@[k].0@)),
            forall|c: CheckView| plan_has(wanted_pass, c) ==> plan_has(out@, c),
            forall|c: CheckView|
                bucket_has(wanted@, c) ==> bucket_has(required@, c) || plan_has(wanted_pass, c),
            forall|jj: int|
                0 <= jj < j ==> plan_has(out@, (#[trigger] required@[jj])@),
            forall|k1: int, k2: int|
                0 <= k1 < k2 < out@.len() ==> (#[trigger] out@[k1]).0@ != (#[trigger] out@[k2]).0@,
        decreases required@.len() - j,
    {
        let c = &required[j];
        if !plan_contains(&out, c) {
            let ghost before = out@;
            let entry = (c.clone(), Importance::Required);
            let ghost e = entry;
            out.push(entry);
            proof {
                lemma_plan_has_push(before, e);
                assert(out@[out@.len() - 1].0@ == required@[j as int]@);
                assert(bucket_has(required@, required@[j as int]@));
            }
        }
        assert(plan_has(out@, required@[j as int]@));
        j = j + 1;
    }
    proof {
        assert forall|c: CheckView|
            bucket_has(required@, c) || bucket_has(wanted@, c) implies plan_has(out@, c) by {
            if bucket_has(required@, c) {
                let w = choose|w: int| 0 <= w < required@.len() && required@[w]@ == c;
                assert(plan_has(out@, required@[w]@));
            } else {
                let w = choose|w: int| 0 <= w < wanted@.len() && wanted@[w]@ == c;
                assert(plan_has(wanted_pass, wanted@[w]@));
            }
        }
    }
    out
}

/// A check present in both buckets is merged as required, on whichever side
/// it is encountered first: required always wins.
pub proof fn lemma_merge_required_wins(required: Seq<Check>, wanted: Seq<Check>, c: CheckView)
    requires
        bucket_has(required, c),
        bucket_has(wanted, c),
    ensures
        merged_importance(required, wanted, c) == Importance::Required,
{
}

/// Whether a plan entry of this importance is selected by an importance
/// filter: `All` selects everything, any other filter selects its own
/// level.
pub open spec fn selected(entry: Importance, only: Importance) -> bool {
    only is All || entry == only
}

/// Model of a plan: each entry's check view beside its importance.
pub open spec fn plan_views(s: Seq<(Check, Importance)>) -> Seq<(CheckView, Importance)> {
    s.map_values(|p: (Check, Importance)| (p.0@, p.1))
}

/// The subsequence of a plan that an importance filter keeps, in order.
pub open spec fn filter_plan(s: Seq<(CheckView, Importance)>, only: Importance) -> Seq<
    (CheckView, Importance),
>
    decreases s.len(),
{
    if s.len() == 0 {
        Seq::empty()
    } else {
        let rest = filter_plan(s.drop_last(), only);
        if selected(s.last().1, only) {
            rest.push(s.last())
        } else {
            rest
        }
    }
}

/// Keeps the plan entries whose importance the command line selected.
pub fn filter_checks(plan: &Vec<(Check, Importance)>, only: &Importance) -> (r: Vec<
    (Check, Importance),
>)
    ensures
        plan_views(r@) == filter_plan(plan_views(plan@), *only),
{
    let ghost model = plan_views(plan@);
    let mut r: Vec<(Check, Importance)> = Vec::new();
    let mut i: usize = 0;
    proof {
        assert(model.take(0) =~= Seq::<(CheckView, Importance)>::empty());
        assert(plan_views(r@) =~= filter_plan(model.take(0), *only));
    }
    while i < plan.len()
        invariant
            0 <= i <= plan@.len(),
            model == plan_views(plan@),
            plan_views(r@) == filter_plan(model.take(i as int), *only),
        decreases plan@.len() - i,
    {
        let keep = matches!(only, Importance::All) || plan[i].1 == *only;
        proof {
            assert(model.take(i + 1).drop_last() =~= model.take(i as int));
            assert(model.take(i + 1).last() == model[i as int]);
            assert(model[i as int] == (plan@[i as int].0@, plan@[i as int].1));
        }
        if keep {
            let ghost before = plan_views(r@);
            let entry = (plan[i].0.clone(), plan[i].1);
            r.push(entry);
            proof {
                assert(plan_views(r@) =~= before.push(model[i as int]));
            }
        }
        i = i + 1;
    }
    proof {
        assert(model.take(plan@.len() as int) =~= model);
    }
    r
}

/// Mathematical model of a [`HardFailureCause`].
pub enum HardFailureCauseView {
    ProbeError(GreenlightErrorView),
    RequiredCheckFailed(CheckView),
}

/// Why a run failed hard: a probe could not determine its condition, or a
/// required check was evaluated and found to fail.
#[derive(Debug)]
pub enum HardFailureCause {
    ProbeError(GreenlightError),
    RequiredCheckFailed(Check),
}

impl View for HardFailureCause {
    type V = HardFailureCauseView;

    open spec fn view(&self) -> HardFailureCauseView {
        match self {
            HardFailureCause::ProbeError(e) => HardFailureCauseView::ProbeError(e@),
            HardFailureCause::RequiredCheckFailed(c) => HardFailureCauseView::RequiredCheckFailed(
                c@,
            ),
        }
    }
}

/// Mathematical model of a [`Verdict`].
pub enum VerdictView {
    AllPassed,
    SoftFailure(Seq<CheckView>),
    HardFailure(HardFailureCauseView),
}

/// The terminal result of one evaluation run. A soft failure carries the
/// wanted checks that failed; a hard failure carries its cause. Only
/// `AllPassed` maps to a successful process exit.
#[derive(Debug)]
pub enum Verdict {
    AllPassed,
    SoftFailure(Vec<Check>),
    HardFailure(HardFailureCause),
}

impl View for Verdict {
    type V = VerdictView;

    open spec fn view(&self) -> VerdictView {
        match self {
            Verdict::AllPassed => VerdictView::AllPassed,
            Verdict::SoftFailure(failed) => VerdictView::SoftFailure(
                failed@.map_values(|c: Check| c@),
            ),
            Verdict::HardFailure(cause) => VerdictView::HardFailure(cause@),
        }
    }
}

/// The verdict of the outcomes still to process, given the wanted failures
/// recorded so far: the first probe error or failed required check ends the
/// run hard at once; failed wanted checks are recorded and processing goes
/// on; a run that ends with recorded wanted failures is a soft failure, and
/// one without any is a pass.
pub open spec fn aggregate_from(
    results: Seq<(Check, Importance, CheckOutcome)>,
    wanted_failed: Seq<CheckView>,
) -> VerdictView
    decreases results.len(),
{
    if results.len() == 0 {
        if wanted_failed.len() > 0 {
            VerdictView::SoftFailure(wanted_failed)
        } else {
            VerdictView::AllPassed
        }
    } else {
        match results[0].2@ {
            CheckOutcomeView::Error(e) => VerdictView::HardFailure(
                HardFailureCauseView::ProbeError(e),
            ),
            CheckOutcomeView::Fail => if results[0].1 is Required {
                VerdictView::HardFailure(
                    HardFailureCauseView::RequiredCheckFailed(results[0].0@),
                )
            } else {
                aggregate_from(results.drop_first(), wanted_failed.push(results[0].0@))
            },
            CheckOutcomeView::Pass => aggregate_from(results.drop_first(), wanted_failed),
        }
    }
}

/// The verdict of a whole sequence of outcomes.
pub open spec fn aggregate_spec(results: Seq<(Check, Importance, CheckOutcome)>) -> VerdictView {
    aggregate_from(results, Seq::empty())
}

/// Folds the collected `(check, importance, outcome)` triples into the
/// run's verdict, processing them in order and stopping at the first hard
/// failure. A plan entry carries one of the two severities; the run-wide
/// `All` selection is outside the aggregator's domain.
pub fn aggregate(results: &Vec<(Check, Importance, CheckOutcome)>) -> (v: Verdict)
    requires
        forall|k: int|
            0 <= k < results@.len() ==> (#[trigger] results@[k]).1 != Importance::All,
    ensures
        v@ == aggregate_spec(results@),
{
    let mut failed: Vec<Check> = Vec::new();
    let mut i: usize = 0;
    proof {
        assert(results@.skip(0) =~= results@);
        assert(failed@.map_values(|c: Check| c@) =~= Seq::<CheckView>::empty());
    }
    while i < results.len()
        invariant
            0 <= i <= results@.len(),
            aggregate_spec(results@) == aggregate_from(
                results@.skip(i as int),
                failed@.map_values(|c: Check| c@),
            ),
        decreases results@.len() - i,
    {
        proof {
            assert(results@.skip(i as int)[0] == results@[i as int]);
            assert(results@.skip(i as int).drop_first() =~= results@.skip(i as int + 1));
        }
        let triple = &results[i];
        match &triple.2 {
            CheckOutcome::Error(e) => {
                return Verdict::HardFailure(HardFailureCause::ProbeError(e.clone()));
            },
            CheckOutcome::Fail => {
                if matches!(triple.1, Importance::Required) {
                    return Verdict::HardFailure(
                        HardFailureCause::RequiredCheckFailed(triple.0.clone()),
                    );
                } else {
                    let ghost before = failed@.map_values(|c: Check| c@);
                    failed.push(triple.0.clone());
                    proof {
                        assert(failed@.map_values(|c: Check| c@) =~= before.push(
                            results@[i as int].0@,
                        ));
                    }
                }
            },
            CheckOutcome::Pass => {},
        }
        i = i + 1;
    }
    proof {
        assert(results@.skip(results@.len() as int) =~= Seq::<
            (Check, Importance, CheckOutcome),
        >::empty());
    }
    if failed.len() > 0 {
        Verdict::SoftFailure(failed)
    } else {
        Verdict::AllPassed
    }
}

proof fn lemma_aggregate_from_all_pass(
    results: Seq<(Check, Importance, CheckOutcome)>,
    acc: Seq<CheckView>,
)
    requires
        forall|k: int| 0 <= k < results.len() ==> (#[trigger] results[k]).2@ is Pass,
    ensures
        aggregate_from(results, acc) == (if acc.len() > 0 {
            VerdictView::SoftFailure(acc)
        } else {
            VerdictView::AllPassed
        }),
    decreases results.len(),
{
    if results.len() > 0 {
        assert forall|k: int|
            0 <= k < results.drop_first().len() implies (#[trigger] (results.drop_first()[k])).2@
            is Pass by {
            assert(results.drop_first()[k] == results[k + 1]);
        }
        lemma_aggregate_from_all_pass(results.drop_first(), acc);
    }
}

/// A run whose every outcome passes yields `AllPassed`.
pub proof fn lemma_aggregate_all_pass(results: Seq<(Check, Importance, CheckOutcome)>)
    requires
        forall|k: int| 0 <= k < results.len() ==> (#[trigger] results[k]).2@ is Pass,
    ensures
        aggregate_spec(results) == VerdictView::AllPassed,
{
    lemma_aggregate_from_all_pass(results, Seq::empty());
}

proof fn lemma_aggregate_from_single_required(
    results: Seq<(Check, Importance, CheckOutcome)>,
    acc: Seq<CheckView>,
    k: int,
)
    requires
        0 <= k < results.len(),
        results[k].1 == Importance::Required,
        results[k].2@ is Fail,
        forall|j: int| 0 <= j < results.len() && j != k ==> (#[trigger] results[j]).2@ is Pass,
    ensures
        aggregate_from(results, acc) == VerdictView::HardFailure(
            HardFailureCauseView::RequiredCheckFailed(results[k].0@),
        ),
    decreases k,
{
    if k > 0 {
        assert(results[0].2@ is Pass);
        assert forall|j: int|
            0 <= j < results.drop_first().len() && j != k - 1 implies (#[trigger] (
        results.drop_first()[j])).2@ is Pass by {
            assert(results.drop_first()[j] == results[j + 1]);
        }
        assert(results.drop_first()[k - 1] == results[k]);
        lemma_aggregate_from_single_required(results.drop_first(), acc, k - 1);
    }
}

/// A single failed required check among otherwise-passing outcomes yields a
/// hard failure naming that check.
pub proof fn lemma_aggregate_single_required_failure(
    results: Seq<(Check, Importance, CheckOutcome)>,
    k: int,
)
    requires
        0 <= k < results.len(),
        results[k].1 == Importance::Required,
        results[k].2@ is Fail,
        forall|j: int| 0 <= j < results.len() && j != k ==> (#[trigger] results[j]).2@ is Pass,
    ensures
        aggregate_spec(results) == VerdictView::HardFailure(
            HardFailureCauseView::RequiredCheckFailed(results[k].0@),
        ),
{
    lemma_aggregate_from_single_required(results, Seq::empty(), k);
}

proof fn lemma_aggregate_from_single_wanted(
    results: Seq<(Check, Importance, CheckOutcome)>,
    acc: Seq<CheckView>,
    k: int,
)
    requires
        0 <= k < results.len(),
        results[k].1 == Importance::Wanted,
        results[k].2@ is Fail,
        forall|j: int| 0 <= j < results.len() && j != k ==> (#[trigger] results[j]).2@ is Pass,
    ensures
        aggregate_from(results, acc) == VerdictView::SoftFailure(acc.push(results[k].0@)),
    decreases k,
{
    assert forall|j: int|
        0 <= j < results.drop_first().len() && j != k - 1 implies (#[trigger] (
    results.drop_first()[j])).2@ is Pass by {
        assert(results.drop_first()[j] == results[j + 1]);
    }
    if k == 0 {
        lemma_aggregate_from_all_pass(results.drop_first(), acc.push(results[0].0@));
    } else {
        assert(results[0].2@ is Pass);
        assert(results.drop_first()[k - 1] == results[k]);
        lemma_aggregate_from_single_wanted(results.drop_first(), acc, k - 1);
    }
}

/// A single failed wanted check among otherwise-passing outcomes yields a
/// soft failure recording exactly that check.
pub proof fn lemma_aggregate_single_wanted_failure(
    results: Seq<(Check, Importance, CheckOutcome)>,
    k: int,
)
    requires
        0 <= k < results.len(),
        results[k].1 == Importance::Wanted,
        results[k].2@ is Fail,
        forall|j: int| 0 <= j < results.len() && j != k ==> (#[trigger] results[j]).2@ is Pass,
    ensures
        aggregate_spec(results) == VerdictView::SoftFailure(seq![results[k].0@]),
{
    lemma_aggregate_from_single_wanted(results, Seq::empty(), k);
    assert(Seq::<CheckView>::empty().push(results[k].0@) =~= seq![results[k].0@]);
}

} // verus!
