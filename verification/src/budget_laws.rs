//! Laws of the error-budget breaker: when admission is refused and when a freeze ends.

use vstd::prelude::*;
use crate::error_budget::{BudgetView, RecordOutcome};

verus! {

/// Freeze admission: where recording a call at `trigger` finds the budget enabled
/// and not frozen, the sample at least as large as the minimum and its success rate
/// below the threshold, a freeze starts, and admission is refused at every instant
/// from `trigger` up to, and not including, `trigger` plus the freeze duration.
pub proof fn lemma_freeze_admission(state: BudgetView, success: bool, trigger: u64, now: u64)
    requires
        state.trips(success, trigger),
        trigger <= now < trigger + state.params.freeze_duration,
    ensures
        state.record_outcome(success, trigger) is FreezeTriggered,
        state.after_record(success, trigger).frozen_until == Some(
            (trigger + state.params.freeze_duration) as u128,
        ),
        state.after_record(success, trigger).admit_result(now) is Err,
{
}

/// While a freeze lasts, admission is refused, and neither admission nor recording
/// a call moves its end.
pub proof fn lemma_freeze_lasts(state: BudgetView, success: bool, now: u64)
    requires
        state.params.enabled,
        state.frozen_at(now),
    ensures
        state.admit_result(now) is Err,
        state.admit_result(now)->Err_0.until == state.frozen_until.unwrap(),
        state.after_admit(now).frozen_until == state.frozen_until,
        state.record_outcome(success, now) == RecordOutcome::Unchanged,
        state.after_record(success, now).frozen_until == state.frozen_until,
{
}

/// Freeze expiry: admission at the instant at which a freeze ends, or later, answers
/// that it lifted the freeze, and lifts it once: the next admission, whenever it
/// comes, finds no freeze.
pub proof fn lemma_freeze_expiry(state: BudgetView, now: u64, later: u64)
    requires
        state.params.enabled,
        state.thaws_at(now),
    ensures
        state.admit_result(now) == Ok::<bool, crate::error_budget::FreezeReport>(true),
        state.after_admit(now).frozen_until.is_none(),
        state.after_admit(now).admit_result(later) == Ok::<bool, crate::error_budget::FreezeReport>(
            false,
        ),
{
}

/// A call recorded at or after the end of a freeze lifts the freeze and starts no
/// new one, whatever the sample holds.
pub proof fn lemma_record_lifts_without_refreezing(state: BudgetView, success: bool, now: u64)
    requires
        state.params.enabled,
        state.thaws_at(now),
    ensures
        state.record_outcome(success, now) == RecordOutcome::FreezeCleared,
        state.after_record(success, now).frozen_until.is_none(),
{
}

/// A disabled budget admits every call and records nothing.
pub proof fn lemma_disabled_budget_is_inert(state: BudgetView, success: bool, now: u64)
    requires
        !state.params.enabled,
    ensures
        state.admit_result(now) == Ok::<bool, crate::error_budget::FreezeReport>(false),
        state.after_admit(now) == state,
        state.record_outcome(success, now) == RecordOutcome::Unchanged,
        state.after_record(success, now) == state,
{
}

/// One use of the breaker.
pub enum BudgetStep {
    /// Admission is asked at the instant.
    Admit(u64),
    /// A call is recorded at the instant, as a success or a failure.
    Record(bool, u64),
}

impl BudgetStep {
    /// The instant of the step.
    pub open spec fn at(self) -> u64 {
        match self {
            BudgetStep::Admit(now) => now,
            BudgetStep::Record(_, now) => now,
        }
    }

    /// The state after the step.
    pub open spec fn apply(self, state: BudgetView) -> BudgetView {
        match self {
            BudgetStep::Admit(now) => state.after_admit(now),
            BudgetStep::Record(success, now) => state.after_record(success, now),
        }
    }
}

/// The state after the steps, taken in order.
pub open spec fn after_steps(state: BudgetView, steps: Seq<BudgetStep>) -> BudgetView
    decreases steps.len(),
{
    if steps.len() == 0 {
        state
    } else {
        steps.last().apply(after_steps(state, steps.drop_last()))
    }
}

/// A freeze holds through everything that happens before its end: whatever is asked
/// and recorded at instants before the end, the end stays where it is, and admission
/// at any instant before it is refused.
pub proof fn lemma_freeze_holds_until_its_end(
    state: BudgetView,
    steps: Seq<BudgetStep>,
    until: u128,
    now: u64,
)
    requires
        state.params.enabled,
        state.frozen_until == Some(until),
        forall|i: int| 0 <= i < steps.len() ==> (#[trigger] steps[i]).at() < until,
        now < until,
    ensures
        after_steps(state, steps).params == state.params,
        after_steps(state, steps).frozen_until == Some(until),
        after_steps(state, steps).admit_result(now) is Err,
    decreases steps.len(),
{
    if steps.len() > 0 {
        let earlier = steps.drop_last();
        assert forall|i: int| 0 <= i < earlier.len() implies (#[trigger] earlier[i]).at()
            < until by {
            assert(earlier[i] == steps[i]);
        }
        lemma_freeze_holds_until_its_end(state, earlier, until, now);
        assert(steps.last() == steps[steps.len() - 1]);
    }
}

} // verus!
