//! The error-budget breaker: a sliding window of outcomes, and a freeze of admission
//! while the success rate is too low.

use std::collections::VecDeque;
use vstd::prelude::*;
use crate::clock::unix_now_nanos;

verus! {

/// One million: success rates and thresholds are counted in parts per million.
pub const PPM: u32 = 1_000_000;

/// Settings of the error budget. Instants and durations are in nanoseconds.
#[derive(Debug, Clone, Copy, PartialEq, Eq, Structural)]
pub struct ErrorBudgetParams {
    pub enabled: bool,
    /// The success rate below which calls are frozen, in parts per million.
    pub success_threshold: u32,
    pub minimum_requests: usize,
    pub sample_window: u64,
    pub freeze_duration: u64,
}

impl ErrorBudgetParams {
    /// The settings can be used: a disabled budget always, an enabled one with a
    /// threshold in (0, 1], at least one request, and a window and a freeze that last.
    pub open spec fn usable(self) -> bool {
        self.enabled ==> {
            &&& 0 < self.success_threshold <= PPM
            &&& self.minimum_requests > 0
            &&& self.sample_window > 0
            &&& self.freeze_duration > 0
        }
    }

    /// The settings of a budget that is switched off.
    pub fn disabled() -> (params: Self)
        ensures
            params == (ErrorBudgetParams {
                enabled: false,
                success_threshold: PPM,
                minimum_requests: 0,
                sample_window: 0,
                freeze_duration: 0,
            }),
            params.usable(),
    {
        ErrorBudgetParams {
            enabled: false,
            success_threshold: PPM,
            minimum_requests: 0,
            sample_window: 0,
            freeze_duration: 0,
        }
    }

    /// Whether the settings can be used.
    pub fn is_usable(&self) -> (ok: bool)
        ensures
            ok == self.usable(),
    {
        !self.enabled || (0 < self.success_threshold && self.success_threshold <= PPM
            && self.minimum_requests > 0 && self.sample_window > 0 && self.freeze_duration > 0)
    }
}

/// Why admission is refused: the end of the freeze, and the sample at that moment.
#[derive(Debug, Clone, Copy, PartialEq, Eq, Structural)]
pub struct FreezeReport {
    /// Nanoseconds since the Unix epoch before which admission is refused.
    pub until: u128,
    /// Successful calls in the sample.
    pub successes: usize,
    pub sample_size: usize,
}

/// The success rate of a sample in parts per million, rounded down; one where the
/// sample is empty.
pub open spec fn rate_ppm(successes: nat, sample_size: nat) -> nat {
    if sample_size == 0 {
        PPM as nat
    } else {
        successes * (PPM as nat) / sample_size
    }
}

impl FreezeReport {
    /// The success rate of the sample in parts per million.
    pub fn success_rate_ppm(&self) -> (rate: u128)
        ensures
            rate == rate_ppm(self.successes as nat, self.sample_size as nat),
    {
        if self.sample_size == 0 {
            PPM as u128
        } else {
            assert((self.successes as u128) * (PPM as u128) <= u128::MAX) by (nonlinear_arith)
                requires
                    self.successes <= usize::MAX,
                    usize::MAX <= u64::MAX,
                    PPM == 1_000_000,
            ;
            (self.successes as u128) * (PPM as u128) / (self.sample_size as u128)
        }
    }
}

/// One finished call.
#[derive(Debug, Clone, Copy, PartialEq, Eq, Structural)]
pub struct Observation {
    pub at: u64,
    pub success: bool,
}

/// What recording a call did to the freeze.
#[derive(Debug, Clone, Copy, PartialEq, Eq, Structural)]
pub enum RecordOutcome {
    Unchanged,
    FreezeTriggered(FreezeReport),
    FreezeCleared,
}

/// The observation is older than the window at `now`.
pub open spec fn outdated(seen: Observation, window: u64, now: u64) -> bool {
    now >= seen.at && now - seen.at > window
}

/// The sample with the outdated observations at its front taken away.
pub open spec fn purge(sample: Seq<Observation>, window: u64, now: u64) -> Seq<Observation>
    decreases sample.len(),
{
    if sample.len() > 0 && outdated(sample[0], window, now) {
        purge(sample.drop_first(), window, now)
    } else {
        sample
    }
}

/// The number of successful calls in a sample.
pub open spec fn successes(sample: Seq<Observation>) -> nat
    decreases sample.len(),
{
    if sample.len() == 0 {
        0
    } else {
        successes(sample.drop_last()) + if sample.last().success {
            1nat
        } else {
            0nat
        }
    }
}

/// The success rate of the sample is below the threshold. An empty sample has the
/// rate one.
pub open spec fn below_threshold(sample: Seq<Observation>, threshold: u32) -> bool {
    if sample.len() == 0 {
        PPM < threshold
    } else {
        successes(sample) * PPM < threshold * sample.len()
    }
}

/// The abstract state of the breaker.
pub struct BudgetView {
    pub params: ErrorBudgetParams,
    pub sample: Seq<Observation>,
    pub frozen_until: Option<u128>,
}

impl BudgetView {
    /// The sample as it is looked at by an operation at `now`.
    pub open spec fn current(self, now: u64) -> Seq<Observation> {
        purge(self.sample, self.params.sample_window, now)
    }

    /// The report on the sample at `now`, for a freeze that ends at `until`.
    pub open spec fn report(self, until: u128, sample: Seq<Observation>) -> FreezeReport {
        FreezeReport {
            until,
            successes: successes(sample) as usize,
            sample_size: sample.len() as usize,
        }
    }

    /// What admission at `now` answers: `Ok(false)` for a call that may go on,
    /// `Ok(true)` where this admission lifts a freeze that is over, and the report
    /// where the freeze still lasts.
    pub open spec fn admit_result(self, now: u64) -> Result<bool, FreezeReport> {
        if !self.params.enabled {
            Ok(false)
        } else {
            match self.frozen_until {
                Some(until) => if now < until {
                    Err(self.report(until, self.current(now)))
                } else {
                    Ok(true)
                },
                None => Ok(false),
            }
        }
    }

    /// The state after admission at `now`.
    pub open spec fn after_admit(self, now: u64) -> BudgetView {
        if !self.params.enabled {
            self
        } else {
            BudgetView {
                sample: self.current(now),
                frozen_until: match self.frozen_until {
                    Some(until) => if now < until {
                        Some(until)
                    } else {
                        None
                    },
                    None => None,
                },
                ..self
            }
        }
    }

    /// A freeze is set and is over at `now`.
    pub open spec fn thaws_at(self, now: u64) -> bool {
        self.frozen_until matches Some(until) && now >= until
    }

    /// A freeze is set and still lasts at `now`.
    pub open spec fn frozen_at(self, now: u64) -> bool {
        self.frozen_until matches Some(until) && now < until
    }

    /// The sample after a call at `now` is recorded.
    pub open spec fn grown(self, success: bool, now: u64) -> Seq<Observation> {
        self.current(now).push(Observation { at: now, success })
    }

    /// Recording the call at `now` starts a freeze.
    pub open spec fn trips(self, success: bool, now: u64) -> bool {
        &&& self.params.enabled
        &&& self.frozen_until.is_none()
        &&& self.grown(success, now).len() >= self.params.minimum_requests
        &&& below_threshold(self.grown(success, now), self.params.success_threshold)
    }

    /// What recording a call at `now` reports.
    pub open spec fn record_outcome(self, success: bool, now: u64) -> RecordOutcome {
        if !self.params.enabled {
            RecordOutcome::Unchanged
        } else if self.thaws_at(now) {
            RecordOutcome::FreezeCleared
        } else if self.trips(success, now) {
            RecordOutcome::FreezeTriggered(
                self.report(
                    (now + self.params.freeze_duration) as u128,
                    self.grown(success, now),
                ),
            )
        } else {
            RecordOutcome::Unchanged
        }
    }

    /// The state after a call at `now` is recorded.
    pub open spec fn after_record(self, success: bool, now: u64) -> BudgetView {
        if !self.params.enabled {
            self
        } else {
            BudgetView {
                sample: self.grown(success, now),
                frozen_until: if self.thaws_at(now) {
                    None
                } else if self.trips(success, now) {
                    Some((now + self.params.freeze_duration) as u128)
                } else {
                    self.frozen_until
                },
                ..self
            }
        }
    }
}

/// Sliding-window breaker: it refuses admission for a while after the success rate
/// of the recent calls fell below the threshold.
pub struct ErrorBudget {
    params: ErrorBudgetParams,
    observations: VecDeque<Observation>,
    frozen_until: Option<u128>,
}

impl View for ErrorBudget {
    type V = BudgetView;

    closed spec fn view(&self) -> BudgetView {
        BudgetView {
            params: self.params,
            sample: self.observations@,
            frozen_until: self.frozen_until,
        }
    }
}

/// Counting the successes of a sample never gives more than its length.
pub proof fn lemma_successes_bounded(sample: Seq<Observation>)
    ensures
        successes(sample) <= sample.len(),
    decreases sample.len(),
{
    if sample.len() > 0 {
        lemma_successes_bounded(sample.drop_last());
    }
}

impl ErrorBudget {
    /// A breaker with an empty sample and no freeze.
    pub fn new(params: ErrorBudgetParams) -> (budget: Self)
        requires
            params.usable(),
        ensures
            budget@ == (BudgetView { params, sample: Seq::empty(), frozen_until: None }),
    {
        ErrorBudget { params, observations: VecDeque::new(), frozen_until: None }
    }

    /// A breaker that is switched off.
    pub fn disabled() -> (budget: Self)
        ensures
            budget@ == (BudgetView {
                params: ErrorBudgetParams {
                    enabled: false,
                    success_threshold: PPM,
                    minimum_requests: 0,
                    sample_window: 0,
                    freeze_duration: 0,
                },
                sample: Seq::empty(),
                frozen_until: None,
            }),
    {
        Self::new(ErrorBudgetParams::disabled())
    }

    /// The settings of the breaker.
    pub fn params(&self) -> (params: ErrorBudgetParams)
        ensures
            params == self@.params,
    {
        self.params
    }

    /// Whether a freeze is set, over or not.
    pub fn frozen_until(&self) -> (until: Option<u128>)
        ensures
            until == self@.frozen_until,
    {
        self.frozen_until
    }

    fn purge_old(&mut self, now: u64)
        ensures
            final(self)@ == (BudgetView { sample: old(self)@.current(now), ..old(self)@ }),
    {
        let window = self.params.sample_window;
        loop
            invariant
                window == self.params.sample_window,
                self.params == old(self).params,
                self.frozen_until == old(self).frozen_until,
                purge(self.observations@, window, now) == purge(old(self).observations@, window, now),
            ensures
                self.observations@ == purge(old(self).observations@, window, now),
            decreases self.observations@.len(),
        {
            if self.observations.len() == 0 {
                break ;
            }
            let front = self.observations[0];
            if now >= front.at && now - front.at > window {
                let ghost before = self.observations@;
                self.observations.pop_front();
                assert(self.observations@ =~= before.drop_first());
            } else {
                break ;
            }
        }
    }

    fn current_success_rate(&self) -> (sample: (usize, usize))
        ensures
            sample.0 == successes(self@.sample),
            sample.1 == self@.sample.len(),
            sample.0 <= sample.1,
    {
        let total = self.observations.len();
        let mut count: usize = 0;
        let mut i: usize = 0;
        while i < total
            invariant
                total == self.observations@.len(),
                i <= total,
                count == successes(self.observations@.subrange(0, i as int)),
                count <= i,
            decreases total - i,
        {
            let ghost next = self.observations@.subrange(0, i + 1);
            assert(next.drop_last() =~= self.observations@.subrange(0, i as int));
            assert(next.last() == self.observations@[i as int]);
            if self.observations[i].success {
                count += 1;
            }
            i += 1;
        }
        assert(self.observations@.subrange(0, total as int) =~= self.observations@);
        (count, total)
    }

    /// Asks at `now`, nanoseconds since the Unix epoch, whether a call may go on.
    pub fn admit_at(&mut self, now: u64) -> (answer: Result<bool, FreezeReport>)
        ensures
            answer == old(self)@.admit_result(now),
            final(self)@ == old(self)@.after_admit(now),
    {
        if !self.params.enabled {
            return Ok(false);
        }
        self.purge_old(now);
        match self.frozen_until {
            Some(until) => {
                if (now as u128) < until {
                    let (successes, sample_size) = self.current_success_rate();
                    return Err(FreezeReport { until, successes, sample_size });
                }
                self.frozen_until = None;
                Ok(true)
            },
            None => Ok(false),
        }
    }

    /// Asks the same at the system clock's time.
    pub fn admit_now(&mut self) -> (answer: Result<bool, FreezeReport>)
        ensures
            exists|now: u64|
                answer == old(self)@.admit_result(now) && final(self)@ == old(self)@.after_admit(
                    now,
                ),
    {
        let now = unix_now_nanos();
        self.admit_at(now)
    }

    /// Records at `now`, nanoseconds since the Unix epoch, how a call ended.
    pub fn record(&mut self, success: bool, now: u64) -> (outcome: RecordOutcome)
        ensures
            outcome == old(self)@.record_outcome(success, now),
            final(self)@ == old(self)@.after_record(success, now),
    {
        if !self.params.enabled {
            return RecordOutcome::Unchanged;
        }
        self.purge_old(now);
        let mut thawed = false;
        match self.frozen_until {
            Some(until) => {
                if now as u128 >= until {
                    self.frozen_until = None;
                    thawed = true;
                }
            },
            None => {},
        }
        self.observations.push_back(Observation { at: now, success });
        if thawed {
            return RecordOutcome::FreezeCleared;
        }
        if self.frozen_until.is_some() {
            return RecordOutcome::Unchanged;
        }
        let (successes, sample_size) = self.current_success_rate();
        if sample_size >= self.params.minimum_requests && is_below_threshold(
            successes,
            sample_size,
            self.params.success_threshold,
        ) {
            let until = now as u128 + self.params.freeze_duration as u128;
            self.frozen_until = Some(until);
            RecordOutcome::FreezeTriggered(FreezeReport { until, successes, sample_size })
        } else {
            RecordOutcome::Unchanged
        }
    }

    /// Records a success at the system clock's time.
    pub fn record_success_now(&mut self) -> (outcome: RecordOutcome)
        ensures
            exists|now: u64|
                outcome == old(self)@.record_outcome(true, now) && final(self)@ == old(
                    self,
                )@.after_record(true, now),
    {
        let now = unix_now_nanos();
        self.record(true, now)
    }

    /// Records a failure at the system clock's time.
    pub fn record_failure_now(&mut self) -> (outcome: RecordOutcome)
        ensures
            exists|now: u64|
                outcome == old(self)@.record_outcome(false, now) && final(self)@ == old(
                    self,
                )@.after_record(false, now),
    {
        let now = unix_now_nanos();
        self.record(false, now)
    }
}

/// Compares the success rate of a sample that is not empty with the threshold.
fn is_below_threshold(successes: usize, sample_size: usize, threshold: u32) -> (below: bool)
    requires
        successes <= sample_size,
        sample_size > 0,
    ensures
        below == (successes * PPM < threshold * sample_size),
{
    assert((successes as u128) * (PPM as u128) <= u128::MAX && (threshold as u128) * (
    sample_size as u128) <= u128::MAX) by (nonlinear_arith)
        requires
            successes <= u64::MAX,
            sample_size <= u64::MAX,
            threshold <= u32::MAX,
            PPM == 1_000_000,
    ;
    (successes as u128) * (PPM as u128) < (threshold as u128) * (sample_size as u128)
}

} // verus!
