//! The orchestration of one call: admission, target, outcome.

use vstd::prelude::*;
use vstd::string::StringExecFns;
use crate::clock::{Timestamp, TimestampView};
use crate::config::IdempotencyConflictPolicy;
use crate::error_budget::{BudgetView, ErrorBudget, FreezeReport, RecordOutcome};
use crate::idempotency::{
    index_reaped, purged, reaped_records, reported, ClaimOutcome, ClaimOutcomeView,
    IdempotencyStore, ReapedEvent, StoreView,
};
use crate::metrics::{record_reaper_timeout, set_error_budget_frozen, Metrics, MetricsView};
use crate::run::{InspectionRun, RunState};
use crate::server::{build_event, is_call_event, plan_target, target_plan, target_plan_view, TargetPlan};
use crate::types::{
    CallRequest, CallRequestView, InspectionRunEvent, InspectionRunEventView, TargetDescriptor,
};

verus! {

/// Seconds after which the reaper takes a claim in flight for stale.
pub const REAPER_TTL_SECS: u64 = 60;

/// Seconds between two sweeps of the reaper.
pub const REAPER_CADENCE_SECS: u64 = 30;

/// The clocks as they were read when a call came in.
#[derive(Debug)]
pub struct CallClock {
    /// Monotonic nanoseconds, for the idempotency store.
    pub mono_now: u64,
    /// Nanoseconds since the Unix epoch, for the error budget.
    pub wall_now: u64,
    /// The wall-clock start of the call.
    pub started_at: Timestamp,
    /// Milliseconds that the call has taken so far.
    pub elapsed_ms: u64,
}

/// How a call is answered before any target is reached.
#[derive(Debug)]
pub enum Admission {
    /// The call is known, and the policy hands its event back: `status: duplicate`.
    Duplicate(InspectionRunEvent),
    /// The call is refused with the code `IDEMPOTENCY_CONFLICT`.
    Conflict { message: String, existing: Option<InspectionRunEvent> },
    /// The error budget is frozen: the call is refused with the code
    /// `ERROR_BUDGET_EXHAUSTED`, and `event` goes to the outbox.
    Frozen { report: FreezeReport, event: InspectionRunEvent },
    /// The call goes on, under the key that it claimed, if it named one.
    Proceed { claimed_key: Option<String> },
}

/// What a `Admission` stands for in contracts.
pub enum AdmissionView {
    Duplicate(InspectionRunEventView),
    Conflict { message: Seq<char>, existing: Option<InspectionRunEventView> },
    Frozen { report: FreezeReport, event: InspectionRunEventView },
    Proceed { claimed_key: Option<Seq<char>> },
}

impl View for Admission {
    type V = AdmissionView;

    open spec fn view(&self) -> AdmissionView {
        match self {
            Admission::Duplicate(event) => AdmissionView::Duplicate(event@),
            Admission::Conflict { message, existing } => AdmissionView::Conflict {
                message: message@,
                existing: existing.deep_view(),
            },
            Admission::Frozen { report, event } => AdmissionView::Frozen {
                report: *report,
                event: event@,
            },
            Admission::Proceed { claimed_key } => AdmissionView::Proceed {
                claimed_key: claimed_key.deep_view(),
            },
        }
    }
}

/// The abstract state of the orchestrator.
pub struct ServerView {
    pub store: StoreView,
    pub budget: BudgetView,
    pub policy: IdempotencyConflictPolicy,
}

/// What decides the answer to a call.
#[derive(PartialEq, Eq)]
pub enum Verdict {
    /// The external reference of the request is indexed.
    KnownReference,
    /// The idempotency key of the request is in flight.
    KeyInFlight,
    /// The idempotency key of the request is completed.
    KeyCompleted,
    /// Admission is frozen.
    Frozen,
    Proceed,
}

impl ServerView {
    /// The external reference of the request is indexed.
    pub open spec fn knows_reference(self, request: CallRequestView) -> bool {
        request.external_reference matches Some(reference) && self.store.external_ref(
            reference,
        ) is Some
    }

    /// What a claim of the request's key answers; accepted where it names no key.
    pub open spec fn key_outcome(self, request: CallRequestView) -> ClaimOutcomeView {
        match request.idempotency_key {
            Some(key) => self.store.claim_outcome(key),
            None => ClaimOutcomeView::Accepted,
        }
    }

    /// What decides the answer to a call at the wall-clock instant `wall_now`: the
    /// index of external references first, then the idempotency key, then the error
    /// budget.
    pub open spec fn verdict(self, request: CallRequestView, wall_now: u64) -> Verdict {
        if self.knows_reference(request) {
            Verdict::KnownReference
        } else if self.key_outcome(request) is InFlight {
            Verdict::KeyInFlight
        } else if self.key_outcome(request) is Completed {
            Verdict::KeyCompleted
        } else if self.budget.admit_result(wall_now) is Err {
            Verdict::Frozen
        } else {
            Verdict::Proceed
        }
    }
}

/// The answer to a known call under a policy.
pub open spec fn known_call(
    policy: IdempotencyConflictPolicy,
    existing: InspectionRunEventView,
    message: Seq<char>,
) -> AdmissionView {
    match policy {
        IdempotencyConflictPolicy::ReturnExisting => AdmissionView::Duplicate(existing),
        IdempotencyConflictPolicy::Conflict409 => AdmissionView::Conflict {
            message,
            existing: Some(existing),
        },
    }
}

/// The state in which a known call leaves its run under a policy.
pub open spec fn known_call_state(policy: IdempotencyConflictPolicy) -> RunState {
    match policy {
        IdempotencyConflictPolicy::ReturnExisting => RunState::Captured,
        IdempotencyConflictPolicy::Conflict409 => RunState::Failed,
    }
}

/// The store after a call claimed its key, if it has one, and attached run, request
/// and start to the claim.
pub open spec fn claimed_store(
    store: StoreView,
    request: CallRequestView,
    run_id: uuid::Uuid,
    snapshot: Option<serde_json::Value>,
    started_at: TimestampView,
    mono_now: u64,
) -> StoreView {
    match request.idempotency_key {
        Some(key) => store.after_claim(key, mono_now).after_begin(
            key,
            run_id,
            request,
            snapshot,
        ).after_mark_started(key, started_at),
        None => store,
    }
}

/// The store after the event of a call is entered: under its external reference, and
/// as the completion of the key that the call claimed.
pub open spec fn settled_store(
    store: StoreView,
    claimed_key: Option<Seq<char>>,
    event: InspectionRunEventView,
    mono_now: u64,
) -> StoreView {
    let indexed = match event.external_reference {
        Some(reference) => store.after_record_external_ref(reference, event, mono_now),
        None => store,
    };
    match claimed_key {
        Some(key) => indexed.after_complete(key, event, mono_now),
        None => indexed,
    }
}

/// The metrics after the outcome of a recorded call is published.
pub open spec fn published(metrics: MetricsView, outcome: RecordOutcome) -> MetricsView {
    match outcome {
        RecordOutcome::FreezeTriggered(_) => MetricsView { error_budget_frozen: 1, ..metrics },
        RecordOutcome::FreezeCleared => MetricsView { error_budget_frozen: 0, ..metrics },
        RecordOutcome::Unchanged => metrics,
    }
}

/// The request-execution spine of the server: idempotency store, error budget and
/// conflict policy, driven once per call.
pub struct InspectorServer {
    idempotency: IdempotencyStore,
    error_budget: ErrorBudget,
    conflict_policy: IdempotencyConflictPolicy,
}

impl View for InspectorServer {
    type V = ServerView;

    closed spec fn view(&self) -> ServerView {
        ServerView {
            store: self.idempotency@,
            budget: self.error_budget@,
            policy: self.conflict_policy,
        }
    }
}

impl InspectorServer {
    /// The orchestrator over a store, a policy and a breaker.
    pub fn new(
        idempotency: IdempotencyStore,
        conflict_policy: IdempotencyConflictPolicy,
        error_budget: ErrorBudget,
    ) -> (server: Self)
        ensures
            server@ == (ServerView {
                store: idempotency@,
                budget: error_budget@,
                policy: conflict_policy,
            }),
    {
        InspectorServer { idempotency, error_budget, conflict_policy }
    }

    /// The idempotency store.
    pub fn idempotency(&self) -> (store: &IdempotencyStore)
        ensures
            store@ == self@.store,
    {
        &self.idempotency
    }

    /// The error-budget breaker.
    pub fn error_budget(&self) -> (budget: &ErrorBudget)
        ensures
            budget@ == self@.budget,
    {
        &self.error_budget
    }

    /// The policy for calls that are known.
    pub fn conflict_policy(&self) -> (policy: IdempotencyConflictPolicy)
        ensures
            policy == self@.policy,
    {
        self.conflict_policy
    }

    fn known(&self, run: &mut InspectionRun, existing: InspectionRunEvent, message: &str) -> (answer:
        Admission)
        requires
            old(run).state == RunState::Processing,
        ensures
            answer@ == known_call(self@.policy, existing@, message@),
            final(run).state == known_call_state(self@.policy),
            final(run).id == old(run).id,
    {
        match self.conflict_policy {
            IdempotencyConflictPolicy::ReturnExisting => {
                run.capture();
                Admission::Duplicate(existing)
            },
            IdempotencyConflictPolicy::Conflict409 => {
                run.fail();
                Admission::Conflict { message: String::from_str(message), existing: Some(existing) }
            },
        }
    }

    /// Decides how a call that came in is answered before any target is reached.
    ///
    /// A call whose external reference is indexed, or whose key is completed, is
    /// answered from the record as the policy says. A call whose key is in flight is
    /// refused. Otherwise the call claims its key and asks the error budget: a frozen
    /// budget refuses it with an event that is entered as the call's outcome, and an
    /// open one lets it go on.
    pub fn admit_call(
        &mut self,
        run: &mut InspectionRun,
        metrics: &mut Metrics,
        request: &CallRequest,
        snapshot: Option<serde_json::Value>,
        clock: &CallClock,
    ) -> (answer: Admission)
        requires
            old(run).state == RunState::Processing,
        ensures
            final(run).id == old(run).id,
            final(self)@.policy == old(self)@.policy,
            match old(self)@.verdict(request@, clock.wall_now) {
                Verdict::KnownReference => {
                    &&& final(self)@ == old(self)@
                    &&& final(metrics)@ == old(metrics)@
                    &&& answer@ == known_call(
                        old(self)@.policy,
                        old(self)@.store.external_ref(request@.external_reference.unwrap()).unwrap(),
                        "external reference conflict"@,
                    )
                    &&& final(run).state == known_call_state(old(self)@.policy)
                },
                Verdict::KeyInFlight => {
                    &&& final(self)@ == old(self)@
                    &&& final(metrics)@ == old(metrics)@
                    &&& answer@ == (AdmissionView::Conflict {
                        message: "idempotency key already in-flight"@,
                        existing: None,
                    })
                    &&& final(run).state == RunState::Failed
                },
                Verdict::KeyCompleted => {
                    &&& final(self)@ == old(self)@
                    &&& final(metrics)@ == old(metrics)@
                    &&& answer@ == known_call(
                        old(self)@.policy,
                        old(self)@.key_outcome(request@)->Completed_0,
                        "idempotency conflict"@,
                    )
                    &&& final(run).state == known_call_state(old(self)@.policy)
                },
                Verdict::Frozen => {
                    &&& answer matches Admission::Frozen { report, event }
                    &&& Err::<bool, FreezeReport>(report) == old(self)@.budget.admit_result(
                        clock.wall_now,
                    )
                    &&& final(run).state == RunState::Failed
                    &&& is_call_event(
                        event@,
                        *final(run),
                        request@,
                        snapshot,
                        clock.started_at@,
                        clock.elapsed_ms,
                        None,
                        None,
                        Some("error budget exhausted"@),
                        request@.external_reference,
                    )
                    &&& final(self)@.budget == old(self)@.budget.after_admit(clock.wall_now)
                    &&& final(self)@.store == settled_store(
                        claimed_store(
                            old(self)@.store,
                            request@,
                            old(run).id,
                            snapshot,
                            clock.started_at@,
                            clock.mono_now,
                        ),
                        request@.idempotency_key,
                        event@,
                        clock.mono_now,
                    )
                    &&& final(metrics)@ == (MetricsView {
                        error_budget_frozen: 1,
                        ..old(metrics)@
                    })
                },
                Verdict::Proceed => {
                    &&& answer@ == (AdmissionView::Proceed {
                        claimed_key: request@.idempotency_key,
                    })
                    &&& final(run).state == RunState::Processing
                    &&& final(self)@.budget == old(self)@.budget.after_admit(clock.wall_now)
                    &&& final(self)@.store == claimed_store(
                        old(self)@.store,
                        request@,
                        old(run).id,
                        snapshot,
                        clock.started_at@,
                        clock.mono_now,
                    )
                    &&& final(metrics)@ == if old(self)@.budget.admit_result(clock.wall_now)
                        == Ok::<bool, FreezeReport>(true) {
                        MetricsView { error_budget_frozen: 0, ..old(metrics)@ }
                    } else {
                        old(metrics)@
                    }
                },
            },
    {
        if let Some(reference) = &request.external_reference {
            if let Some(existing) = self.idempotency.find_external_ref(reference.as_str()) {
                return self.known(run, existing, "external reference conflict");
            }
        }
        let mut claimed_key: Option<String> = None;
        if let Some(key) = &request.idempotency_key {
            match self.idempotency.claim_at(key.as_str(), clock.mono_now) {
                ClaimOutcome::Accepted => {
                    self.idempotency.begin(key.as_str(), run.id, request, snapshot.clone());
                    self.idempotency.mark_started(key.as_str(), clock.started_at.clone());
                    claimed_key = Some(key.clone());
                },
                ClaimOutcome::InFlight => {
                    run.fail();
                    return Admission::Conflict {
                        message: String::from_str("idempotency key already in-flight"),
                        existing: None,
                    };
                },
                ClaimOutcome::Completed(event) => {
                    return self.known(run, event, "idempotency conflict");
                },
            }
        }
        match self.error_budget.admit_at(clock.wall_now) {
            Ok(thawed) => {
                if thawed {
                    set_error_budget_frozen(metrics, false);
                }
                Admission::Proceed { claimed_key }
            },
            Err(report) => {
                set_error_budget_frozen(metrics, true);
                run.fail();
                let event = build_event(
                    run,
                    request,
                    snapshot,
                    &clock.started_at,
                    clock.elapsed_ms,
                    None,
                    None,
                    Some(String::from_str("error budget exhausted")),
                    request.external_reference.clone(),
                );
                self.enter(&claimed_key, &event, clock.mono_now);
                Admission::Frozen { report, event }
            },
        }
    }

    /// Enters the event of a call into the store: under its external reference, and
    /// as the completion of the key that the call claimed.
    pub fn enter(&mut self, claimed_key: &Option<String>, event: &InspectionRunEvent, mono_now: u64)
        ensures
            final(self)@ == (ServerView {
                store: settled_store(old(self)@.store, claimed_key.deep_view(), event@, mono_now),
                ..old(self)@
            }),
    {
        if let Some(reference) = &event.external_reference {
            self.idempotency.record_external_ref_at(reference.as_str(), event.clone(), mono_now);
        }
        if let Some(key) = claimed_key {
            self.idempotency.complete_at(key.as_str(), event.clone(), mono_now);
        }
    }

    /// Finds the target of a call that was let through, and attaches it to the claim
    /// of the call's key. A call without a target fails its run and leaves the store
    /// as it is: the error budget is not asked about it again.
    pub fn resolve_target(
        &mut self,
        run: &mut InspectionRun,
        request: &CallRequest,
        claimed_key: &Option<String>,
        env_command: Option<&str>,
    ) -> (planned: Result<TargetPlan, String>)
        requires
            old(run).state != RunState::Captured,
        ensures
            target_plan_view(planned) == target_plan(
                request@,
                match env_command {
                    Some(line) => Some(line@),
                    None => None,
                },
            ),
            final(run).id == old(run).id,
            match planned {
                Ok(plan) => final(run).state == old(run).state && final(self)@ == (ServerView {
                    store: match claimed_key.deep_view() {
                        Some(key) => old(self)@.store.after_set_target(key, plan.descriptor@),
                        None => old(self)@.store,
                    },
                    ..old(self)@
                }),
                Err(_) => final(run).state == RunState::Failed && final(self)@ == old(self)@,
            },
    {
        match plan_target(request, env_command) {
            Ok(plan) => {
                if let Some(key) = claimed_key {
                    self.idempotency.set_target(key.as_str(), plan.descriptor.clone());
                }
                Ok(plan)
            },
            Err(message) => {
                run.fail();
                Err(message)
            },
        }
    }

    /// Enters the outcome of a call that reached its target: the event into the
    /// store, and success or failure into the error budget, whose answer is
    /// published.
    pub fn settle(
        &mut self,
        metrics: &mut Metrics,
        claimed_key: &Option<String>,
        event: &InspectionRunEvent,
        success: bool,
        mono_now: u64,
        wall_now: u64,
    ) -> (outcome: RecordOutcome)
        ensures
            outcome == old(self)@.budget.record_outcome(success, wall_now),
            final(self)@ == (ServerView {
                store: settled_store(old(self)@.store, claimed_key.deep_view(), event@, mono_now),
                budget: old(self)@.budget.after_record(success, wall_now),
                policy: old(self)@.policy,
            }),
            final(metrics)@ == published(old(metrics)@, outcome),
    {
        self.enter(claimed_key, event, mono_now);
        let outcome = self.error_budget.record(success, wall_now);
        match outcome {
            RecordOutcome::FreezeTriggered(_) => {
                set_error_budget_frozen(metrics, true);
            },
            RecordOutcome::FreezeCleared => {
                set_error_budget_frozen(metrics, false);
            },
            RecordOutcome::Unchanged => {},
        }
        outcome
    }

    /// One sweep of the reaper at the monotonic instant `mono_now` and the wall-clock
    /// instant `now`: stale claims become failures, which are counted and returned
    /// for the outbox.
    pub fn reap(&mut self, metrics: &mut Metrics, ttl: u64, mono_now: u64, now: &Timestamp) -> (reaped:
        Vec<ReapedEvent>)
        ensures
            reaped_records(old(self)@.store.records, final(self)@.store.records, ttl, mono_now, now@),
            reported(
                old(self)@.store.records,
                final(self)@.store.records,
                reaped.deep_view(),
                ttl,
                mono_now,
            ),
            final(self)@.store.external_refs == index_reaped(
                purged(old(self)@.store.external_refs, ttl, mono_now),
                reaped.deep_view(),
                mono_now,
            ),
            final(self)@.budget == old(self)@.budget,
            final(self)@.policy == old(self)@.policy,
            final(metrics)@ == (MetricsView {
                reaper_timeouts: if reaped.len() > 0 {
                    old(metrics).reaper_timeouts.wrapping_add(reaped.len() as u64)
                } else {
                    old(metrics).reaper_timeouts
                },
                ..old(metrics)@
            }),
    {
        let reaped = self.idempotency.reap_expired_at(ttl, mono_now, now);
        record_reaper_timeout(metrics, reaped.len());
        reaped
    }
}

/// Ends the run of a call that its target answered, and writes the record.
///
/// A run that is being processed is captured; a run in another state is left in it.
/// An external reference in the metadata of the result takes the place of the
/// request's own.
pub fn record_success(
    run: &mut InspectionRun,
    request: &CallRequest,
    snapshot: Option<serde_json::Value>,
    started_at: &Timestamp,
    duration_ms: u64,
    target: TargetDescriptor,
    response: Option<serde_json::Value>,
    reference_in_meta: Option<String>,
) -> (event: InspectionRunEvent)
    ensures
        final(run).state == if old(run).state == RunState::Processing {
            RunState::Captured
        } else {
            old(run).state
        },
        final(run).id == old(run).id,
        is_call_event(
            event@,
            *final(run),
            request@,
            snapshot,
            started_at@,
            duration_ms,
            Some(target@),
            response,
            None,
            match reference_in_meta {
                Some(reference) => Some(reference@),
                None => request@.external_reference,
            },
        ),
{
    if run.state == RunState::Processing {
        run.capture();
    }
    let external_reference = match reference_in_meta {
        Some(reference) => Some(reference),
        None => request.external_reference.clone(),
    };
    build_event(
        run,
        request,
        snapshot,
        started_at,
        duration_ms,
        Some(target),
        response,
        None,
        external_reference,
    )
}

/// Ends the run of a call that did not get an answer from its target, and writes
/// the record with the cause as its error.
pub fn record_failure(
    run: &mut InspectionRun,
    request: &CallRequest,
    snapshot: Option<serde_json::Value>,
    started_at: &Timestamp,
    duration_ms: u64,
    target: TargetDescriptor,
    cause: &str,
) -> (event: InspectionRunEvent)
    requires
        old(run).state != RunState::Captured,
    ensures
        final(run).state == RunState::Failed,
        final(run).id == old(run).id,
        is_call_event(
            event@,
            *final(run),
            request@,
            snapshot,
            started_at@,
            duration_ms,
            Some(target@),
            None,
            Some(cause@),
            request@.external_reference,
        ),
{
    run.fail();
    build_event(
        run,
        request,
        snapshot,
        started_at,
        duration_ms,
        Some(target),
        None,
        Some(String::from_str(cause)),
        request.external_reference.clone(),
    )
}

} // verus!
