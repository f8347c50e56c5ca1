//! Laws of the idempotency store: single winner, monotonicity, and what the reaper
//! leaves behind.

use vstd::prelude::*;
use crate::clock::TimestampView;
use crate::idempotency::{
    fate, is_timeout_event, reapable, reaped_records, reported, stale, timeout_message,
    ClaimOutcomeView, Fate, ReapedEventView, RecordView, StoreView,
};
use crate::types::{CallRequestView, InspectionRunEventView, TargetDescriptorView};

verus! {

/// How many of the claims of `key`, made one after the other at the instants `times`
/// with nothing in between, are accepted.
pub open spec fn accepted_claims(state: StoreView, key: Seq<char>, times: Seq<u64>) -> nat
    decreases times.len(),
{
    if times.len() == 0 {
        0
    } else {
        let first: nat = if state.claim_outcome(key) is Accepted {
            1
        } else {
            0
        };
        first + accepted_claims(state.after_claim(key, times[0]), key, times.drop_first())
    }
}

/// Single winner: of any number of claims of one key that no completion separates,
/// exactly one is accepted where the key was free, and none where it was taken. The
/// store is changed through an exclusive borrow, so every interleaving of concurrent
/// callers is one such sequence.
pub proof fn lemma_single_winner(state: StoreView, key: Seq<char>, times: Seq<u64>)
    requires
        times.len() >= 1,
    ensures
        !state.records.contains_key(key) ==> accepted_claims(state, key, times) == 1,
        state.records.contains_key(key) ==> accepted_claims(state, key, times) == 0,
    decreases times.len(),
{
    let next = state.after_claim(key, times[0]);
    assert(next.records.contains_key(key));
    if times.len() > 1 {
        lemma_single_winner(next, key, times.drop_first());
    } else {
        assert(accepted_claims(next, key, times.drop_first()) == 0);
    }
}

/// A claim that is not accepted leaves the store as it was.
pub proof fn lemma_refused_claim_changes_nothing(state: StoreView, key: Seq<char>, now: u64)
    requires
        !(state.claim_outcome(key) is Accepted),
    ensures
        state.after_claim(key, now) == state,
{
}

/// The key holds a completed record.
pub open spec fn completed(state: StoreView, key: Seq<char>) -> bool {
    state.records.contains_key(key) && state.records[key] is Completed
}

/// Monotonicity: a completed key is never accepted again by a claim, and stays
/// completed under every operation of the store but a sweep.
pub proof fn lemma_completed_stays_completed(
    state: StoreView,
    key: Seq<char>,
    other: Seq<char>,
    now: u64,
    run_id: uuid::Uuid,
    request: CallRequestView,
    snapshot: Option<serde_json::Value>,
    started_at: TimestampView,
    target: TargetDescriptorView,
    event: InspectionRunEventView,
)
    requires
        completed(state, key),
    ensures
        state.claim_outcome(key) == ClaimOutcomeView::Completed(state.records[key]->event),
        state.after_claim(key, now) == state,
        completed(state.after_claim(other, now), key),
        state.after_begin(other, run_id, request, snapshot).records[key] == state.records[key],
        completed(state.after_begin(other, run_id, request, snapshot), key),
        state.after_mark_started(other, started_at).records[key] == state.records[key],
        completed(state.after_mark_started(other, started_at), key),
        state.after_set_target(other, target).records[key] == state.records[key],
        completed(state.after_set_target(other, target), key),
        completed(state.after_record_external_ref(other, event, now), key),
        completed(state.after_complete(other, event, now), key),
{
}

/// A sweep keeps a completed key that is not older than the time-to-live, and frees
/// one that is: the next claim of a freed key is accepted.
pub proof fn lemma_completed_until_reaped(
    state: StoreView,
    swept: StoreView,
    key: Seq<char>,
    ttl: u64,
    mono_now: u64,
    now: TimestampView,
)
    requires
        completed(state, key),
        reaped_records(state.records, swept.records, ttl, mono_now, now),
    ensures
        !stale(state.records[key]->claimed_at, ttl, mono_now) ==> swept.records.contains_key(key)
            && swept.records[key] == state.records[key],
        stale(state.records[key]->claimed_at, ttl, mono_now) ==> swept.claim_outcome(key)
            is Accepted,
{
    if !stale(state.records[key]->claimed_at, ttl, mono_now) {
        assert(fate(state.records[key], ttl, mono_now) == Fate::Keep);
        assert(swept.records.contains_key(key));
    } else {
        assert(fate(state.records[key], ttl, mono_now) == Fate::Drop);
    }
}

/// `needle` occurs in `text`.
pub open spec fn contains_text(text: Seq<char>, needle: Seq<char>) -> bool {
    exists|at: int|
        0 <= at && at + needle.len() <= text.len() && #[trigger] text.subrange(
            at,
            at + needle.len() as int,
        ) == needle
}

/// Every timeout message says "timed out".
pub proof fn lemma_timeout_message_says_timed_out(elapsed_ms: nat, key: Seq<char>)
    ensures
        contains_text(timeout_message(elapsed_ms, key), "timed out"@),
{
    reveal_strlit("run timed out after ");
    reveal_strlit("timed out");
    let message = timeout_message(elapsed_ms, key);
    assert(message.subrange(4, 4 + "timed out"@.len() as int) == "timed out"@);
}

/// Reaper synthesis: a claim that is in flight for longer than the time-to-live, and
/// whose run and request are known, is reported by the next sweep with a failed event
/// whose error says "timed out", and the next claim of the key finds that event.
pub proof fn lemma_reaper_synthesis(
    state: StoreView,
    swept: StoreView,
    reaped: Seq<ReapedEventView>,
    key: Seq<char>,
    ttl: u64,
    mono_now: u64,
    now: TimestampView,
)
    requires
        state.in_flight(key),
        stale(state.pending(key).claimed_at, ttl, mono_now),
        reapable(state.pending(key)),
        reaped_records(state.records, swept.records, ttl, mono_now, now),
        reported(state.records, swept.records, reaped, ttl, mono_now),
    ensures
        exists|i: int|
            0 <= i < reaped.len() && (#[trigger] reaped[i]).idempotency_key == key
                && reaped[i].event.state == "failed"@ && reaped[i].event.error.is_some()
                && contains_text(reaped[i].event.error.unwrap(), "timed out"@)
                && swept.claim_outcome(key) == ClaimOutcomeView::Completed(reaped[i].event),
{
    assert(fate(state.records[key], ttl, mono_now) == Fate::Reap);
    let i = choose|i: int| 0 <= i < reaped.len() && #[trigger] reaped[i].idempotency_key == key;
    assert(swept.records.contains_key(key));
    let event = reaped[i].event;
    assert(swept.records[key] == RecordView::Completed { claimed_at: mono_now, event });
    assert(is_timeout_event(event, key, state.pending(key), mono_now, now));
    lemma_timeout_message_says_timed_out(
        (crate::idempotency::age(mono_now, state.pending(key).claimed_at) / 1_000_000) as nat,
        key,
    );
}

/// A claim is reaped once: what a sweep leaves under a key is a claim that is still
/// fresh or a completed record, and a completed record is never turned into a
/// failure by a later sweep.
pub proof fn lemma_reaped_once(
    state: StoreView,
    swept: StoreView,
    key: Seq<char>,
    ttl: u64,
    mono_now: u64,
    now: TimestampView,
    later_ttl: u64,
    later: u64,
)
    requires
        reaped_records(state.records, swept.records, ttl, mono_now, now),
        swept.records.contains_key(key),
        fate(state.records[key], ttl, mono_now) == Fate::Reap,
    ensures
        completed(swept, key),
        fate(swept.records[key], later_ttl, later) != Fate::Reap,
{
}

/// Reaping is idempotent: a second sweep at the same instant reports nothing and
/// leaves every record as the first sweep left it.
pub proof fn lemma_reap_is_idempotent(
    state: StoreView,
    swept: StoreView,
    again: StoreView,
    reaped_again: Seq<ReapedEventView>,
    ttl: u64,
    mono_now: u64,
    now: TimestampView,
    now_again: TimestampView,
)
    requires
        reaped_records(state.records, swept.records, ttl, mono_now, now),
        reaped_records(swept.records, again.records, ttl, mono_now, now_again),
        reported(swept.records, again.records, reaped_again, ttl, mono_now),
    ensures
        reaped_again.len() == 0,
        again.records == swept.records,
{
    assert forall|k: Seq<char>| swept.records.contains_key(k) implies fate(
        swept.records[k],
        ttl,
        mono_now,
    ) == Fate::Keep by {
        assert(state.records.contains_key(k));
    }
    if reaped_again.len() > 0 {
        let first = reaped_again[0].idempotency_key;
        assert(swept.records.contains_key(first));
    }
    assert forall|k: Seq<char>| again.records.contains_key(k) implies again.records[k]
        == swept.records[k] by {
        assert(swept.records.contains_key(k));
    }
    assert(again.records =~= swept.records);
}

/// One operation of the store other than a sweep.
pub enum StoreStep {
    Claim(Seq<char>, u64),
    Begin(Seq<char>, uuid::Uuid, CallRequestView, Option<serde_json::Value>),
    MarkStarted(Seq<char>, TimestampView),
    SetTarget(Seq<char>, TargetDescriptorView),
    RecordExternalRef(Seq<char>, InspectionRunEventView, u64),
    Complete(Seq<char>, InspectionRunEventView, u64),
}

impl StoreStep {
    /// The state after the operation.
    pub open spec fn apply(self, state: StoreView) -> StoreView {
        match self {
            StoreStep::Claim(key, now) => state.after_claim(key, now),
            StoreStep::Begin(key, run_id, request, snapshot) => state.after_begin(
                key,
                run_id,
                request,
                snapshot,
            ),
            StoreStep::MarkStarted(key, started_at) => state.after_mark_started(key, started_at),
            StoreStep::SetTarget(key, target) => state.after_set_target(key, target),
            StoreStep::RecordExternalRef(reference, event, now) => state.after_record_external_ref(
                reference,
                event,
                now,
            ),
            StoreStep::Complete(key, event, now) => state.after_complete(key, event, now),
        }
    }
}

/// The state after the operations, taken in order.
pub open spec fn after_store_steps(state: StoreView, steps: Seq<StoreStep>) -> StoreView
    decreases steps.len(),
{
    if steps.len() == 0 {
        state
    } else {
        steps.last().apply(after_store_steps(state, steps.drop_last()))
    }
}

/// Monotonicity over time: whatever is done to the store short of a sweep, a key
/// that is completed stays completed, and a claim of it is never accepted.
pub proof fn lemma_completed_is_never_accepted(
    state: StoreView,
    steps: Seq<StoreStep>,
    key: Seq<char>,
)
    requires
        completed(state, key),
    ensures
        completed(after_store_steps(state, steps), key),
        after_store_steps(state, steps).claim_outcome(key) is Completed,
    decreases steps.len(),
{
    if steps.len() > 0 {
        lemma_completed_is_never_accepted(state, steps.drop_last(), key);
    }
}

/// The operation is a claim of `key` that is accepted in `state`.
pub open spec fn wins(step: StoreStep, state: StoreView, key: Seq<char>) -> bool {
    step matches StoreStep::Claim(claimed, _) && claimed == key && state.claim_outcome(key)
        is Accepted
}

/// How many of the operations are accepted claims of `key`.
pub open spec fn winners(state: StoreView, steps: Seq<StoreStep>, key: Seq<char>) -> nat
    decreases steps.len(),
{
    if steps.len() == 0 {
        0
    } else {
        let before = after_store_steps(state, steps.drop_last());
        let last: nat = if wins(steps.last(), before, key) {
            1
        } else {
            0
        };
        winners(state, steps.drop_last(), key) + last
    }
}

/// At most one winner: in any sequence of operations short of a sweep, with claims
/// and completions of the key mixed in any order, at most one claim of the key is
/// accepted, and none where the key was taken from the start.
pub proof fn lemma_at_most_one_winner(state: StoreView, steps: Seq<StoreStep>, key: Seq<char>)
    ensures
        winners(state, steps, key) <= 1,
        state.records.contains_key(key) ==> winners(state, steps, key) == 0,
        state.records.contains_key(key) || winners(state, steps, key) == 1
            ==> after_store_steps(state, steps).records.contains_key(key),
    decreases steps.len(),
{
    if steps.len() > 0 {
        lemma_at_most_one_winner(state, steps.drop_last(), key);
    }
}

} // verus!
