//! Laws of the orchestrator: how a second call under a known key or reference is answered.

use vstd::prelude::*;
use crate::clock::TimestampView;
use crate::orchestrator::{claimed_store, known_call, settled_store, ServerView, Verdict};
use crate::types::{CallRequestView, InspectionRunEventView};

verus! {

/// External-reference dedup: once the event of a call is entered under its external
/// reference, the next call that names the same reference is answered from the
/// record, as a duplicate or as a conflict according to the policy, and with that
/// event.
pub proof fn lemma_external_reference_dedup(
    server: ServerView,
    claimed_key: Option<Seq<char>>,
    event: InspectionRunEventView,
    mono_now: u64,
    next: CallRequestView,
    wall_now: u64,
    reference: Seq<char>,
)
    requires
        event.external_reference == Some(reference),
        next.external_reference == Some(reference),
    ensures
        ({
            let after = ServerView {
                store: settled_store(server.store, claimed_key, event, mono_now),
                ..server
            };
            &&& after.store.external_ref(reference) == Some(event)
            &&& after.verdict(next, wall_now) == Verdict::KnownReference
            &&& known_call(after.policy, event, "external reference conflict"@)
                is Duplicate || known_call(
                after.policy,
                event,
                "external reference conflict"@,
            ) is Conflict
        }),
{
}

/// While a call that claimed a key is on its way, another call under the same key
/// is not let through: it is refused as in flight, unless its external reference is
/// already known.
pub proof fn lemma_claimed_key_blocks(
    server: ServerView,
    first: CallRequestView,
    run_id: uuid::Uuid,
    snapshot: Option<serde_json::Value>,
    started_at: TimestampView,
    mono_now: u64,
    next: CallRequestView,
    wall_now: u64,
    key: Seq<char>,
)
    requires
        first.idempotency_key == Some(key),
        next.idempotency_key == Some(key),
        server.key_outcome(first) is Accepted,
    ensures
        ({
            let after = ServerView {
                store: claimed_store(server.store, first, run_id, snapshot, started_at, mono_now),
                ..server
            };
            after.verdict(next, wall_now) == Verdict::KeyInFlight || after.verdict(next, wall_now)
                == Verdict::KnownReference
        }),
{
}

/// Once the event of a call is entered as the completion of its key, a call under
/// the same key is answered from the record and never let through.
pub proof fn lemma_completed_key_answers(
    server: ServerView,
    event: InspectionRunEventView,
    mono_now: u64,
    next: CallRequestView,
    wall_now: u64,
    key: Seq<char>,
)
    requires
        next.idempotency_key == Some(key),
    ensures
        ({
            let after = ServerView {
                store: settled_store(server.store, Some(key), event, mono_now),
                ..server
            };
            after.verdict(next, wall_now) == Verdict::KeyCompleted || after.verdict(next, wall_now)
                == Verdict::KnownReference
        }),
{
}

} // verus!
