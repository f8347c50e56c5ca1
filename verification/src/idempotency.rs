//! The idempotency store: claims by key, the index of external references, and the
//! sweep that turns stale claims into failures.

use vstd::prelude::*;
use vstd::string::StringExecFns;
use crate::clock::{elapsed_nanos, instant_now, millis_between, Timestamp, TimestampView};
use crate::ids::fresh_uuid;
use crate::keyed::{Entry, Keyed};
use crate::text::{decimal, push_decimal};
use crate::types::{
    clone_opt_target, CallRequest, CallRequestView, InspectionRunEvent, InspectionRunEventView,
    TargetDescriptor, TargetDescriptorView,
};

verus! {

/// A claim whose call has not finished.
pub struct InFlightRecord {
    /// Monotonic nanoseconds at which the key was claimed.
    pub claimed_at: u64,
    pub run_id: Option<uuid::Uuid>,
    pub request: Option<CallRequest>,
    /// The request as a JSON document, for the audit record.
    pub snapshot: Option<serde_json::Value>,
    pub target: Option<TargetDescriptor>,
    pub started_at: Option<Timestamp>,
}

/// What a `InFlight` stands for in contracts.
pub struct InFlightView {
    pub claimed_at: u64,
    pub run_id: Option<uuid::Uuid>,
    pub request: Option<CallRequestView>,
    pub snapshot: Option<serde_json::Value>,
    pub target: Option<TargetDescriptorView>,
    pub started_at: Option<TimestampView>,
}

impl View for InFlightRecord {
    type V = InFlightView;

    open spec fn view(&self) -> InFlightView {
        InFlightView {
            claimed_at: self.claimed_at,
            run_id: self.run_id,
            request: self.request.deep_view(),
            snapshot: self.snapshot,
            target: self.target.deep_view(),
            started_at: self.started_at.deep_view(),
        }
    }
}

impl InFlightRecord {
    /// A claim made at `now` that carries no metadata yet.
    pub fn new(now: u64) -> (record: Self)
        ensures
            record@ == fresh_claim(now),
    {
        InFlightRecord {
            claimed_at: now,
            run_id: None,
            request: None,
            snapshot: None,
            target: None,
            started_at: None,
        }
    }
}

/// What the store holds under an idempotency key.
pub enum Record {
    InFlight(InFlightRecord),
    Completed { claimed_at: u64, event: InspectionRunEvent },
}

/// What a `Record` stands for in contracts.
pub enum RecordView {
    InFlight(InFlightView),
    Completed { claimed_at: u64, event: InspectionRunEventView },
}

impl View for Record {
    type V = RecordView;

    open spec fn view(&self) -> RecordView {
        match self {
            Record::InFlight(record) => RecordView::InFlight(record@),
            Record::Completed { claimed_at, event } => RecordView::Completed {
                claimed_at: *claimed_at,
                event: event@,
            },
        }
    }
}

/// The last event that produced an external reference.
pub struct ExternalRecord {
    /// Monotonic nanoseconds at which the reference was indexed.
    pub recorded_at: u64,
    pub event: InspectionRunEvent,
}

/// What a `ExternalRecord` stands for in contracts.
pub struct ExternalRecordView {
    pub recorded_at: u64,
    pub event: InspectionRunEventView,
}

impl View for ExternalRecord {
    type V = ExternalRecordView;

    open spec fn view(&self) -> ExternalRecordView {
        ExternalRecordView { recorded_at: self.recorded_at, event: self.event@ }
    }
}

/// A synthetic failure that the reaper made for a stale claim.
pub struct ReapedEvent {
    pub idempotency_key: String,
    pub event: InspectionRunEvent,
}

/// What a `ReapedEvent` stands for in contracts.
pub struct ReapedEventView {
    pub idempotency_key: Seq<char>,
    pub event: InspectionRunEventView,
}

impl View for ReapedEvent {
    type V = ReapedEventView;

    open spec fn view(&self) -> ReapedEventView {
        ReapedEventView { idempotency_key: self.idempotency_key@, event: self.event@ }
    }
}

impl DeepView for ReapedEvent {
    type V = ReapedEventView;

    open spec fn deep_view(&self) -> ReapedEventView {
        self@
    }
}

/// What a claim of a key found.
pub enum ClaimOutcome {
    Accepted,
    InFlight,
    Completed(InspectionRunEvent),
}

/// What a `ClaimOutcome` stands for in contracts.
pub enum ClaimOutcomeView {
    Accepted,
    InFlight,
    Completed(InspectionRunEventView),
}

impl View for ClaimOutcome {
    type V = ClaimOutcomeView;

    open spec fn view(&self) -> ClaimOutcomeView {
        match self {
            ClaimOutcome::Accepted => ClaimOutcomeView::Accepted,
            ClaimOutcome::InFlight => ClaimOutcomeView::InFlight,
            ClaimOutcome::Completed(event) => ClaimOutcomeView::Completed(event@),
        }
    }
}

/// The record of a key claimed at `now`, before any metadata is attached.
pub open spec fn fresh_claim(now: u64) -> InFlightView {
    InFlightView {
        claimed_at: now,
        run_id: None,
        request: None,
        snapshot: None,
        target: None,
        started_at: None,
    }
}

/// The abstract state of the store: records by idempotency key, and the index of
/// external references.
pub struct StoreView {
    pub records: Map<Seq<char>, RecordView>,
    pub external_refs: Map<Seq<char>, ExternalRecordView>,
}

impl StoreView {
    /// What a claim of `key` answers in this state.
    pub open spec fn claim_outcome(self, key: Seq<char>) -> ClaimOutcomeView {
        if self.records.contains_key(key) {
            match self.records[key] {
                RecordView::InFlight(_) => ClaimOutcomeView::InFlight,
                RecordView::Completed { event, .. } => ClaimOutcomeView::Completed(event),
            }
        } else {
            ClaimOutcomeView::Accepted
        }
    }

    /// The state after a claim of `key` at `now`.
    pub open spec fn after_claim(self, key: Seq<char>, now: u64) -> StoreView {
        if self.records.contains_key(key) {
            self
        } else {
            StoreView {
                records: self.records.insert(key, RecordView::InFlight(fresh_claim(now))),
                ..self
            }
        }
    }

    /// The key has a claim whose call has not finished.
    pub open spec fn in_flight(self, key: Seq<char>) -> bool {
        self.records.contains_key(key) && self.records[key] is InFlight
    }

    /// The in-flight record under `key`.
    pub open spec fn pending(self, key: Seq<char>) -> InFlightView {
        self.records[key]->InFlight_0
    }

    /// The state with the in-flight record under `key` replaced; the same state where
    /// the key is not in flight.
    pub open spec fn with_pending(self, key: Seq<char>, record: InFlightView) -> StoreView {
        if self.in_flight(key) {
            StoreView { records: self.records.insert(key, RecordView::InFlight(record)), ..self }
        } else {
            self
        }
    }

    /// The state after run and request are attached to the claim of `key`.
    pub open spec fn after_begin(
        self,
        key: Seq<char>,
        run_id: uuid::Uuid,
        request: CallRequestView,
        snapshot: Option<serde_json::Value>,
    ) -> StoreView {
        self.with_pending(
            key,
            InFlightView {
                run_id: Some(run_id),
                request: Some(request),
                snapshot,
                ..self.pending(key)
            },
        )
    }

    /// The state after the wall-clock start is attached to the claim of `key`.
    pub open spec fn after_mark_started(self, key: Seq<char>, started_at: TimestampView) -> StoreView {
        self.with_pending(key, InFlightView { started_at: Some(started_at), ..self.pending(key) })
    }

    /// The state after the target is attached to the claim of `key`.
    pub open spec fn after_set_target(self, key: Seq<char>, target: TargetDescriptorView) -> StoreView {
        self.with_pending(key, InFlightView { target: Some(target), ..self.pending(key) })
    }

    /// The state after `event` is indexed under an external reference at `now`.
    pub open spec fn after_record_external_ref(
        self,
        reference: Seq<char>,
        event: InspectionRunEventView,
        now: u64,
    ) -> StoreView {
        StoreView {
            external_refs: self.external_refs.insert(
                reference,
                ExternalRecordView { recorded_at: now, event },
            ),
            ..self
        }
    }

    /// The state after the call under `key` finished with `event` at `now`.
    pub open spec fn after_complete(
        self,
        key: Seq<char>,
        event: InspectionRunEventView,
        now: u64,
    ) -> StoreView {
        let completed = StoreView {
            records: self.records.insert(key, RecordView::Completed { claimed_at: now, event }),
            ..self
        };
        match event.external_reference {
            Some(reference) => completed.after_record_external_ref(reference, event, now),
            None => completed,
        }
    }

    /// The event that was last indexed under an external reference.
    pub open spec fn external_ref(self, reference: Seq<char>) -> Option<InspectionRunEventView> {
        if self.external_refs.contains_key(reference) {
            Some(self.external_refs[reference].event)
        } else {
            None
        }
    }
}

/// The views of the records of a map.
pub open spec fn record_views(records: Map<Seq<char>, Record>) -> Map<Seq<char>, RecordView> {
    records.map_values(|record: Record| record@)
}

/// The views of the entries of an index of external references.
pub open spec fn external_views(index: Map<Seq<char>, ExternalRecord>) -> Map<
    Seq<char>,
    ExternalRecordView,
> {
    index.map_values(|record: ExternalRecord| record@)
}

/// Process-local store of idempotency claims and external references.
pub struct IdempotencyStore {
    origin: std::time::Instant,
    records: Keyed<Record>,
    external_refs: Keyed<ExternalRecord>,
}

impl View for IdempotencyStore {
    type V = StoreView;

    closed spec fn view(&self) -> StoreView {
        StoreView {
            records: record_views(self.records@),
            external_refs: external_views(self.external_refs@),
        }
    }
}

impl IdempotencyStore {
    /// An empty store. Its monotonic clock starts now.
    pub fn new() -> (store: Self)
        ensures
            store@.records == Map::<Seq<char>, RecordView>::empty(),
            store@.external_refs == Map::<Seq<char>, ExternalRecordView>::empty(),
    {
        IdempotencyStore { origin: instant_now(), records: Keyed::new(), external_refs: Keyed::new() }
    }

    /// Monotonic nanoseconds since the store was made.
    pub fn monotonic_now(&self) -> (now: u64) {
        elapsed_nanos(&self.origin)
    }

    /// Claims `key` at the monotonic instant `now`.
    pub fn claim_at(&mut self, key: &str, now: u64) -> (outcome: ClaimOutcome)
        ensures
            outcome@ == old(self)@.claim_outcome(key@),
            final(self)@ == old(self)@.after_claim(key@, now),
    {
        match self.records.get(key) {
            Some(Record::InFlight(_)) => ClaimOutcome::InFlight,
            Some(Record::Completed { event, .. }) => ClaimOutcome::Completed(event.clone()),
            None => {
                let record = Record::InFlight(InFlightRecord::new(now));
                self.records.insert(key, record);
                assert(final(self)@.records =~= old(self)@.records.insert(
                    key@,
                    RecordView::InFlight(fresh_claim(now)),
                ));
                ClaimOutcome::Accepted
            },
        }
    }

    /// Claims `key` now. Among all claims of a key that no completion or reaping
    /// separates, the first is accepted and the others are not.
    pub fn claim(&mut self, key: &str) -> (outcome: ClaimOutcome)
        ensures
            outcome@ == old(self)@.claim_outcome(key@),
            exists|now: u64| final(self)@ == old(self)@.after_claim(key@, now),
    {
        let now = self.monotonic_now();
        self.claim_at(key, now)
    }

    /// Attaches run and request to the in-flight claim of `key`; does nothing where
    /// the key is not in flight.
    pub fn begin(
        &mut self,
        key: &str,
        run_id: uuid::Uuid,
        request: &CallRequest,
        snapshot: Option<serde_json::Value>,
    )
        ensures
            final(self)@ == old(self)@.after_begin(key@, run_id, request@, snapshot),
    {
        match self.records.remove(key) {
            Some(Record::InFlight(pending)) => {
                let changed = InFlightRecord {
                    claimed_at: pending.claimed_at,
                    run_id: Some(run_id),
                    request: Some(request.clone()),
                    snapshot,
                    target: pending.target,
                    started_at: pending.started_at,
                };
                self.records.insert(key, Record::InFlight(changed));
                assert(final(self)@.records =~= old(self)@.after_begin(
                    key@,
                    run_id,
                    request@,
                    snapshot,
                ).records);
            },
            Some(other) => {
                self.records.insert(key, other);
                assert(final(self)@.records =~= old(self)@.records);
            },
            None => {
                assert(final(self)@.records =~= old(self)@.records);
            },
        }
    }

    /// Attaches the wall-clock start to the in-flight claim of `key`; does nothing
    /// where the key is not in flight.
    pub fn mark_started(&mut self, key: &str, started_at: Timestamp)
        ensures
            final(self)@ == old(self)@.after_mark_started(key@, started_at@),
    {
        match self.records.remove(key) {
            Some(Record::InFlight(pending)) => {
                let changed = InFlightRecord {
                    claimed_at: pending.claimed_at,
                    run_id: pending.run_id,
                    request: pending.request,
                    snapshot: pending.snapshot,
                    target: pending.target,
                    started_at: Some(started_at),
                };
                self.records.insert(key, Record::InFlight(changed));
                assert(final(self)@.records =~= old(self)@.after_mark_started(
                    key@,
                    started_at@,
                ).records);
            },
            Some(other) => {
                self.records.insert(key, other);
                assert(final(self)@.records =~= old(self)@.records);
            },
            None => {
                assert(final(self)@.records =~= old(self)@.records);
            },
        }
    }

    /// Attaches the target to the in-flight claim of `key`; does nothing where the
    /// key is not in flight.
    pub fn set_target(&mut self, key: &str, target: TargetDescriptor)
        ensures
            final(self)@ == old(self)@.after_set_target(key@, target@),
    {
        match self.records.remove(key) {
            Some(Record::InFlight(pending)) => {
                let changed = InFlightRecord {
                    claimed_at: pending.claimed_at,
                    run_id: pending.run_id,
                    request: pending.request,
                    snapshot: pending.snapshot,
                    target: Some(target),
                    started_at: pending.started_at,
                };
                self.records.insert(key, Record::InFlight(changed));
                assert(final(self)@.records =~= old(self)@.after_set_target(key@, target@).records);
            },
            Some(other) => {
                self.records.insert(key, other);
                assert(final(self)@.records =~= old(self)@.records);
            },
            None => {
                assert(final(self)@.records =~= old(self)@.records);
            },
        }
    }

    /// Indexes `event` under an external reference at the monotonic instant `now`.
    pub fn record_external_ref_at(&mut self, reference: &str, event: InspectionRunEvent, now: u64)
        ensures
            final(self)@ == old(self)@.after_record_external_ref(reference@, event@, now),
    {
        self.external_refs.insert(reference, ExternalRecord { recorded_at: now, event });
        assert(final(self)@.external_refs =~= old(self)@.after_record_external_ref(
            reference@,
            event@,
            now,
        ).external_refs);
    }

    /// Indexes `event` under an external reference now.
    pub fn record_external_ref(&mut self, reference: &str, event: InspectionRunEvent)
        ensures
            exists|now: u64|
                final(self)@ == old(self)@.after_record_external_ref(reference@, event@, now),
    {
        let now = self.monotonic_now();
        self.record_external_ref_at(reference, event, now);
    }

    /// The event that was last indexed under an external reference.
    pub fn find_external_ref(&self, reference: &str) -> (found: Option<InspectionRunEvent>)
        ensures
            found.deep_view() == self@.external_ref(reference@),
    {
        match self.external_refs.get(reference) {
            Some(record) => Some(record.event.clone()),
            None => None,
        }
    }

    /// Records at the monotonic instant `now` that the call under `key` finished
    /// with `event`, and indexes the event's external reference where it has one.
    pub fn complete_at(&mut self, key: &str, event: InspectionRunEvent, now: u64)
        ensures
            final(self)@ == old(self)@.after_complete(key@, event@, now),
    {
        self.records.insert(key, Record::Completed { claimed_at: now, event: event.clone() });
        assert(self@.records =~= old(self)@.records.insert(
            key@,
            RecordView::Completed { claimed_at: now, event: event@ },
        ));
        match &event.external_reference {
            Some(reference) => {
                let reference = reference.clone();
                self.record_external_ref_at(reference.as_str(), event, now);
            },
            None => {},
        }
    }

    /// Records that the call under `key` finished with `event`.
    pub fn complete(&mut self, key: &str, event: InspectionRunEvent)
        ensures
            exists|now: u64| final(self)@ == old(self)@.after_complete(key@, event@, now),
    {
        let now = self.monotonic_now();
        self.complete_at(key, event, now);
    }

    /// Sweeps the store at the monotonic instant `mono_now` and the wall-clock
    /// instant `now`.
    ///
    /// A claim in flight for longer than `ttl` nanoseconds becomes a completed record
    /// that holds a synthetic failure, where run and request are known, and leaves
    /// otherwise. Completed records and external references older than `ttl` leave.
    /// The synthetic failures are returned and indexed under their external references.
    pub fn reap_expired_at(&mut self, ttl: u64, mono_now: u64, now: &Timestamp) -> (reaped: Vec<
        ReapedEvent,
    >)
        ensures
            reaped_records(old(self)@.records, final(self)@.records, ttl, mono_now, now@),
            reported(
                old(self)@.records,
                final(self)@.records,
                reaped.deep_view(),
                ttl,
                mono_now,
            ),
            final(self)@.external_refs == index_reaped(
                purged(old(self)@.external_refs, ttl, mono_now),
                reaped.deep_view(),
                mono_now,
            ),
    {
        let reaped = self.reap_records(ttl, mono_now, now);
        self.purge_external_refs(ttl, mono_now);
        let mut i: usize = 0;
        while i < reaped.len()
            invariant
                i <= reaped.len(),
                reaped_records(old(self)@.records, self@.records, ttl, mono_now, now@),
                reported(old(self)@.records, self@.records, reaped.deep_view(), ttl, mono_now),
                self@.external_refs == index_reaped(
                    purged(old(self)@.external_refs, ttl, mono_now),
                    reaped.deep_view().subrange(0, i as int),
                    mono_now,
                ),
            decreases reaped.len() - i,
        {
            let ghost done = reaped.deep_view().subrange(0, i as int);
            let ghost next = reaped.deep_view().subrange(0, i + 1);
            assert(next.drop_last() =~= done);
            assert(next.last() == reaped[i as int]@);
            match &reaped[i].event.external_reference {
                Some(reference) => {
                    let reference = reference.clone();
                    let event = reaped[i].event.clone();
                    self.record_external_ref_at(reference.as_str(), event, mono_now);
                },
                None => {},
            }
            i += 1;
        }
        assert(reaped.deep_view().subrange(0, reaped.len() as int) =~= reaped.deep_view());
        reaped
    }

    /// Sweeps the store now, at the wall-clock instant `now`.
    pub fn reap_expired(&mut self, ttl: u64, now: &Timestamp) -> (reaped: Vec<ReapedEvent>)
        ensures
            exists|mono_now: u64|
                {
                    &&& reaped_records(
                        old(self)@.records,
                        final(self)@.records,
                        ttl,
                        mono_now,
                        now@,
                    )
                    &&& reported(
                        old(self)@.records,
                        final(self)@.records,
                        reaped.deep_view(),
                        ttl,
                        mono_now,
                    )
                    &&& final(self)@.external_refs == index_reaped(
                        purged(old(self)@.external_refs, ttl, mono_now),
                        reaped.deep_view(),
                        mono_now,
                    )
                },
    {
        let mono_now = self.monotonic_now();
        self.reap_expired_at(ttl, mono_now, now)
    }

    fn reap_records(&mut self, ttl: u64, mono_now: u64, now: &Timestamp) -> (reaped: Vec<ReapedEvent>)
        ensures
            reaped_records(old(self)@.records, final(self)@.records, ttl, mono_now, now@),
            reported(
                old(self)@.records,
                final(self)@.records,
                reaped.deep_view(),
                ttl,
                mono_now,
            ),
            final(self)@.external_refs == old(self)@.external_refs,
    {
        let mut pending: Keyed<Record> = Keyed::new();
        core::mem::swap(&mut self.records, &mut pending);
        let ghost before = pending@;
        let mut kept: Keyed<Record> = Keyed::new();
        let mut reaped: Vec<ReapedEvent> = Vec::new();
        loop
            invariant
                forall|k: Seq<char>| #[trigger]
                    pending@.contains_key(k) ==> before.contains_key(k) && before[k] == pending@[k],
                forall|k: Seq<char>| #[trigger]
                    kept@.contains_key(k) <==> before.contains_key(k) && !pending@.contains_key(k)
                        && fate(before[k]@, ttl, mono_now) != Fate::Drop,
                forall|k: Seq<char>| #[trigger]
                    kept@.contains_key(k) ==> settled(k, before[k]@, kept@[k]@, ttl, mono_now, now@),
                forall|i: int|
                    0 <= i < reaped.len() ==> kept@.contains_key(
                        #[trigger] reaped[i].idempotency_key@,
                    ) && fate(before[reaped[i].idempotency_key@]@, ttl, mono_now) == Fate::Reap
                        && kept@[reaped[i].idempotency_key@]@ == (RecordView::Completed {
                        claimed_at: mono_now,
                        event: reaped[i].event@,
                    }),
                forall|k: Seq<char>| #[trigger]
                    kept@.contains_key(k) && fate(before[k]@, ttl, mono_now) == Fate::Reap
                        ==> exists|i: int|
                        0 <= i < reaped.len() && #[trigger] reaped[i].idempotency_key@ == k,
                forall|i: int, j: int|
                    0 <= i < j < reaped.len() ==> #[trigger] reaped[i].idempotency_key@
                        != #[trigger] reaped[j].idempotency_key@,
            ensures
                pending@ == Map::<Seq<char>, Record>::empty(),
            decreases pending@.len(),
        {
            let taken = pending.pop();
            match taken {
                None => {
                    break ;
                },
                Some(entry) => {
                    let Entry { key, value } = entry;
                    let ghost reaped_before = reaped@;
                    match value {
                        Record::InFlight(record) => {
                            if is_stale(record.claimed_at, ttl, mono_now) {
                                match build_timeout_event(key.as_str(), &record, mono_now, now) {
                                    Some(event) => {
                                        reaped.push(
                                            ReapedEvent {
                                                idempotency_key: key.clone(),
                                                event: event.clone(),
                                            },
                                        );
                                        kept.push_fresh(
                                            Entry {
                                                key,
                                                value: Record::Completed {
                                                    claimed_at: mono_now,
                                                    event,
                                                },
                                            },
                                        );
                                        proof {
                                            let last = reaped_before.len() as int;
                                            assert(reaped[last].idempotency_key@ == key@);
                                            assert forall|i: int| 0 <= i < last implies reaped[i]
                                                == reaped_before[i] by {}
                                        }
                                    },
                                    None => {},
                                }
                            } else {
                                kept.push_fresh(Entry { key, value: Record::InFlight(record) });
                            }
                        },
                        Record::Completed { claimed_at, event } => {
                            if !is_stale(claimed_at, ttl, mono_now) {
                                kept.push_fresh(
                                    Entry { key, value: Record::Completed { claimed_at, event } },
                                );
                            }
                        },
                    }
                },
            }
        }
        self.records = kept;
        proof {
            let old_views = old(self)@.records;
            let new_views = self@.records;
            assert forall|k: Seq<char>| new_views.contains_key(k) <==> old_views.contains_key(k)
                && fate(old_views[k], ttl, mono_now) != Fate::Drop by {
                assert(kept@.contains_key(k) == new_views.contains_key(k));
                assert(before.contains_key(k) == old_views.contains_key(k));
                assert(!pending@.contains_key(k));
            }
            assert forall|k: Seq<char>| #[trigger]
                new_views.contains_key(k) implies settled(
                k,
                old_views[k],
                new_views[k],
                ttl,
                mono_now,
                now@,
            ) by {
                assert(kept@.contains_key(k));
            }
            assert forall|i: int| 0 <= i < reaped.len() implies #[trigger] reaped.deep_view()[i]
                == reaped[i]@ by {}
            assert forall|k: Seq<char>|
                old_views.contains_key(k) && fate(old_views[k], ttl, mono_now)
                    == Fate::Reap implies exists|i: int|
                0 <= i < reaped.deep_view().len() && #[trigger] reaped.deep_view()[i].idempotency_key
                    == k by {
                assert(kept@.contains_key(k));
                let i = choose|i: int|
                    0 <= i < reaped.len() && #[trigger] reaped[i].idempotency_key@ == k;
                assert(reaped.deep_view()[i].idempotency_key == k);
            }
        }
        reaped
    }

    fn purge_external_refs(&mut self, ttl: u64, mono_now: u64)
        ensures
            final(self)@.records == old(self)@.records,
            final(self)@.external_refs == purged(old(self)@.external_refs, ttl, mono_now),
    {
        let mut pending: Keyed<ExternalRecord> = Keyed::new();
        core::mem::swap(&mut self.external_refs, &mut pending);
        let ghost before = pending@;
        let mut kept: Keyed<ExternalRecord> = Keyed::new();
        loop
            invariant
                forall|k: Seq<char>| #[trigger]
                    pending@.contains_key(k) ==> before.contains_key(k) && before[k] == pending@[k],
                forall|k: Seq<char>| #[trigger]
                    kept@.contains_key(k) <==> before.contains_key(k) && !pending@.contains_key(k)
                        && !stale(before[k].recorded_at, ttl, mono_now),
                forall|k: Seq<char>| #[trigger] kept@.contains_key(k) ==> kept@[k] == before[k],
            ensures
                pending@ == Map::<Seq<char>, ExternalRecord>::empty(),
            decreases pending@.len(),
        {
            let taken = pending.pop();
            match taken {
                None => {
                    break ;
                },
                Some(entry) => {
                    if !is_stale(entry.value.recorded_at, ttl, mono_now) {
                        kept.push_fresh(entry);
                    }
                },
            }
        }
        self.external_refs = kept;
    }
}

/// Nanoseconds from `then` to `now` on the monotonic clock, zero where the clock
/// reads earlier than `then`.
pub open spec fn age(now: u64, then: u64) -> int {
    if now >= then {
        now - then
    } else {
        0
    }
}

/// More than `ttl` nanoseconds lie between `then` and `now`.
pub open spec fn stale(then: u64, ttl: u64, now: u64) -> bool {
    age(now, then) > ttl
}

/// Whether more than `ttl` nanoseconds lie between `then` and `now`.
pub fn is_stale(then: u64, ttl: u64, now: u64) -> (old_enough: bool)
    ensures
        old_enough == stale(then, ttl, now),
{
    now >= then && now - then > ttl
}

/// Run and request are known, so that a failure can be written for the claim.
pub open spec fn reapable(record: InFlightView) -> bool {
    record.run_id.is_some() && record.request.is_some()
}

/// The error text of a synthetic failure.
pub open spec fn timeout_message(elapsed_ms: nat, key: Seq<char>) -> Seq<char> {
    "run timed out after "@ + decimal(elapsed_ms) + " ms (idempotency key "@ + key + ")"@
}

/// A count of milliseconds as the 64 bits that an event holds.
pub open spec fn wrapped_millis(millis: int) -> u64 {
    (millis % 0x1_0000_0000_0000_0000) as u64
}

/// The wall-clock start of a claim: the recorded one, or the sweep's own instant.
pub open spec fn started_or(record: InFlightView, now: TimestampView) -> TimestampView {
    match record.started_at {
        Some(started) => started,
        None => now,
    }
}

/// `event` is the synthetic failure for the claim `record` of `key`, written at the
/// monotonic instant `mono_now` and the wall-clock instant `now`. Its own identifier
/// is drawn at random and is left open.
pub open spec fn is_timeout_event(
    event: InspectionRunEventView,
    key: Seq<char>,
    record: InFlightView,
    mono_now: u64,
    now: TimestampView,
) -> bool {
    let request = record.request.unwrap();
    let started = started_or(record, now);
    &&& event.run_id == record.run_id.unwrap()
    &&& event.tool_name == request.tool_name
    &&& event.state == "failed"@
    &&& event.started_at == started.text
    &&& event.duration_ms == wrapped_millis(millis_between(started.nanos, now.nanos))
    &&& event.target == record.target
    &&& event.request == record.snapshot
    &&& event.response.is_none()
    &&& event.error == Some(timeout_message((age(mono_now, record.claimed_at) / 1_000_000) as nat, key))
    &&& event.idempotency_key == request.idempotency_key
    &&& event.external_reference == request.external_reference
}

/// Writes the error text of a synthetic failure.
pub fn render_timeout_message(elapsed_ms: u64, key: &str) -> (message: String)
    ensures
        message@ == timeout_message(elapsed_ms as nat, key@),
{
    let mut message = String::from_str("run timed out after ");
    push_decimal(&mut message, elapsed_ms as u128);
    message.append(" ms (idempotency key ");
    message.append(key);
    message.append(")");
    message
}

/// Writes the synthetic failure for a stale claim; `None` where run or request is
/// not known.
pub fn build_timeout_event(
    key: &str,
    record: &InFlightRecord,
    mono_now: u64,
    now: &Timestamp,
) -> (event: Option<InspectionRunEvent>)
    ensures
        event.is_some() == reapable(record@),
        event.is_some() ==> is_timeout_event(event.unwrap()@, key@, record@, mono_now, now@),
{
    let run_id = match record.run_id {
        Some(id) => id,
        None => {
            return None;
        },
    };
    let request = match &record.request {
        Some(request) => request,
        None => {
            return None;
        },
    };
    let started = match &record.started_at {
        Some(started) => started,
        None => now,
    };
    let started_nanos = started.unix_nanos();
    let now_nanos = now.unix_nanos();
    let millis: i128 = if now_nanos > started_nanos {
        (now_nanos - started_nanos) / 1_000_000
    } else {
        0
    };
    let duration_ms = (millis % 0x1_0000_0000_0000_0000) as u64;
    let elapsed: u64 = if mono_now >= record.claimed_at {
        mono_now - record.claimed_at
    } else {
        0
    };
    Some(
        InspectionRunEvent {
            event_id: fresh_uuid(),
            run_id,
            tool_name: request.tool_name.clone(),
            state: String::from_str("failed"),
            started_at: String::from_str(started.as_text()),
            duration_ms,
            target: clone_opt_target(&record.target),
            request: record.snapshot.clone(),
            response: None,
            error: Some(render_timeout_message(elapsed / 1_000_000, key)),
            idempotency_key: request.idempotency_key.clone(),
            external_reference: request.external_reference.clone(),
        },
    )
}

/// What a sweep does with a record.
pub enum Fate {
    Keep,
    Drop,
    Reap,
}

/// What a sweep at `now` does with a record under the time-to-live `ttl`.
pub open spec fn fate(record: RecordView, ttl: u64, now: u64) -> Fate {
    match record {
        RecordView::InFlight(pending) => if !stale(pending.claimed_at, ttl, now) {
            Fate::Keep
        } else if reapable(pending) {
            Fate::Reap
        } else {
            Fate::Drop
        },
        RecordView::Completed { claimed_at, .. } => if stale(claimed_at, ttl, now) {
            Fate::Drop
        } else {
            Fate::Keep
        },
    }
}

/// `after` is what a sweep leaves under `key` of the record `before` that it did not
/// drop.
pub open spec fn settled(
    key: Seq<char>,
    before: RecordView,
    after: RecordView,
    ttl: u64,
    mono_now: u64,
    now: TimestampView,
) -> bool {
    match fate(before, ttl, mono_now) {
        Fate::Keep => after == before,
        Fate::Reap => after matches RecordView::Completed { claimed_at, event } && claimed_at
            == mono_now && is_timeout_event(event, key, before->InFlight_0, mono_now, now),
        Fate::Drop => false,
    }
}

/// `after` holds the records of `before` as a sweep leaves them.
pub open spec fn reaped_records(
    before: Map<Seq<char>, RecordView>,
    after: Map<Seq<char>, RecordView>,
    ttl: u64,
    mono_now: u64,
    now: TimestampView,
) -> bool {
    &&& forall|k: Seq<char>|
        after.contains_key(k) <==> before.contains_key(k) && fate(before[k], ttl, mono_now)
            != Fate::Drop
    &&& forall|k: Seq<char>| #[trigger]
        after.contains_key(k) ==> settled(k, before[k], after[k], ttl, mono_now, now)
}

/// `reaped` lists, once each, the keys whose claims a sweep turned into failures,
/// with the events that `after` now holds for them.
pub open spec fn reported(
    before: Map<Seq<char>, RecordView>,
    after: Map<Seq<char>, RecordView>,
    reaped: Seq<ReapedEventView>,
    ttl: u64,
    mono_now: u64,
) -> bool {
    &&& forall|i: int|
        0 <= i < reaped.len() ==> before.contains_key(#[trigger] reaped[i].idempotency_key) && fate(
            before[reaped[i].idempotency_key],
            ttl,
            mono_now,
        ) == Fate::Reap && after[reaped[i].idempotency_key] == (RecordView::Completed {
            claimed_at: mono_now,
            event: reaped[i].event,
        })
    &&& forall|k: Seq<char>|
        before.contains_key(k) && fate(before[k], ttl, mono_now) == Fate::Reap ==> exists|i: int|
            0 <= i < reaped.len() && #[trigger] reaped[i].idempotency_key == k
    &&& forall|i: int, j: int|
        0 <= i < j < reaped.len() ==> #[trigger] reaped[i].idempotency_key
            != #[trigger] reaped[j].idempotency_key
}

/// The external references that are not older than `ttl` at `now`.
pub open spec fn purged(
    index: Map<Seq<char>, ExternalRecordView>,
    ttl: u64,
    now: u64,
) -> Map<Seq<char>, ExternalRecordView> {
    Map::new(
        |k: Seq<char>| index.contains_key(k) && !stale(index[k].recorded_at, ttl, now),
        |k: Seq<char>| index[k],
    )
}

/// The index after the reaped events are entered, in order, under their external
/// references.
pub open spec fn index_reaped(
    index: Map<Seq<char>, ExternalRecordView>,
    reaped: Seq<ReapedEventView>,
    now: u64,
) -> Map<Seq<char>, ExternalRecordView>
    decreases reaped.len(),
{
    if reaped.len() == 0 {
        index
    } else {
        let earlier = index_reaped(index, reaped.drop_last(), now);
        let last = reaped.last().event;
        match last.external_reference {
            Some(reference) => earlier.insert(
                reference,
                ExternalRecordView { recorded_at: now, event: last },
            ),
            None => earlier,
        }
    }
}

} // verus!
