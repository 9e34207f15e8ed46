//! The dispatcher: lifecycle, per-tick gating, and the retry/backoff policy
//! driving each pending entry to resolution.
//!
//! The service owns the queue store, a dead-letter record of permanently
//! failed operations, and the running flag.  Every decision the dispatcher
//! loop takes is a verified function here; the unverified shell only
//! performs the network call and the sleep between ticks, and hands the
//! outcome back.
//!
//! Per tick: a stopped service exits; an offline service sleeps; otherwise
//! all pending entries are drained strictly in identifier order, one at a
//! time.  Per entry: an undecodable payload for a body-carrying method is a
//! permanent failure (removed at once, never retried); a confirmed response
//! is reconciled and the entry removed; a failed attempt bumps the retry
//! count, and the count reaching `MAX_RETRIES` removes the entry into the
//! dead-letter record.

use vstd::prelude::*;

use crate::MAX_RETRIES;
use crate::entry::HttpMethod;
use crate::entry::QueueEntry;
use crate::entry::method_has_body;
use crate::entry::parse_method;
use crate::entry::spec_method_has_body;
use crate::entry::spec_parse_method;
use crate::json::json_decodes;
use crate::json::json_field_i64;
use crate::json::json_is_valid;
use crate::reconcile::ReconcileAction;
use crate::reconcile::handle_sync_response;
use crate::reconcile::spec_reconcile;
use crate::store::EnqueueError;
use crate::store::QueueStore;
use crate::store::entry_fresh;
use crate::store::entry_with_attempt;
use crate::store::has_id;
use crate::store::ids_strictly_increasing;
use crate::store::index_of_id;
use crate::store::lemma_wf_facts;
use crate::transport::ItemOutcome;
use crate::transport::outcome_error_message;
use crate::transport::outcome_error_text;

verus! {

/// Why an entry was removed without a confirmed response.
#[derive(Clone, Copy, Debug, PartialEq, Eq, Structural)]
pub enum FailureReason {
    /// The entry failed `MAX_RETRIES` consecutive times.
    RetryCeiling,
    /// The stored payload no longer decodes into a structured body.
    MalformedPayload,
}

/// Durable record of one permanently failed operation, kept for operator
/// inspection instead of being discarded silently.
#[derive(Debug)]
pub struct DeadLetter {
    pub entry: QueueEntry,
    pub reason: FailureReason,
    pub failed_at: i64,
}

/// Read-only snapshot for UI and operations visibility.
#[derive(Clone, Copy, Debug, PartialEq, Eq, Structural)]
pub struct SyncStatus {
    pub queued_count: usize,
    pub failed_count: usize,
    pub is_online: bool,
}

/// What the dispatcher does with the tick that is starting.
#[derive(Debug)]
pub enum TickStep {
    /// The running flag is cleared: leave the loop.
    Exit,
    /// Offline: skip straight to the sleep.
    Sleep,
    /// Online: drain these entries, in identifier order, one at a time.
    Drain(Vec<QueueEntry>),
}

/// The decision taken on one entry before any network traffic.
#[derive(Debug)]
pub enum ItemStep {
    /// No pending entry carries this identifier.
    NotPending,
    /// Malformed payload: removed at once, recorded, never retried.
    Discarded,
    /// Unsupported method text: counted as one failed attempt.
    Failed { removed: bool },
    /// Send this request and hand the outcome to `finish_item`.
    Request { method: HttpMethod, endpoint: String, body: Option<String> },
}

/// How an attempt's outcome resolved the entry.
#[derive(Debug)]
pub enum ItemResolution {
    /// No pending entry carries this identifier.
    NotPending,
    /// Confirmed: the entry is removed and this merge is owed locally.
    Completed(ReconcileAction),
    /// Failed, ceiling not reached: the entry stays for the next tick.
    Retried,
    /// Failed for the `MAX_RETRIES`th time: removed into the dead letters.
    DeadLettered,
}

/// Whether one more failed attempt removes this entry.
pub open spec fn fail_outcome_removes(e: QueueEntry) -> bool {
    e.retries + 1 >= MAX_RETRIES
}

/// The error text recorded when an entry's stored method is unsupported.
pub open spec fn unsupported_method_text() -> Seq<char> {
    "unsupported HTTP method"@
}

/// The dead letter written when an entry exhausts its retries: the entry
/// with its final attempt recorded.
pub open spec fn dead_letter_retry(d: DeadLetter, e: QueueEntry, now: i64, msg: Seq<char>) -> bool {
    &&& d.reason == FailureReason::RetryCeiling
    &&& d.failed_at == now
    &&& entry_with_attempt(d.entry, e, (e.retries + 1) as u32, now, msg)
}

/// The dead letter written for a malformed payload: the entry exactly as it
/// stood, with zero attempts recorded.
pub open spec fn dead_letter_malformed(d: DeadLetter, e: QueueEntry, now: i64) -> bool {
    &&& d.reason == FailureReason::MalformedPayload
    &&& d.failed_at == now
    &&& d.entry == e
}

/// The offline operation queue and its dispatcher state.
pub struct SyncService {
    store: QueueStore,
    dead_letters: Vec<DeadLetter>,
    running: bool,
}

/// How one failed attempt on the entry carrying `id` relates the service
/// after the attempt (`post`) to the service before it (`pre`): at the
/// ceiling the entry moves into the dead letters; below it only the entry's
/// retry-tracking fields change.
pub open spec fn spec_failed_attempt(
    pre: SyncService,
    post: SyncService,
    id: i64,
    now: i64,
    msg: Seq<char>,
) -> bool {
    let s = pre.pending();
    let i = index_of_id(s, id);
    let e = s[i];
    &&& post.is_running() == pre.is_running()
    &&& post.spec_next_id() == pre.spec_next_id()
    &&& if fail_outcome_removes(e) {
        &&& post.pending() == s.remove(i)
        &&& post.dead().len() == pre.dead().len() + 1
        &&& post.dead() == pre.dead().push(post.dead().last())
        &&& dead_letter_retry(post.dead().last(), e, now, msg)
    } else {
        &&& post.dead() == pre.dead()
        &&& post.pending().len() == s.len()
        &&& (forall|j: int| 0 <= j < s.len() && j != i ==> post.pending()[j] == s[j])
        &&& entry_with_attempt(post.pending()[i], e, (e.retries + 1) as u32, now, msg)
    }
}

impl SyncService {
    /// The pending entries, in identifier (= enqueue) order.
    pub closed spec fn pending(&self) -> Seq<QueueEntry> {
        self.store@
    }

    /// The dead-letter record, in the order failures became permanent.
    pub closed spec fn dead(&self) -> Seq<DeadLetter> {
        self.dead_letters@
    }

    /// The running flag.
    pub closed spec fn is_running(&self) -> bool {
        self.running
    }

    /// The identifier the next enqueued operation will receive.
    pub closed spec fn spec_next_id(&self) -> int {
        self.store.spec_next_id()
    }

    /// Well-formedness of the underlying store.
    pub closed spec fn wf(&self) -> bool {
        self.store.wf()
    }

    /// A stopped service with an empty queue and no dead letters.
    pub fn new() -> (r: SyncService)
        ensures
            r.wf(),
            r.pending() == Seq::<QueueEntry>::empty(),
            r.dead() == Seq::<DeadLetter>::empty(),
            !r.is_running(),
            r.spec_next_id() == 0,
    {
        SyncService { store: QueueStore::new(), dead_letters: Vec::new(), running: false }
    }

    /// Set the running flag.  Returns whether a dispatcher loop must be
    /// spawned: `false` means the service was already running and calling
    /// `start` again is a no-op.  The pending set is untouched, so a
    /// restarted service resumes draining exactly where it stood.
    pub fn start(&mut self) -> (spawn: bool)
        ensures
            final(self).is_running(),
            spawn == !old(self).is_running(),
            final(self).pending() == old(self).pending(),
            final(self).dead() == old(self).dead(),
            final(self).spec_next_id() == old(self).spec_next_id(),
            final(self).wf() == old(self).wf(),
            *final(self) == spec_started(*old(self)),
    {
        let was_running = self.running;
        self.running = true;
        !was_running
    }

    /// Clear the running flag; the loop observes it at the top of its next
    /// tick.  The pending set is untouched.
    pub fn stop(&mut self)
        ensures
            !final(self).is_running(),
            final(self).pending() == old(self).pending(),
            final(self).dead() == old(self).dead(),
            final(self).spec_next_id() == old(self).spec_next_id(),
            final(self).wf() == old(self).wf(),
            *final(self) == spec_stopped(*old(self)),
    {
        self.running = false;
    }

    /// Append one operation to the queue.  Content never fails an enqueue;
    /// the only error is an exhausted identifier space, and then nothing
    /// changed.
    pub fn queue_operation(
        &mut self,
        operation_type: String,
        endpoint: String,
        method: String,
        payload: String,
        now: i64,
    ) -> (r: Result<i64, EnqueueError>)
        requires
            old(self).wf(),
        ensures
            final(self).wf(),
            final(self).is_running() == old(self).is_running(),
            final(self).dead() == old(self).dead(),
            match r {
                Ok(id) => {
                    &&& old(self).spec_next_id() < i64::MAX
                    &&& id == old(self).spec_next_id()
                    &&& final(self).spec_next_id() == old(self).spec_next_id() + 1
                    &&& final(self).pending().len() == old(self).pending().len() + 1
                    &&& final(self).pending() == old(self).pending().push(
                        final(self).pending().last(),
                    )
                    &&& entry_fresh(
                        final(self).pending().last(),
                        id,
                        now,
                        operation_type@,
                        endpoint@,
                        method@,
                        payload@,
                    )
                },
                Err(e) => {
                    &&& e == EnqueueError::IdSpaceExhausted
                    &&& old(self).spec_next_id() == i64::MAX
                    &&& final(self).pending() == old(self).pending()
                    &&& final(self).spec_next_id() == old(self).spec_next_id()
                },
            },
    {
        self.store.enqueue(operation_type, endpoint, method, payload, now)
    }

    /// A snapshot of all pending entries, in identifier order.
    pub fn list_pending(&self) -> (r: Vec<QueueEntry>)
        ensures
            r@ == self.pending(),
    {
        self.store.list_pending()
    }

    /// Borrow the dead-letter record.
    pub fn dead_letter_record(&self) -> (r: &Vec<DeadLetter>)
        ensures
            r@ == self.dead(),
    {
        &self.dead_letters
    }

    /// Read-only snapshot: the pending count, the permanent-failure count,
    /// and the connectivity the caller probed.
    pub fn get_sync_status(&self, is_online: bool) -> (r: SyncStatus)
        ensures
            r.queued_count == self.pending().len(),
            r.failed_count == self.dead().len(),
            r.is_online == is_online,
    {
        SyncStatus {
            queued_count: self.store.len(),
            failed_count: self.dead_letters.len(),
            is_online,
        }
    }

    /// The decision at the top of a tick: exit when stopped, sleep when
    /// offline, otherwise drain a snapshot of the pending entries.
    pub fn begin_tick(&self, online: bool) -> (r: TickStep)
        ensures
            !self.is_running() ==> r is Exit,
            self.is_running() && !online ==> r is Sleep,
            self.is_running() && online ==> (r matches TickStep::Drain(batch) && batch@
                == self.pending()),
    {
        if !self.running {
            TickStep::Exit
        } else if !online {
            TickStep::Sleep
        } else {
            TickStep::Drain(self.store.list_pending())
        }
    }

    /// One failed attempt on the entry carrying `id`: bump its retry count,
    /// or remove it into the dead letters when the count reaches the
    /// ceiling.  Returns whether the entry was removed.
    fn apply_failure(&mut self, id: i64, now: i64, message: String) -> (removed: bool)
        requires
            old(self).wf(),
            has_id(old(self).pending(), id),
        ensures
            final(self).wf(),
            spec_failed_attempt(*old(self), *final(self), id, now, message@),
            removed == fail_outcome_removes(
                old(self).pending()[index_of_id(old(self).pending(), id)],
            ),
    {
        proof {
            lemma_wf_facts(&self.store);
        }
        let retries = match self.store.find(id) {
            Some(e) => e.retries,
            None => {
                proof {
                    assert(false);
                }
                0
            },
        };
        let new_count = retries + 1;
        if new_count >= MAX_RETRIES {
            let e = match self.store.delete(id) {
                Some(e) => e,
                None => {
                    proof {
                        assert(false);
                    }
                    return false;
                },
            };
            let record = QueueEntry {
                retries: new_count,
                last_attempt_at: Some(now),
                error_message: Some(message),
                ..e
            };
            self.dead_letters.push(
                DeadLetter { entry: record, reason: FailureReason::RetryCeiling, failed_at: now },
            );
            true
        } else {
            let _found = self.store.record_attempt(id, new_count, now, message);
            false
        }
    }

    /// The decision on one entry before any network traffic: reject an
    /// unsupported method as one failed attempt, discard a malformed payload
    /// permanently, and otherwise say exactly which request to send.
    pub fn begin_item(&mut self, id: i64, now: i64) -> (r: ItemStep)
        requires
            old(self).wf(),
        ensures
            final(self).wf(),
            final(self).is_running() == old(self).is_running(),
            final(self).spec_next_id() == old(self).spec_next_id(),
            !has_id(old(self).pending(), id) ==> r is NotPending && final(self).pending() == old(
                self,
            ).pending() && final(self).dead() == old(self).dead(),
            has_id(old(self).pending(), id) ==> ({
                let s = old(self).pending();
                let i = index_of_id(s, id);
                let e = s[i];
                if spec_parse_method(e.method@) is None {
                    &&& r == (ItemStep::Failed { removed: fail_outcome_removes(e) })
                    &&& spec_failed_attempt(
                        *old(self),
                        *final(self),
                        id,
                        now,
                        unsupported_method_text(),
                    )
                } else if spec_method_has_body(spec_parse_method(e.method@).unwrap())
                    && !json_decodes(e.payload@) {
                    &&& r is Discarded
                    &&& final(self).pending() == s.remove(i)
                    &&& final(self).dead().len() == old(self).dead().len() + 1
                    &&& final(self).dead() == old(self).dead().push(final(self).dead().last())
                    &&& dead_letter_malformed(final(self).dead().last(), e, now)
                } else {
                    &&& final(self).pending() == old(self).pending()
                    &&& final(self).dead() == old(self).dead()
                    &&& r matches ItemStep::Request { method, endpoint, body } && Some(method)
                        == spec_parse_method(e.method@) && endpoint@ == e.endpoint@ && (
                    spec_method_has_body(method) ==> (body matches Some(p) && p@ == e.payload@))
                        && (!spec_method_has_body(method) ==> body is None)
                }
            }),
    {
        let info = match self.store.find(id) {
            Some(e) => Some((e.method.clone(), e.endpoint.clone(), e.payload.clone())),
            None => None,
        };
        let (method_text, endpoint, payload) = match info {
            Some(t) => t,
            None => {
                return ItemStep::NotPending;
            },
        };
        match parse_method(&method_text) {
            None => {
                let removed = self.apply_failure(id, now, "unsupported HTTP method".to_owned());
                ItemStep::Failed { removed }
            },
            Some(m) => {
                if method_has_body(m) && !json_is_valid(payload.as_str()) {
                    let e = match self.store.delete(id) {
                        Some(e) => e,
                        None => {
                            proof {
                                assert(false);
                            }
                            return ItemStep::NotPending;
                        },
                    };
                    self.dead_letters.push(
                        DeadLetter {
                            entry: e,
                            reason: FailureReason::MalformedPayload,
                            failed_at: now,
                        },
                    );
                    ItemStep::Discarded
                } else if method_has_body(m) {
                    ItemStep::Request { method: m, endpoint, body: Some(payload) }
                } else {
                    ItemStep::Request { method: m, endpoint, body: None }
                }
            },
        }
    }

    /// Resolve one entry from its attempt's outcome: a success is reconciled
    /// and removed; a failure is one more attempt, removing the entry into
    /// the dead letters exactly when the count reaches the ceiling.
    pub fn finish_item(&mut self, id: i64, outcome: ItemOutcome, now: i64) -> (r: ItemResolution)
        requires
            old(self).wf(),
        ensures
            final(self).wf(),
            final(self).is_running() == old(self).is_running(),
            final(self).spec_next_id() == old(self).spec_next_id(),
            !has_id(old(self).pending(), id) ==> r is NotPending && final(self).pending() == old(
                self,
            ).pending() && final(self).dead() == old(self).dead(),
            has_id(old(self).pending(), id) ==> ({
                let s = old(self).pending();
                let i = index_of_id(s, id);
                let e = s[i];
                match outcome {
                    ItemOutcome::Success { body } => {
                        &&& final(self).pending() == s.remove(i)
                        &&& final(self).dead() == old(self).dead()
                        &&& r == ItemResolution::Completed(
                            spec_reconcile(e.operation_type@, json_field_i64(body@, "id"@)),
                        )
                    },
                    _ => {
                        &&& spec_failed_attempt(
                            *old(self),
                            *final(self),
                            id,
                            now,
                            outcome_error_text(outcome),
                        )
                        &&& r == (if fail_outcome_removes(e) {
                            ItemResolution::DeadLettered
                        } else {
                            ItemResolution::Retried
                        })
                    },
                }
            }),
    {
        let op = match self.store.find(id) {
            Some(e) => e.operation_type.clone(),
            None => {
                return ItemResolution::NotPending;
            },
        };
        match outcome {
            ItemOutcome::Success { body } => {
                let action = handle_sync_response(&op, &body);
                let _removed = self.store.delete(id);
                ItemResolution::Completed(action)
            },
            failed => {
                let message = outcome_error_message(&failed);
                let removed = self.apply_failure(id, now, message);
                if removed {
                    ItemResolution::DeadLettered
                } else {
                    ItemResolution::Retried
                }
            },
        }
    }
}

/// The service as `start` leaves it: only the running flag set.
pub closed spec fn spec_started(s: SyncService) -> SyncService {
    SyncService { running: true, ..s }
}

/// The service as `stop` leaves it: only the running flag cleared.
pub closed spec fn spec_stopped(s: SyncService) -> SyncService {
    SyncService { running: false, ..s }
}

/// Lifecycle law: `stop` and `start` never touch the pending set or the
/// dead letters, `stop` then `start` resumes from exactly the current
/// pending set, and `start` on a running service changes nothing — so no
/// second loop is ever spawned (`start` reports `spawn` only on the
/// not-running service).
pub proof fn lemma_lifecycle(s: SyncService)
    ensures
        spec_started(s).pending() == s.pending(),
        spec_started(s).dead() == s.dead(),
        spec_started(s).is_running(),
        spec_started(s).wf() == s.wf(),
        spec_stopped(s).pending() == s.pending(),
        spec_stopped(s).dead() == s.dead(),
        !spec_stopped(s).is_running(),
        spec_stopped(s).wf() == s.wf(),
        spec_started(spec_stopped(s)) == spec_started(s),
        spec_started(spec_started(s)) == spec_started(s),
{
}

/// FIFO law: in a well-formed service the pending entries always stand in
/// strictly increasing identifier order — the enqueue order — no matter how
/// enqueues and drains interleaved.
pub proof fn lemma_pending_fifo(s: &SyncService)
    requires
        s.wf(),
    ensures
        ids_strictly_increasing(s.pending()),
{
    lemma_wf_facts_service(s);
}

/// Well-formedness facts of a service, for callers outside this module.
pub proof fn lemma_wf_facts_service(s: &SyncService)
    requires
        s.wf(),
    ensures
        ids_strictly_increasing(s.pending()),
        forall|i: int| 0 <= i < s.pending().len() ==> #[trigger] s.pending()[i].id
            < s.spec_next_id(),
        forall|i: int| 0 <= i < s.pending().len() ==> #[trigger] s.pending()[i].retries
            < MAX_RETRIES,
{
    lemma_wf_facts(&s.store);
}

/// Removing one entry removes exactly that entry: the rest keep their
/// values and their relative order.
pub proof fn lemma_drain_removes_exactly_one(s: Seq<QueueEntry>, i: int)
    requires
        0 <= i < s.len(),
    ensures
        s.remove(i).len() == s.len() - 1,
        forall|j: int| 0 <= j < i ==> s.remove(i)[j] == s[j],
        forall|j: int| i <= j < s.len() - 1 ==> s.remove(i)[j] == s[j + 1],
{
}

/// A single entry's retry state: `Some(count)` while pending, `None` once
/// removed by the retry ceiling.
pub open spec fn fail_once(st: Option<nat>) -> Option<nat> {
    match st {
        Some(r) => if r + 1 >= MAX_RETRIES {
            None
        } else {
            Some((r + 1) as nat)
        },
        None => None,
    }
}

/// The retry state after `k` consecutive failed attempts.
pub open spec fn fail_many(st: Option<nat>, k: nat) -> Option<nat>
    decreases k,
{
    if k == 0 {
        st
    } else {
        fail_many(fail_once(st), (k - 1) as nat)
    }
}

proof fn lemma_fail_many_none(k: nat)
    ensures
        fail_many(None, k) is None,
    decreases k,
{
    if k > 0 {
        lemma_fail_many_none((k - 1) as nat);
    }
}

proof fn lemma_fail_many_from(r: nat, k: nat)
    requires
        r < MAX_RETRIES,
    ensures
        fail_many(Some(r), k) == if r + k < MAX_RETRIES {
            Some((r + k) as nat)
        } else {
            Option::<nat>::None
        },
    decreases k,
{
    if k > 0 {
        if r + 1 >= MAX_RETRIES {
            lemma_fail_many_none((k - 1) as nat);
        } else {
            lemma_fail_many_from((r + 1) as nat, (k - 1) as nat);
        }
    }
}

/// Retry-ceiling law: an entry enqueued with a zero count and failing
/// consecutively is still pending after any fewer than `MAX_RETRIES`
/// failures — with exactly that many recorded — and is removed by the
/// `MAX_RETRIES`th failure: never earlier, never later.
pub proof fn lemma_retry_ceiling(k: nat)
    ensures
        k < MAX_RETRIES ==> fail_many(Some(0nat), k) == Some(k),
        k >= MAX_RETRIES ==> fail_many(Some(0nat), k) is None,
{
    lemma_fail_many_from(0nat, k);
}

/// One failed attempt of the dispatcher agrees with the single-entry retry
/// model: the entry is removed exactly when the model steps to `None`, and
/// otherwise carries the model's count.
pub proof fn lemma_fail_step_agrees(e: QueueEntry)
    ensures
        fail_outcome_removes(e) <==> fail_once(Some(e.retries as nat)) is None,
        !fail_outcome_removes(e) ==> fail_once(Some(e.retries as nat)) == Some(
            (e.retries + 1) as nat,
        ),
{
}

} // verus!
