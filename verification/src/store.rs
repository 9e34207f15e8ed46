//! The queue store: a durable, ordered record of pending operations.
//!
//! Identifiers are assigned from a monotone counter, so they are strictly
//! increasing and define the enqueue order.  Entries leave the store only
//! through `delete`; `record_attempt` updates the retry-tracking fields of a
//! single entry and nothing else.

use vstd::prelude::*;

use crate::MAX_RETRIES;
use crate::entry::QueueEntry;

verus! {

/// Why an `enqueue` was rejected.  Content never rejects an enqueue; the
/// only failure is exhaustion of the identifier space.
#[derive(Clone, Copy, Debug, PartialEq, Eq, Structural)]
pub enum EnqueueError {
    IdSpaceExhausted,
}

/// Entry identifiers are strictly increasing along the sequence.
pub open spec fn ids_strictly_increasing(s: Seq<QueueEntry>) -> bool {
    forall|i: int, j: int| 0 <= i < j < s.len() ==> s[i].id < s[j].id
}

/// Some entry of the sequence carries this identifier.
pub open spec fn has_id(s: Seq<QueueEntry>, id: i64) -> bool {
    exists|i: int| 0 <= i < s.len() && s[i].id == id
}

/// The index of the entry carrying this identifier (unique when identifiers
/// are strictly increasing).
pub open spec fn index_of_id(s: Seq<QueueEntry>, id: i64) -> int {
    choose|i: int| 0 <= i < s.len() && s[i].id == id
}

/// A freshly enqueued entry: the given identity fields, and retry tracking
/// at its initial state.
pub open spec fn entry_fresh(
    e: QueueEntry,
    id: i64,
    now: i64,
    op: Seq<char>,
    ep: Seq<char>,
    m: Seq<char>,
    p: Seq<char>,
) -> bool {
    &&& e.id == id
    &&& e.created_at == now
    &&& e.operation_type@ == op
    &&& e.endpoint@ == ep
    &&& e.method@ == m
    &&& e.payload@ == p
    &&& e.retries == 0
    &&& e.last_attempt_at is None
    &&& e.error_message is None
}

/// `new` relates to `base` as one recorded attempt: identity fields kept,
/// retry tracking set to the given count, timestamp and message.
pub open spec fn entry_with_attempt(
    new: QueueEntry,
    base: QueueEntry,
    retries: u32,
    at: i64,
    msg: Seq<char>,
) -> bool {
    &&& new.id == base.id
    &&& new.created_at == base.created_at
    &&& new.operation_type == base.operation_type
    &&& new.endpoint == base.endpoint
    &&& new.method == base.method
    &&& new.payload == base.payload
    &&& new.retries == retries
    &&& new.last_attempt_at == Some(at)
    &&& new.error_message matches Some(m) && m@ == msg
}

/// In a strictly increasing sequence an identifier occurs at one index only.
pub proof fn lemma_index_of_id_unique(s: Seq<QueueEntry>, id: i64, j: int)
    requires
        ids_strictly_increasing(s),
        0 <= j < s.len(),
        s[j].id == id,
    ensures
        has_id(s, id),
        index_of_id(s, id) == j,
{
    assert(has_id(s, id));
    let i = index_of_id(s, id);
    if i < j {
        assert(s[i].id < s[j].id);
    } else if j < i {
        assert(s[j].id < s[i].id);
    }
}

/// Removing one entry keeps the remaining entries in strictly increasing
/// identifier order.
pub proof fn lemma_remove_keeps_order(s: Seq<QueueEntry>, i: int)
    requires
        ids_strictly_increasing(s),
        0 <= i < s.len(),
    ensures
        ids_strictly_increasing(s.remove(i)),
{
    let t = s.remove(i);
    assert forall|a: int, b: int| 0 <= a < b < t.len() implies t[a].id < t[b].id by {
        let a0 = if a < i { a } else { a + 1 };
        let b0 = if b < i { b } else { b + 1 };
        assert(t[a] == s[a0]);
        assert(t[b] == s[b0]);
    }
}

/// The facts well-formedness gives about a store's contents, for callers
/// outside this module.
pub proof fn lemma_wf_facts(s: &QueueStore)
    requires
        s.wf(),
    ensures
        ids_strictly_increasing(s@),
        forall|i: int| 0 <= i < s@.len() ==> #[trigger] s@[i].id < s.spec_next_id(),
        forall|i: int| 0 <= i < s@.len() ==> #[trigger] s@[i].retries < MAX_RETRIES,
        0 <= s.spec_next_id(),
{
}

/// Ordered record of pending operations.
pub struct QueueStore {
    entries: Vec<QueueEntry>,
    next_id: i64,
}

impl View for QueueStore {
    type V = Seq<QueueEntry>;

    closed spec fn view(&self) -> Seq<QueueEntry> {
        self.entries@
    }
}

impl QueueStore {
    /// The identifier the next enqueued entry will receive.
    pub closed spec fn spec_next_id(&self) -> int {
        self.next_id as int
    }

    /// Well-formedness: identifiers strictly increase (so listing order is
    /// enqueue order), every identifier is below the counter, and a pending
    /// entry has always failed fewer than `MAX_RETRIES` times.
    pub closed spec fn wf(&self) -> bool {
        &&& ids_strictly_increasing(self.entries@)
        &&& forall|i: int|
            0 <= i < self.entries@.len() ==> #[trigger] self.entries@[i].id < self.next_id
        &&& forall|i: int|
            0 <= i < self.entries@.len() ==> #[trigger] self.entries@[i].retries < MAX_RETRIES
        &&& 0 <= self.next_id
    }

    /// An empty store.
    pub fn new() -> (r: QueueStore)
        ensures
            r.wf(),
            r@ == Seq::<QueueEntry>::empty(),
            r.spec_next_id() == 0,
    {
        QueueStore { entries: Vec::new(), next_id: 0 }
    }

    /// Number of pending entries.
    pub fn len(&self) -> (r: usize)
        ensures
            r == self@.len(),
    {
        self.entries.len()
    }

    /// Append one operation.  Never fails on content; the only error is an
    /// exhausted identifier space, in which case the store is unchanged.
    pub fn enqueue(
        &mut self,
        operation_type: String,
        endpoint: String,
        method: String,
        payload: String,
        now: i64,
    ) -> (r: Result<i64, EnqueueError>)
        requires
            old(self).wf(),
        ensures
            final(self).wf(),
            match r {
                Ok(id) => {
                    &&& old(self).spec_next_id() < i64::MAX
                    &&& id == old(self).spec_next_id()
                    &&& final(self).spec_next_id() == old(self).spec_next_id() + 1
                    &&& final(self)@.len() == old(self)@.len() + 1
                    &&& final(self)@ == old(self)@.push(final(self)@.last())
                    &&& entry_fresh(
                        final(self)@.last(),
                        id,
                        now,
                        operation_type@,
                        endpoint@,
                        method@,
                        payload@,
                    )
                },
                Err(e) => {
                    &&& e == EnqueueError::IdSpaceExhausted
                    &&& old(self).spec_next_id() == i64::MAX
                    &&& final(self)@ == old(self)@
                    &&& final(self).spec_next_id() == old(self).spec_next_id()
                },
            },
    {
        if self.next_id == i64::MAX {
            return Err(EnqueueError::IdSpaceExhausted);
        }
        let id = self.next_id;
        let e = QueueEntry {
            id,
            created_at: now,
            operation_type,
            endpoint,
            method,
            payload,
            retries: 0,
            last_attempt_at: None,
            error_message: None,
        };
        self.next_id = id + 1;
        self.entries.push(e);
        proof {
            let s = self.entries@;
            assert forall|i: int, j: int| 0 <= i < j < s.len() implies s[i].id < s[j].id by {
                if j < s.len() - 1 {
                    assert(s[i] == old(self)@[i]);
                    assert(s[j] == old(self)@[j]);
                } else {
                    assert(s[i] == old(self)@[i]);
                    assert(old(self)@[i].id < id);
                }
            }
        }
        Ok(id)
    }

    /// A snapshot of all pending entries, in identifier (= enqueue) order.
    pub fn list_pending(&self) -> (r: Vec<QueueEntry>)
        ensures
            r@ == self@,
    {
        let mut out: Vec<QueueEntry> = Vec::new();
        let mut i: usize = 0;
        while i < self.entries.len()
            invariant
                i <= self.entries@.len(),
                out@ =~= self.entries@.subrange(0, i as int),
            decreases self.entries@.len() - i,
        {
            out.push(self.entries[i].duplicate());
            proof {
                assert(out@ =~= self.entries@.subrange(0, i as int + 1));
            }
            i = i + 1;
        }
        proof {
            assert(out@ =~= self@);
        }
        out
    }

    /// Borrow the entry carrying this identifier, if it is pending.
    pub fn find(&self, id: i64) -> (r: Option<&QueueEntry>)
        requires
            self.wf(),
        ensures
            match r {
                Some(e) => has_id(self@, id) && *e == self@[index_of_id(self@, id)],
                None => !has_id(self@, id),
            },
    {
        let mut i: usize = 0;
        while i < self.entries.len()
            invariant
                self.wf(),
                i <= self.entries@.len(),
                forall|k: int| 0 <= k < i ==> #[trigger] self.entries@[k].id != id,
            decreases self.entries@.len() - i,
        {
            if self.entries[i].id == id {
                proof {
                    lemma_index_of_id_unique(self@, id, i as int);
                }
                return Some(&self.entries[i]);
            }
            i = i + 1;
        }
        None
    }

    /// Remove the entry carrying this identifier, returning it.  Every other
    /// entry is untouched and the relative order is kept.
    pub fn delete(&mut self, id: i64) -> (r: Option<QueueEntry>)
        requires
            old(self).wf(),
        ensures
            final(self).wf(),
            final(self).spec_next_id() == old(self).spec_next_id(),
            !has_id(old(self)@, id) ==> final(self)@ == old(self)@ && r is None,
            has_id(old(self)@, id) ==> {
                let i = index_of_id(old(self)@, id);
                &&& final(self)@ == old(self)@.remove(i)
                &&& r == Some(old(self)@[i])
            },
    {
        let mut i: usize = 0;
        while i < self.entries.len()
            invariant
                old(self).wf(),
                self == old(self),
                i <= self.entries@.len(),
                forall|k: int| 0 <= k < i ==> #[trigger] self.entries@[k].id != id,
            decreases self.entries@.len() - i,
        {
            if self.entries[i].id == id {
                proof {
                    lemma_index_of_id_unique(self@, id, i as int);
                    lemma_remove_keeps_order(self@, i as int);
                }
                let e = self.entries.remove(i);
                return Some(e);
            }
            i = i + 1;
        }
        assert(!has_id(old(self)@, id));
        None
    }

    /// Record one failed attempt on the entry carrying this identifier:
    /// set its retry count, last-attempt timestamp and error message, and
    /// touch nothing else.  Returns whether the entry was found.
    pub fn record_attempt(
        &mut self,
        id: i64,
        new_retry_count: u32,
        timestamp: i64,
        error_message: String,
    ) -> (r: bool)
        requires
            old(self).wf(),
            new_retry_count < MAX_RETRIES,
        ensures
            final(self).wf(),
            final(self).spec_next_id() == old(self).spec_next_id(),
            r == has_id(old(self)@, id),
            !has_id(old(self)@, id) ==> final(self)@ == old(self)@,
            has_id(old(self)@, id) ==> {
                let i = index_of_id(old(self)@, id);
                &&& final(self)@.len() == old(self)@.len()
                &&& forall|j: int|
                    0 <= j < old(self)@.len() && j != i ==> final(self)@[j] == old(self)@[j]
                &&& entry_with_attempt(
                    final(self)@[i],
                    old(self)@[i],
                    new_retry_count,
                    timestamp,
                    error_message@,
                )
            },
    {
        let mut i: usize = 0;
        while i < self.entries.len()
            invariant
                old(self).wf(),
                self == old(self),
                new_retry_count < MAX_RETRIES,
                i <= self.entries@.len(),
                forall|k: int| 0 <= k < i ==> #[trigger] self.entries@[k].id != id,
            decreases self.entries@.len() - i,
        {
            if self.entries[i].id == id {
                proof {
                    lemma_index_of_id_unique(self@, id, i as int);
                }
                let base = self.entries.remove(i);
                let updated = QueueEntry {
                    retries: new_retry_count,
                    last_attempt_at: Some(timestamp),
                    error_message: Some(error_message),
                    ..base
                };
                self.entries.insert(i, updated);
                proof {
                    let pre = old(self)@;
                    let post = self.entries@;
                    assert(post[i as int] == updated);
                    assert(post =~= pre.update(i as int, post[i as int]));
                    assert forall|a: int, b: int| 0 <= a < b < post.len() implies
                        post[a].id < post[b].id by {
                        assert(post[a].id == pre[a].id);
                        assert(post[b].id == pre[b].id);
                    }
                    assert forall|j: int| 0 <= j < post.len() implies
                        #[trigger] post[j].id < self.next_id by {
                        assert(post[j].id == pre[j].id);
                    }
                    assert forall|j: int| 0 <= j < post.len() implies
                        #[trigger] post[j].retries < MAX_RETRIES by {
                        if j != i as int {
                            assert(post[j] == pre[j]);
                        } else {
                            assert(post[j] == updated);
                            assert(updated.retries == new_retry_count);
                        }
                    }
                }
                return true;
            }
            i = i + 1;
        }
        false
    }
}

} // verus!
