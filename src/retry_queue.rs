use vstd::prelude::*;
use crate::promotion::Transition;
use crate::ranks::Ranks;
use std::collections::HashMap;
use vstd::std_specs::hash::spec_keys_iter;
use vstd::std_specs::iter::IteratorSpec;
use crate::keyed::{Keyed, keyed_map};
use crate::users::User;

verus! {

broadcast use vstd::std_specs::hash::group_hash_axioms;

/// A rank change that the group service did not confirm, kept for another
/// attempt: the member as it stood, with the rank it is to be given, the
/// direction of the change, and when it was queued.
#[derive(Clone, Debug)]
pub struct RetryEntry {
    pub member: User,
    pub transition: Transition,
    pub enqueued_at: u64,
}

/// A request to the group service to set a member's rank.
#[derive(Clone, Copy, Debug, PartialEq, Eq, Structural)]
pub struct RankChange {
    pub user_id: u32,
    pub rank: Ranks,
}

/// What became of one evaluation of a member.
#[derive(Clone, Copy, Debug, PartialEq, Eq, Structural)]
pub enum TransitionOutcome {
    Unchanged,
    Promoted,
    Demoted,
    EnqueuedRetry,
}

impl Keyed for RetryEntry {
    open spec fn key(&self) -> u32 {
        self.member.user_id
    }

    fn key_of(&self) -> (r: u32) {
        self.member.user_id
    }
}

/// The entries keyed by member id; a later entry for an id replaces an
/// earlier one.
pub open spec fn entries_map(s: Seq<RetryEntry>) -> Map<u32, RetryEntry> {
    keyed_map(s)
}

/// The queue after a failed change of `e.member` is queued: any earlier
/// entry for the member is replaced.
pub open spec fn after_enqueue(q: Map<u32, RetryEntry>, e: RetryEntry) -> Map<u32, RetryEntry> {
    q.insert(e.member.user_id, e)
}

/// The queue after another attempt for member `id`: the entry leaves only
/// when the attempt succeeded.
pub open spec fn after_retry(q: Map<u32, RetryEntry>, id: u32, succeeded: bool) -> Map<u32, RetryEntry> {
    if succeeded {
        q.remove(id)
    } else {
        q
    }
}

/// Rank changes waiting for another attempt, at most one per member.
pub struct RetryQueue {
    entries: HashMap<u32, RetryEntry>,
}

impl View for RetryQueue {
    type V = Map<u32, RetryEntry>;

    closed spec fn view(&self) -> Map<u32, RetryEntry> {
        self.entries@
    }
}

impl RetryQueue {
    /// Each entry is kept under the id of its member.
    pub closed spec fn wf(&self) -> bool {
        forall|id: u32| #[trigger] self.entries@.contains_key(id) ==> self.entries@[id].member.user_id == id
    }

    pub fn new() -> (r: RetryQueue)
        ensures
            r.wf(),
            r@ == Map::<u32, RetryEntry>::empty(),
    {
        RetryQueue { entries: HashMap::new() }
    }

    /// Queues a rank change that failed. An earlier entry for the same
    /// member is replaced, so each member has at most one entry.
    pub fn enqueue(&mut self, member: User, transition: Transition, enqueued_at: u64)
        requires
            old(self).wf(),
        ensures
            final(self).wf(),
            final(self)@ == after_enqueue(old(self)@, RetryEntry { member, transition, enqueued_at }),
    {
        let id = member.user_id;
        self.entries.insert(id, RetryEntry { member, transition, enqueued_at });
    }

    /// A queue holding the given entries; where several are for one member,
    /// the last of them is kept.
    pub fn from_entries(entries: Vec<RetryEntry>) -> (r: RetryQueue)
        ensures
            r.wf(),
            r@ == entries_map(entries@),
    {
        let mut q = RetryQueue::new();
        let mut rest = entries;
        let ghost all = rest@;
        let ghost mut i: int = 0;
        while rest.len() > 0
            invariant
                q.wf(),
                0 <= i <= all.len(),
                rest@ == all.skip(i),
                q@ == entries_map(all.take(i)),
            decreases rest@.len(),
        {
            let e = rest.remove(0);
            proof {
                assert(e == all[i]);
                assert(all.take(i + 1).drop_last() == all.take(i));
                assert(rest@ == all.skip(i + 1));
                i = i + 1;
            }
            q.enqueue(e.member, e.transition, e.enqueued_at);
        }
        proof {
            assert(all.take(i) == all);
        }
        q
    }

    /// Whether a change for member `id` is waiting.
    pub fn contains(&self, id: u32) -> (r: bool)
        ensures
            r == self@.contains_key(id),
    {
        self.entries.contains_key(&id)
    }

    /// The waiting change for member `id`, if any.
    pub fn get(&self, id: u32) -> (r: Option<&RetryEntry>)
        ensures
            r is Some <==> self@.contains_key(id),
            r is Some ==> *r->0 == self@[id],
    {
        self.entries.get(&id)
    }

    /// The ids of the members with a waiting change, each once.
    pub fn member_ids(&self) -> (r: Vec<u32>)
        ensures
            r@.to_set() == self@.dom(),
            r@.no_duplicates(),
    {
        let ghost all = spec_keys_iter(&self.entries).remaining().map_values(|k: &u32| *k);
        let mut r: Vec<u32> = Vec::new();
        for k in it: self.entries.keys()
            invariant
                it.seq().map_values(|k: &u32| *k) == all,
                r@ == it.history().map_values(|k: &u32| *k),
            ensures
                r@ == all,
        {
            r.push(*k);
        }
        proof {
            assert(all =~= spec_keys_iter(&self.entries).remaining().unref());
        }
        r
    }

    /// The request to send again for member `id`: the rank recorded in its
    /// entry. `None` where no change for the member is waiting.
    pub fn retry_request(&self, id: u32) -> (r: Option<RankChange>)
        ensures
            r is Some <==> self@.contains_key(id),
            r is Some ==> r->0 == (RankChange { user_id: id, rank: self@[id].member.rank }),
    {
        match self.entries.get(&id) {
            Some(e) => Some(RankChange { user_id: id, rank: e.member.rank }),
            None => None,
        }
    }

    /// Records the outcome of another attempt for member `id`. On success
    /// the entry leaves the queue and its member, now holding the rank the
    /// group service confirmed, is returned to be written to the roster; on
    /// failure the queue is left as it was.
    pub fn record_retry(&mut self, id: u32, succeeded: bool) -> (r: Option<User>)
        requires
            old(self).wf(),
        ensures
            final(self).wf(),
            final(self)@ == after_retry(old(self)@, id, succeeded),
            r is Some <==> (succeeded && old(self)@.contains_key(id)),
            r is Some ==> r->0 == old(self)@[id].member,
    {
        if !succeeded {
            return None;
        }
        match self.entries.remove(&id) {
            Some(e) => Some(e.member),
            None => {
                proof {
                    assert(old(self)@.remove(id) =~= old(self)@);
                }
                None
            },
        }
    }
}

/// Settles one evaluation of a member once the group service has answered:
/// a change it confirmed is reported as such, and one it did not is queued
/// for another attempt with the member as it now stands.
pub fn settle_transition(
    queue: &mut RetryQueue,
    member: User,
    transition: Option<Transition>,
    rank_set: bool,
    now: u64,
) -> (r: TransitionOutcome)
    requires
        old(queue).wf(),
    ensures
        final(queue).wf(),
        r == match transition {
            None => TransitionOutcome::Unchanged,
            Some(Transition::Promote) => if rank_set { TransitionOutcome::Promoted } else { TransitionOutcome::EnqueuedRetry },
            Some(Transition::Demote) => if rank_set { TransitionOutcome::Demoted } else { TransitionOutcome::EnqueuedRetry },
        },
        final(queue)@ == match transition {
            Some(t) => if rank_set { old(queue)@ } else {
                after_enqueue(old(queue)@, RetryEntry { member, transition: t, enqueued_at: now })
            },
            None => old(queue)@,
        },
{
    match transition {
        None => TransitionOutcome::Unchanged,
        Some(t) => {
            if rank_set {
                match t {
                    Transition::Promote => TransitionOutcome::Promoted,
                    Transition::Demote => TransitionOutcome::Demoted,
                }
            } else {
                queue.enqueue(member, t, now);
                TransitionOutcome::EnqueuedRetry
            }
        },
    }
}

/// Queueing twice for one member leaves exactly one entry for it, the later
/// one; an entry leaves the queue only after an attempt that succeeded.
pub proof fn lemma_retry_queue_laws(q: Map<u32, RetryEntry>, a: RetryEntry, b: RetryEntry, id: u32, succeeded: bool)
    requires
        a.member.user_id == b.member.user_id,
    ensures
        after_enqueue(after_enqueue(q, a), b) == after_enqueue(q, b),
        after_enqueue(after_enqueue(q, a), b).dom() == q.dom().insert(b.member.user_id),
        after_enqueue(after_enqueue(q, a), b)[b.member.user_id] == b,
        q.contains_key(id) && !after_retry(q, id, succeeded).contains_key(id) ==> succeeded,
        !succeeded ==> after_retry(q, id, succeeded) == q,
        succeeded ==> !after_retry(q, id, succeeded).contains_key(id),
{
    assert(after_enqueue(after_enqueue(q, a), b) =~= after_enqueue(q, b));
    assert(after_enqueue(after_enqueue(q, a), b).dom() =~= q.dom().insert(b.member.user_id));
}

} // verus!
