use vstd::prelude::*;
use std::collections::VecDeque;
use std::collections::HashMap;
use vstd::std_specs::hash::spec_keys_iter;
use vstd::std_specs::iter::IteratorSpec;
use crate::keyed::{Keyed, keyed_map};
use crate::ranks::Ranks;
use crate::users::User;

verus! {

broadcast use vstd::std_specs::hash::group_hash_axioms;

/// How many members one tick of the sweep looks up at most.
pub const QUEUE_POP_NUM: usize = 6;

/// The group service's answer to "what is this member's rank in the group".
#[derive(Clone, Copy, Debug, PartialEq, Eq, Structural)]
pub enum GroupLookup {
    /// The service could not be reached or failed.
    Unavailable,
    /// The member is not in the group.
    NotInGroup,
    /// The member's numeric rank in the group.
    InGroup(u64),
}

/// What the sweep does with a member after looking it up.
#[derive(Clone, Copy, Debug, PartialEq, Eq, Structural)]
pub enum MemberAction {
    /// Delete the member's roster entry: it left the group.
    Remove(u32),
    /// Reconcile the member and evaluate it for promotion.
    Refresh(u32),
    /// The service could not answer for this member: leave its entry as it
    /// is and go on with the next member; it is looked up again on a later
    /// pass.
    Skip(u32),
}

/// A change to the roster, as the sweep and the reconciler make them.
pub enum RosterOp {
    /// A lookup of a member in the group.
    Lookup(u32, GroupLookup),
    /// A write of a member record, with the main-group rank that the group
    /// service confirmed for it, if any.
    Put(User, Option<Ranks>),
}

/// The roster after one change: a member found not to be in the group is
/// removed; a record is written only with a rank confirmed by the service.
pub open spec fn roster_step(m: Map<u32, User>, op: RosterOp) -> Map<u32, User> {
    match op {
        RosterOp::Lookup(id, GroupLookup::NotInGroup) => m.remove(id),
        RosterOp::Lookup(_, _) => m,
        RosterOp::Put(u, Some(_)) => m.insert(u.user_id, u),
        RosterOp::Put(_, None) => m,
    }
}

/// The roster after a run of changes, in order.
pub open spec fn roster_run(m: Map<u32, User>, ops: Seq<RosterOp>) -> Map<u32, User>
    decreases ops.len(),
{
    if ops.len() == 0 {
        m
    } else {
        roster_run(roster_step(m, ops[0]), ops.skip(1))
    }
}

/// The change writes member `id` with a rank the group service confirmed.
pub open spec fn confirms(op: RosterOp, id: u32) -> bool {
    match op {
        RosterOp::Put(u, Some(_)) => u.user_id == id,
        _ => false,
    }
}

impl Keyed for User {
    open spec fn key(&self) -> u32 {
        self.user_id
    }

    fn key_of(&self) -> (r: u32) {
        self.user_id
    }
}

/// The roster: member records keyed by member id.
pub struct Roster {
    members: HashMap<u32, User>,
}

impl View for Roster {
    type V = Map<u32, User>;

    closed spec fn view(&self) -> Map<u32, User> {
        self.members@
    }
}

impl Roster {
    /// Each record is kept under its member's id.
    pub closed spec fn wf(&self) -> bool {
        forall|id: u32| #[trigger] self.members@.contains_key(id) ==> self.members@[id].user_id == id
    }

    pub fn new() -> (r: Roster)
        ensures
            r.wf(),
            r@ == Map::<u32, User>::empty(),
    {
        Roster { members: HashMap::new() }
    }

    /// The roster as a snapshot of the store lists it; where several records
    /// share a member id, the last is kept.
    pub fn from_snapshot(users: Vec<User>) -> (r: Roster)
        ensures
            r.wf(),
            r@ == keyed_map(users@),
    {
        let mut roster = Roster::new();
        let mut rest = users;
        let ghost all = rest@;
        let ghost mut i: int = 0;
        while rest.len() > 0
            invariant
                roster.wf(),
                0 <= i <= all.len(),
                rest@ == all.skip(i),
                roster@ == keyed_map(all.take(i)),
            decreases rest@.len(),
        {
            let u = rest.remove(0);
            proof {
                assert(u == all[i]);
                assert(all.take(i + 1).drop_last() == all.take(i));
                assert(rest@ == all.skip(i + 1));
                i = i + 1;
            }
            roster.members.insert(u.key_of(), u);
        }
        proof {
            assert(all.take(i) == all);
        }
        roster
    }

    /// The record of member `id`, if it is on the roster.
    pub fn get(&self, id: u32) -> (r: Option<&User>)
        ensures
            r is Some <==> self@.contains_key(id),
            r is Some ==> *r->0 == self@[id],
    {
        self.members.get(&id)
    }

    /// The ids of the members on the roster, each once.
    pub fn ids(&self) -> (r: Vec<u32>)
        ensures
            r@.to_set() == self@.dom(),
            r@.no_duplicates(),
    {
        let ghost all = spec_keys_iter(&self.members).remaining().map_values(|k: &u32| *k);
        let mut r: Vec<u32> = Vec::new();
        for k in it: self.members.keys()
            invariant
                it.seq().map_values(|k: &u32| *k) == all,
                r@ == it.history().map_values(|k: &u32| *k),
            ensures
                r@ == all,
        {
            r.push(*k);
        }
        proof {
            assert(all =~= spec_keys_iter(&self.members).remaining().unref());
        }
        r
    }

    /// Acts on the group service's answer for member `id`: a member no
    /// longer in the group leaves the roster and its entry is to be deleted
    /// from the store; a member in the group is to be refreshed; where the
    /// service could not answer, only this member is skipped and the roster
    /// is left as it is.
    pub fn apply_lookup(&mut self, id: u32, lookup: GroupLookup) -> (r: MemberAction)
        requires
            old(self).wf(),
        ensures
            final(self).wf(),
            final(self)@ == roster_step(old(self)@, RosterOp::Lookup(id, lookup)),
            r == match lookup {
                GroupLookup::Unavailable => MemberAction::Skip(id),
                GroupLookup::NotInGroup => MemberAction::Remove(id),
                GroupLookup::InGroup(_) => MemberAction::Refresh(id),
            },
    {
        match lookup {
            GroupLookup::Unavailable => MemberAction::Skip(id),
            GroupLookup::InGroup(_) => MemberAction::Refresh(id),
            GroupLookup::NotInGroup => {
                self.members.remove(&id);
                MemberAction::Remove(id)
            },
        }
    }

    /// Writes a member record, but only with a main-group rank that the
    /// group service confirmed for it. Returns whether it wrote.
    pub fn put(&mut self, user: User, confirmed: Option<Ranks>) -> (written: bool)
        requires
            old(self).wf(),
        ensures
            final(self).wf(),
            final(self)@ == roster_step(old(self)@, RosterOp::Put(user, confirmed)),
            written == confirmed is Some,
    {
        match confirmed {
            Some(_) => {
                self.members.insert(user.key_of(), user);
                true
            },
            None => false,
        }
    }
}

/// One tick's share of the sweep.
pub struct Batch {
    pub ids: Vec<u32>,
    /// The queue ran out before the tick's share was full: the sweep is to
    /// be seeded anew from the store.
    pub exhausted: bool,
}

/// The sweep's work queue: member ids, first in first out.
pub struct MembershipQueue {
    pending: VecDeque<u32>,
}

impl View for MembershipQueue {
    type V = Seq<u32>;

    closed spec fn view(&self) -> Seq<u32> {
        self.pending@
    }
}

impl MembershipQueue {
    /// Seeds the work queue with every member of a roster snapshot.
    pub fn initialize_queue(roster: &Roster) -> (r: MembershipQueue)
        requires
            roster.wf(),
        ensures
            r@.to_set() == roster@.dom(),
            r@.no_duplicates(),
    {
        let ids = roster.ids();
        let mut pending: VecDeque<u32> = VecDeque::new();
        let mut i: usize = 0;
        while i < ids.len()
            invariant
                i <= ids@.len(),
                pending@ == ids@.take(i as int),
            decreases ids@.len() - i,
        {
            pending.push_back(ids[i]);
            proof {
                assert(ids@.take(i as int + 1) == ids@.take(i as int).push(ids@[i as int]));
            }
            i = i + 1;
        }
        proof {
            assert(ids@.take(ids@.len() as int) == ids@);
        }
        MembershipQueue { pending }
    }

    pub fn len(&self) -> (r: usize)
        ensures
            r == self@.len(),
    {
        self.pending.len()
    }

    /// Takes the next tick's members off the front of the queue: up to
    /// `QUEUE_POP_NUM` of them, fewer when the queue runs out, which marks
    /// the batch exhausted.
    pub fn pop_batch(&mut self) -> (r: Batch)
        ensures
            r.exhausted == (old(self)@.len() < QUEUE_POP_NUM),
            r.ids@ == old(self)@.take(if r.exhausted { old(self)@.len() as int } else { QUEUE_POP_NUM as int }),
            final(self)@ == old(self)@.skip(r.ids@.len() as int),
    {
        let ghost start = self.pending@;
        let exhausted = self.pending.len() < QUEUE_POP_NUM;
        let mut ids: Vec<u32> = Vec::new();
        while ids.len() < QUEUE_POP_NUM && self.pending.len() > 0
            invariant
                ids@.len() <= QUEUE_POP_NUM,
                ids@.len() <= start.len(),
                ids@ == start.take(ids@.len() as int),
                self.pending@ == start.skip(ids@.len() as int),
            decreases self.pending@.len(),
        {
            let id = self.pending.pop_front().unwrap();
            proof {
                assert(start.take(ids@.len() as int + 1) == start.take(ids@.len() as int).push(id));
            }
            ids.push(id);
            proof {
                assert(self.pending@ == start.skip(ids@.len() as int));
            }
        }
        Batch { ids, exhausted }
    }
}

/// A member found not to be in the group leaves the roster, and stays off
/// it through any later run of changes that does not write it again with a
/// rank the group service confirmed.
pub proof fn lemma_pruned_member_stays_out(m: Map<u32, User>, id: u32, ops: Seq<RosterOp>)
    requires
        forall|i: int| 0 <= i < ops.len() ==> !confirms(#[trigger] ops[i], id),
    ensures
        !roster_step(m, RosterOp::Lookup(id, GroupLookup::NotInGroup)).contains_key(id),
        !roster_run(roster_step(m, RosterOp::Lookup(id, GroupLookup::NotInGroup)), ops).contains_key(id),
{
    lemma_absent_stays_absent(roster_step(m, RosterOp::Lookup(id, GroupLookup::NotInGroup)), id, ops);
}

proof fn lemma_absent_stays_absent(m: Map<u32, User>, id: u32, ops: Seq<RosterOp>)
    requires
        !m.contains_key(id),
        forall|i: int| 0 <= i < ops.len() ==> !confirms(#[trigger] ops[i], id),
    ensures
        !roster_run(m, ops).contains_key(id),
    decreases ops.len(),
{
    if ops.len() > 0 {
        assert(!confirms(ops[0], id));
        let next = roster_step(m, ops[0]);
        assert(!next.contains_key(id));
        assert forall|i: int| 0 <= i < ops.skip(1).len() implies !confirms(#[trigger] ops.skip(1)[i], id) by {
            assert(ops.skip(1)[i] == ops[i + 1]);
        }
        lemma_absent_stays_absent(next, id, ops.skip(1));
    }
}

} // verus!
