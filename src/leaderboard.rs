use vstd::prelude::*;
use vstd::multiset::Multiset;
use crate::users::User;

verus! {

broadcast use vstd::seq_lib::group_to_multiset_ensures;

/// Seconds after which the leaderboard is rebuilt.
pub const LB_REFRESH_TIME: u64 = 60 * 60 * 60;

/// Members ordered by points, most first.
pub open spec fn sorted_by_points(s: Seq<User>) -> bool {
    forall|i: int, j: int| 0 <= i < j < s.len() ==> #[trigger] s[i].points >= #[trigger] s[j].points
}

/// `x` placed before the first member of `s` with no more points than it.
pub open spec fn insert_by_points(s: Seq<User>, x: User) -> Seq<User>
    decreases s.len(),
{
    if s.len() == 0 {
        seq![x]
    } else if s[0].points <= x.points {
        seq![x] + s
    } else {
        seq![s[0]] + insert_by_points(s.skip(1), x)
    }
}

/// Members ordered by points, most first; members with equal points keep
/// the order they came in.
pub open spec fn ranked_by_points(s: Seq<User>) -> Seq<User>
    decreases s.len(),
{
    if s.len() == 0 {
        Seq::empty()
    } else {
        insert_by_points(ranked_by_points(s.skip(1)), s[0])
    }
}

proof fn lemma_insert_at_position(s: Seq<User>, x: User, pos: int)
    requires
        0 <= pos <= s.len(),
        forall|j: int| 0 <= j < pos ==> #[trigger] s[j].points > x.points,
        pos < s.len() ==> s[pos].points <= x.points,
    ensures
        s.insert(pos, x) == insert_by_points(s, x),
    decreases s.len(),
{
    if s.len() == 0 {
        assert(s.insert(pos, x) =~= seq![x]);
    } else if pos == 0 {
        assert(s.insert(pos, x) =~= seq![x] + s);
    } else {
        let t = s.skip(1);
        assert forall|j: int| 0 <= j < pos - 1 implies #[trigger] t[j].points > x.points by {
            assert(t[j] == s[j + 1]);
        }
        if pos - 1 < t.len() {
            assert(t[pos - 1] == s[pos]);
        }
        lemma_insert_at_position(t, x, pos - 1);
        assert(s.insert(pos, x) =~= seq![s[0]] + t.insert(pos - 1, x));
    }
}

/// Orders members by points, most first; members with equal points keep
/// the order they came in.
pub fn sort_by_points(users: Vec<User>) -> (r: Vec<User>)
    ensures
        r@ == ranked_by_points(users@),
        sorted_by_points(r@),
        r@.to_multiset() == users@.to_multiset(),
{
    let mut rest = users;
    let ghost all = rest@;
    let mut out: Vec<User> = Vec::new();
    proof {
        assert(all.take(all.len() as int) == all);
        assert(all.skip(all.len() as int) =~= Seq::<User>::empty());
        assert(out@.to_multiset() =~= Multiset::empty());
    }
    while rest.len() > 0
        invariant
            sorted_by_points(out@),
            rest@ == all.take(rest@.len() as int),
            rest@.len() <= all.len(),
            out@ == ranked_by_points(all.skip(rest@.len() as int)),
            out@.to_multiset().add(rest@.to_multiset()) == all.to_multiset(),
        decreases rest@.len(),
    {
        let ghost before = rest@;
        let u = rest.pop().unwrap();
        proof {
            assert(before == rest@.push(u));
            assert(rest@ == all.take(rest@.len() as int));
            let k = rest@.len() as int;
            assert(all[k] == u);
            assert(all.skip(k).skip(1) == all.skip(k + 1));
            assert(all.skip(k)[0] == u);
        }
        let mut pos: usize = 0;
        while pos < out.len() && out[pos].points > u.points
            invariant
                pos <= out@.len(),
                forall|j: int| 0 <= j < pos ==> #[trigger] out@[j].points > u.points,
            decreases out@.len() - pos,
        {
            pos = pos + 1;
        }
        let ghost old_out = out@;
        out.insert(pos, u);
        proof {
            assert(out@ == old_out.insert(pos as int, u));
            lemma_insert_at_position(old_out, u, pos as int);
            assert forall|i: int, j: int| 0 <= i < j < out@.len() implies #[trigger] out@[i].points >= #[trigger] out@[j].points by {
                if j < pos {
                    assert(old_out[i].points >= old_out[j].points);
                } else if j == pos {
                    assert(old_out[i].points > u.points);
                } else if i < pos {
                    assert(old_out[i].points >= old_out[j - 1].points);
                } else if i == pos {
                    assert(old_out[pos as int].points <= u.points);
                    assert(old_out[pos as int].points >= old_out[j - 1].points || j - 1 == pos);
                } else {
                    assert(old_out[i - 1].points >= old_out[j - 1].points);
                }
            }
            assert(out@.to_multiset() == old_out.to_multiset().insert(u));
            assert(before.to_multiset() == rest@.to_multiset().insert(u));
            assert(out@.to_multiset().add(rest@.to_multiset()) =~= old_out.to_multiset().add(before.to_multiset()));
        }
    }
    proof {
        assert(all.skip(0) == all);
        assert(rest@.to_multiset() =~= Multiset::empty());
        assert(out@.to_multiset().add(rest@.to_multiset()) =~= out@.to_multiset());
    }
    out
}

/// Members ranked by points, with the time of the last rebuild.
#[derive(Clone, Debug)]
pub struct Leaderboard {
    last_update: u64,
    sorted: Vec<User>,
}

impl Leaderboard {
    pub closed spec fn last_update(&self) -> u64 {
        self.last_update
    }

    pub closed spec fn members(&self) -> Seq<User> {
        self.sorted@
    }

    /// A leaderboard of the given members, built at time `now` in seconds.
    pub fn new(now: u64, users: Vec<User>) -> (r: Leaderboard)
        ensures
            r.last_update() == now,
            r.members() == ranked_by_points(users@),
            sorted_by_points(r.members()),
            r.members().to_multiset() == users@.to_multiset(),
    {
        Leaderboard { last_update: now, sorted: sort_by_points(users) }
    }

    /// Rebuilds the leaderboard from the given members at time `now`.
    pub fn update(&mut self, users: Vec<User>, now: u64)
        ensures
            final(self).last_update() == now,
            final(self).members() == ranked_by_points(users@),
            sorted_by_points(final(self).members()),
            final(self).members().to_multiset() == users@.to_multiset(),
    {
        self.sorted = sort_by_points(users);
        self.last_update = now;
    }

    /// Whether, at time `now`, the leaderboard is due to be rebuilt: its
    /// refresh period has passed since the last rebuild.
    pub fn needs_update(&self, now: u64) -> (r: bool)
        ensures
            r == (now >= self.last_update() && now - self.last_update() >= LB_REFRESH_TIME),
    {
        now >= self.last_update && now - self.last_update >= LB_REFRESH_TIME
    }

    pub fn get(&self) -> (r: &Vec<User>)
        ensures
            r@ == self.members(),
    {
        &self.sorted
    }
}

} // verus!
