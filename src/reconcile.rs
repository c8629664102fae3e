use vstd::prelude::*;
use crate::promotion::{get_required_points, points_floor};
use crate::ranks::{
    next_rank, rank_of_value, sable_rank_of_value, st_rank_of_value, Ranks, STRanks, SableRanks,
};
use crate::users::{Divisions, User};

verus! {

/// What the group service reports of a member: the rank in the main group
/// and in each division, each `None` where the member holds none.
pub type AuthorityRanks = (Option<Ranks>, Option<STRanks>, Option<SableRanks>);

/// A rank lookup that failed is read as no rank.
pub fn parse_rank<E>(rank_result: Result<Option<u64>, E>) -> (r: Option<u64>)
    ensures
        r == match rank_result {
            Ok(v) => v,
            Err(_) => None,
        },
{
    match rank_result {
        Ok(rank) => rank,
        Err(_) => None,
    }
}

/// Reads the numeric ranks that the group service reports for the main group
/// and the two divisions.
pub fn get_ranks(main_group: Option<u64>, st: Option<u64>, sable: Option<u64>) -> (r: AuthorityRanks)
    ensures
        r.0 == (match main_group {
            Some(v) => rank_of_value(v),
            None => None,
        }),
        r.1 == (match st {
            Some(v) => st_rank_of_value(v),
            None => None,
        }),
        r.2 == (match sable {
            Some(v) => sable_rank_of_value(v),
            None => None,
        }),
{
    let rank = match main_group {
        Some(v) => Ranks::from_value(v),
        None => None,
    };
    let st_rank = match st {
        Some(v) => STRanks::from_value(v),
        None => None,
    };
    let sable_rank = match sable {
        Some(v) => SableRanks::from_value(v),
        None => None,
    };
    (rank, st_rank, sable_rank)
}

/// The division record for the given division ranks; none where the member
/// holds no division rank.
pub open spec fn divisions_of(st: Option<STRanks>, sable: Option<SableRanks>) -> Option<Divisions> {
    if st is Some || sable is Some {
        Some(Divisions { st, sable })
    } else {
        None
    }
}

/// The floor of the rank above `rank`, the goal a member works towards.
pub open spec fn goal_of(rank: Ranks) -> Option<i32> {
    match next_rank(rank) {
        Some(n) => points_floor(n),
        None => None,
    }
}

/// `points` raised to `floor` where they fall short of it.
pub open spec fn lifted(points: i32, floor: Option<i32>) -> i32 {
    match floor {
        Some(f) => if points < f { f } else { points },
        None => points,
    }
}

/// The member after merging in a main-group rank confirmed by the group
/// service, the division ranks, and the profile name where its lookup
/// succeeded.
pub open spec fn reconciled(
    u: User,
    rank: Ranks,
    st: Option<STRanks>,
    sable: Option<SableRanks>,
    name: Option<String>,
) -> User {
    User {
        points: lifted(u.points, points_floor(rank)),
        floor_points: points_floor(rank),
        goal_points: goal_of(rank),
        rank,
        divisions: divisions_of(st, sable),
        name: match name {
            Some(n) => n,
            None => u.name,
        },
        ..u
    }
}

fn divisions_from(st: Option<STRanks>, sable: Option<SableRanks>) -> (r: Option<Divisions>)
    ensures
        r == divisions_of(st, sable),
{
    if st.is_some() || sable.is_some() {
        Some(Divisions { st, sable })
    } else {
        None
    }
}

fn goal_points_for(rank: Ranks) -> (r: Option<i32>)
    ensures
        r == goal_of(rank),
{
    match rank.get_next() {
        Some(n) => get_required_points(n),
        None => None,
    }
}

/// Merges what the group service reports into the member. Where the service
/// confirms a main-group rank, the member takes that rank, the floor and
/// goal of it, the division ranks, and the profile name when that lookup
/// succeeded (`name` is `None` when it failed); points below the rank's floor
/// are raised to it. Returns whether a rank was confirmed, that is whether
/// the member is to be written back; otherwise the member is left untouched.
pub fn reconcile_user(user: &mut User, ranks: AuthorityRanks, name: Option<String>) -> (confirmed: bool)
    ensures
        confirmed == ranks.0 is Some,
        confirmed ==> *final(user) == reconciled(*old(user), ranks.0->0, ranks.1, ranks.2, name),
        !confirmed ==> *final(user) == *old(user),
{
    let (rank, st_rank, sable_rank) = ranks;
    let rank = match rank {
        Some(r) => r,
        None => return false,
    };
    let floor = get_required_points(rank);
    match floor {
        Some(f) => {
            if user.points < f {
                user.points = f;
            }
        },
        None => {},
    }
    user.floor_points = floor;
    user.goal_points = goal_points_for(rank);
    user.rank = rank;
    user.divisions = divisions_from(st_rank, sable_rank);
    match name {
        Some(n) => user.name = n,
        None => {},
    }
    true
}

/// A new roster entry for a member the group service has confirmed.
pub open spec fn new_member(
    user_id: u32,
    name: String,
    rank: Ranks,
    st: Option<STRanks>,
    sable: Option<SableRanks>,
) -> User {
    User {
        user_id,
        name,
        points: lifted(0, points_floor(rank)),
        total_points: 0,
        events: 0,
        floor_points: points_floor(rank),
        goal_points: goal_of(rank),
        rank,
        divisions: divisions_of(st, sable),
        prestige: None,
        bp_logs: None,
    }
}

/// Builds the roster entry of a member who has none yet, from the profile
/// name (`None` when its lookup failed) and the ranks the group service
/// reports. There is none unless both the name and a main-group rank are
/// known.
pub fn create_user_from_id(roblox_id: u32, name: Option<String>, ranks: AuthorityRanks) -> (r: Option<User>)
    ensures
        r is Some <==> (name is Some && ranks.0 is Some),
        r is Some ==> r->0 == new_member(roblox_id, name->0, ranks.0->0, ranks.1, ranks.2),
{
    let name = match name {
        Some(n) => n,
        None => return None,
    };
    let (rank, st_rank, sable_rank) = ranks;
    let rank = match rank {
        Some(r) => r,
        None => return None,
    };
    let floor = get_required_points(rank);
    let points = match floor {
        Some(f) => f,
        None => 0,
    };
    proof {
        assert(points == lifted(0, points_floor(rank)));
    }
    Some(User {
        user_id: roblox_id,
        name,
        points,
        total_points: 0,
        events: 0,
        floor_points: floor,
        goal_points: goal_points_for(rank),
        rank,
        divisions: divisions_from(st_rank, sable_rank),
        prestige: None,
        bp_logs: None,
    })
}

/// Reconciling raises points that fall short of the confirmed rank's floor
/// to exactly that floor, and reconciling again with the same report changes
/// nothing.
pub proof fn lemma_reconcile_floor_idempotent(
    u: User,
    rank: Ranks,
    st: Option<STRanks>,
    sable: Option<SableRanks>,
    name: Option<String>,
)
    ensures
        points_floor(rank) is Some && u.points < points_floor(rank)->0
            ==> reconciled(u, rank, st, sable, name).points == points_floor(rank)->0,
        points_floor(rank) is Some ==> reconciled(u, rank, st, sable, name).points >= points_floor(rank)->0,
        reconciled(reconciled(u, rank, st, sable, name), rank, st, sable, name)
            == reconciled(u, rank, st, sable, name),
{
}

} // verus!
