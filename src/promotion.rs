use vstd::prelude::*;
use crate::ranks::{ladder_position, next_rank, prev_rank, Ranks};
use crate::users::User;

verus! {

/// The least points a member of rank `r` holds; `None` for ranks without a
/// points requirement (the officer ranks and `Veteran`).
pub open spec fn points_floor(r: Ranks) -> Option<i32> {
    match r {
        Ranks::StaffSergeant => Some(900),
        Ranks::TechSergeant => Some(600),
        Ranks::Corporal => Some(325),
        Ranks::LanceCorporal => Some(270),
        Ranks::Sentinel => Some(190),
        Ranks::Fleetman => Some(115),
        Ranks::Specialist => Some(65),
        Ranks::Operative => Some(30),
        Ranks::Trooper => Some(10),
        Ranks::Enlisted => Some(0),
        _ => None,
    }
}

/// A member of rank `rank` with `points` points is owed a promotion: there
/// is a next rank, it has a floor, and the points reach it.
pub open spec fn promotion_due(rank: Ranks, points: i32) -> bool {
    match next_rank(rank) {
        Some(n) => match points_floor(n) {
            Some(p) => points >= p,
            None => false,
        },
        None => false,
    }
}

/// A member of rank `rank` with `points` points is owed a demotion: there is
/// a previous rank, it has a floor, and the points fall short of it.
pub open spec fn demotion_due(rank: Ranks, points: i32) -> bool {
    match prev_rank(rank) {
        Some(p) => match points_floor(p) {
            Some(f) => points < f,
            None => false,
        },
        None => false,
    }
}

/// A one-step change of rank.
#[derive(Clone, Copy, Debug, PartialEq, Eq, Structural)]
pub enum Transition {
    Promote,
    Demote,
}

/// The change owed to a member: promotion is checked first and wins.
pub open spec fn planned_transition(rank: Ranks, points: i32) -> Option<Transition> {
    if promotion_due(rank, points) {
        Some(Transition::Promote)
    } else if demotion_due(rank, points) {
        Some(Transition::Demote)
    } else {
        None
    }
}

/// The rank one step away from `rank` in the direction of `t`, or `rank`
/// itself where the ladder ends.
pub open spec fn stepped_rank(rank: Ranks, t: Transition) -> Ranks {
    let moved = match t {
        Transition::Promote => next_rank(rank),
        Transition::Demote => prev_rank(rank),
    };
    match moved {
        Some(r) => r,
        None => rank,
    }
}

/// The member after the promotion engine has evaluated it once.
pub open spec fn evaluated(u: User) -> User {
    match planned_transition(u.rank, u.points) {
        Some(t) => User { rank: stepped_rank(u.rank, t), ..u },
        None => u,
    }
}

pub fn get_required_points(rank: Ranks) -> (r: Option<i32>)
    ensures
        r == points_floor(rank),
{
    match rank {
        Ranks::StaffSergeant => Some(900),
        Ranks::TechSergeant => Some(600),
        Ranks::Corporal => Some(325),
        Ranks::LanceCorporal => Some(270),
        Ranks::Sentinel => Some(190),
        Ranks::Fleetman => Some(115),
        Ranks::Specialist => Some(65),
        Ranks::Operative => Some(30),
        Ranks::Trooper => Some(10),
        Ranks::Enlisted => Some(0),
        _ => None,
    }
}

pub fn should_promote(user: &User) -> (r: bool)
    ensures
        r == promotion_due(user.rank, user.points),
{
    let next_rank = match user.rank.get_next() {
        Some(rank) => rank,
        None => return false,
    };
    match get_required_points(next_rank) {
        Some(points) => user.points >= points,
        None => false,
    }
}

pub fn should_demote(user: &User) -> (r: bool)
    ensures
        r == demotion_due(user.rank, user.points),
{
    let prev_rank = match user.rank.get_prev() {
        Some(rank) => rank,
        None => return false,
    };
    match get_required_points(prev_rank) {
        Some(points) => user.points < points,
        None => false,
    }
}

/// Moves the member one rank up where a promotion is owed. Returns whether
/// it did; the new rank is then to be set with the group service.
pub fn promote(user: &mut User) -> (moved: bool)
    ensures
        moved == promotion_due(old(user).rank, old(user).points),
        moved ==> *final(user) == (User { rank: stepped_rank(old(user).rank, Transition::Promote), ..*old(user) }),
        !moved ==> *final(user) == *old(user),
{
    if !should_promote(user) {
        return false;
    }
    match user.rank.get_next() {
        Some(rank) => {
            user.rank = rank;
            true
        },
        None => false,
    }
}

/// Moves the member one rank down where a demotion is owed. Returns whether
/// it did; the new rank is then to be set with the group service.
pub fn demote(user: &mut User) -> (moved: bool)
    ensures
        moved == demotion_due(old(user).rank, old(user).points),
        moved ==> *final(user) == (User { rank: stepped_rank(old(user).rank, Transition::Demote), ..*old(user) }),
        !moved ==> *final(user) == *old(user),
{
    if !should_demote(user) {
        return false;
    }
    match user.rank.get_prev() {
        Some(rank) => {
            user.rank = rank;
            true
        },
        None => false,
    }
}

/// Evaluates the member once: promotes where a promotion is owed, else
/// demotes where a demotion is owed. Returns the step taken, if any.
pub fn check_promotion(user: &mut User) -> (r: Option<Transition>)
    ensures
        r == planned_transition(old(user).rank, old(user).points),
        *final(user) == evaluated(*old(user)),
{
    if promote(user) {
        Some(Transition::Promote)
    } else if demote(user) {
        Some(Transition::Demote)
    } else {
        None
    }
}

/// A member whose points equal the floor of the next rank is owed a
/// promotion; one point fewer is not enough.
pub proof fn lemma_promotion_threshold(r: Ranks, n: Ranks, floor: i32)
    requires
        next_rank(r) == Some(n),
        points_floor(n) == Some(floor),
    ensures
        promotion_due(r, floor),
        !promotion_due(r, (floor - 1) as i32),
{
}

/// A member whose points fall below the floor of the previous rank is owed a
/// demotion.
pub proof fn lemma_demotion_threshold(r: Ranks, p: Ranks, floor: i32, points: i32)
    requires
        prev_rank(r) == Some(p),
        points_floor(p) == Some(floor),
        points < floor,
    ensures
        demotion_due(r, points),
{
}

/// One evaluation moves a member at most one ladder position, however many
/// points they hold, and changes nothing but the rank.
pub proof fn lemma_single_step(u: User)
    ensures
        evaluated(u).rank == u.rank
            || (ladder_position(u.rank) is Some && ladder_position(evaluated(u).rank) is Some && (
                ladder_position(evaluated(u).rank)->0 == ladder_position(u.rank)->0 + 1
                || ladder_position(evaluated(u).rank)->0 == ladder_position(u.rank)->0 - 1)),
        (User { rank: u.rank, ..evaluated(u) }) == u,
{
}

} // verus!
