use vstd::prelude::*;
use crate::ranks::{rank_of_name, Ranks, STRanks, SableRanks};

verus! {

/// Ranks a member holds in the two secondary divisions.
#[derive(Clone, Debug, PartialEq, Eq, Structural)]
pub struct Divisions {
    pub st: Option<STRanks>,
    pub sable: Option<SableRanks>,
}

/// One grant of points by an administrator.
#[derive(Clone, Debug)]
pub struct BPLog {
    pub time: String,
    pub awarder: u32,
    pub amount: i32,
    pub place_name: Option<String>,
}

/// A roster entry.
#[derive(Clone, Debug)]
pub struct User {
    pub user_id: u32,
    pub name: String,
    pub points: i32,
    pub total_points: i32,
    pub events: u32,
    pub floor_points: Option<i32>,
    pub goal_points: Option<i32>,
    pub rank: Ranks,
    pub divisions: Option<Divisions>,
    pub prestige: Option<i32>,
    pub bp_logs: Option<Vec<BPLog>>,
}

/// A roster entry as the store holds it, with the rank still in text form.
#[derive(Clone, Debug)]
pub struct DeserializeUser {
    pub user_id: u32,
    pub name: String,
    pub points: i32,
    pub total_points: i32,
    pub events: u32,
    pub floor_points: Option<i32>,
    pub goal_points: Option<i32>,
    pub rank: String,
    pub divisions: Option<Divisions>,
    pub prestige: Option<i32>,
    pub bp_logs: Option<Vec<BPLog>>,
}

/// Relies on chrono's `Utc::now` and its `Display`: the current time in UTC
/// as text. Nothing is stated of it, since it depends on the clock.
#[verifier::external_body]
fn utc_now_text() -> (r: String) {
    chrono::Utc::now().to_string()
}

impl BPLog {
    /// A grant of `amount` points by `awarder`, stamped with the current time.
    pub fn new(awarder: u32, amount: i32) -> (r: BPLog)
        ensures
            r.awarder == awarder,
            r.amount == amount,
            r.place_name is None,
    {
        BPLog { time: utc_now_text(), awarder, amount, place_name: None }
    }

    pub fn add_place(&mut self, place_name: &str)
        ensures
            final(self).place_name is Some,
            final(self).place_name->0@ == place_name@,
            final(self).time == old(self).time,
            final(self).awarder == old(self).awarder,
            final(self).amount == old(self).amount,
    {
        self.place_name = Some(String::from_str(place_name));
    }
}

/// The rank recorded in text form, read as a rank; unknown text reads as `Enlisted`.
pub open spec fn stored_rank(text: Seq<char>) -> Ranks {
    match rank_of_name(text) {
        Some(r) => r,
        None => Ranks::Enlisted,
    }
}

/// Turns a stored roster entry into a member record; a rank name that is not
/// known reads as `Enlisted`.
pub fn get_real_user_from_deserialize(d_user: DeserializeUser) -> (r: User)
    ensures
        r.user_id == d_user.user_id,
        r.name == d_user.name,
        r.points == d_user.points,
        r.total_points == d_user.total_points,
        r.events == d_user.events,
        r.floor_points == d_user.floor_points,
        r.goal_points == d_user.goal_points,
        r.rank == stored_rank(d_user.rank@),
        r.divisions == d_user.divisions,
        r.prestige == d_user.prestige,
        r.bp_logs == d_user.bp_logs,
{
    let rank = match Ranks::inverse_to_string(d_user.rank) {
        Some(r) => r,
        None => Ranks::Enlisted,
    };
    User {
        user_id: d_user.user_id,
        name: d_user.name,
        points: d_user.points,
        total_points: d_user.total_points,
        events: d_user.events,
        floor_points: d_user.floor_points,
        goal_points: d_user.goal_points,
        rank,
        divisions: d_user.divisions,
        prestige: d_user.prestige,
        bp_logs: d_user.bp_logs,
    }
}

/// Appends a record of a grant of `increment` points by `admin_id`, naming
/// the place when one is given, to the member's audit log.
pub fn handle_bp_logs(user_struct: User, place_name: &Option<String>, admin_id: u32, increment: i32) -> (r: User)
    requires
        user_struct.bp_logs is Some ==> user_struct.bp_logs->0@.len() < usize::MAX,
    ensures
        r.bp_logs is Some,
        r.bp_logs->0@.len() == old_log(user_struct).len() + 1,
        r.bp_logs->0@.take(old_log(user_struct).len() as int) == old_log(user_struct),
        r.bp_logs->0@.last().awarder == admin_id,
        r.bp_logs->0@.last().amount == increment,
        place_name is None ==> r.bp_logs->0@.last().place_name is None,
        place_name is Some ==> r.bp_logs->0@.last().place_name is Some
            && r.bp_logs->0@.last().place_name->0@ == place_name->0@,
        (User { bp_logs: None, ..r }) == (User { bp_logs: None, ..user_struct }),
{
    let mut user_struct = user_struct;
    let mut logs = match user_struct.bp_logs {
        Some(v) => v,
        None => Vec::new(),
    };
    let mut log = BPLog::new(admin_id, increment);
    match place_name {
        Some(p) => log.add_place(p.as_str()),
        None => {},
    }
    logs.push(log);
    user_struct.bp_logs = Some(logs);
    user_struct
}

/// The audit log of a member, empty when there is none.
pub open spec fn old_log(u: User) -> Seq<BPLog> {
    match u.bp_logs {
        Some(v) => v@,
        None => Seq::empty(),
    }
}

/// Applies a grant of `increment` points, counting one more event when
/// `add_event` holds. Fails, leaving the member untouched, where a counter
/// would leave its range.
pub fn apply_point_grant(user: &mut User, increment: i32, add_event: bool) -> (ok: bool)
    ensures
        ok == (i32::MIN <= old(user).points + increment <= i32::MAX
            && (add_event ==> old(user).events < u32::MAX)),
        ok ==> final(user).points == old(user).points + increment,
        ok ==> final(user).events == old(user).events + if add_event { 1int } else { 0int },
        ok ==> (User { points: 0, events: 0, ..*final(user) }) == (User { points: 0, events: 0, ..*old(user) }),
        !ok ==> *final(user) == *old(user),
{
    let points = match user.points.checked_add(increment) {
        Some(p) => p,
        None => return false,
    };
    if add_event && user.events == u32::MAX {
        return false;
    }
    if add_event {
        user.events = user.events + 1;
    }
    user.points = points;
    true
}

} // verus!
