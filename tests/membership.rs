use rank_keeper::membership::{GroupLookup, MemberAction, MembershipQueue, Roster, QUEUE_POP_NUM};
use rank_keeper::ranks::Ranks;
use rank_keeper::users::User;

fn roster_member(id: u32, points: i32) -> User {
    User {
        user_id: id,
        name: format!("r{}", id),
        points,
        total_points: 0,
        events: 0,
        floor_points: None,
        goal_points: None,
        rank: Ranks::Trooper,
        divisions: None,
        prestige: None,
        bp_logs: None,
    }
}

#[test]
fn snapshot_keeps_one_record_per_member() {
    let roster = Roster::from_snapshot(vec![roster_member(1, 10), roster_member(2, 20), roster_member(1, 15)]);
    let mut ids = roster.ids();
    ids.sort();
    assert_eq!(ids, vec![1, 2]);
    assert_eq!(roster.get(1).unwrap().points, 15);
    assert!(roster.get(3).is_none());
}

#[test]
fn member_not_in_group_is_removed() {
    let mut roster = Roster::from_snapshot(vec![roster_member(1, 10), roster_member(2, 20)]);
    assert_eq!(roster.apply_lookup(1, GroupLookup::NotInGroup), MemberAction::Remove(1));
    assert!(roster.get(1).is_none());
    assert_eq!(roster.apply_lookup(2, GroupLookup::InGroup(7)), MemberAction::Refresh(2));
    assert_eq!(roster.apply_lookup(2, GroupLookup::Unavailable), MemberAction::Skip(2));
    assert!(roster.get(2).is_some());
    assert_eq!(roster.get(2).unwrap().points, 20);
}

#[test]
fn removed_member_returns_only_with_confirmed_rank() {
    let mut roster = Roster::from_snapshot(vec![roster_member(1, 10)]);
    roster.apply_lookup(1, GroupLookup::NotInGroup);
    assert!(!roster.put(roster_member(1, 10), None));
    assert!(roster.get(1).is_none());
    assert_eq!(roster.apply_lookup(1, GroupLookup::InGroup(9)), MemberAction::Refresh(1));
    assert!(roster.get(1).is_none());
    assert!(roster.put(roster_member(1, 30), Some(Ranks::Operative)));
    assert_eq!(roster.get(1).unwrap().points, 30);
}

#[test]
fn sweep_pops_fixed_batches_in_order() {
    let members: Vec<User> = (1..=8).map(|i| roster_member(i, 0)).collect();
    let roster = Roster::from_snapshot(members);
    let mut queue = MembershipQueue::initialize_queue(&roster);
    assert_eq!(queue.len(), 8);
    let order = roster.ids();
    let first = queue.pop_batch();
    assert!(!first.exhausted);
    assert_eq!(first.ids.len(), QUEUE_POP_NUM);
    assert_eq!(first.ids[..], order[..6]);
    let second = queue.pop_batch();
    assert!(second.exhausted);
    assert_eq!(second.ids[..], order[6..]);
    let third = queue.pop_batch();
    assert!(third.exhausted);
    assert!(third.ids.is_empty());
}

#[test]
fn empty_roster_gives_an_exhausted_sweep() {
    let roster = Roster::new();
    let mut queue = MembershipQueue::initialize_queue(&roster);
    assert_eq!(queue.len(), 0);
    let b = queue.pop_batch();
    assert!(b.exhausted);
    assert!(b.ids.is_empty());
}

#[test]
fn unavailable_service_skips_only_that_member() {
    let members: Vec<User> = (1..=6).map(|i| roster_member(i, i as i32)).collect();
    let mut roster = Roster::from_snapshot(members);
    let mut queue = MembershipQueue::initialize_queue(&roster);
    let batch = queue.pop_batch();
    let mut actions = Vec::new();
    for (k, id) in batch.ids.iter().enumerate() {
        let lookup = if k == 0 { GroupLookup::Unavailable } else if k == 1 { GroupLookup::NotInGroup } else { GroupLookup::InGroup(7) };
        actions.push(roster.apply_lookup(*id, lookup));
    }
    assert_eq!(actions.len(), 6);
    assert_eq!(actions[0], MemberAction::Skip(batch.ids[0]));
    assert_eq!(actions[1], MemberAction::Remove(batch.ids[1]));
    for k in 2..6 {
        assert_eq!(actions[k], MemberAction::Refresh(batch.ids[k]));
    }
    assert!(roster.get(batch.ids[0]).is_some());
    assert!(roster.get(batch.ids[1]).is_none());
    assert_eq!(roster.ids().len(), 5);
}
