use rank_keeper::promotion::{
    check_promotion, demote, get_required_points, promote, should_demote, should_promote, Transition,
};
use rank_keeper::ranks::Ranks;
use rank_keeper::users::User;

fn member_at(rank: Ranks, points: i32) -> User {
    User {
        user_id: 42,
        name: "pilot".to_string(),
        points,
        total_points: 0,
        events: 3,
        floor_points: None,
        goal_points: None,
        rank,
        divisions: None,
        prestige: None,
        bp_logs: None,
    }
}

#[test]
fn required_points_table() {
    assert_eq!(get_required_points(Ranks::Enlisted), Some(0));
    assert_eq!(get_required_points(Ranks::Trooper), Some(10));
    assert_eq!(get_required_points(Ranks::Operative), Some(30));
    assert_eq!(get_required_points(Ranks::TechSergeant), Some(600));
    assert_eq!(get_required_points(Ranks::StaffSergeant), Some(900));
    assert_eq!(get_required_points(Ranks::Ensign), None);
    assert_eq!(get_required_points(Ranks::Veteran), None);
    assert_eq!(get_required_points(Ranks::Chairman), None);
}

#[test]
fn promotion_at_exactly_the_next_floor() {
    let ladder = [
        Ranks::Enlisted,
        Ranks::Trooper,
        Ranks::Operative,
        Ranks::Specialist,
        Ranks::Fleetman,
        Ranks::Sentinel,
        Ranks::LanceCorporal,
        Ranks::Corporal,
        Ranks::TechSergeant,
    ];
    for r in ladder {
        let floor = get_required_points(r.get_next().unwrap()).unwrap();
        assert!(should_promote(&member_at(r, floor)));
        assert!(!should_promote(&member_at(r, floor - 1)));
    }
}

#[test]
fn no_promotion_without_a_next_floor() {
    assert!(!should_promote(&member_at(Ranks::Chairman, i32::MAX)));
    assert!(!should_promote(&member_at(Ranks::StaffSergeant, i32::MAX)));
    assert!(!should_promote(&member_at(Ranks::Veteran, i32::MAX)));
}

#[test]
fn demotion_below_the_previous_floor() {
    assert!(should_demote(&member_at(Ranks::Operative, 9)));
    assert!(!should_demote(&member_at(Ranks::Operative, 10)));
    assert!(should_demote(&member_at(Ranks::StaffSergeant, 599)));
    assert!(!should_demote(&member_at(Ranks::Enlisted, -100)));
    assert!(!should_demote(&member_at(Ranks::Ensign, -100)));
}

#[test]
fn promote_moves_exactly_one_step() {
    let mut u = member_at(Ranks::Enlisted, 10_000);
    assert!(promote(&mut u));
    assert_eq!(u.rank, Ranks::Trooper);
    assert_eq!(u.points, 10_000);
    let mut v = member_at(Ranks::Trooper, 5);
    assert!(!promote(&mut v));
    assert_eq!(v.rank, Ranks::Trooper);
}

#[test]
fn demote_moves_exactly_one_step() {
    let mut u = member_at(Ranks::Corporal, 0);
    assert!(demote(&mut u));
    assert_eq!(u.rank, Ranks::LanceCorporal);
    let mut v = member_at(Ranks::Corporal, 325);
    assert!(!demote(&mut v));
    assert_eq!(v.rank, Ranks::Corporal);
}

#[test]
fn repeated_evaluation_converges_one_step_at_a_time() {
    let mut u = member_at(Ranks::Enlisted, 120);
    assert_eq!(check_promotion(&mut u), Some(Transition::Promote));
    assert_eq!(u.rank, Ranks::Trooper);
    assert_eq!(check_promotion(&mut u), Some(Transition::Promote));
    assert_eq!(u.rank, Ranks::Operative);
    assert_eq!(check_promotion(&mut u), Some(Transition::Promote));
    assert_eq!(u.rank, Ranks::Specialist);
    assert_eq!(check_promotion(&mut u), Some(Transition::Promote));
    assert_eq!(u.rank, Ranks::Fleetman);
    assert_eq!(check_promotion(&mut u), None);
    assert_eq!(u.rank, Ranks::Fleetman);
}

#[test]
fn evaluation_demotes_when_no_promotion_is_owed() {
    let mut u = member_at(Ranks::Specialist, 20);
    assert_eq!(check_promotion(&mut u), Some(Transition::Demote));
    assert_eq!(u.rank, Ranks::Operative);
    assert_eq!(u.points, 20);
}

#[test]
fn trooper_with_ten_points_is_not_yet_promoted() {
    let mut u = member_at(Ranks::Trooper, 10);
    assert!(!should_promote(&u));
    assert_eq!(check_promotion(&mut u), None);
    assert_eq!(u.rank, Ranks::Trooper);
    assert_eq!(u.points, 10);
    let mut w = member_at(Ranks::Trooper, 30);
    assert!(should_promote(&w));
    assert_eq!(check_promotion(&mut w), Some(Transition::Promote));
    assert_eq!(w.rank, Ranks::Operative);
    assert_eq!(w.points, 30);
}
