use rank_keeper::ranks::{Ranks, STRanks, SableRanks};
use rank_keeper::reconcile::{create_user_from_id, get_ranks, parse_rank, reconcile_user};
use rank_keeper::users::{
    apply_point_grant, get_real_user_from_deserialize, handle_bp_logs, BPLog, DeserializeUser, User,
};
use rank_keeper::promotion::should_promote;

fn stored_member(rank: Ranks, points: i32) -> User {
    User {
        user_id: 7,
        name: "old name".to_string(),
        points,
        total_points: 12,
        events: 2,
        floor_points: None,
        goal_points: None,
        rank,
        divisions: None,
        prestige: Some(1),
        bp_logs: None,
    }
}

#[test]
fn parse_rank_reads_errors_as_no_rank() {
    assert_eq!(parse_rank::<()>(Ok(Some(7))), Some(7));
    assert_eq!(parse_rank::<()>(Ok(None)), None);
    assert_eq!(parse_rank::<&str>(Err("down")), None);
}

#[test]
fn get_ranks_reads_all_three_groups() {
    let (r, st, sable) = get_ranks(Some(25), Some(135), Some(250));
    assert_eq!(r, Some(Ranks::Corporal));
    assert_eq!(st, Some(STRanks::Infiltrator));
    assert_eq!(sable, Some(SableRanks::Executive));
    let (r, st, sable) = get_ranks(Some(1), None, Some(1));
    assert_eq!(r, None);
    assert_eq!(st, None);
    assert_eq!(sable, None);
}

#[test]
fn reconcile_raises_points_to_the_floor() {
    let mut u = stored_member(Ranks::Enlisted, 3);
    let confirmed = reconcile_user(&mut u, (Some(Ranks::Operative), None, None), Some("new name".to_string()));
    assert!(confirmed);
    assert_eq!(u.rank, Ranks::Operative);
    assert_eq!(u.points, 30);
    assert_eq!(u.floor_points, Some(30));
    assert_eq!(u.goal_points, Some(65));
    assert_eq!(u.name, "new name");
    assert!(u.divisions.is_none());
    assert_eq!(u.total_points, 12);
    assert_eq!(u.prestige, Some(1));
}

#[test]
fn reconcile_keeps_points_above_the_floor() {
    let mut u = stored_member(Ranks::Operative, 50);
    assert!(reconcile_user(&mut u, (Some(Ranks::Operative), Some(STRanks::Trooper), None), None));
    assert_eq!(u.points, 50);
    assert_eq!(u.name, "old name");
    let d = u.divisions.unwrap();
    assert_eq!(d.st, Some(STRanks::Trooper));
    assert_eq!(d.sable, None);
}

#[test]
fn reconcile_twice_gives_the_same_member() {
    let mut u = stored_member(Ranks::Trooper, 1);
    let report = (Some(Ranks::Specialist), None, Some(SableRanks::Consultant));
    reconcile_user(&mut u, report, Some("n".to_string()));
    let once = format!("{:?}", u);
    reconcile_user(&mut u, report, Some("n".to_string()));
    assert_eq!(format!("{:?}", u), once);
    assert_eq!(u.points, 65);
}

#[test]
fn reconcile_without_confirmed_rank_changes_nothing() {
    let mut u = stored_member(Ranks::Trooper, 1);
    let before = format!("{:?}", u);
    assert!(!reconcile_user(&mut u, (None, Some(STRanks::Veteran), None), Some("x".to_string())));
    assert_eq!(format!("{:?}", u), before);
}

#[test]
fn officer_rank_has_no_floor_or_goal() {
    let mut u = stored_member(Ranks::Enlisted, 4);
    assert!(reconcile_user(&mut u, (Some(Ranks::Captain), None, None), None));
    assert_eq!(u.points, 4);
    assert_eq!(u.floor_points, None);
    assert_eq!(u.goal_points, None);
    let mut top = stored_member(Ranks::Enlisted, 4);
    reconcile_user(&mut top, (Some(Ranks::StaffSergeant), None, None), None);
    assert_eq!(top.points, 900);
    assert_eq!(top.goal_points, None);
}

#[test]
fn reconcile_to_operative_then_evaluate() {
    let mut u = stored_member(Ranks::Trooper, 10);
    assert!(!should_promote(&u));
    assert!(reconcile_user(&mut u, (Some(Ranks::Operative), None, None), None));
    assert_eq!(u.rank, Ranks::Operative);
    assert_eq!(u.points, 30);
    assert!(!should_promote(&u));
}

#[test]
fn create_user_needs_name_and_rank() {
    let u = create_user_from_id(99, Some("fresh".to_string()), (Some(Ranks::Trooper), None, None)).unwrap();
    assert_eq!(u.user_id, 99);
    assert_eq!(u.name, "fresh");
    assert_eq!(u.points, 10);
    assert_eq!(u.floor_points, Some(10));
    assert_eq!(u.goal_points, Some(30));
    assert_eq!(u.events, 0);
    assert!(u.bp_logs.is_none());
    assert!(create_user_from_id(99, None, (Some(Ranks::Trooper), None, None)).is_none());
    assert!(create_user_from_id(99, Some("x".to_string()), (None, Some(STRanks::Trooper), None)).is_none());
    let officer = create_user_from_id(5, Some("o".to_string()), (Some(Ranks::Colonel), None, None)).unwrap();
    assert_eq!(officer.points, 0);
}

#[test]
fn stored_rank_text_is_read() {
    let d = DeserializeUser {
        user_id: 3,
        name: "a".to_string(),
        points: 5,
        total_points: 6,
        events: 1,
        floor_points: Some(0),
        goal_points: Some(10),
        rank: "Tech Sergeant".to_string(),
        divisions: None,
        prestige: None,
        bp_logs: None,
    };
    let u = get_real_user_from_deserialize(d.clone());
    assert_eq!(u.rank, Ranks::TechSergeant);
    assert_eq!(u.points, 5);
    assert_eq!(u.total_points, 6);
    let unknown = get_real_user_from_deserialize(DeserializeUser { rank: "Admiral".to_string(), ..d });
    assert_eq!(unknown.rank, Ranks::Enlisted);
}

#[test]
fn point_grant_counts_points_and_events() {
    let mut u = stored_member(Ranks::Trooper, 10);
    assert!(apply_point_grant(&mut u, 5, true));
    assert_eq!(u.points, 15);
    assert_eq!(u.events, 3);
    assert!(apply_point_grant(&mut u, -20, false));
    assert_eq!(u.points, -5);
    assert_eq!(u.events, 3);
    let mut full = stored_member(Ranks::Trooper, i32::MAX);
    assert!(!apply_point_grant(&mut full, 1, false));
    assert_eq!(full.points, i32::MAX);
    full.points = 0;
    full.events = u32::MAX;
    assert!(!apply_point_grant(&mut full, 1, true));
    assert_eq!(full.points, 0);
}

#[test]
fn grant_log_is_appended() {
    let u = stored_member(Ranks::Trooper, 10);
    let u = handle_bp_logs(u, &Some("Arena".to_string()), 11, 4);
    let u = handle_bp_logs(u, &None, 12, -2);
    let logs = u.bp_logs.unwrap();
    assert_eq!(logs.len(), 2);
    assert_eq!(logs[0].awarder, 11);
    assert_eq!(logs[0].amount, 4);
    assert_eq!(logs[0].place_name.as_deref(), Some("Arena"));
    assert_eq!(logs[1].awarder, 12);
    assert_eq!(logs[1].place_name, None);
    assert!(!logs[1].time.is_empty());
}

#[test]
fn log_place_is_recorded() {
    let mut log = BPLog::new(1, 2);
    assert!(log.place_name.is_none());
    log.add_place("Hangar");
    assert_eq!(log.place_name.as_deref(), Some("Hangar"));
    assert_eq!(log.awarder, 1);
    assert_eq!(log.amount, 2);
}
