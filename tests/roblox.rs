use rank_keeper::membership::GroupLookup;
use rank_keeper::ranks::Ranks;
use rank_keeper::roblox::{
    create_user, first_match, match_user_ids, text_contains, get_rank_in_group, has_cookie_warning, lookup_in_group, rank_set_succeeded, set_rank_body,
    AccountError, GroupInfo, GroupResponse, RobloxAccount, RoleInfo, TokenStep, UserGroupInfo,
    TOKEN_MAX_AGE_SECS,
};

fn listing(entries: &[(u32, u32)]) -> GroupResponse {
    GroupResponse {
        data: Some(
            entries
                .iter()
                .map(|&(group, rank)| UserGroupInfo {
                    group: GroupInfo { id: group, name: format!("g{}", group), member_count: 1 },
                    role: RoleInfo { id: 1, name: "role".to_string(), rank },
                })
                .collect(),
        ),
    }
}

#[test]
fn rank_in_group_finds_the_first_entry() {
    let r = listing(&[(11, 1), (3747606, 9), (3747606, 25)]);
    assert_eq!(get_rank_in_group(&r, 3747606), Some(9));
    assert_eq!(get_rank_in_group(&r, 11), Some(1));
    assert_eq!(get_rank_in_group(&r, 12), None);
    assert_eq!(get_rank_in_group(&GroupResponse { data: None }, 11), None);
    assert_eq!(get_rank_in_group(&listing(&[]), 11), None);
}

#[test]
fn lookup_reads_the_listing() {
    assert_eq!(lookup_in_group(None, 1), GroupLookup::Unavailable);
    assert_eq!(lookup_in_group(Some(listing(&[(1, 7)])), 1), GroupLookup::InGroup(7));
    assert_eq!(lookup_in_group(Some(listing(&[(2, 7)])), 1), GroupLookup::NotInGroup);
    assert_eq!(lookup_in_group(Some(GroupResponse { data: None }), 1), GroupLookup::NotInGroup);
}

#[test]
fn rank_set_body_and_status() {
    assert_eq!(set_rank_body(Ranks::Operative).role_id, 26539897);
    assert!(rank_set_succeeded(200));
    assert!(!rank_set_succeeded(401));
    assert!(!rank_set_succeeded(503));
}

#[test]
fn token_is_fetched_when_missing_or_old() {
    let mut a = RobloxAccount::new("cookie".to_string());
    assert!(matches!(a.token_step(0), TokenStep::Refresh));
    assert!(a.record_token(None, 5).is_none());
    assert!(a.last_token_get.is_none());
    assert!(a.token.is_empty());
    assert_eq!(a.record_token(Some("tok".to_string()), 100), Some("tok".to_string()));
    assert_eq!(a.token, "tok");
    assert_eq!(a.last_token_get, Some(100));
    match a.token_step(100 + TOKEN_MAX_AGE_SECS) {
        TokenStep::Reuse(t) => assert_eq!(t, "tok"),
        TokenStep::Refresh => panic!("token still fresh"),
    }
    assert!(matches!(a.token_step(101 + TOKEN_MAX_AGE_SECS), TokenStep::Refresh));
    assert!(matches!(a.token_step(50), TokenStep::Reuse(_)));
}

#[test]
fn cookie_needs_the_warning_prefix() {
    let good = "_|WARNING:-DO-NOT-SHARE-THIS.--abc".to_string();
    let a = create_user(good.clone(), None).unwrap();
    assert_eq!(a.cookie, good);
    assert!(a.token.is_empty());
    assert!(create_user(good.clone(), Some(true)).is_ok());
    assert_eq!(create_user(good, Some(false)).unwrap_err(), AccountError::LoginFailed);
    assert_eq!(create_user("abc".to_string(), Some(true)).unwrap_err(), AccountError::MissingWarning);
    assert_eq!(create_user("warning-".to_string(), None).unwrap_err(), AccountError::MissingWarning);
}

#[test]
fn warning_check_is_on_lowered_text() {
    assert!(has_cookie_warning("_|warning:-do-not-share"));
    assert!(!has_cookie_warning("_|WARNING:-DO-NOT-SHARE"));
    assert!(!has_cookie_warning(""));
}

#[test]
fn user_names_match_ignoring_case() {
    let requested = vec!["Pilot".to_string(), "ghost".to_string(), "ACE".to_string()];
    let found = vec![("pilot".to_string(), 10), ("Ace".to_string(), 30), ("ace".to_string(), 31)];
    assert_eq!(match_user_ids(&requested, &found), vec![Some(10), None, Some(30)]);
    assert!(match_user_ids(&vec![], &found).is_empty());
}

#[test]
fn first_match_is_exact() {
    let names = vec!["a".to_string(), "b".to_string(), "b".to_string()];
    assert_eq!(first_match(&"b".to_string(), &names), Some(1));
    assert_eq!(first_match(&"B".to_string(), &names), None);
}

#[test]
fn substring_search() {
    assert!(text_contains("abcabd", "abd"));
    assert!(text_contains("abc", ""));
    assert!(text_contains("", ""));
    assert!(!text_contains("", "a"));
    assert!(!text_contains("ab", "abc"));
    assert!(!text_contains("abcab", "abd"));
    assert!(text_contains("héllo wörld", "ö"));
}
