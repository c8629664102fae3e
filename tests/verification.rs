use rank_keeper::verification::{
    already_has_code, awaiting_key, is_expired, key_cleanup, VerificationBody, VerificationCodeBody, CLEANUP_TIMEOUT,
};

fn code(discord: &str, at: u64) -> VerificationCodeBody {
    VerificationCodeBody { discord_id: discord.to_string(), creation_time: at }
}

#[test]
fn expiry_after_timeout() {
    assert!(is_expired(0, CLEANUP_TIMEOUT, CLEANUP_TIMEOUT));
    assert!(!is_expired(0, CLEANUP_TIMEOUT - 1, CLEANUP_TIMEOUT));
    assert!(!is_expired(500, 100, 10));
    assert_eq!(CLEANUP_TIMEOUT, 300000);
}

#[test]
fn cleanup_picks_expired_requests() {
    let pending = |d: &str, at: u64| VerificationBody { discord_id: d.to_string(), creation_time: at };
    let codes = vec![
        ("alpha".to_string(), pending("1", 0)),
        ("bravo".to_string(), pending("2", 900)),
        ("charlie".to_string(), pending("3", 100)),
    ];
    assert_eq!(key_cleanup(&codes, 1000, 500), vec!["alpha".to_string(), "charlie".to_string()]);
    assert!(key_cleanup(&codes, 1000, 5000).is_empty());
    assert!(key_cleanup(&vec![], 1000, 0).is_empty());
}

#[test]
fn existing_code_is_found() {
    let codes = vec![("alpha".to_string(), code("1", 0)), ("bravo".to_string(), code("2", 0))];
    assert_eq!(already_has_code(&"2".to_string(), &codes), Some("bravo".to_string()));
    assert_eq!(already_has_code(&"3".to_string(), &codes), None);
}

#[test]
fn awaiting_key_is_lower_case() {
    assert_eq!(awaiting_key("PilotOne"), "pilotone");
    assert_eq!(awaiting_key(""), "");
}
