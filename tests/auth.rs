use level_thumbnails::auth::{strip_bearer, ArgonResponse, Verdict};
use level_thumbnails::{Role, Settings, UpdateSettingsPayload, UserSession};

#[test]
fn verdicts() {
    let r = ArgonResponse { valid: true, valid_weak: true, cause: None, username: None };
    assert_eq!(r.verdict(), Verdict::Strong);
    let r = ArgonResponse { valid: false, valid_weak: true, cause: None, username: Some("Rob".into()) };
    assert_eq!(r.verdict(), Verdict::Weak("Rob".into()));
    let r = ArgonResponse { valid: false, valid_weak: true, cause: None, username: None };
    assert_eq!(r.verdict(), Verdict::Weak("<unknown>".into()));
    let r = ArgonResponse { valid: true, valid_weak: false, cause: Some("expired".into()), username: None };
    assert_eq!(r.verdict(), Verdict::Invalid("expired".into()));
    let r = ArgonResponse { valid: false, valid_weak: false, cause: None, username: None };
    assert_eq!(r.verdict(), Verdict::Invalid("unknown".into()));
}

#[test]
fn verdict_details() {
    assert_eq!(Verdict::Invalid("bad".into()).failure_details(), "Invalid token: bad");
    assert_eq!(Verdict::Weak("Rob".into()).failure_details(), "Weak token for user: Rob");
    assert_eq!(Verdict::Strong.failure_details(), "Authentication failed");
}

#[test]
fn bearer_prefix() {
    assert_eq!(strip_bearer("Bearer abc.def"), "abc.def");
    assert_eq!(strip_bearer("abc.def"), "abc.def");
    assert_eq!(strip_bearer("Bearer "), "");
    assert_eq!(strip_bearer("bearer abc"), "bearer abc");
    assert_eq!(strip_bearer("Bear"), "Bear");
    assert_eq!(strip_bearer("Bearer Bearer x"), "Bearer x");
}

#[test]
fn role_names_and_rights() {
    let names: Vec<&str> = [Role::User, Role::Verified, Role::Moderator, Role::Admin]
        .iter()
        .map(|r| r.as_str())
        .collect();
    assert_eq!(names, vec!["user", "verified", "moderator", "admin"]);
    assert!(!Role::User.can_moderate() && !Role::Verified.can_moderate());
    assert!(Role::Moderator.can_moderate() && Role::Admin.can_moderate());
    assert!(Role::Admin.is_admin() && !Role::Moderator.is_admin());
}

#[test]
fn session_and_settings() {
    let s = UserSession::new(5, "Rob".to_string());
    assert_eq!((s.id, s.username.as_str()), (5, "Rob"));
    let settings = Settings { pause_submissions: false };
    let next = settings.updated(&UpdateSettingsPayload { pause_submissions: true });
    assert!(next.pause_submissions);
}
