use pingcrm::events::{LoginSuccessEvent, UserCreatedEvent};
use pingcrm::listeners::{
    failed_login_record, is_suspicious_login, security_audit_record, user_audit_record,
    ClearUserCacheListener, ClearUserCacheOnDeleteListener, ClearUserCacheOnUpdateListener,
    CreateUserAuditLogListener, DeleteUserAuditLogListener, Detect2FABypassListener,
    FailedLoginTracker, LogSuccessfulLoginListener, NotifyAdminUserCreatedListener,
    NotifyPasswordChangeListener, SendWelcomeEmailListener, TrackFailedLoginListener,
    UpdateUserAuditLogListener,
};

fn created_event() -> UserCreatedEvent {
    UserCreatedEvent {
        user_id: 1,
        email: "test@example.com".to_string(),
        first_name: "Test".to_string(),
        last_name: "User".to_string(),
        account_id: None,
    }
}

#[test]
fn test_listener_priorities() {
    assert_eq!(SendWelcomeEmailListener::new().priority(), 100);
    assert_eq!(ClearUserCacheListener::new().priority(), 50);
    assert_eq!(
        NotifyAdminUserCreatedListener::new("test".to_string()).priority(),
        10
    );
}

#[test]
fn test_notify_admin_should_handle() {
    let prod_listener = NotifyAdminUserCreatedListener::new("production".to_string());
    let dev_listener = NotifyAdminUserCreatedListener::new("development".to_string());

    let event = created_event();

    assert!(prod_listener.should_handle(&event));
    assert!(!dev_listener.should_handle(&event));
}

#[test]
fn cache_listeners_share_priority_and_have_distinct_names() {
    assert_eq!(ClearUserCacheOnUpdateListener::new().priority(), 50);
    assert_eq!(ClearUserCacheOnDeleteListener::new().priority(), 50);
    assert_eq!(ClearUserCacheListener::new().name(), "ClearUserCacheListener (UserCreated)");
    assert_ne!(
        ClearUserCacheOnUpdateListener::new().name(),
        ClearUserCacheOnDeleteListener::new().name()
    );
}

#[test]
fn repository_backed_listeners_keep_their_order() {
    assert_eq!(TrackFailedLoginListener::new(()).priority(), 200);
    assert_eq!(Detect2FABypassListener::new(()).priority(), 150);
    assert_eq!(NotifyPasswordChangeListener::new(()).priority(), 100);
    assert_eq!(LogSuccessfulLoginListener::new(()).priority(), 50);
    assert_eq!(CreateUserAuditLogListener::new(()).priority(), 200);
    assert_eq!(UpdateUserAuditLogListener::new(()).priority(), 200);
    assert_eq!(DeleteUserAuditLogListener::new(()).priority(), 200);
    assert_eq!(
        UpdateUserAuditLogListener::new(()).name(),
        "CreateUserAuditLogListener (UserUpdated)"
    );
}

#[test]
fn login_without_second_factor_is_suspicious() {
    let mut event = LoginSuccessEvent {
        user_id: 7,
        email: "a@b.c".to_string(),
        ip: "10.0.0.1".to_string(),
        used_2fa: false,
        timestamp: 0,
    };
    assert!(is_suspicious_login(&event));
    assert!(Detect2FABypassListener::new(()).is_suspicious(&event));
    event.used_2fa = true;
    assert!(!is_suspicious_login(&event));
}

#[test]
fn audit_records_carry_the_user_id_as_text() {
    let r = user_audit_record(-42, "deleted");
    assert_eq!(r.entity, "User");
    assert_eq!(r.entity_id, "-42");
    assert_eq!(r.action, "deleted");
    assert_eq!(r.user_id, None);

    let s = security_audit_record(15, "password_changed");
    assert_eq!(s.entity, "Security");
    assert_eq!(s.entity_id, "15");
    assert_eq!(s.user_id, Some(15));

    let f = failed_login_record();
    assert_eq!(f.entity_id, "login_failed");
    assert_eq!(f.action, "failed_login");
}

#[test]
fn every_fifth_failed_login_locks_and_restarts_the_count() {
    let mut t = FailedLoginTracker::new();
    for round in 0..2 {
        for i in 1..=4 {
            let o = t.record_failure("bob@example.com", "1.2.3.4");
            assert_eq!(o.attempts, i, "round {}", round);
            assert!(!o.locked);
        }
        let o = t.record_failure("bob@example.com", "1.2.3.4");
        assert_eq!(o.attempts, 5);
        assert!(o.locked);
    }
}

#[test]
fn failures_are_counted_per_email_and_address() {
    let mut t = FailedLoginTracker::new();
    t.record_failure("bob@example.com", "1.2.3.4");
    t.record_failure("bob@example.com", "1.2.3.4");
    let other_ip = t.record_failure("bob@example.com", "5.6.7.8");
    let other_user = t.record_failure("amy@example.com", "1.2.3.4");
    assert_eq!(other_ip.attempts, 1);
    assert_eq!(other_user.attempts, 1);
    assert_eq!(FailedLoginTracker::key("bob@example.com", "1.2.3.4"), "bob@example.com:1.2.3.4");
}
