use pingcrm::events::{
    LoginFailedEvent, LoginSuccessEvent, PasswordChangedEvent, UserCreatedEvent, UserDeletedEvent,
    UserUpdatedEvent,
};
use pingcrm::string_map::StringMap;

#[test]
fn test_user_created_event_name() {
    let event = UserCreatedEvent {
        user_id: 1,
        email: "test@example.com".to_string(),
        first_name: "Test".to_string(),
        last_name: "User".to_string(),
        account_id: None,
    };
    assert_eq!(event.name(), "user.created");
}

#[test]
fn test_user_updated_event_name() {
    let event = UserUpdatedEvent {
        user_id: 1,
        email: "test@example.com".to_string(),
        changes: StringMap::new(),
    };
    assert_eq!(event.name(), "user.updated");
}

#[test]
fn test_user_deleted_event_name() {
    let event = UserDeletedEvent {
        user_id: 1,
        email: "test@example.com".to_string(),
        deleted_at: 1_700_000_000_000_000,
    };
    assert_eq!(event.name(), "user.deleted");
}

#[test]
fn test_login_failed_event_name() {
    let event = LoginFailedEvent {
        email: "test@example.com".to_string(),
        ip: "127.0.0.1".to_string(),
        reason: "Invalid password".to_string(),
        timestamp: 1_700_000_000_000_000,
    };
    assert_eq!(event.name(), "security.login.failed");
}

#[test]
fn test_login_success_event_name() {
    let event = LoginSuccessEvent {
        user_id: 1,
        email: "test@example.com".to_string(),
        ip: "127.0.0.1".to_string(),
        used_2fa: true,
        timestamp: 1_700_000_000_000_000,
    };
    assert_eq!(event.name(), "security.login.success");
}

#[test]
fn test_password_changed_event_name() {
    let event = PasswordChangedEvent {
        user_id: 1,
        email: "test@example.com".to_string(),
        ip: "127.0.0.1".to_string(),
        timestamp: 1_700_000_000_000_000,
    };
    assert_eq!(event.name(), "security.password.changed");
}
