//! The kinds of security-relevant events that the audit log records.
use vstd::prelude::*;

verus! {

/// A kind of audited event.
#[derive(Debug, Clone, Copy, PartialEq, Eq, Structural)]
pub enum AuditEventType {
    Login,
    Logout,
    LoginFailed,
    PasswordChange,
    TwoFactorEnabled,
    TwoFactorDisabled,
    AccountLocked,
    AccountUnlocked,
    UserCreated,
    UserUpdated,
    UserDeleted,
}

/// The name under which an event kind is stored.
pub open spec fn audit_event_name(t: AuditEventType) -> Seq<char> {
    match t {
        AuditEventType::Login => "login"@,
        AuditEventType::Logout => "logout"@,
        AuditEventType::LoginFailed => "login_failed"@,
        AuditEventType::PasswordChange => "password_change"@,
        AuditEventType::TwoFactorEnabled => "2fa_enabled"@,
        AuditEventType::TwoFactorDisabled => "2fa_disabled"@,
        AuditEventType::AccountLocked => "account_locked"@,
        AuditEventType::AccountUnlocked => "account_unlocked"@,
        AuditEventType::UserCreated => "user_created"@,
        AuditEventType::UserUpdated => "user_updated"@,
        AuditEventType::UserDeleted => "user_deleted"@,
    }
}

impl AuditEventType {
    /// The name under which this event kind is stored.
    pub fn as_str(&self) -> (r: &'static str)
        ensures
            r@ == audit_event_name(*self),
    {
        match self {
            AuditEventType::Login => "login",
            AuditEventType::Logout => "logout",
            AuditEventType::LoginFailed => "login_failed",
            AuditEventType::PasswordChange => "password_change",
            AuditEventType::TwoFactorEnabled => "2fa_enabled",
            AuditEventType::TwoFactorDisabled => "2fa_disabled",
            AuditEventType::AccountLocked => "account_locked",
            AuditEventType::AccountUnlocked => "account_unlocked",
            AuditEventType::UserCreated => "user_created",
            AuditEventType::UserUpdated => "user_updated",
            AuditEventType::UserDeleted => "user_deleted",
        }
    }
}

} // verus!
