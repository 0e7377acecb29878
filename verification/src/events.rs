//! The domain events that the application dispatches to its listeners.
//! Timestamps are microseconds since the Unix epoch, in UTC.
use vstd::prelude::*;
use crate::string_map::StringMap;

verus! {

/// A user was created.
#[derive(Debug, Clone)]
pub struct UserCreatedEvent {
    pub user_id: i32,
    pub email: String,
    pub first_name: String,
    pub last_name: String,
    pub account_id: Option<i32>,
}

/// A user was updated; `changes` maps each changed field to its new value.
pub struct UserUpdatedEvent {
    pub user_id: i32,
    pub email: String,
    pub changes: StringMap,
}

/// A user was deleted.
#[derive(Debug, Clone)]
pub struct UserDeletedEvent {
    pub user_id: i32,
    pub email: String,
    pub deleted_at: i64,
}

/// A login attempt failed.
#[derive(Debug, Clone)]
pub struct LoginFailedEvent {
    pub email: String,
    pub ip: String,
    pub reason: String,
    pub timestamp: i64,
}

/// A user logged in.
#[derive(Debug, Clone)]
pub struct LoginSuccessEvent {
    pub user_id: i32,
    pub email: String,
    pub ip: String,
    pub used_2fa: bool,
    pub timestamp: i64,
}

/// A user changed their password.
#[derive(Debug, Clone)]
pub struct PasswordChangedEvent {
    pub user_id: i32,
    pub email: String,
    pub ip: String,
    pub timestamp: i64,
}

impl UserCreatedEvent {
    /// The name listeners subscribe by.
    pub fn name(&self) -> (r: &'static str)
        ensures
            r@ == "user.created"@,
    {
        "user.created"
    }
}

impl UserUpdatedEvent {
    /// The name listeners subscribe by.
    pub fn name(&self) -> (r: &'static str)
        ensures
            r@ == "user.updated"@,
    {
        "user.updated"
    }
}

impl UserDeletedEvent {
    /// The name listeners subscribe by.
    pub fn name(&self) -> (r: &'static str)
        ensures
            r@ == "user.deleted"@,
    {
        "user.deleted"
    }
}

impl LoginFailedEvent {
    /// The name listeners subscribe by.
    pub fn name(&self) -> (r: &'static str)
        ensures
            r@ == "security.login.failed"@,
    {
        "security.login.failed"
    }
}

impl LoginSuccessEvent {
    /// The name listeners subscribe by.
    pub fn name(&self) -> (r: &'static str)
        ensures
            r@ == "security.login.success"@,
    {
        "security.login.success"
    }
}

impl PasswordChangedEvent {
    /// The name listeners subscribe by.
    pub fn name(&self) -> (r: &'static str)
        ensures
            r@ == "security.password.changed"@,
    {
        "security.password.changed"
    }
}

} // verus!
