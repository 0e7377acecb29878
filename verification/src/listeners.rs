//! What the event listeners decide: their order and names, whom they
//! notify, the audit records they write, and the count of failed logins that
//! locks an account.
use vstd::prelude::*;
use crate::events::{LoginSuccessEvent, UserCreatedEvent};
use crate::string_map::TextMap;
use crate::text::{dec_int, push_str, str_eq, string_of};

verus! {

/// Sends the welcome e-mail to a new user.
pub struct SendWelcomeEmailListener;

impl SendWelcomeEmailListener {
    pub fn new() -> Self {
        SendWelcomeEmailListener
    }

    /// Runs before the lower priorities.
    pub fn priority(&self) -> (r: i32)
        ensures
            r == 100,
    {
        100
    }

    pub fn name(&self) -> (r: &'static str)
        ensures
            r@ == "SendWelcomeEmailListener"@,
    {
        "SendWelcomeEmailListener"
    }
}

/// Clears the cached data of a created user.
pub struct ClearUserCacheListener;

impl ClearUserCacheListener {
    pub fn new() -> Self {
        ClearUserCacheListener
    }

    pub fn priority(&self) -> (r: i32)
        ensures
            r == 50,
    {
        50
    }

    pub fn name(&self) -> (r: &'static str)
        ensures
            r@ == "ClearUserCacheListener (UserCreated)"@,
    {
        "ClearUserCacheListener (UserCreated)"
    }
}

/// Clears the cached data of an updated user.
pub struct ClearUserCacheOnUpdateListener;

impl ClearUserCacheOnUpdateListener {
    pub fn new() -> Self {
        ClearUserCacheOnUpdateListener
    }

    pub fn priority(&self) -> (r: i32)
        ensures
            r == 50,
    {
        50
    }

    pub fn name(&self) -> (r: &'static str)
        ensures
            r@ == "ClearUserCacheListener (UserUpdated)"@,
    {
        "ClearUserCacheListener (UserUpdated)"
    }
}

/// Clears the cached data of a deleted user.
pub struct ClearUserCacheOnDeleteListener;

impl ClearUserCacheOnDeleteListener {
    pub fn new() -> Self {
        ClearUserCacheOnDeleteListener
    }

    pub fn priority(&self) -> (r: i32)
        ensures
            r == 50,
    {
        50
    }

    pub fn name(&self) -> (r: &'static str)
        ensures
            r@ == "ClearUserCacheListener (UserDeleted)"@,
    {
        "ClearUserCacheListener (UserDeleted)"
    }
}

/// Tells the administrators about a new user, in production only.
pub struct NotifyAdminUserCreatedListener {
    environment: String,
}

impl NotifyAdminUserCreatedListener {
    /// A listener for the deployment environment `environment`.
    pub fn new(environment: String) -> (l: Self)
        ensures
            l.environment() == environment@,
    {
        NotifyAdminUserCreatedListener { environment }
    }

    /// The deployment environment it was made for.
    pub closed spec fn environment(&self) -> Seq<char> {
        self.environment@
    }

    pub fn priority(&self) -> (r: i32)
        ensures
            r == 10,
    {
        10
    }

    pub fn name(&self) -> (r: &'static str)
        ensures
            r@ == "NotifyAdminUserCreatedListener"@,
    {
        "NotifyAdminUserCreatedListener"
    }

    /// Handles an event only in the `production` environment.
    pub fn should_handle(&self, _event: &UserCreatedEvent) -> (r: bool)
        ensures
            r == (self.environment() == "production"@),
    {
        str_eq(self.environment.as_str(), "production")
    }
}

/// A login without the second factor is flagged as suspicious.
pub fn is_suspicious_login(event: &LoginSuccessEvent) -> (r: bool)
    ensures
        r == !event.used_2fa,
{
    !event.used_2fa
}

/// The fixed part of an audit-log record that a listener writes: what was
/// touched, which one, what happened and, for security records, by whom.
pub struct AuditRecord {
    pub entity: String,
    pub entity_id: String,
    pub action: String,
    pub user_id: Option<i32>,
}

/// The record for an action on a user (`created`, `updated`, `deleted`).
pub fn user_audit_record(user_id: i32, action: &str) -> (r: AuditRecord)
    ensures
        r.entity@ == "User"@,
        r.entity_id@ == dec_int(user_id as int),
        r.action@ == action@,
        r.user_id is None,
{
    AuditRecord {
        entity: string_of("User"),
        entity_id: crate::text::i64_to_string(user_id as i64),
        action: string_of(action),
        user_id: None,
    }
}

/// The record for a security action by a user (`password_changed`,
/// `suspicious_login`, `login_success`).
pub fn security_audit_record(user_id: i32, action: &str) -> (r: AuditRecord)
    ensures
        r.entity@ == "Security"@,
        r.entity_id@ == dec_int(user_id as int),
        r.action@ == action@,
        r.user_id == Some(user_id),
{
    AuditRecord {
        entity: string_of("Security"),
        entity_id: crate::text::i64_to_string(user_id as i64),
        action: string_of(action),
        user_id: Some(user_id),
    }
}

/// The record for a failed login.
pub fn failed_login_record() -> (r: AuditRecord)
    ensures
        r.entity@ == "Security"@,
        r.entity_id@ == "login_failed"@,
        r.action@ == "failed_login"@,
        r.user_id is None,
{
    AuditRecord {
        entity: string_of("Security"),
        entity_id: string_of("login_failed"),
        action: string_of("failed_login"),
        user_id: None,
    }
}

/// The number of failed logins, from one address for one e-mail, that locks
/// the account.
pub const MAX_FAILED_ATTEMPTS: i32 = 5i32;

/// The key failures are counted under: the e-mail, a colon, the address.
pub open spec fn failure_key(email: Seq<char>, ip: Seq<char>) -> Seq<char> {
    email + ":"@ + ip
}

/// One failed login under a key that had `prev` failures (0 if none): the
/// new count, whether it locks the account, and the count kept afterwards
/// (none once the account is locked).
pub open spec fn failure_step(prev: int) -> (int, bool, Option<int>) {
    let n = prev + 1;
    if n >= MAX_FAILED_ATTEMPTS {
        (n, true, None)
    } else {
        (n, false, Some(n))
    }
}

/// The outcome of recording a failed login.
pub struct FailureOutcome {
    /// The failures counted so far under the key, this one included.
    pub attempts: i32,
    /// Whether this failure locks the account.
    pub locked: bool,
}

/// Counts failed logins per e-mail and address.
pub struct FailedLoginTracker {
    attempts: TextMap<i32>,
}

impl FailedLoginTracker {
    /// The failures counted under each key.
    pub closed spec fn view(&self) -> Map<Seq<char>, i32> {
        self.attempts.view()
    }

    /// The internal invariant: every kept count is between 1 and 4.
    #[verifier::type_invariant]
    spec fn counts_in_range(self) -> bool {
        forall|k: Seq<char>| #[trigger]
            self.attempts.view().dom().contains(k) ==> 1 <= self.attempts.view()[k] < MAX_FAILED_ATTEMPTS
    }

    /// A tracker that has counted nothing.
    pub fn new() -> (t: Self)
        ensures
            t.view() == Map::<Seq<char>, i32>::empty(),
    {
        FailedLoginTracker { attempts: TextMap::new() }
    }

    /// The key failures of `email` from `ip` are counted under.
    pub fn key(email: &str, ip: &str) -> (k: String)
        ensures
            k@ == failure_key(email@, ip@),
    {
        let mut k = string_of(email);
        push_str(&mut k, ":");
        push_str(&mut k, ip);
        k
    }

    /// Records one failed login of `email` from `ip`. The fifth failure in a
    /// row under one key locks the account and starts the count afresh.
    pub fn record_failure(&mut self, email: &str, ip: &str) -> (r: FailureOutcome)
        ensures
            ({
                let k = failure_key(email@, ip@);
                let prev = if old(self).view().dom().contains(k) {
                    old(self).view()[k] as int
                } else {
                    0
                };
                let (n, locked, kept) = failure_step(prev);
                &&& r.attempts == n
                &&& r.locked == locked
                &&& final(self).view() == match kept {
                    Some(c) => old(self).view().insert(k, c as i32),
                    None => old(self).view().remove(k),
                }
            }),
    {
        proof {
            use_type_invariant(&*self);
        }
        let k = Self::key(email, ip);
        let prev: i32 = match self.attempts.get(k.as_str()) {
            Some(c) => *c,
            None => 0,
        };
        let n = prev + 1;
        let mut attempts: TextMap<i32> = TextMap::new();
        std::mem::swap(&mut attempts, &mut self.attempts);
        if n >= MAX_FAILED_ATTEMPTS {
            attempts.remove(k.as_str());
            self.attempts = attempts;
            FailureOutcome { attempts: n, locked: true }
        } else {
            attempts.insert(k, n);
            self.attempts = attempts;
            FailureOutcome { attempts: n, locked: false }
        }
    }
}

/// The counts after `n` failed logins in a row under one key, starting from
/// none.
pub open spec fn failures_after(n: nat) -> Option<int>
    decreases n,
{
    if n == 0 {
        None
    } else {
        let prev = match failures_after((n - 1) as nat) {
            Some(c) => c,
            None => 0,
        };
        failure_step(prev).2
    }
}

/// Whether the `n`-th failed login in a row under one key (counting from
/// one) locks the account.
pub open spec fn locks_at(n: nat) -> bool
    recommends
        n >= 1,
{
    let prev = match failures_after((n - 1) as nat) {
        Some(c) => c,
        None => 0,
    };
    failure_step(prev).1
}

/// Failed logins under one key lock the account at every fifth one and at no
/// other: the `n`-th failure locks exactly when `n` is a multiple of five,
/// and the count kept in between is the number of failures since the last
/// lock.
pub proof fn law_lock_every_fifth_failure(n: nat)
    requires
        n >= 1,
    ensures
        locks_at(n) == (n % 5 == 0),
        failures_after(n) == (if n % 5 == 0 {
            None
        } else {
            Some((n % 5) as int)
        }),
    decreases n,
{
    if n > 1 {
        law_lock_every_fifth_failure((n - 1) as nat);
    }
}

/// Counts failed logins and writes a security record for each; the fifth
/// failure in a row from one address for one e-mail locks the account.
pub struct TrackFailedLoginListener<R> {
    pub audit_log_repo: R,
    pub failed_attempts: FailedLoginTracker,
}

impl<R> TrackFailedLoginListener<R> {
    pub fn new(audit_log_repo: R) -> (l: Self)
        ensures
            l.audit_log_repo == audit_log_repo,
            l.failed_attempts.view() == Map::<Seq<char>, i32>::empty(),
    {
        TrackFailedLoginListener { audit_log_repo, failed_attempts: FailedLoginTracker::new() }
    }

    pub fn priority(&self) -> (r: i32)
        ensures
            r == 200,
    {
        200
    }

    pub fn name(&self) -> (r: &'static str)
        ensures
            r@ == "TrackFailedLoginListener"@,
    {
        "TrackFailedLoginListener"
    }
}

/// Writes a security record when a user changes their password.
pub struct NotifyPasswordChangeListener<R> {
    pub audit_log_repo: R,
}

impl<R> NotifyPasswordChangeListener<R> {
    pub fn new(audit_log_repo: R) -> (l: Self)
        ensures
            l.audit_log_repo == audit_log_repo,
    {
        NotifyPasswordChangeListener { audit_log_repo }
    }

    pub fn priority(&self) -> (r: i32)
        ensures
            r == 100,
    {
        100
    }

    pub fn name(&self) -> (r: &'static str)
        ensures
            r@ == "NotifyPasswordChangeListener"@,
    {
        "NotifyPasswordChangeListener"
    }
}

/// Writes a security alert for a login made without the second factor.
pub struct Detect2FABypassListener<R> {
    pub audit_log_repo: R,
}

impl<R> Detect2FABypassListener<R> {
    pub fn new(audit_log_repo: R) -> (l: Self)
        ensures
            l.audit_log_repo == audit_log_repo,
    {
        Detect2FABypassListener { audit_log_repo }
    }

    /// A login without the second factor is suspicious.
    pub fn is_suspicious(&self, event: &LoginSuccessEvent) -> (r: bool)
        ensures
            r == !event.used_2fa,
    {
        is_suspicious_login(event)
    }

    pub fn priority(&self) -> (r: i32)
        ensures
            r == 150,
    {
        150
    }

    pub fn name(&self) -> (r: &'static str)
        ensures
            r@ == "Detect2FABypassListener"@,
    {
        "Detect2FABypassListener"
    }
}

/// Writes a security record for each successful login.
pub struct LogSuccessfulLoginListener<R> {
    pub audit_log_repo: R,
}

impl<R> LogSuccessfulLoginListener<R> {
    pub fn new(audit_log_repo: R) -> (l: Self)
        ensures
            l.audit_log_repo == audit_log_repo,
    {
        LogSuccessfulLoginListener { audit_log_repo }
    }

    pub fn priority(&self) -> (r: i32)
        ensures
            r == 50,
    {
        50
    }

    pub fn name(&self) -> (r: &'static str)
        ensures
            r@ == "LogSuccessfulLoginListener"@,
    {
        "LogSuccessfulLoginListener"
    }
}

/// Writes the audit record of a created user.
pub struct CreateUserAuditLogListener<R> {
    pub audit_log_repo: R,
}

impl<R> CreateUserAuditLogListener<R> {
    pub fn new(audit_log_repo: R) -> (l: Self)
        ensures
            l.audit_log_repo == audit_log_repo,
    {
        CreateUserAuditLogListener { audit_log_repo }
    }

    pub fn priority(&self) -> (r: i32)
        ensures
            r == 200,
    {
        200
    }

    pub fn name(&self) -> (r: &'static str)
        ensures
            r@ == "CreateUserAuditLogListener (UserCreated)"@,
    {
        "CreateUserAuditLogListener (UserCreated)"
    }
}

/// Writes the audit record of an updated user, with the changes.
pub struct UpdateUserAuditLogListener<R> {
    pub audit_log_repo: R,
}

impl<R> UpdateUserAuditLogListener<R> {
    pub fn new(audit_log_repo: R) -> (l: Self)
        ensures
            l.audit_log_repo == audit_log_repo,
    {
        UpdateUserAuditLogListener { audit_log_repo }
    }

    pub fn priority(&self) -> (r: i32)
        ensures
            r == 200,
    {
        200
    }

    pub fn name(&self) -> (r: &'static str)
        ensures
            r@ == "CreateUserAuditLogListener (UserUpdated)"@,
    {
        "CreateUserAuditLogListener (UserUpdated)"
    }
}

/// Writes the audit record of a deleted user, with the time of deletion.
pub struct DeleteUserAuditLogListener<R> {
    pub audit_log_repo: R,
}

impl<R> DeleteUserAuditLogListener<R> {
    pub fn new(audit_log_repo: R) -> (l: Self)
        ensures
            l.audit_log_repo == audit_log_repo,
    {
        DeleteUserAuditLogListener { audit_log_repo }
    }

    pub fn priority(&self) -> (r: i32)
        ensures
            r == 200,
    {
        200
    }

    pub fn name(&self) -> (r: &'static str)
        ensures
            r@ == "CreateUserAuditLogListener (UserDeleted)"@,
    {
        "CreateUserAuditLogListener (UserDeleted)"
    }
}

/// Failures are counted apart for each e-mail and each address: two
/// (e-mail, address) pairs without a colon in the e-mail share a counter
/// only when they are the same pair.
pub proof fn law_failures_counted_per_pair(e1: Seq<char>, ip1: Seq<char>, e2: Seq<char>, ip2: Seq<char>)
    requires
        !e1.contains(':'),
        !e2.contains(':'),
        failure_key(e1, ip1) == failure_key(e2, ip2),
    ensures
        e1 == e2,
        ip1 == ip2,
{
    reveal_strlit(":");
    let k = failure_key(e1, ip1);
    assert(k == failure_key(e2, ip2));
    assert(k[e1.len() as int] == ':');
    assert(failure_key(e2, ip2)[e2.len() as int] == ':');
    if e1.len() < e2.len() {
        assert(failure_key(e2, ip2)[e1.len() as int] == e2[e1.len() as int]);
        assert(e2.contains(':'));
    } else if e2.len() < e1.len() {
        assert(k[e2.len() as int] == e1[e2.len() as int]);
        assert(e1.contains(':'));
    }
    assert(e1 =~= k.take(e1.len() as int));
    assert(e2 =~= failure_key(e2, ip2).take(e2.len() as int));
    assert(ip1 =~= k.skip(e1.len() + 1int));
    assert(ip2 =~= failure_key(e2, ip2).skip(e2.len() + 1int));
}

} // verus!
