use vstd::prelude::*;
use crate::fixtures::loader::Fixture;
use crate::fixtures::seeds::{
    activity_action_str, activity_seed, audit_plain, audit_seed, login_failed,
    login_failed_seed, login_success, login_success_seed, AuditLogSeed, AuditLogSeedView,
};
use crate::text::string_of;

verus! {

/// The views of a list of audit-log seeds.
pub open spec fn audit_views(v: Seq<AuditLogSeed>) -> Seq<AuditLogSeedView> {
    v.map_values(|s: AuditLogSeed| s@)
}

/// The ten seeded successful logins.
pub open spec fn login_successes() -> Seq<AuditLogSeedView> {
    Seq::new(10, |i: int| login_success_seed(i))
}

/// The five seeded failed logins.
pub open spec fn login_failures() -> Seq<AuditLogSeedView> {
    Seq::new(5, |i: int| login_failed_seed(i))
}

/// `n` generated activity entries.
pub open spec fn activities(n: nat) -> Seq<AuditLogSeedView> {
    Seq::new(n, |i: int| activity_seed(i))
}

/// A system event from `192.168.1.100`.
pub open spec fn system_event(entity: Seq<char>, action: Seq<char>, status: Seq<char>, details: Seq<
    char,
>) -> AuditLogSeedView {
    AuditLogSeedView {
        details: Some(details),
        ip: Some("192.168.1.100"@),
        ..audit_plain(entity, action, status)
    }
}

/// The six seeded system events.
pub open spec fn system_events() -> Seq<AuditLogSeedView> {
    seq![
        system_event("Configuration"@, "Update Settings"@, "Success"@, "Updated email settings"@),
        system_event(
            "Configuration"@,
            "Update Settings"@,
            "Success"@,
            "Updated security settings"@,
        ),
        system_event("System"@, "Backup"@, "Success"@, "Database backup completed"@),
        system_event("System"@, "Backup"@, "Failed"@, "Database backup failed: disk full"@),
        system_event("Security"@, "Password Reset"@, "Success"@, "Password reset email sent"@),
        system_event(
            "Security"@,
            "2FA Enable"@,
            "Success"@,
            "Two-factor authentication enabled"@,
        ),
    ]
}

fn system_event_seed(entity: &str, action: &str, status: &str, details: &str) -> (s: AuditLogSeed)
    ensures
        s@ == system_event(entity@, action@, status@, details@),
{
    let mut s = audit_seed(entity, action, status);
    s.details = Some(string_of(details));
    s.ip = Some(string_of("192.168.1.100"));
    s
}

/// Appends the ten successful logins.
pub fn push_login_successes(v: &mut Vec<AuditLogSeed>)
    ensures
        audit_views(final(v)@) == audit_views(old(v)@) + login_successes(),
{
    let mut i: u64 = 0;
    while i < 10
        invariant
            i <= 10,
            audit_views(v@) == audit_views(old(v)@) + login_successes().take(i as int),
        decreases 10 - i,
    {
        let ghost prev = v@;
        let x = login_success(i);
        v.push(x);
        assert(audit_views(v@) =~= audit_views(prev).push(x@));
        assert(login_successes().take(i + 1) =~= login_successes().take(i as int).push(login_success_seed(i as int)));
        assert(audit_views(v@) =~= audit_views(old(v)@) + login_successes().take(i + 1));
        i = i + 1;
    }
    assert(login_successes().take(10) =~= login_successes());
}

/// Appends the five failed logins.
pub fn push_login_failures(v: &mut Vec<AuditLogSeed>)
    ensures
        audit_views(final(v)@) == audit_views(old(v)@) + login_failures(),
{
    let mut i: u64 = 0;
    while i < 5
        invariant
            i <= 5,
            audit_views(v@) == audit_views(old(v)@) + login_failures().take(i as int),
        decreases 5 - i,
    {
        let ghost prev = v@;
        let x = login_failed(i);
        v.push(x);
        assert(audit_views(v@) =~= audit_views(prev).push(x@));
        assert(login_failures().take(i + 1) =~= login_failures().take(i as int).push(login_failed_seed(i as int)));
        assert(audit_views(v@) =~= audit_views(old(v)@) + login_failures().take(i + 1));
        i = i + 1;
    }
    assert(login_failures().take(5) =~= login_failures());
}

/// Appends `n` generated activity entries.
pub fn push_activities(v: &mut Vec<AuditLogSeed>, n: usize)
    ensures
        audit_views(final(v)@) == audit_views(old(v)@) + activities(n as nat),
{
    let mut i: usize = 0;
    while i < n
        invariant
            i <= n,
            audit_views(v@) == audit_views(old(v)@) + activities(n as nat).take(i as int),
        decreases n - i,
    {
        let ghost prev = v@;
        let x = audit_seed("User Activity", activity_action_str(i), "Success");
        v.push(x);
        assert(audit_views(v@) =~= audit_views(prev).push(x@));
        assert(activities(n as nat).take(i + 1) =~= activities(n as nat).take(i as int).push(activity_seed(i as int)));
        assert(audit_views(v@) =~= audit_views(old(v)@) + activities(n as nat).take(i + 1));
        i = i + 1;
    }
    assert(activities(n as nat).take(n as int) =~= activities(n as nat));
}

/// What the audit-log fixture creates: ten successful and five failed
/// logins, six system events, and the generated activity if asked.
pub open spec fn audit_log_fixture_plan(create_activity: bool, count: nat) -> Seq<AuditLogSeedView> {
    login_successes() + login_failures() + system_events() + (if create_activity {
        activities(count)
    } else {
        Seq::empty()
    })
}

/// Seeds authentication, system and activity entries of the audit log.
pub struct AuditLogFixtures {
    pub create_activity_logs: bool,
    pub activity_log_count: usize,
}

impl AuditLogFixtures {
    /// With 50 activity entries.
    pub fn new() -> (f: Self)
        ensures
            f.create_activity_logs,
            f.activity_log_count == 50,
    {
        AuditLogFixtures { create_activity_logs: true, activity_log_count: 50 }
    }

    /// With `count` activity entries.
    pub fn with_activity_logs(self, count: usize) -> (f: Self)
        ensures
            f.create_activity_logs,
            f.activity_log_count == count,
    {
        AuditLogFixtures { create_activity_logs: true, activity_log_count: count }
    }

    /// Without activity entries.
    pub fn without_activity_logs(self) -> (f: Self)
        ensures
            !f.create_activity_logs,
            f.activity_log_count == self.activity_log_count,
    {
        AuditLogFixtures { create_activity_logs: false, ..self }
    }

    /// The entries to create, in order.
    pub fn plan(&self) -> (v: Vec<AuditLogSeed>)
        ensures
            audit_views(v@) == audit_log_fixture_plan(
                self.create_activity_logs,
                self.activity_log_count as nat,
            ),
    {
        let mut v: Vec<AuditLogSeed> = Vec::new();
        push_login_successes(&mut v);
        push_login_failures(&mut v);
        let ghost before = audit_views(v@);
        v.push(
            system_event_seed(
                "Configuration",
                "Update Settings",
                "Success",
                "Updated email settings",
            ),
        );
        v.push(
            system_event_seed(
                "Configuration",
                "Update Settings",
                "Success",
                "Updated security settings",
            ),
        );
        v.push(system_event_seed("System", "Backup", "Success", "Database backup completed"));
        v.push(system_event_seed("System", "Backup", "Failed", "Database backup failed: disk full"));
        v.push(system_event_seed("Security", "Password Reset", "Success", "Password reset email sent"));
        v.push(
            system_event_seed(
                "Security",
                "2FA Enable",
                "Success",
                "Two-factor authentication enabled",
            ),
        );
        assert(audit_views(v@) =~= before + system_events());
        let ghost mid = audit_views(v@);
        if self.create_activity_logs {
            push_activities(&mut v, self.activity_log_count);
        } else {
            assert(audit_views(v@) =~= mid + Seq::empty());
        }
        assert(audit_views(v@) =~= audit_log_fixture_plan(
            self.create_activity_logs,
            self.activity_log_count as nat,
        ));
        v
    }
}

impl Default for AuditLogFixtures {
    fn default() -> (f: Self)
        ensures
            f.create_activity_logs,
            f.activity_log_count == 50,
    {
        Self::new()
    }
}

impl Fixture for AuditLogFixtures {
    open spec fn spec_order(&self) -> i32 {
        20
    }

    open spec fn spec_enabled(&self) -> bool {
        true
    }

    fn name(&self) -> (r: &str)
        ensures
            r@ == "AuditLogFixtures"@,
    {
        "AuditLogFixtures"
    }

    fn description(&self) -> (r: &str)
        ensures
            r@ == "Create test audit logs (authentication, system events, activity)"@,
    {
        "Create test audit logs (authentication, system events, activity)"
    }

    fn order(&self) -> (r: i32) {
        20
    }

    fn enabled(&self) -> (r: bool) {
        true
    }
}

} // verus!
