use pingcrm::jsonapi::ApiError;
use pingcrm::middleware::{
    after_authentication, bypass_decision, clockwork_headers, forwarded_first,
    is_entry_point_page, is_logout_request, maintenance_decision, route_request,
    security_headers, should_track, AuthAction, AuthAttempt, AuthRoute, MaintenanceDecision,
};

#[test]
fn logout_is_a_get_or_post_of_logout() {
    assert!(is_logout_request("/logout", "POST"));
    assert!(is_logout_request("/logout", "GET"));
    assert!(!is_logout_request("/logout", "DELETE"));
    assert!(!is_logout_request("/logout/", "GET"));
}

#[test]
fn entry_point_pages() {
    for p in ["/login", "/2fa", "/register", "/forgot-password", "/reset-password"] {
        assert!(is_entry_point_page(p));
    }
    assert!(!is_entry_point_page("/login/extra"));
    assert!(!is_entry_point_page("/dashboard"));
}

#[test]
fn routes_through_the_authentication_middleware() {
    assert_eq!(route_request(None, "/dashboard", "GET", false), AuthRoute::PassThrough);
    assert_eq!(route_request(Some(false), "/dashboard", "GET", false), AuthRoute::PassThrough);
    assert_eq!(route_request(Some(true), "/logout", "POST", true), AuthRoute::Logout);
    assert_eq!(route_request(Some(true), "/dashboard", "GET", true), AuthRoute::RestoredSession);
    assert_eq!(route_request(Some(true), "/login", "GET", false), AuthRoute::PassThrough);
    assert_eq!(route_request(Some(true), "/dashboard", "GET", false), AuthRoute::Authenticate);
}

#[test]
fn outcomes_of_authentication() {
    assert!(matches!(after_authentication(AuthAttempt::Responded, true), AuthAction::SendResponse));
    assert!(matches!(
        after_authentication(AuthAttempt::Authenticated, false),
        AuthAction::Continue { store_token: true }
    ));
    assert!(matches!(
        after_authentication(AuthAttempt::Authenticated, true),
        AuthAction::Continue { store_token: false }
    ));
    match after_authentication(AuthAttempt::NoCredentials, true) {
        AuthAction::Reject(ApiError::AuthenticationFailed(m)) => assert_eq!(m, "Authentication required"),
        _ => panic!("stateless firewalls reject"),
    }
    assert!(matches!(
        after_authentication(AuthAttempt::NoCredentials, false),
        AuthAction::RedirectToLogin
    ));
}

#[test]
fn maintenance_mode() {
    assert_eq!(maintenance_decision(false, "/x", None, None), MaintenanceDecision::Proceed);
    assert_eq!(maintenance_decision(true, "/health", None, None), MaintenanceDecision::Proceed);
    assert_eq!(
        maintenance_decision(true, "/x", None, Some("bypass=s3cret")),
        MaintenanceDecision::Blocked { bad_token: false }
    );
    assert_eq!(
        maintenance_decision(true, "/x", Some("s3cret"), Some("a=1&bypass=s3cret")),
        MaintenanceDecision::Bypassed
    );
    assert_eq!(
        maintenance_decision(true, "/x", Some("s3cret"), Some("bypass=wrong")),
        MaintenanceDecision::Blocked { bad_token: true }
    );
    assert_eq!(
        maintenance_decision(true, "/x", Some("s3cret"), Some("other=1")),
        MaintenanceDecision::Blocked { bad_token: false }
    );
    assert_eq!(
        maintenance_decision(true, "/x", Some("s3cret"), None),
        MaintenanceDecision::Blocked { bad_token: false }
    );
}

#[test]
fn the_bypass_parameter_is_decoded_and_the_last_one_counts() {
    assert_eq!(
        maintenance_decision(true, "/x", Some("a b/c"), Some("bypass=a+b%2Fc")),
        MaintenanceDecision::Bypassed
    );
    assert_eq!(
        maintenance_decision(true, "/x", Some("good"), Some("bypass=good&bypass=bad")),
        MaintenanceDecision::Blocked { bad_token: true }
    );
    let pairs = vec![
        ("bypass".to_string(), "bad".to_string()),
        ("bypass".to_string(), "good".to_string()),
    ];
    assert_eq!(bypass_decision("good", &pairs), MaintenanceDecision::Bypassed);
}

#[test]
fn profiler_tracking_and_headers() {
    assert!(should_track("/contacts", true));
    assert!(!should_track("/contacts", false));
    assert!(!should_track("/__clockwork/123", true));
    assert_eq!(
        clockwork_headers("abc-1"),
        vec![
            ("X-Clockwork-Id".to_string(), "abc-1".to_string()),
            ("X-Clockwork-Version".to_string(), "5.1".to_string()),
            ("X-Clockwork-Path".to_string(), "/__clockwork/".to_string()),
        ]
    );
    assert_eq!(clockwork_headers("bad\nid").len(), 2);
}

#[test]
fn security_headers_are_fixed() {
    let h = security_headers();
    assert_eq!(h.len(), 5);
    assert_eq!(h[0], ("X-Content-Type-Options", "nosniff"));
    assert_eq!(h[2], ("X-Frame-Options", "DENY"));
    assert_eq!(h[4], ("Permissions-Policy", "geolocation=(), microphone=(), camera=()"));
}

#[test]
fn the_first_forwarded_address_is_the_client() {
    assert_eq!(forwarded_first("203.0.113.1, 198.51.100.1"), "203.0.113.1");
    assert_eq!(forwarded_first("  203.0.113.1  "), "203.0.113.1");
    assert_eq!(forwarded_first(""), "");
    assert_eq!(forwarded_first(",1.2.3.4"), "");
}
