use pingcrm::cookie::{Cookie, CookieJar, CookieParser, SameSite};

#[test]
fn test_cookie_basic() {
    let cookie = Cookie::new("name", "value").build();
    assert_eq!(cookie, "name=value");
}

#[test]
fn test_cookie_with_options() {
    let cookie = Cookie::new("session", "abc123")
        .path("/")
        .http_only(true)
        .secure(true)
        .same_site(SameSite::Strict)
        .build();

    assert!(cookie.contains("session=abc123"));
    assert!(cookie.contains("Path=/"));
    assert!(cookie.contains("HttpOnly"));
    assert!(cookie.contains("Secure"));
    assert!(cookie.contains("SameSite=Strict"));
}

#[test]
fn test_cookie_max_age() {
    let cookie = Cookie::new("test", "value").max_age(3600).build();

    assert!(cookie.contains("Max-Age=3600"));
}

#[test]
fn test_cookie_deleted() {
    let cookie = Cookie::deleted("old_cookie").build();
    assert!(cookie.contains("old_cookie="));
    assert!(cookie.contains("Max-Age=0"));
}

#[test]
fn test_cookie_jar() {
    let mut jar = CookieJar::new();
    jar.add(Cookie::new("cookie1", "value1"));
    jar.add(Cookie::new("cookie2", "value2"));

    let headers = jar.headers();
    assert_eq!(headers.len(), 2);
}

#[test]
fn test_cookie_parser() {
    let cookies = CookieParser::parse(Some("session=abc123; user=john"));
    assert_eq!(cookies.len(), 2);
    assert_eq!(cookies[0], ("session".to_string(), "abc123".to_string()));
    assert_eq!(cookies[1], ("user".to_string(), "john".to_string()));
}

#[test]
fn test_cookie_parser_get() {
    let header = Some("session=abc123; user=john");
    assert_eq!(
        CookieParser::get(header, "session"),
        Some("abc123".to_string())
    );
    assert_eq!(CookieParser::get(header, "user"), Some("john".to_string()));
    assert_eq!(CookieParser::get(header, "missing"), None);
}

#[test]
fn test_same_site_values() {
    assert_eq!(SameSite::Strict.as_str(), "Strict");
    assert_eq!(SameSite::Lax.as_str(), "Lax");
    assert_eq!(SameSite::Unrestricted.as_str(), "None");
}

#[test]
fn test_cookie_session() {
    let cookie = Cookie::session("sid", "xyz").build();
    assert!(cookie.contains("sid=xyz"));
    assert!(cookie.contains("HttpOnly"));
    assert!(cookie.contains("Secure"));
    assert!(cookie.contains("SameSite=Lax"));
}

#[test]
fn test_cookie_permanent() {
    let cookie = Cookie::permanent("remember", "token", 86400).build();
    assert!(cookie.contains("remember=token"));
    assert!(cookie.contains("Max-Age=86400"));
    assert!(cookie.contains("HttpOnly"));
    assert!(cookie.contains("Secure"));
}

#[test]
fn attributes_come_in_a_fixed_order() {
    let cookie = Cookie::new("a", "b")
        .same_site(SameSite::Lax)
        .secure(true)
        .http_only(true)
        .max_age(10)
        .path("/app")
        .domain("example.com")
        .build();
    assert_eq!(
        cookie,
        "a=b; Domain=example.com; Path=/app; Max-Age=10; Secure; HttpOnly; SameSite=Lax"
    );
}

#[test]
fn expiry_is_written_as_an_http_date() {
    let cookie = Cookie::new("a", "b").expires(0, 0).build();
    assert!(cookie.contains("Expires=Thu, 01 Jan 1970 00:00:00 +0000"), "{}", cookie);
    let east = Cookie::new("a", "b").expires(0, 2 * 3600).build();
    assert!(east.contains("Expires=Thu, 01 Jan 1970 02:00:00 +0200"), "{}", east);
    let odd = Cookie::new("a", "b").expires(0, 30).build();
    assert_eq!(odd, "a=b");
}

#[test]
fn removing_from_a_jar_adds_a_deleting_cookie() {
    let mut jar = CookieJar::new();
    jar.add(Cookie::new("a", "1"));
    jar.remove("a");
    let headers = jar.headers();
    assert_eq!(headers.len(), 2);
    assert_eq!(headers[0], ("set-cookie".to_string(), "a=1".to_string()));
    assert_eq!(
        headers[1].1,
        "a=; Max-Age=0; Expires=Thu, 01 Jan 1970 00:00:00 +0000"
    );
}

#[test]
fn cookies_that_are_not_valid_header_values_are_left_out() {
    let mut jar = CookieJar::new();
    jar.add(Cookie::new("a", "line\nbreak"));
    jar.add(Cookie::new("b", "ok"));
    assert_eq!(jar.headers(), vec![("set-cookie".to_string(), "b=ok".to_string())]);
}

#[test]
fn parser_without_header_or_with_bad_pairs() {
    assert!(CookieParser::parse(None).is_empty());
    assert_eq!(CookieParser::get(None, "a"), None);
    let pairs = CookieParser::parse_cookie_header("flag; k=v=w;  x = y ");
    assert_eq!(
        pairs,
        vec![
            ("k".to_string(), "v=w".to_string()),
            ("x".to_string(), "y".to_string())
        ]
    );
}

#[test]
fn a_set_cookie_comes_back_in_the_cookie_header() {
    let set = Cookie::new("theme", "dark").build();
    assert_eq!(CookieParser::get(Some(&set), "theme"), Some("dark".to_string()));
    let jar_value = {
        let mut jar = CookieJar::new();
        jar.add(Cookie::new("lang", "en"));
        jar.headers()[0].1.clone()
    };
    assert_eq!(CookieParser::parse(Some(&jar_value)), vec![("lang".to_string(), "en".to_string())]);
}
