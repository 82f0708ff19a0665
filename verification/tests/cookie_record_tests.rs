use wew::cookie::{
    cookie_from_native, delete_cookie_outcome, delete_cookie_request, flush_store_outcome,
    set_cookie_outcome, set_cookie_request, Cookie, CookieError, CookieRecord, Priority, SameSite,
};

#[test]
fn set_cookie_request_builds_exact_record() {
    let cookie = Cookie::new("session", "abc123")
        .domain("example.com")
        .path("/api")
        .secure(true)
        .httponly(true)
        .expires_at(1234567890)
        .same_site(SameSite::Lax)
        .priority(Priority::High);

    let request = set_cookie_request("https://example.com", &cookie, 1700000000).unwrap();

    assert_eq!(request.url, "https://example.com");
    assert_eq!(request.cookie.name, "session");
    assert_eq!(request.cookie.value, "abc123");
    assert_eq!(request.cookie.domain, Some("example.com".to_string()));
    assert_eq!(request.cookie.path, Some("/api".to_string()));
    assert!(request.cookie.secure);
    assert!(request.cookie.httponly);
    assert_eq!(request.cookie.expires, 1234567890);
    assert!(request.cookie.has_expires);
    assert_eq!(request.cookie.creation, 1700000000);
    assert_eq!(request.cookie.last_access, 1700000000);
    assert_eq!(request.cookie.same_site, 2);
    assert_eq!(request.cookie.priority, 2);
}

#[test]
fn set_cookie_request_session_cookie_has_no_expiry() {
    let cookie = Cookie::new("session", "v");
    let request = set_cookie_request("https://example.com", &cookie, 5).unwrap();
    assert!(!request.cookie.has_expires);
    assert_eq!(request.cookie.expires, 0);
    assert_eq!(request.cookie.same_site, 0);
    assert_eq!(request.cookie.priority, 1);
}

#[test]
fn set_cookie_request_rejects_each_nul_field() {
    let clean = Cookie::new("name", "value").domain("example.com").path("/");

    assert_eq!(
        set_cookie_request("https://e\0.com", &clean, 0),
        Err(CookieError::InvalidUrl)
    );

    let bad_name = Cookie::new("na\0me", "value");
    assert_eq!(
        set_cookie_request("https://example.com", &bad_name, 0),
        Err(CookieError::InvalidCookieName)
    );

    let bad_value = Cookie::new("name", "val\0ue");
    assert_eq!(
        set_cookie_request("https://example.com", &bad_value, 0),
        Err(CookieError::InvalidCookieValue)
    );

    let bad_domain = Cookie::new("name", "value").domain("exa\0mple.com");
    assert_eq!(
        set_cookie_request("https://example.com", &bad_domain, 0),
        Err(CookieError::InvalidDomain)
    );

    let bad_path = Cookie::new("name", "value").path("/a\0b");
    assert_eq!(
        set_cookie_request("https://example.com", &bad_path, 0),
        Err(CookieError::InvalidPath)
    );
}

#[test]
fn delete_cookie_request_validates_url_and_name() {
    let all = delete_cookie_request("https://example.com", None).unwrap();
    assert_eq!(all.url, "https://example.com");
    assert_eq!(all.name, None);

    let one = delete_cookie_request("https://example.com", Some("session")).unwrap();
    assert_eq!(one.name, Some("session".to_string()));

    assert_eq!(
        delete_cookie_request("https://e\0.com", None),
        Err(CookieError::InvalidUrl)
    );
    assert_eq!(
        delete_cookie_request("https://example.com", Some("se\0ssion")),
        Err(CookieError::InvalidCookieName)
    );
}

#[test]
fn cookie_from_native_round_trips_and_falls_back() {
    let record = CookieRecord {
        name: "n".to_string(),
        value: "v".to_string(),
        domain: Some("example.com".to_string()),
        path: None,
        secure: true,
        httponly: false,
        expires: 77,
        has_expires: true,
        creation: 1,
        last_access: 2,
        same_site: 3,
        priority: 0,
    };
    let cookie = cookie_from_native(&record);
    assert_eq!(cookie.name, "n");
    assert_eq!(cookie.value, "v");
    assert_eq!(cookie.domain, Some("example.com".to_string()));
    assert_eq!(cookie.path, None);
    assert!(cookie.secure);
    assert!(!cookie.httponly);
    assert_eq!(cookie.expires, Some(77));
    assert_eq!(cookie.same_site, SameSite::Strict);
    assert_eq!(cookie.priority, Priority::Low);

    // Unrecognized discriminants fall back to the defaults, and a clear
    // has_expires flag means a session cookie.
    let odd = CookieRecord {
        same_site: 42,
        priority: -1,
        has_expires: false,
        ..record
    };
    let fallback = cookie_from_native(&odd);
    assert_eq!(fallback.same_site, SameSite::Unspecified);
    assert_eq!(fallback.priority, Priority::Medium);
    assert_eq!(fallback.expires, None);
}

#[test]
fn native_outcomes_map_to_errors() {
    assert_eq!(set_cookie_outcome(true), Ok(()));
    assert_eq!(set_cookie_outcome(false), Err(CookieError::SetCookieFailed));
    assert_eq!(delete_cookie_outcome(true), Ok(()));
    assert_eq!(
        delete_cookie_outcome(false),
        Err(CookieError::DeleteCookieFailed)
    );
    assert_eq!(flush_store_outcome(true), Ok(()));
    assert_eq!(
        flush_store_outcome(false),
        Err(CookieError::FlushStoreFailed)
    );
}

#[test]
fn expires_from_saturates_instead_of_wrapping() {
    let cookie = Cookie::new("n", "v").expires_from(10, 20);
    assert_eq!(cookie.expires, Some(30));

    let saturated = Cookie::new("n", "v").expires_from(i64::MAX - 5, u64::MAX);
    assert_eq!(saturated.expires, Some(i64::MAX));
}
