//! Cookie management: the typed cookie value, its builder, and the
//! translation to and from the flat record the engine's cookie store takes.
//!
//! The engine's cookie calls take NUL-terminated C strings, so every string
//! field is checked for embedded NUL bytes when a request record is built;
//! each field that fails yields its own error, and nothing reaches the engine
//! in that case. The shell performs the native call and maps the engine's
//! boolean outcome back through the `*_outcome` functions here.

use vstd::prelude::*;

use crate::utils::clamp_epoch_secs;
use crate::utils::clone_opt_string;
use crate::utils::contains_nul;
use crate::utils::duration_as_secs;
use crate::utils::has_nul;
use crate::utils::now_unix_secs;
use crate::utils::opt_has_nul;
use crate::utils::opt_str_view;

verus! {

/// Cookie same-site attribute values.
#[derive(Debug, Clone, Copy, PartialEq, Eq, Structural)]
pub enum SameSite {
    /// No SameSite attribute specified.
    Unspecified,
    /// Cookies will be sent in all contexts.
    NoRestriction,
    /// Cookies are not sent on normal cross-site subrequests.
    Lax,
    /// Cookies will only be sent in a first-party context.
    Strict,
}

/// Cookie priority values.
#[derive(Debug, Clone, Copy, PartialEq, Eq, Structural)]
pub enum Priority {
    Low,
    /// The default priority.
    Medium,
    High,
}

/// The discriminant the engine's ABI uses for each same-site value.
pub open spec fn same_site_spec_code(s: SameSite) -> i32 {
    match s {
        SameSite::Unspecified => 0,
        SameSite::NoRestriction => 1,
        SameSite::Lax => 2,
        SameSite::Strict => 3,
    }
}

/// The typed same-site value a native discriminant stands for; unrecognized
/// discriminants fall back to `Unspecified`.
pub open spec fn same_site_from_spec(code: i32) -> SameSite {
    if code == 0 {
        SameSite::Unspecified
    } else if code == 1 {
        SameSite::NoRestriction
    } else if code == 2 {
        SameSite::Lax
    } else if code == 3 {
        SameSite::Strict
    } else {
        SameSite::Unspecified
    }
}

/// The discriminant the engine's ABI uses for each priority.
pub open spec fn priority_spec_code(p: Priority) -> i32 {
    match p {
        Priority::Low => 0,
        Priority::Medium => 1,
        Priority::High => 2,
    }
}

/// The typed priority a native discriminant stands for; unrecognized
/// discriminants fall back to `Medium`.
pub open spec fn priority_from_spec(code: i32) -> Priority {
    if code == 0 {
        Priority::Low
    } else if code == 1 {
        Priority::Medium
    } else if code == 2 {
        Priority::High
    } else {
        Priority::Medium
    }
}

impl SameSite {
    /// The discriminant the engine's ABI uses for this value.
    pub fn native_code(self) -> (r: i32)
        ensures
            r == same_site_spec_code(self),
    {
        match self {
            SameSite::Unspecified => 0,
            SameSite::NoRestriction => 1,
            SameSite::Lax => 2,
            SameSite::Strict => 3,
        }
    }

    /// The typed value for a native discriminant, `Unspecified` when it is
    /// not recognized.
    pub fn from_native(code: i32) -> (r: Self)
        ensures
            r == same_site_from_spec(code),
    {
        if code == 1 {
            SameSite::NoRestriction
        } else if code == 2 {
            SameSite::Lax
        } else if code == 3 {
            SameSite::Strict
        } else {
            SameSite::Unspecified
        }
    }
}

impl Priority {
    /// The discriminant the engine's ABI uses for this value.
    pub fn native_code(self) -> (r: i32)
        ensures
            r == priority_spec_code(self),
    {
        match self {
            Priority::Low => 0,
            Priority::Medium => 1,
            Priority::High => 2,
        }
    }

    /// The typed value for a native discriminant, `Medium` when it is not
    /// recognized.
    pub fn from_native(code: i32) -> (r: Self)
        ensures
            r == priority_from_spec(code),
    {
        if code == 0 {
            Priority::Low
        } else if code == 2 {
            Priority::High
        } else {
            Priority::Medium
        }
    }
}

/// Every recognized same-site discriminant maps to exactly one typed value
/// and back without loss.
pub proof fn lemma_same_site_round_trip(s: SameSite, code: i32)
    ensures
        same_site_from_spec(same_site_spec_code(s)) == s,
        0 <= code <= 3 ==> same_site_spec_code(same_site_from_spec(code)) == code,
{
}

/// Every recognized priority discriminant maps to exactly one typed value and
/// back without loss.
pub proof fn lemma_priority_round_trip(p: Priority, code: i32)
    ensures
        priority_from_spec(priority_spec_code(p)) == p,
        0 <= code <= 2 ==> priority_spec_code(priority_from_spec(code)) == code,
{
}

/// An HTTP cookie.
#[derive(Debug, Clone, PartialEq, Eq)]
pub struct Cookie {
    /// The cookie name.
    pub name: String,
    /// The cookie value.
    pub value: String,
    /// The domain for which the cookie is valid.
    pub domain: Option<String>,
    /// The path for which the cookie is valid.
    pub path: Option<String>,
    /// If true, the cookie will only be sent over secure connections.
    pub secure: bool,
    /// If true, the cookie will be inaccessible to JavaScript.
    pub httponly: bool,
    /// Expiration time in seconds since the Unix epoch; `None` means a
    /// session cookie.
    pub expires: Option<i64>,
    /// SameSite attribute.
    pub same_site: SameSite,
    /// Cookie priority.
    pub priority: Priority,
}

impl Default for Cookie {
    fn default() -> (r: Self)
        ensures
            r.name@ == Seq::<char>::empty(),
            r.value@ == Seq::<char>::empty(),
            r.domain is None,
            r.path is None,
            !r.secure,
            !r.httponly,
            r.expires is None,
            r.same_site == SameSite::Unspecified,
            r.priority == Priority::Medium,
    {
        Cookie {
            name: String::new(),
            value: String::new(),
            domain: None,
            path: None,
            secure: false,
            httponly: false,
            expires: None,
            same_site: SameSite::Unspecified,
            priority: Priority::Medium,
        }
    }
}

/// The expiration moment `secs` seconds after `now`, held at the top of the
/// signed range rather than wrapping.
pub open spec fn saturated_expiry(now: i64, secs: u64) -> i64
    recommends
        now >= 0,
{
    if now + secs > i64::MAX {
        i64::MAX
    } else {
        (now + secs) as i64
    }
}

impl Cookie {
    /// Create a new cookie with the given name and value; every other
    /// attribute starts at its default.
    pub fn new(name: &str, value: &str) -> (r: Self)
        ensures
            r.name@ == name@,
            r.value@ == value@,
            r.domain is None,
            r.path is None,
            !r.secure,
            !r.httponly,
            r.expires is None,
            r.same_site == SameSite::Unspecified,
            r.priority == Priority::Medium,
    {
        Cookie {
            name: name.to_owned(),
            value: value.to_owned(),
            domain: None,
            path: None,
            secure: false,
            httponly: false,
            expires: None,
            same_site: SameSite::Unspecified,
            priority: Priority::Medium,
        }
    }

    /// Set the domain for this cookie.
    pub fn domain(self, domain: &str) -> (r: Self)
        ensures
            r.domain matches Some(d) && d@ == domain@,
            r == (Cookie { domain: r.domain, ..self }),
    {
        Cookie { domain: Some(domain.to_owned()), ..self }
    }

    /// Set the path for this cookie.
    pub fn path(self, path: &str) -> (r: Self)
        ensures
            r.path matches Some(p) && p@ == path@,
            r == (Cookie { path: r.path, ..self }),
    {
        Cookie { path: Some(path.to_owned()), ..self }
    }

    /// Set whether this cookie is only sent over secure connections.
    pub fn secure(self, secure: bool) -> (r: Self)
        ensures
            r == (Cookie { secure, ..self }),
    {
        Cookie { secure, ..self }
    }

    /// Set whether this cookie is inaccessible to JavaScript.
    pub fn httponly(self, httponly: bool) -> (r: Self)
        ensures
            r == (Cookie { httponly, ..self }),
    {
        Cookie { httponly, ..self }
    }

    /// Set the expiration time for this cookie, in seconds since the epoch.
    pub fn expires_at(self, timestamp: i64) -> (r: Self)
        ensures
            r == (Cookie { expires: Some(timestamp), ..self }),
    {
        Cookie { expires: Some(timestamp), ..self }
    }

    /// Set the cookie to expire `duration_secs` seconds after the moment
    /// `now` (a non-negative seconds-since-epoch reading), holding at the top
    /// of the signed range instead of overflowing.
    pub fn expires_from(self, now: i64, duration_secs: u64) -> (r: Self)
        requires
            now >= 0,
        ensures
            r == (Cookie { expires: Some(saturated_expiry(now, duration_secs)), ..self }),
    {
        let headroom: u64 = (i64::MAX - now) as u64;
        let expires: i64 = if duration_secs > headroom {
            i64::MAX
        } else {
            now + (duration_secs as i64)
        };
        Cookie { expires: Some(expires), ..self }
    }

    /// Set the cookie to expire after a span of time from now. The clock is
    /// read here, so only the presence of an expiration is stated; the value
    /// is the clock reading plus the span's whole seconds.
    pub fn expires_in(self, duration: core::time::Duration) -> (r: Self)
        ensures
            r.expires is Some,
            r == (Cookie { expires: r.expires, ..self }),
    {
        let now = clamp_epoch_secs(now_unix_secs());
        let secs = duration_as_secs(&duration);
        self.expires_from(now, secs)
    }

    /// Set the SameSite attribute.
    pub fn same_site(self, same_site: SameSite) -> (r: Self)
        ensures
            r == (Cookie { same_site, ..self }),
    {
        Cookie { same_site, ..self }
    }

    /// Set the priority.
    pub fn priority(self, priority: Priority) -> (r: Self)
        ensures
            r == (Cookie { priority, ..self }),
    {
        Cookie { priority, ..self }
    }
}

/// The flat cookie record the engine's ABI takes: strings stay NUL-free
/// (the shell NUL-terminates them at the boundary), the optional expiration
/// is spread into a flag and a value, and the enums travel as their
/// discriminants.
#[derive(Debug, Clone, PartialEq, Eq)]
pub struct CookieRecord {
    pub name: String,
    pub value: String,
    pub domain: Option<String>,
    pub path: Option<String>,
    pub secure: bool,
    pub httponly: bool,
    pub expires: i64,
    pub has_expires: bool,
    pub creation: i64,
    pub last_access: i64,
    pub same_site: i32,
    pub priority: i32,
}

/// The record carries exactly the cookie: all strings copied, the expiration
/// spread into flag and value, both bookkeeping times set to `now`, and the
/// enums encoded.
pub open spec fn cookie_record_matches(c: Cookie, now: i64, r: CookieRecord) -> bool {
    &&& r.name@ == c.name@
    &&& r.value@ == c.value@
    &&& opt_str_view(r.domain) == opt_str_view(c.domain)
    &&& opt_str_view(r.path) == opt_str_view(c.path)
    &&& r.secure == c.secure
    &&& r.httponly == c.httponly
    &&& r.expires == (match c.expires {
        Some(e) => e,
        None => 0,
    })
    &&& r.has_expires == (c.expires is Some)
    &&& r.creation == now
    &&& r.last_access == now
    &&& r.same_site == same_site_spec_code(c.same_site)
    &&& r.priority == priority_spec_code(c.priority)
}

/// A validated set-cookie call, ready for the engine.
#[derive(Debug, Clone, PartialEq, Eq)]
pub struct SetCookieRequest {
    /// The URL the cookie is set for.
    pub url: String,
    /// The cookie record.
    pub cookie: CookieRecord,
}

/// A validated delete-cookies call, ready for the engine.
#[derive(Debug, Clone, PartialEq, Eq)]
pub struct DeleteCookieRequest {
    /// The URL whose cookies are deleted.
    pub url: String,
    /// The cookie name, or `None` to delete all cookies of the URL.
    pub name: Option<String>,
}

/// Errors that can occur during cookie operations.
#[derive(Debug, Clone, PartialEq, Eq, Structural)]
pub enum CookieError {
    /// Invalid URL format.
    InvalidUrl,
    /// Invalid cookie name.
    InvalidCookieName,
    /// Invalid cookie value.
    InvalidCookieValue,
    /// Invalid domain.
    InvalidDomain,
    /// Invalid path.
    InvalidPath,
    /// Failed to set cookie.
    SetCookieFailed,
    /// Failed to delete cookie.
    DeleteCookieFailed,
    /// Failed to flush cookie store.
    FlushStoreFailed,
}

/// The message text of each cookie error.
pub open spec fn cookie_error_message(e: CookieError) -> Seq<char> {
    match e {
        CookieError::InvalidUrl => "Invalid URL format"@,
        CookieError::InvalidCookieName => "Invalid cookie name"@,
        CookieError::InvalidCookieValue => "Invalid cookie value"@,
        CookieError::InvalidDomain => "Invalid domain"@,
        CookieError::InvalidPath => "Invalid path"@,
        CookieError::SetCookieFailed => "Failed to set cookie"@,
        CookieError::DeleteCookieFailed => "Failed to delete cookie"@,
        CookieError::FlushStoreFailed => "Failed to flush cookie store"@,
    }
}

impl CookieError {
    /// A human-readable message for this error.
    pub fn message(&self) -> (r: &'static str)
        ensures
            r@ == cookie_error_message(*self),
    {
        match self {
            CookieError::InvalidUrl => "Invalid URL format",
            CookieError::InvalidCookieName => "Invalid cookie name",
            CookieError::InvalidCookieValue => "Invalid cookie value",
            CookieError::InvalidDomain => "Invalid domain",
            CookieError::InvalidPath => "Invalid path",
            CookieError::SetCookieFailed => "Failed to set cookie",
            CookieError::DeleteCookieFailed => "Failed to delete cookie",
            CookieError::FlushStoreFailed => "Failed to flush cookie store",
        }
    }
}

/// Validate a set-cookie call and build the engine's record for it.
///
/// Each string is refused, with its own error, exactly when it holds an
/// embedded NUL; the fields are checked in the order URL, name, value,
/// domain, path, and the first offender decides the error. When all are
/// clean, the record carries the cookie exactly, with both bookkeeping
/// times set to `now`.
pub fn set_cookie_request(url: &str, cookie: &Cookie, now: i64) -> (r: Result<
    SetCookieRequest,
    CookieError,
>)
    ensures
        has_nul(url@) ==> (r matches Err(e) && e == CookieError::InvalidUrl),
        !has_nul(url@) && has_nul(cookie.name@) ==> (r matches Err(e) && e
            == CookieError::InvalidCookieName),
        !has_nul(url@) && !has_nul(cookie.name@) && has_nul(cookie.value@) ==> (r matches Err(e)
            && e == CookieError::InvalidCookieValue),
        !has_nul(url@) && !has_nul(cookie.name@) && !has_nul(cookie.value@) && opt_has_nul(
            cookie.domain,
        ) ==> (r matches Err(e) && e == CookieError::InvalidDomain),
        !has_nul(url@) && !has_nul(cookie.name@) && !has_nul(cookie.value@) && !opt_has_nul(
            cookie.domain,
        ) && opt_has_nul(cookie.path) ==> (r matches Err(e) && e == CookieError::InvalidPath),
        !has_nul(url@) && !has_nul(cookie.name@) && !has_nul(cookie.value@) && !opt_has_nul(
            cookie.domain,
        ) && !opt_has_nul(cookie.path) ==> (r matches Ok(q) && q.url@ == url@
            && cookie_record_matches(*cookie, now, q.cookie)),
{
    if contains_nul(url) {
        return Err(CookieError::InvalidUrl);
    }
    if contains_nul(cookie.name.as_str()) {
        return Err(CookieError::InvalidCookieName);
    }
    if contains_nul(cookie.value.as_str()) {
        return Err(CookieError::InvalidCookieValue);
    }
    let domain = match &cookie.domain {
        Some(d) => {
            if contains_nul(d.as_str()) {
                return Err(CookieError::InvalidDomain);
            }
            Some(d.clone())
        },
        None => None,
    };
    let path = match &cookie.path {
        Some(p) => {
            if contains_nul(p.as_str()) {
                return Err(CookieError::InvalidPath);
            }
            Some(p.clone())
        },
        None => None,
    };
    let (expires, has_expires) = match cookie.expires {
        Some(e) => (e, true),
        None => (0i64, false),
    };
    Ok(
        SetCookieRequest {
            url: url.to_owned(),
            cookie: CookieRecord {
                name: cookie.name.clone(),
                value: cookie.value.clone(),
                domain,
                path,
                secure: cookie.secure,
                httponly: cookie.httponly,
                expires,
                has_expires,
                creation: now,
                last_access: now,
                same_site: cookie.same_site.native_code(),
                priority: cookie.priority.native_code(),
            },
        },
    )
}

/// Validate a delete-cookies call.
///
/// The URL is refused as invalid exactly when it holds an embedded NUL, and
/// likewise the optional cookie name; with `None` as the name, all cookies of
/// the URL are deleted.
pub fn delete_cookie_request(url: &str, name: Option<&str>) -> (r: Result<
    DeleteCookieRequest,
    CookieError,
>)
    ensures
        has_nul(url@) ==> (r matches Err(e) && e == CookieError::InvalidUrl),
        !has_nul(url@) && (match name {
            Some(n) => has_nul(n@),
            None => false,
        }) ==> (r matches Err(e) && e == CookieError::InvalidCookieName),
        !has_nul(url@) && (match name {
            Some(n) => !has_nul(n@),
            None => true,
        }) ==> (r matches Ok(q) && q.url@ == url@ && (match (name, q.name) {
            (Some(n), Some(qn)) => qn@ == n@,
            (None, None) => true,
            _ => false,
        })),
{
    if contains_nul(url) {
        return Err(CookieError::InvalidUrl);
    }
    let name = match name {
        Some(n) => {
            if contains_nul(n) {
                return Err(CookieError::InvalidCookieName);
            }
            Some(n.to_owned())
        },
        None => None,
    };
    Ok(DeleteCookieRequest { url: url.to_owned(), name })
}

/// Rebuild a typed cookie from the engine's record, as the cookie visitor
/// reports it. Unrecognized same-site or priority discriminants fall back to
/// their defaults; a clear `has_expires` flag means a session cookie.
pub fn cookie_from_native(r: &CookieRecord) -> (c: Cookie)
    ensures
        c.name@ == r.name@,
        c.value@ == r.value@,
        opt_str_view(c.domain) == opt_str_view(r.domain),
        opt_str_view(c.path) == opt_str_view(r.path),
        c.secure == r.secure,
        c.httponly == r.httponly,
        c.expires == (if r.has_expires {
            Some(r.expires)
        } else {
            None::<i64>
        }),
        c.same_site == same_site_from_spec(r.same_site),
        c.priority == priority_from_spec(r.priority),
{
    Cookie {
        name: r.name.clone(),
        value: r.value.clone(),
        domain: clone_opt_string(&r.domain),
        path: clone_opt_string(&r.path),
        secure: r.secure,
        httponly: r.httponly,
        expires: if r.has_expires {
            Some(r.expires)
        } else {
            None
        },
        same_site: SameSite::from_native(r.same_site),
        priority: Priority::from_native(r.priority),
    }
}

/// Map the engine's set-cookie outcome to the typed result: success exactly
/// when the engine reported success.
pub fn set_cookie_outcome(native_ok: bool) -> (r: Result<(), CookieError>)
    ensures
        native_ok ==> r is Ok,
        !native_ok ==> (r matches Err(e) && e == CookieError::SetCookieFailed),
{
    if native_ok {
        Ok(())
    } else {
        Err(CookieError::SetCookieFailed)
    }
}

/// Map the engine's delete-cookies outcome to the typed result: success
/// exactly when the engine reported success.
pub fn delete_cookie_outcome(native_ok: bool) -> (r: Result<(), CookieError>)
    ensures
        native_ok ==> r is Ok,
        !native_ok ==> (r matches Err(e) && e == CookieError::DeleteCookieFailed),
{
    if native_ok {
        Ok(())
    } else {
        Err(CookieError::DeleteCookieFailed)
    }
}

/// Map the engine's flush-store outcome to the typed result: success exactly
/// when the engine reported success.
pub fn flush_store_outcome(native_ok: bool) -> (r: Result<(), CookieError>)
    ensures
        native_ok ==> r is Ok,
        !native_ok ==> (r matches Err(e) && e == CookieError::FlushStoreFailed),
{
    if native_ok {
        Ok(())
    } else {
        Err(CookieError::FlushStoreFailed)
    }
}

} // verus!
