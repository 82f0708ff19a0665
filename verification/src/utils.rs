//! Small helpers shared by the whole crate: reasoning about NUL bytes in
//! configuration strings, substring search, and the few clock readings the
//! cookie API needs.

use vstd::prelude::*;

verus! {

/// The character sequence behind an optional configuration string.
pub open spec fn opt_str_view(o: Option<String>) -> Option<Seq<char>> {
    match o {
        Some(s) => Some(s@),
        None => None,
    }
}

/// True when the optional string holds an embedded NUL.
pub open spec fn opt_has_nul(o: Option<String>) -> bool {
    match o {
        Some(s) => has_nul(s@),
        None => false,
    }
}

/// Copy an optional configuration string.
pub fn clone_opt_string(o: &Option<String>) -> (r: Option<String>)
    ensures
        opt_str_view(r) == opt_str_view(*o),
{
    match o {
        Some(s) => Some(s.clone()),
        None => None,
    }
}

/// True when the character sequence holds an embedded NUL, which the engine's
/// C string boundary cannot carry.
pub open spec fn has_nul(s: Seq<char>) -> bool {
    exists|i: int| 0 <= i < s.len() && s[i] == '\u{0}'
}

/// Scan a string for an embedded NUL character.
pub fn contains_nul(s: &str) -> (r: bool)
    ensures
        r == has_nul(s@),
{
    let n: usize = s.unicode_len();
    let mut i: usize = 0;
    while i < n
        invariant
            n == s@.len(),
            0 <= i <= n,
            forall|j: int| 0 <= j < i ==> s@[j] != '\u{0}',
        decreases n - i,
    {
        if s.get_char(i) == '\u{0}' {
            return true;
        }
        i = i + 1;
    }
    false
}

/// True when `p` occurs in `s` starting at position `i`.
pub open spec fn matches_at(s: Seq<char>, p: Seq<char>, i: int) -> bool {
    &&& 0 <= i
    &&& i + p.len() <= s.len()
    &&& s.subrange(i, i + p.len() as int) == p
}

/// True when `p` occurs somewhere in `s`.
pub open spec fn contains_seq(s: Seq<char>, p: Seq<char>) -> bool {
    exists|i: int| matches_at(s, p, i)
}

/// Check whether `p` occurs in `s` starting at character position `i`.
fn matches_here(s: &str, p: &str, i: usize) -> (r: bool)
    requires
        i + p@.len() <= s@.len(),
    ensures
        r == matches_at(s@, p@, i as int),
{
    let n: usize = s.unicode_len();
    let m: usize = p.unicode_len();
    let mut j: usize = 0;
    while j < m
        invariant
            n == s@.len(),
            m == p@.len(),
            i + m <= n,
            0 <= j <= m,
            forall|k: int| 0 <= k < j ==> s@[i + k] == p@[k],
        decreases m - j,
    {
        if s.get_char(i + j) != p.get_char(j) {
            assert(s@.subrange(i as int, i + m as int)[j as int] != p@[j as int]);
            return false;
        }
        j = j + 1;
    }
    assert(s@.subrange(i as int, i + m as int) =~= p@);
    true
}

/// Substring search: does `p` occur anywhere in `s`?
pub fn contains_substr(s: &str, p: &str) -> (r: bool)
    ensures
        r == contains_seq(s@, p@),
{
    let n: usize = s.unicode_len();
    let m: usize = p.unicode_len();
    if m > n {
        assert(forall|i: int| !matches_at(s@, p@, i));
        return false;
    }
    if m == 0 {
        assert(s@.subrange(0, 0) =~= p@);
        assert(matches_at(s@, p@, 0));
        return true;
    }
    let mut i: usize = 0;
    while i <= n - m
        invariant
            n == s@.len(),
            m == p@.len(),
            1 <= m <= n,
            0 <= i <= n - m + 1,
            forall|k: int| 0 <= k < i ==> !matches_at(s@, p@, k),
        decreases n - i,
    {
        if matches_here(s, p, i) {
            return true;
        }
        i = i + 1;
    }
    assert(forall|k: int| matches_at(s@, p@, k) ==> 0 <= k <= n - m);
    false
}

/// Relies on std's SystemTime: the seconds elapsed since the Unix epoch, read
/// from the system clock. The clock is outside the program, so nothing is
/// promised of the value.
#[verifier::external_body]
pub fn now_unix_secs() -> u64 {
    std::time::SystemTime::now()
        .duration_since(std::time::UNIX_EPOCH)
        .unwrap_or_default()
        .as_secs()
}

/// Relies on Duration::as_secs: the number of whole seconds in the span.
/// The duration value is opaque here, so nothing further is stated.
#[verifier::external_body]
pub fn duration_as_secs(d: &core::time::Duration) -> u64 {
    d.as_secs()
}

/// Clamp a clock reading into the signed range the cookie record carries.
pub fn clamp_epoch_secs(secs: u64) -> (r: i64)
    ensures
        r == clamped_epoch(secs),
{
    if secs > i64::MAX as u64 {
        i64::MAX
    } else {
        secs as i64
    }
}

/// The signed seconds-since-epoch value that stands for a raw clock reading.
pub open spec fn clamped_epoch(secs: u64) -> i64 {
    if secs > i64::MAX { i64::MAX } else { secs as i64 }
}

} // verus!
