//! Route patterns and the paths they accept.
//!
//! Whether a pattern accepts a path is not decided here: it is asked of
//! `matchit`, the matcher that the HTTP router is built on, so that this
//! crate and the server agree on every pattern. What this module adds is
//! the one guard the matcher needs: it panics on a pattern with more than
//! twenty-five parameters, so such a pattern is never handed to it and
//! accepts nothing.

use vstd::prelude::*;
use vstd::string::StrSliceExecFns;

verus! {

/// The most parameters a pattern may hold.
pub const MAX_PARAMETERS: usize = 25;

/// What `matchit` answers for one pattern and one path: whether a matcher
/// that holds `pattern` as its only route, if it takes the pattern at all,
/// finds it for `path`.
pub uninterp spec fn matcher_accepts(pattern: Seq<char>, path: Seq<char>) -> bool;

/// How many of the first `n` characters of `s` are colons. Every parameter
/// of a pattern begins with one.
pub open spec fn colons(s: Seq<char>, n: int) -> int
    decreases n,
{
    if n <= 0 {
        0
    } else {
        colons(s, n - 1) + if s[n - 1] == ':' {
            1int
        } else {
            0int
        }
    }
}

/// Whether `pattern` is one the matcher can be asked about.
pub open spec fn admissible(pattern: Seq<char>) -> bool {
    colons(pattern, pattern.len() as int) <= MAX_PARAMETERS
}

/// Whether `pattern` accepts `path`: the pattern is admissible and the
/// matcher accepts the path for it.
pub open spec fn accepts(pattern: Seq<char>, path: Seq<char>) -> bool {
    admissible(pattern) && matcher_accepts(pattern, path)
}

/// Asks `matchit` whether `pattern`, as the only route of a fresh
/// `Router`, is found for `path`: `insert` must take the pattern and `at`
/// must find a route. The answer depends on the two texts alone. `insert`
/// panics where a pattern holds more than twenty-five parameters, each of
/// which begins with a colon; the precondition keeps those out.
#[verifier::external_body]
fn ask_matcher(pattern: &str, path: &str) -> (r: bool)
    requires
        admissible(pattern@),
    ensures
        r == matcher_accepts(pattern@, path@),
{
    let mut matcher = matchit::Router::new();
    matcher.insert(pattern, ()).is_ok() && matcher.at(path).is_ok()
}

/// Decides whether `pattern` is one the matcher can be asked about.
pub fn is_admissible(pattern: &str) -> (r: bool)
    ensures
        r == admissible(pattern@),
{
    let n: usize = pattern.unicode_len();
    let mut found: usize = 0;
    let mut i: usize = 0;
    while i < n
        invariant
            i <= n,
            n == pattern@.len(),
            found == colons(pattern@, i as int),
            found <= i,
        decreases n - i,
    {
        if pattern.get_char(i) == ':' {
            found += 1;
        }
        i += 1;
    }
    found <= MAX_PARAMETERS
}

/// Decides whether `pattern` accepts `path`.
pub fn route_accepts(pattern: &str, path: &str) -> (r: bool)
    ensures
        r == accepts(pattern@, path@),
{
    if is_admissible(pattern) {
        ask_matcher(pattern, path)
    } else {
        false
    }
}

} // verus!
