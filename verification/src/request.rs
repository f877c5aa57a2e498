//! Request-line parsing: extracting the request target from a raw request.
//!
//! The request text is split on whitespace; the second token is the
//! request target (the first is the method, which is never inspected),
//! defaulting to `/` when no second token exists.  The target is split on
//! the first `?` into a path, which is percent-decoded, and a raw query
//! string, which is kept as-is.  Malformed input never fails: it only
//! degrades to the defaults.

use vstd::prelude::*;
use vstd::string::StrSliceExecFns;
use vstd::string::StringExecFns;
use crate::percent::percent_decode;
use crate::percent::spec_percent_decode;

verus! {

/// True for the characters that `str::split_whitespace` splits on:
/// the code points with the Unicode `White_Space` property.
pub open spec fn is_space_char(c: char) -> bool {
    ||| c == '\t'
    ||| c == '\n'
    ||| c == '\u{b}'
    ||| c == '\u{c}'
    ||| c == '\r'
    ||| c == ' '
    ||| c == '\u{85}'
    ||| c == '\u{a0}'
    ||| c == '\u{1680}'
    ||| ('\u{2000}' <= c && c <= '\u{200a}')
    ||| c == '\u{2028}'
    ||| c == '\u{2029}'
    ||| c == '\u{202f}'
    ||| c == '\u{205f}'
    ||| c == '\u{3000}'
}

fn space_char(c: char) -> (r: bool)
    ensures
        r == is_space_char(c),
{
    c == '\t' || c == '\n' || c == '\u{b}' || c == '\u{c}' || c == '\r' || c == ' '
        || c == '\u{85}' || c == '\u{a0}' || c == '\u{1680}'
        || ('\u{2000}' <= c && c <= '\u{200a}') || c == '\u{2028}' || c == '\u{2029}'
        || c == '\u{202f}' || c == '\u{205f}' || c == '\u{3000}'
}

/// The first index at or after `i` holding a non-whitespace character,
/// or the length when only whitespace remains.
pub open spec fn next_non_space(s: Seq<char>, i: int) -> int
    decreases s.len() - i,
{
    if i < 0 || i >= s.len() {
        s.len() as int
    } else if is_space_char(s[i]) {
        next_non_space(s, i + 1)
    } else {
        i
    }
}

/// The first index at or after `i` holding a whitespace character,
/// or the length when no whitespace follows.
pub open spec fn next_space(s: Seq<char>, i: int) -> int
    decreases s.len() - i,
{
    if i < 0 || i >= s.len() {
        s.len() as int
    } else if is_space_char(s[i]) {
        i
    } else {
        next_space(s, i + 1)
    }
}

/// The first index at or after `i` holding `c`, or the length.
pub open spec fn find_char(s: Seq<char>, i: int, c: char) -> int
    decreases s.len() - i,
{
    if i < 0 || i >= s.len() {
        s.len() as int
    } else if s[i] == c {
        i
    } else {
        find_char(s, i + 1, c)
    }
}

/// The second whitespace-delimited token of `s`, or `/` when `s` has
/// fewer than two tokens.
pub open spec fn spec_request_target(s: Seq<char>) -> Seq<char> {
    let a = next_non_space(s, 0);
    let b = next_space(s, a);
    let c = next_non_space(s, b);
    let d = next_space(s, c);
    if c < s.len() {
        s.subrange(c, d)
    } else {
        seq!['/']
    }
}

/// The part of the target before its first `?`.
pub open spec fn spec_target_path(t: Seq<char>) -> Seq<char> {
    t.subrange(0, find_char(t, 0, '?'))
}

/// The part of the target after its first `?`, kept opaque and
/// unparsed, or empty when the target has no `?` at all.
pub open spec fn spec_target_query(t: Seq<char>) -> Seq<char> {
    let q = find_char(t, 0, '?');
    if q == t.len() {
        Seq::empty()
    } else {
        t.subrange(q + 1, t.len() as int)
    }
}

fn scan_non_space(s: &str, from: usize, n: usize) -> (r: usize)
    requires
        from <= n,
        n == s@.len(),
    ensures
        r == next_non_space(s@, from as int),
        from <= r <= n,
{
    let mut i: usize = from;
    while i < n
        invariant
            from <= i <= n,
            n == s@.len(),
            next_non_space(s@, from as int) == next_non_space(s@, i as int),
        decreases n - i,
    {
        if !space_char(s.get_char(i)) {
            return i;
        }
        i = i + 1;
    }
    i
}

fn scan_space(s: &str, from: usize, n: usize) -> (r: usize)
    requires
        from <= n,
        n == s@.len(),
    ensures
        r == next_space(s@, from as int),
        from <= r <= n,
{
    let mut i: usize = from;
    while i < n
        invariant
            from <= i <= n,
            n == s@.len(),
            next_space(s@, from as int) == next_space(s@, i as int),
        decreases n - i,
    {
        if space_char(s.get_char(i)) {
            return i;
        }
        i = i + 1;
    }
    i
}

fn scan_char(s: &str, from: usize, n: usize, c: char) -> (r: usize)
    requires
        from <= n,
        n == s@.len(),
    ensures
        r == find_char(s@, from as int, c),
        from <= r <= n,
{
    let mut i: usize = from;
    while i < n
        invariant
            from <= i <= n,
            n == s@.len(),
            find_char(s@, from as int, c) == find_char(s@, i as int, c),
        decreases n - i,
    {
        if s.get_char(i) == c {
            return i;
        }
        i = i + 1;
    }
    i
}

/// Splits the request target out of the raw request text and returns the
/// percent-decoded path together with the raw, uninterpreted query string.
pub fn parse_request(request: String) -> (r: (String, String))
    ensures
        r.0@ == spec_percent_decode(spec_target_path(spec_request_target(request@))),
        r.1@ == spec_target_query(spec_request_target(request@)),
{
    let s = request.as_str();
    let n = s.unicode_len();
    let a = scan_non_space(s, 0, n);
    let b = scan_space(s, a, n);
    let c = scan_non_space(s, b, n);
    let d = scan_space(s, c, n);
    let target: &str = if c < n {
        s.substring_char(c, d)
    } else {
        "/"
    };
    proof {
        reveal_strlit("/");
        assert("/"@ =~= seq!['/']);
        assert(target@ == spec_request_target(request@));
    }
    let tn = target.unicode_len();
    let q = scan_char(target, 0, tn, '?');
    let path = target.substring_char(0, q);
    let decoded = percent_decode(path);
    let query: String = if q < tn {
        String::from_str(target.substring_char(q + 1, tn))
    } else {
        String::new()
    };
    (decoded, query)
}

/// The request-line parser under the name its other entry point uses;
/// it behaves exactly as `parse_request` does.
pub fn parse_uri(request: String) -> (r: (String, String))
    ensures
        r.0@ == spec_percent_decode(spec_target_path(spec_request_target(request@))),
        r.1@ == spec_target_query(spec_request_target(request@)),
{
    parse_request(request)
}

/// Prefixes the decoded request path with the working-directory marker:
/// the local filesystem path is the plain string `"." + path`.
pub fn local_path_of(path: &str) -> (r: String)
    ensures
        r@ == seq!['.'] + path@,
{
    proof {
        reveal_strlit(".");
    }
    let dot = String::from_str(".");
    proof {
        assert(dot@ =~= seq!['.']);
    }
    dot.concat(path)
}

} // verus!
