//! String helpers shared across the crate, and filename sanitizing for
//! callers that persist a favicon to disk.

use vstd::prelude::*;
use vstd::string::*;

verus! {

/// Character-for-character equality of two string slices.
pub fn str_eq(a: &str, b: &str) -> (r: bool)
    ensures
        r == (a@ == b@),
{
    let n = a.unicode_len();
    let m = b.unicode_len();
    if n != m {
        return false;
    }
    let mut i: usize = 0;
    while i < n
        invariant
            i <= n,
            n == a@.len(),
            n == b@.len(),
            forall|j: int| 0 <= j < i ==> a@[j] == b@[j],
        decreases n - i,
    {
        if a.get_char(i) != b.get_char(i) {
            return false;
        }
        i = i + 1;
    }
    proof {
        assert(a@ =~= b@);
    }
    true
}

/// Whether `p` occurs in `s` starting at position `off`.
pub open spec fn starts_with_at(s: Seq<char>, p: Seq<char>, off: int) -> bool {
    &&& 0 <= off
    &&& off + p.len() <= s.len()
    &&& s.subrange(off, off + p.len() as int) == p
}

/// Tests whether `p` occurs in `s` at position `off`.
pub fn has_prefix_at(s: &str, p: &str, off: usize) -> (r: bool)
    requires
        off <= s@.len(),
    ensures
        r == starts_with_at(s@, p@, off as int),
{
    let n = s.unicode_len();
    let m = p.unicode_len();
    if m > n - off {
        return false;
    }
    let mut j: usize = 0;
    while j < m
        invariant
            j <= m,
            off + m <= n,
            n == s@.len(),
            m == p@.len(),
            forall|k: int| 0 <= k < j ==> s@[off + k] == p@[k],
        decreases m - j,
    {
        if s.get_char(off + j) != p.get_char(j) {
            assert(s@.subrange(off as int, off + p@.len() as int)[j as int] != p@[j as int]);
            return false;
        }
        j = j + 1;
    }
    proof {
        assert(s@.subrange(off as int, off + p@.len() as int) =~= p@);
    }
    true
}

// ---------------------------------------------------------------------------
// Filename sanitizing for persisted favicons.
// ---------------------------------------------------------------------------

/// `s` with every non-overlapping occurrence of `from` replaced by `to`,
/// scanning left to right.
pub open spec fn replace_all(s: Seq<char>, from: Seq<char>, to: Seq<char>) -> Seq<char>
    decreases s.len(),
{
    if from.len() == 0 {
        s
    } else if s.len() < from.len() {
        s
    } else if s.take(from.len() as int) == from {
        to + replace_all(s.skip(from.len() as int), from, to)
    } else {
        s.take(1) + replace_all(s.skip(1), from, to)
    }
}

/// Relies on `str::replace`: replaces every non-overlapping occurrence of the
/// pattern, scanning left to right.
#[verifier::external_body]
fn replace_str(s: &str, from: &str, to: &str) -> (r: String)
    requires
        from@.len() > 0,
    ensures
        r@ == replace_all(s@, from@, to@),
{
    s.replace(from, to)
}

/// The filename that sanitizing a name yields.
pub uninterp spec fn sanitized_of(name: Seq<char>) -> Seq<char>;

/// Relies on `sanitize_filename::sanitize_with_options`, with the options
/// fixed to posix rules, truncation and empty replacement: the result then
/// depends on the name alone, on every platform.
#[verifier::external_body]
fn sanitize_name(name: &str) -> (r: String)
    ensures
        r@ == sanitized_of(name@),
{
    sanitize_filename::sanitize_with_options(
        name,
        sanitize_filename::Options { windows: false, truncate: true, replacement: "" },
    )
}

/// Turns a site URL into a safe filename: scheme prefixes are removed
/// wherever they occur, and what remains is sanitized.
pub fn sanitize_website_filename(url: &str) -> (r: String)
    ensures
        r@ == sanitized_of(replace_all(replace_all(url@, "https://"@, ""@), "http://"@, ""@)),
{
    proof {
        reveal_strlit("https://");
        reveal_strlit("http://");
    }
    let stripped = replace_str(url, "https://", "");
    let stripped = replace_str(stripped.as_str(), "http://", "");
    sanitize_name(stripped.as_str())
}

} // verus!
