//! The version string of a package manifest.

use vstd::prelude::*;

verus! {

/// The text a version line starts with.
pub open spec fn version_key() -> Seq<char> {
    seq!['v', 'e', 'r', 's', 'i', 'o', 'n', ' ', '=', ' ']
}

/// End of the line that starts at `i`: the next newline, or the end of text.
pub open spec fn line_end(t: Seq<char>, i: int) -> int
    decreases t.len() - i,
{
    if i >= t.len() || i < 0 || t[i] == '\n' {
        i
    } else {
        line_end(t, i + 1)
    }
}

/// Position of the last quote in `t[a..b]`, or `a - 1` where there is none.
pub open spec fn last_quote(t: Seq<char>, a: int, b: int) -> int
    decreases b - a,
{
    if b <= a {
        a - 1
    } else if t[b - 1] == '"' {
        b - 1
    } else {
        last_quote(t, a, b - 1)
    }
}

/// The version that line `t[a..b]` gives: where it starts with the version
/// key and holds a quote, the text before its last quote, back to the quote
/// before that or to the line start.
pub open spec fn version_in_line(t: Seq<char>, a: int, b: int) -> Option<Seq<char>> {
    let q2 = last_quote(t, a, b);
    let q1 = last_quote(t, a, q2);
    if b - a >= version_key().len() && t.subrange(a, a + version_key().len()) == version_key()
        && q2 >= a {
        Some(t.subrange(q1 + 1, q2))
    } else {
        None
    }
}

/// The version of the first version line at or after line start `i`.
pub open spec fn version_from(t: Seq<char>, i: int) -> Option<Seq<char>>
    decreases t.len() - i,
{
    if i < 0 || i > t.len() {
        None
    } else {
        let e = line_end(t, i);
        match version_in_line(t, i, e) {
            Some(v) => Some(v),
            None => if i <= e < t.len() {
                version_from(t, e + 1)
            } else {
                None
            },
        }
    }
}

pub open spec fn unknown_version() -> Seq<char> {
    seq!['u', 'n', 'k', 'n', 'o', 'w', 'n', '_', 'v', 'e', 'r', 's', 'i', 'o', 'n']
}

proof fn lemma_line_end_bounds(t: Seq<char>, i: int)
    requires
        0 <= i <= t.len(),
    ensures
        i <= line_end(t, i) <= t.len(),
    decreases t.len() - i,
{
    if i < t.len() && t[i] != '\n' {
        lemma_line_end_bounds(t, i + 1);
    }
}

proof fn lemma_last_quote_bounds(t: Seq<char>, a: int, b: int)
    ensures
        a - 1 <= last_quote(t, a, b) < if b > a { b } else { a },
    decreases b - a,
{
    if b > a && t[b - 1] != '"' {
        lemma_last_quote_bounds(t, a, b - 1);
    }
}

fn find_line_end(s: &str, i: usize, n: usize) -> (e: usize)
    requires
        n == s@.len(),
        i <= n,
    ensures
        e as int == line_end(s@, i as int),
{
    let mut e = i;
    proof {
        lemma_line_end_bounds(s@, i as int);
    }
    while e < n && s.get_char(e) != '\n'
        invariant
            i <= e <= n,
            n == s@.len(),
            line_end(s@, i as int) == line_end(s@, e as int),
        decreases n - e,
    {
        e = e + 1;
    }
    e
}

/// Position of the last quote in `s[a..b]`, or `None`.
fn find_last_quote(s: &str, a: usize, b: usize) -> (r: Option<usize>)
    requires
        a <= b <= s@.len(),
    ensures
        r matches Some(q) ==> q as int == last_quote(s@, a as int, b as int) && a <= q < b,
        r is None ==> last_quote(s@, a as int, b as int) == a - 1,
{
    let mut k = b;
    while k > a
        invariant
            a <= k <= b,
            b <= s@.len(),
            last_quote(s@, a as int, b as int) == last_quote(s@, a as int, k as int),
        decreases k,
    {
        if s.get_char(k - 1) == '"' {
            return Some(k - 1);
        }
        k = k - 1;
    }
    None
}

fn starts_with_key(s: &str, a: usize, b: usize) -> (r: bool)
    requires
        a <= b <= s@.len(),
    ensures
        r == (b - a >= version_key().len() && s@.subrange(a as int, a + version_key().len())
            == version_key()),
{
    let key = "version = ";
    proof {
        reveal_strlit("version = ");
    }
    assert(key@ == version_key());
    let m = key.unicode_len();
    if b - a < m {
        return false;
    }
    let mut k: usize = 0;
    while k < m
        invariant
            k <= m,
            m == version_key().len(),
            key@ == version_key(),
            a + m <= b <= s@.len(),
            forall|j: int| 0 <= j < k ==> s@[a + j] == version_key()[j],
        decreases m - k,
    {
        if s.get_char(a + k) != key.get_char(k) {
            assert(s@.subrange(a as int, a + m)[k as int] != version_key()[k as int]);
            return false;
        }
        k = k + 1;
    }
    assert(s@.subrange(a as int, a + m) =~= version_key());
    true
}

/// The version that a package manifest declares: from the first line that
/// starts with `version = ` and holds a quote, the text before the last
/// quote back to the quote before it (the quoted value of `version = "x"`);
/// `unknown_version` where no line does.
pub fn get_version(manifest: &str) -> (r: String)
    ensures
        r@ == (match version_from(manifest@, 0) {
            Some(v) => v,
            None => unknown_version(),
        }),
{
    let t = Ghost(manifest@);
    let n = manifest.unicode_len();
    let mut i: usize = 0;
    while i <= n
        invariant
            i <= n,
            n == t@.len(),
            t@ == manifest@,
            version_from(t@, 0) == version_from(t@, i as int),
        ensures
            version_from(t@, 0) is None,
        decreases n + 1 - i,
    {
        let e = find_line_end(manifest, i, n);
        proof {
            lemma_line_end_bounds(t@, i as int);
        }
        if starts_with_key(manifest, i, e) {
            if let Some(q2) = find_last_quote(manifest, i, e) {
                proof {
                    lemma_last_quote_bounds(t@, i as int, e as int);
                    lemma_last_quote_bounds(t@, i as int, q2 as int);
                }
                let start = match find_last_quote(manifest, i, q2) {
                    Some(q1) => q1 + 1,
                    None => i,
                };
                let v = manifest.substring_char(start, q2);
                return String::from_str(v);
            }
        }
        assert(version_in_line(t@, i as int, e as int) is None);
        if e >= n {
            assert(version_from(t@, i as int) is None);
            break;
        }
        i = e + 1;
    }
    proof {
        reveal_strlit("unknown_version");
    }
    let unknown = "unknown_version";
    assert(unknown@ == unknown_version());
    String::from_str(unknown)
}

} // verus!
