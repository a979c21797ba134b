use vstd::prelude::*;
use vstd::string::*;

use crate::error::BuildError;
use crate::text::{texts, trim, trimmed};

verus! {

/// The first line of a command's output that holds more than blanks, trimmed.
pub open spec fn first_nonblank(lines: Seq<Seq<char>>) -> Option<Seq<char>>
    decreases lines.len(),
{
    if lines.len() == 0 {
        None
    } else if trimmed(lines[0]).len() > 0 {
        Some(trimmed(lines[0]))
    } else {
        first_nonblank(lines.drop_first())
    }
}

pub open spec fn is_digit(c: char) -> bool {
    '0' <= c && c <= '9'
}

/// A character of a commit hash as the compiler prints it.
pub open spec fn is_hash_char(c: char) -> bool {
    ('0' <= c && c <= '9') || ('a' <= c && c <= 'z') || ('A' <= c && c <= 'Z')
}

/// `s` is a compiler version report `TOOL VERSION (HASH YYYY-MM-DD)` whose
/// three spaces stand at `a`, `b` and `c`: the tool name is `s[..a]`, the
/// version `s[a+1..b]`, the commit hash `s[b+2..c]` and the date `s[c+1..c+11]`.
pub open spec fn version_line_at(s: Seq<char>, a: int, b: int, c: int) -> bool {
    &&& 0 < a && a + 1 < b && b + 2 < c && s.len() == c + 12
    &&& s[a] == ' ' && s[b] == ' ' && s[b + 1] == '(' && s[c] == ' '
    &&& forall|k: int| 0 <= k < s.len() && s[k] == ' ' ==> k == a || k == b || k == c
    &&& forall|k: int| b + 2 <= k < c ==> is_hash_char(#[trigger] s[k])
    &&& forall|k: int|
        (c + 1 <= k < c + 5 || c + 6 <= k < c + 8 || c + 9 <= k < c + 11) ==> is_digit(
            #[trigger] s[k],
        )
    &&& s[c + 5] == '-' && s[c + 8] == '-' && s[c + 11] == ')'
}

pub open spec fn is_version_line(s: Seq<char>) -> bool {
    exists|a: int, b: int, c: int| version_line_at(s, a, b, c)
}

/// The suffix of a version report laid out at `a`, `b`, `c`: the date's
/// digits, the version and the commit hash, joined by hyphens.
pub open spec fn suffix_at(s: Seq<char>, a: int, b: int, c: int) -> Seq<char> {
    s.subrange(c + 1, c + 5) + s.subrange(c + 6, c + 8) + s.subrange(c + 9, c + 11) + seq!['-']
        + s.subrange(a + 1, b) + seq!['-'] + s.subrange(b + 2, c)
}

/// The resource suffix for a compiler version report, where `s` is one.
pub open spec fn resource_suffix(s: Seq<char>) -> Option<Seq<char>> {
    if is_version_line(s) {
        let (a, b, c) = choose|a: int, b: int, c: int| version_line_at(s, a, b, c);
        Some(suffix_at(s, a, b, c))
    } else {
        None
    }
}

/// A version report has one layout only.
pub proof fn lemma_version_line_unique(s: Seq<char>, a: int, b: int, c: int, x: int, y: int, z: int)
    requires
        version_line_at(s, a, b, c),
        version_line_at(s, x, y, z),
    ensures
        a == x && b == y && c == z,
{
}

/// The resource suffix of a version report, through its one layout.
pub proof fn lemma_resource_suffix_at(s: Seq<char>, a: int, b: int, c: int)
    requires
        version_line_at(s, a, b, c),
    ensures
        resource_suffix(s) == Some(suffix_at(s, a, b, c)),
{
    let (x, y, z) = choose|x: int, y: int, z: int| version_line_at(s, x, y, z);
    lemma_version_line_unique(s, a, b, c, x, y, z);
}

/// The tool name that opens a version report.
pub open spec fn tool_name(s: Seq<char>) -> Seq<char> {
    let (a, b, c) = choose|a: int, b: int, c: int| version_line_at(s, a, b, c);
    s.subrange(0, a)
}

/// Every version report has a resource suffix, and it is never empty.
pub proof fn lemma_resource_suffix_nonempty(s: Seq<char>)
    requires
        is_version_line(s),
    ensures
        resource_suffix(s) is Some,
        resource_suffix(s)->0.len() > 0,
{
}

/// Two different version reports of one tool get different resource
/// suffixes: the suffix keeps the version, the commit hash and the date.
pub proof fn lemma_resource_suffix_distinguishes(s1: Seq<char>, s2: Seq<char>)
    requires
        is_version_line(s1),
        is_version_line(s2),
        tool_name(s1) == tool_name(s2),
        s1 != s2,
    ensures
        resource_suffix(s1) != resource_suffix(s2),
{
    let (a, b, c) = choose|a: int, b: int, c: int| version_line_at(s1, a, b, c);
    let (x, y, z) = choose|x: int, y: int, z: int| version_line_at(s2, x, y, z);
    if resource_suffix(s1) == resource_suffix(s2) {
        let u = suffix_at(s1, a, b, c);
        let w = suffix_at(s2, x, y, z);
        assert(u == w);
        assert(a == x) by {
            assert(s1.subrange(0, a).len() == s2.subrange(0, x).len());
        }
        // The hash follows the last hyphen of the suffix, so it has one length.
        assert(c - b == z - y) by {
            if c - b < z - y {
                let p = u.len() - (c - b - 2) - 1;
                assert(u[p] == '-');
                assert(w[p] == s2[p - (u.len() - (z - y - 2)) + y + 2]);
                assert(is_hash_char(w[p]));
            } else if z - y < c - b {
                let p = w.len() - (z - y - 2) - 1;
                assert(w[p] == '-');
                assert(u[p] == s1[p - (w.len() - (c - b - 2)) + b + 2]);
                assert(is_hash_char(u[p]));
            }
        }
        assert(b == y && c == z);
        assert forall|k: int| 0 <= k < s1.len() implies s1[k] == s2[k] by {
            if k < a {
                assert(s1.subrange(0, a)[k] == s2.subrange(0, x)[k]);
            } else if a < k < b {
                assert(u[9 + k - a - 1] == s1[k]);
                assert(w[9 + k - a - 1] == s2[k]);
            } else if b + 1 < k < c {
                assert(u[10 + (b - a - 1) + k - b - 2] == s1[k]);
                assert(w[10 + (b - a - 1) + k - b - 2] == s2[k]);
            } else if c < k < c + 5 {
                assert(u[k - c - 1] == s1[k]);
                assert(w[k - c - 1] == s2[k]);
            } else if c + 5 < k < c + 8 {
                assert(u[k - c - 2] == s1[k]);
                assert(w[k - c - 2] == s2[k]);
            } else if c + 8 < k < c + 11 {
                assert(u[k - c - 3] == s1[k]);
                assert(w[k - c - 3] == s2[k]);
            }
        }
        assert(s1 =~= s2);
    }
}

/// Picks the first line of the compiler's output that holds more than
/// blanks, trimmed; fails when there is none.
pub fn first_output_line(lines: &Vec<String>) -> (r: Result<String, BuildError>)
    ensures
        match r {
            Ok(line) => first_nonblank(texts(lines@)) == Some(line@),
            Err(e) => first_nonblank(texts(lines@)) is None && e is Probe,
        },
{
    let mut i: usize = 0;
    assert(texts(lines@).subrange(0, lines@.len() as int) =~= texts(lines@));
    while i < lines.len()
        invariant
            i <= lines@.len(),
            first_nonblank(texts(lines@)) == first_nonblank(
                texts(lines@).subrange(i as int, lines@.len() as int),
            ),
        decreases lines@.len() - i,
    {
        let t = trim(lines[i].as_str());
        let ghost rest = texts(lines@).subrange(i as int, lines@.len() as int);
        assert(rest[0] == lines@[i as int]@);
        if t.unicode_len() > 0 {
            return Ok(t);
        }
        assert(rest.drop_first() =~= texts(lines@).subrange(i + 1, lines@.len() as int));
        i = i + 1;
    }
    Err(BuildError::Probe("the compiler printed no version line".to_owned()))
}

fn digits_between(s: &str, from: usize, to: usize) -> (r: bool)
    requires
        from <= to <= s@.len(),
    ensures
        r == forall|k: int| from <= k < to ==> is_digit(#[trigger] s@[k]),
{
    let mut i: usize = from;
    while i < to
        invariant
            from <= i <= to <= s@.len(),
            forall|k: int| from <= k < i ==> is_digit(#[trigger] s@[k]),
        decreases to - i,
    {
        let ch = s.get_char(i);
        if !('0' <= ch && ch <= '9') {
            return false;
        }
        i = i + 1;
    }
    true
}

fn hash_between(s: &str, from: usize, to: usize) -> (r: bool)
    requires
        from <= to <= s@.len(),
    ensures
        r == forall|k: int| from <= k < to ==> is_hash_char(#[trigger] s@[k]),
{
    let mut i: usize = from;
    while i < to
        invariant
            from <= i <= to <= s@.len(),
            forall|k: int| from <= k < i ==> is_hash_char(#[trigger] s@[k]),
        decreases to - i,
    {
        let ch = s.get_char(i);
        if !(('0' <= ch && ch <= '9') || ('a' <= ch && ch <= 'z') || ('A' <= ch && ch <= 'Z')) {
            return false;
        }
        i = i + 1;
    }
    true
}

/// Whether the report, whose only spaces stand at `a < b < c`, has the
/// layout of a version report there.
fn laid_out_at(s: &str, a: usize, b: usize, c: usize) -> (r: bool)
    requires
        a < b < c < s@.len(),
        s@[a as int] == ' ' && s@[b as int] == ' ' && s@[c as int] == ' ',
        forall|k: int| 0 <= k < s@.len() && s@[k] == ' ' ==> k == a || k == b || k == c,
    ensures
        r == version_line_at(s@, a as int, b as int, c as int),
{
    let n = s.unicode_len();
    if !(0 < a && a + 1 < b && b + 2 < c && n >= 12 && c == n - 12) {
        return false;
    }
    if !(s.get_char(b + 1) == '(' && s.get_char(c + 5) == '-' && s.get_char(c + 8) == '-'
        && s.get_char(c + 11) == ')') {
        return false;
    }
    let hash = hash_between(s, b + 2, c);
    let year = digits_between(s, c + 1, c + 5);
    let month = digits_between(s, c + 6, c + 8);
    let day = digits_between(s, c + 9, c + 11);
    hash && year && month && day
}

/// Turns the compiler's version report into the suffix that keeps the
/// static files of documentation built by different compilers apart:
/// `rustc 1.10.0-nightly (57ef01513 2016-05-23)` gives
/// `20160523-1.10.0-nightly-57ef01513`.
pub fn parse_rustc_version(version: &str) -> (r: Result<String, BuildError>)
    ensures
        match r {
            Ok(suffix) => resource_suffix(version@) == Some(suffix@),
            Err(e) => resource_suffix(version@) is None && e is Probe,
        },
{
    let s = version;
    let n = s.unicode_len();
    let mut count: usize = 0;
    let mut a: usize = 0;
    let mut b: usize = 0;
    let mut c: usize = 0;
    let mut d: usize = 0;
    let mut i: usize = 0;
    while i < n
        invariant
            i <= n == s@.len(),
            count <= 4,
            count >= 1 ==> a < i && s@[a as int] == ' ',
            count >= 2 ==> a < b < i && s@[b as int] == ' ',
            count >= 3 ==> b < c < i && s@[c as int] == ' ',
            count >= 4 ==> c < d < i && s@[d as int] == ' ',
            forall|k: int|
                0 <= k < i && s@[k] == ' ' ==> (count >= 1 && k == a) || (count >= 2 && k == b)
                    || (count >= 3 && k == c) || count >= 4,
        decreases n - i,
    {
        if s.get_char(i) == ' ' {
            if count == 0 {
                a = i;
            } else if count == 1 {
                b = i;
            } else if count == 2 {
                c = i;
            } else if count == 3 {
                d = i;
            }
            if count < 4 {
                count = count + 1;
            }
        }
        i = i + 1;
    }
    if count != 3 {
        proof {
            if is_version_line(s@) {
                let (x, y, z) = choose|x: int, y: int, z: int| version_line_at(s@, x, y, z);
                assert(s@[x] == ' ' && s@[y] == ' ' && s@[z] == ' ');
                if count == 4 {
                    assert(s@[a as int] == ' ' && s@[b as int] == ' ');
                    assert(s@[c as int] == ' ' && s@[d as int] == ' ');
                }
            }
        }
        return Err(BuildError::Probe("the compiler's version report has an unknown shape".to_owned()));
    }
    if !laid_out_at(s, a, b, c) {
        proof {
            if is_version_line(s@) {
                let (x, y, z) = choose|x: int, y: int, z: int| version_line_at(s@, x, y, z);
                assert(s@[x] == ' ' && s@[y] == ' ' && s@[z] == ' ');
                assert(s@[a as int] == ' ' && s@[b as int] == ' ' && s@[c as int] == ' ');
            }
        }
        return Err(BuildError::Probe("the compiler's version report has an unknown shape".to_owned()));
    }
    proof {
        lemma_resource_suffix_at(s@, a as int, b as int, c as int);
        reveal_strlit("-");
    }
    let mut r = String::from_str(s.substring_char(c + 1, c + 5));
    r.append(s.substring_char(c + 6, c + 8));
    r.append(s.substring_char(c + 9, c + 11));
    r.append("-");
    r.append(s.substring_char(a + 1, b));
    r.append("-");
    r.append(s.substring_char(b + 2, c));
    assert(r@ =~= suffix_at(s@, a as int, b as int, c as int));
    Ok(r)
}

} // verus!
