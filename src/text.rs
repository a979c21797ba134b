use vstd::prelude::*;
use vstd::string::*;

verus! {

/// The characters that surround a line of command output without being part
/// of it: ASCII white space.
pub open spec fn is_blank(c: char) -> bool {
    c == ' ' || c == '\t' || c == '\n' || c == '\r' || c == '\x0B' || c == '\x0C'
}

pub open spec fn trim_front(s: Seq<char>) -> Seq<char>
    decreases s.len(),
{
    if s.len() > 0 && is_blank(s[0]) {
        trim_front(s.drop_first())
    } else {
        s
    }
}

pub open spec fn trim_back(s: Seq<char>) -> Seq<char>
    decreases s.len(),
{
    if s.len() > 0 && is_blank(s.last()) {
        trim_back(s.drop_last())
    } else {
        s
    }
}

/// `s` without leading and trailing blanks.
pub open spec fn trimmed(s: Seq<char>) -> Seq<char> {
    trim_back(trim_front(s))
}

/// The parts laid end to end with `sep` between neighbours.
pub open spec fn joined(parts: Seq<Seq<char>>, sep: Seq<char>) -> Seq<char>
    decreases parts.len(),
{
    if parts.len() == 0 {
        Seq::empty()
    } else if parts.len() == 1 {
        parts[0]
    } else {
        joined(parts.drop_last(), sep) + sep + parts.last()
    }
}

/// `s` with every hyphen turned into an underscore, the way package names
/// become crate names in generated items.
pub open spec fn underscored(s: Seq<char>) -> Seq<char> {
    s.map_values(|c: char| if c == '-' { '_' } else { c })
}

/// The text of each string of a sequence.
pub open spec fn texts(v: Seq<String>) -> Seq<Seq<char>> {
    v.map_values(|s: String| s@)
}

fn is_blank_char(c: char) -> (r: bool)
    ensures
        r == is_blank(c),
{
    c == ' ' || c == '\t' || c == '\n' || c == '\r' || c == '\x0B' || c == '\x0C'
}

/// Copies `s` without its leading and trailing blanks.
pub fn trim(s: &str) -> (r: String)
    ensures
        r@ == trimmed(s@),
{
    let n = s.unicode_len();
    let mut i: usize = 0;
    assert(s@.subrange(0, n as int) =~= s@);
    while i < n && is_blank_char(s.get_char(i))
        invariant
            i <= n == s@.len(),
            trim_front(s@) == trim_front(s@.subrange(i as int, n as int)),
        decreases n - i,
    {
        assert(s@.subrange(i as int, n as int).drop_first() =~= s@.subrange(i + 1, n as int));
        i = i + 1;
    }
    assert(trim_front(s@.subrange(i as int, n as int)) == s@.subrange(i as int, n as int));
    let mut j: usize = n;
    while j > i && is_blank_char(s.get_char(j - 1))
        invariant
            i <= j <= n == s@.len(),
            trim_back(s@.subrange(i as int, n as int)) == trim_back(s@.subrange(i as int, j as int)),
        decreases j - i,
    {
        assert(s@.subrange(i as int, j as int).drop_last() =~= s@.subrange(i as int, j - 1));
        j = j - 1;
    }
    assert(trim_back(s@.subrange(i as int, j as int)) == s@.subrange(i as int, j as int));
    String::from_str(s.substring_char(i, j))
}

/// Lays the parts end to end with `sep` between neighbours.
pub fn join(parts: &Vec<String>, sep: &str) -> (r: String)
    ensures
        r@ == joined(texts(parts@), sep@),
{
    let mut r = String::new();
    let mut i: usize = 0;
    while i < parts.len()
        invariant
            i <= parts@.len(),
            r@ == joined(texts(parts@.subrange(0, i as int)), sep@),
        decreases parts@.len() - i,
    {
        let ghost before = texts(parts@.subrange(0, i as int));
        if i > 0 {
            r.append(sep);
        }
        r.append(parts[i].as_str());
        proof {
            let after = texts(parts@.subrange(0, i + 1));
            assert(after.drop_last() =~= before);
            if i == 0 {
                assert(before =~= Seq::<Seq<char>>::empty());
            }
        }
        i = i + 1;
    }
    assert(parts@.subrange(0, parts@.len() as int) =~= parts@);
    r
}

/// Copies `s` with every hyphen turned into an underscore.
pub fn underscore_hyphens(s: &str) -> (r: String)
    ensures
        r@ == underscored(s@),
{
    let n = s.unicode_len();
    let mut r = String::new();
    let mut i: usize = 0;
    while i < n
        invariant
            i <= n == s@.len(),
            r@ =~= underscored(s@.subrange(0, i as int)),
        decreases n - i,
    {
        if s.get_char(i) == '-' {
            r.append("_");
        } else {
            r.append(s.substring_char(i, i + 1));
        }
        proof {
            reveal_strlit("_");
            assert(underscored(s@.subrange(0, i + 1)) =~= underscored(s@.subrange(0, i as int))
                + underscored(s@.subrange(i as int, i + 1)));
        }
        i = i + 1;
    }
    assert(s@.subrange(0, n as int) =~= s@);
    r
}

} // verus!
