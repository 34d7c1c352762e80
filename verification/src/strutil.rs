//! Verified text utilities over character sequences: substring search,
//! splitting on a separator, line splitting, whitespace trimming and
//! joining. These carry the report's only parsing work, the scan of the
//! PCI listing.

use vstd::prelude::*;

verus! {

/// Index of the first occurrence of `sep` in `s`, or `s.len()` if `sep`
/// does not occur.
pub open spec fn first_index(s: Seq<char>, sep: char) -> int
    decreases s.len(),
{
    if s.len() == 0 {
        0
    } else if s[0] == sep {
        0
    } else {
        1 + first_index(s.drop_first(), sep)
    }
}

pub proof fn lemma_first_index(s: Seq<char>, sep: char)
    ensures
        0 <= first_index(s, sep) <= s.len(),
        first_index(s, sep) < s.len() ==> s[first_index(s, sep)] == sep,
        forall|k: int| 0 <= k < first_index(s, sep) ==> s[k] != sep,
    decreases s.len(),
{
    if s.len() == 0 {
    } else if s[0] == sep {
    } else {
        lemma_first_index(s.drop_first(), sep);
        assert forall|k: int| 0 <= k < first_index(s, sep) implies s[k] != sep by {
            if k > 0 {
                assert(s.drop_first()[k - 1] == s[k]);
            }
        }
    }
}

/// `first_index` is pinned down by its characteristic properties.
pub proof fn lemma_first_index_is(s: Seq<char>, sep: char, j: int)
    requires
        0 <= j <= s.len(),
        j < s.len() ==> s[j] == sep,
        forall|k: int| 0 <= k < j ==> s[k] != sep,
    ensures
        first_index(s, sep) == j,
{
    lemma_first_index(s, sep);
    let i = first_index(s, sep);
    if i < j {
        assert(s[i] == sep);
        assert(false);
    } else if i > j {
        assert(s[j] != sep);
        assert(false);
    }
}

/// The pieces of `s` between occurrences of `sep`, in order. There is
/// always at least one piece; `n` separators give `n + 1` pieces, so
/// adjacent separators give empty pieces.
pub open spec fn split_seq(s: Seq<char>, sep: char) -> Seq<Seq<char>>
    decreases s.len(),
{
    let i = first_index(s, sep);
    if 0 <= i < s.len() {
        seq![s.subrange(0, i)] + split_seq(s.subrange(i + 1, s.len() as int), sep)
    } else {
        seq![s]
    }
}

/// Finds the first occurrence of `sep` in `s` at or after `from`, or
/// returns the length if there is none.
pub fn find_char_from(s: &str, from: usize, sep: char) -> (j: usize)
    requires
        from <= s@.len(),
    ensures
        from <= j <= s@.len(),
        j < s@.len() ==> s@[j as int] == sep,
        forall|k: int| from <= k < j ==> s@[k] != sep,
{
    let n: usize = s.unicode_len();
    let mut j: usize = from;
    while j < n
        invariant
            from <= j <= n,
            n == s@.len(),
            forall|k: int| from <= k < j ==> s@[k] != sep,
        decreases n - j,
    {
        if s.get_char(j) == sep {
            return j;
        }
        j = j + 1;
    }
    j
}

/// Splits `s` on `sep`.
pub fn split_str(s: &str, sep: char) -> (r: Vec<String>)
    ensures
        r@.map_values(|p: String| p@) == split_seq(s@, sep),
    decreases s@.len(),
{
    let n: usize = s.unicode_len();
    let j: usize = find_char_from(s, 0, sep);
    proof {
        lemma_first_index_is(s@, sep, j as int);
    }
    if j < n {
        let head = s.substring_char(0, j).to_owned();
        let tail = s.substring_char(j + 1, n);
        let mut r = split_str(tail, sep);
        r.insert(0, head);
        proof {
            assert(r@.map_values(|p: String| p@) =~= split_seq(s@, sep));
        }
        r
    } else {
        let mut r: Vec<String> = Vec::new();
        r.push(s.to_owned());
        proof {
            assert(r@.map_values(|p: String| p@) =~= split_seq(s@, sep));
        }
        r
    }
}

/// Does `s` contain `pat` as a contiguous substring?
pub open spec fn contains_seq(s: Seq<char>, pat: Seq<char>) -> bool {
    exists|i: int|
        0 <= i && i + pat.len() <= s.len() && #[trigger] s.subrange(i, i + pat.len() as int) == pat
}

/// Compares `pat` against `s` at position `i`.
fn matches_at(s: &str, pat: &str, i: usize) -> (r: bool)
    requires
        i + pat@.len() <= s@.len(),
    ensures
        r == (s@.subrange(i as int, i + pat@.len() as int) == pat@),
{
    let n: usize = s.unicode_len();
    let m: usize = pat.unicode_len();
    let mut j: usize = 0;
    while j < m
        invariant
            j <= m,
            n == s@.len(),
            m == pat@.len(),
            i + m <= n,
            forall|t: int| 0 <= t < j ==> s@[i + t] == pat@[t],
        decreases m - j,
    {
        if s.get_char(i + j) != pat.get_char(j) {
            proof {
                assert(s@.subrange(i as int, i + m as int)[j as int] == s@[i + j]);
            }
            return false;
        }
        j = j + 1;
    }
    proof {
        assert(s@.subrange(i as int, i + m as int) =~= pat@);
    }
    true
}

/// Substring search.
pub fn contains_str(s: &str, pat: &str) -> (r: bool)
    ensures
        r == contains_seq(s@, pat@),
{
    let n: usize = s.unicode_len();
    let m: usize = pat.unicode_len();
    if m > n {
        return false;
    }
    if m == 0 {
        proof {
            assert(s@.subrange(0, 0 + pat@.len() as int) =~= pat@);
        }
        return true;
    }
    let mut i: usize = 0;
    while i <= n - m
        invariant
            1 <= m <= n,
            n == s@.len(),
            m == pat@.len(),
            i <= n - m + 1,
            forall|k: int| 0 <= k < i ==> #[trigger] s@.subrange(k, k + m as int) != pat@,
        decreases n - i,
    {
        if matches_at(s, pat, i) {
            return true;
        }
        i = i + 1;
    }
    false
}

/// One whitespace character: the Unicode White_Space set.
pub open spec fn is_space(c: char) -> bool {
    c == ' ' || c == '\t' || c == '\n' || c == '\u{0b}' || c == '\u{0c}' || c == '\r' || c
        == '\u{85}' || c == '\u{a0}' || c == '\u{1680}' || c == '\u{2000}' || c == '\u{2001}' || c
        == '\u{2002}' || c == '\u{2003}' || c == '\u{2004}' || c == '\u{2005}' || c == '\u{2006}'
        || c == '\u{2007}' || c == '\u{2008}' || c == '\u{2009}' || c == '\u{200a}' || c
        == '\u{2028}' || c == '\u{2029}' || c == '\u{202f}' || c == '\u{205f}' || c == '\u{3000}'
}

fn is_space_char(c: char) -> (r: bool)
    ensures
        r == is_space(c),
{
    c == ' ' || c == '\t' || c == '\n' || c == '\u{0b}' || c == '\u{0c}' || c == '\r' || c
        == '\u{85}' || c == '\u{a0}' || c == '\u{1680}' || c == '\u{2000}' || c == '\u{2001}' || c
        == '\u{2002}' || c == '\u{2003}' || c == '\u{2004}' || c == '\u{2005}' || c == '\u{2006}'
        || c == '\u{2007}' || c == '\u{2008}' || c == '\u{2009}' || c == '\u{200a}' || c
        == '\u{2028}' || c == '\u{2029}' || c == '\u{202f}' || c == '\u{205f}' || c == '\u{3000}'
}

pub open spec fn trim_start_seq(s: Seq<char>) -> Seq<char>
    decreases s.len(),
{
    if s.len() > 0 && is_space(s[0]) {
        trim_start_seq(s.drop_first())
    } else {
        s
    }
}

pub open spec fn trim_end_seq(s: Seq<char>) -> Seq<char>
    decreases s.len(),
{
    if s.len() > 0 && is_space(s.last()) {
        trim_end_seq(s.drop_last())
    } else {
        s
    }
}

/// `s` with leading and trailing whitespace removed.
pub open spec fn trim_seq(s: Seq<char>) -> Seq<char> {
    trim_end_seq(trim_start_seq(s))
}

fn trim_start_str<'a>(s: &'a str) -> (r: &'a str)
    ensures
        r@ == trim_start_seq(s@),
    decreases s@.len(),
{
    let n: usize = s.unicode_len();
    if n > 0 && is_space_char(s.get_char(0)) {
        let t = s.substring_char(1, n);
        proof {
            assert(t@ =~= s@.drop_first());
        }
        trim_start_str(t)
    } else {
        s
    }
}

fn trim_end_str<'a>(s: &'a str) -> (r: &'a str)
    ensures
        r@ == trim_end_seq(s@),
    decreases s@.len(),
{
    let n: usize = s.unicode_len();
    if n > 0 && is_space_char(s.get_char(n - 1)) {
        let t = s.substring_char(0, n - 1);
        proof {
            assert(t@ =~= s@.drop_last());
        }
        trim_end_str(t)
    } else {
        s
    }
}

/// Trims whitespace from both ends.
pub fn trim_str(s: &str) -> (r: String)
    ensures
        r@ == trim_seq(s@),
{
    trim_end_str(trim_start_str(s)).to_owned()
}

/// The pieces joined with `sep` between consecutive pieces.
pub open spec fn join_seq(ss: Seq<Seq<char>>, sep: Seq<char>) -> Seq<char>
    decreases ss.len(),
{
    if ss.len() == 0 {
        Seq::empty()
    } else if ss.len() == 1 {
        ss[0]
    } else {
        ss[0] + sep + join_seq(ss.drop_first(), sep)
    }
}

fn join_from(v: &Vec<String>, i: usize, sep: &str) -> (r: String)
    requires
        i <= v@.len(),
    ensures
        r@ == join_seq(v@.map_values(|p: String| p@).skip(i as int), sep@),
    decreases v@.len() - i,
{
    if i == v.len() {
        String::new()
    } else if i + 1 == v.len() {
        v[i].clone()
    } else {
        let mut r = v[i].clone();
        r.append(sep);
        let rest = join_from(v, i + 1, sep);
        r.append(rest.as_str());
        proof {
            let vs = v@.map_values(|p: String| p@);
            assert(vs.skip(i as int).drop_first() =~= vs.skip(i + 1));
            assert(r@ == join_seq(vs.skip(i as int), sep@));
        }
        r
    }
}

/// Joins the strings with `sep` between consecutive ones.
pub fn join_strings(v: &Vec<String>, sep: &str) -> (r: String)
    ensures
        r@ == join_seq(v@.map_values(|p: String| p@), sep@),
{
    let r = join_from(v, 0, sep);
    proof {
        assert(v@.map_values(|p: String| p@).skip(0) =~= v@.map_values(|p: String| p@));
    }
    r
}

/// A piece with one trailing carriage return removed.
pub open spec fn strip_cr(l: Seq<char>) -> Seq<char> {
    if l.len() > 0 && l.last() == '\r' {
        l.drop_last()
    } else {
        l
    }
}

/// The lines of `s`: the pieces between newline characters, with a final
/// empty piece dropped (so a trailing newline adds no line) and one
/// trailing carriage return removed from each line. The empty text has no
/// lines.
pub open spec fn lines_seq(s: Seq<char>) -> Seq<Seq<char>> {
    let ps = split_seq(s, '\n');
    let qs = if ps.len() > 0 && ps.last().len() == 0 {
        ps.drop_last()
    } else {
        ps
    };
    qs.map_values(|l: Seq<char>| strip_cr(l))
}

/// Splits `s` into its lines.
pub fn lines_of(s: &str) -> (r: Vec<String>)
    ensures
        r@.map_values(|p: String| p@) == lines_seq(s@),
{
    let mut ps = split_str(s, '\n');
    let ghost ps0 = ps@.map_values(|p: String| p@);
    if ps.len() > 0 && ps[ps.len() - 1].as_str().is_empty() {
        ps.pop();
        proof {
            assert(ps@.map_values(|p: String| p@) =~= ps0.drop_last());
        }
    }
    let ghost qs = ps@.map_values(|p: String| p@);
    let mut out: Vec<String> = Vec::new();
    let mut i: usize = 0;
    while i < ps.len()
        invariant
            i <= ps@.len(),
            out@.len() == i,
            qs == ps@.map_values(|p: String| p@),
            forall|k: int| 0 <= k < i ==> out@[k]@ == strip_cr(qs[k]),
        decreases ps@.len() - i,
    {
        let p = &ps[i];
        let n: usize = p.as_str().unicode_len();
        if n > 0 && p.as_str().get_char(n - 1) == '\r' {
            let t = p.as_str().substring_char(0, n - 1).to_owned();
            proof {
                assert(t@ =~= qs[i as int].drop_last());
            }
            out.push(t);
        } else {
            out.push(p.clone());
        }
        i = i + 1;
    }
    proof {
        assert(out@.map_values(|p: String| p@) =~= qs.map_values(|l: Seq<char>| strip_cr(l)));
        assert(out@.map_values(|p: String| p@) =~= lines_seq(s@));
    }
    out
}

} // verus!
