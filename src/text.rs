//! Text helpers: `/`-separated paths, path templates and naming conventions.

use vstd::prelude::*;

use crate::normalize::names_of;

verus! {

/// The `/`-separated segments of `s`, empty ones included: `"a/b"` has two,
/// `"/a"` has `""` and `"a"`.
pub open spec fn split_path(s: Seq<char>) -> Seq<Seq<char>>
    decreases s.len(),
{
    if s.len() == 0 {
        seq![Seq::empty()]
    } else {
        let r = split_path(s.drop_last());
        if s.last() == '/' {
            r.push(Seq::empty())
        } else {
            r.update(r.len() - 1, r.last().push(s.last()))
        }
    }
}

pub proof fn lemma_split_nonempty(s: Seq<char>)
    ensures
        split_path(s).len() >= 1,
    decreases s.len(),
{
    if s.len() > 0 {
        lemma_split_nonempty(s.drop_last());
    }
}

/// A path parameter segment such as `{id}`.
pub open spec fn is_param(seg: Seq<char>) -> bool {
    seg.len() >= 2 && seg[0] == '{' && seg.last() == '}'
}

pub open spec fn segment_matches(a: Seq<char>, b: Seq<char>) -> bool {
    a == b || (is_param(a) && is_param(b))
}

/// Two path templates match when they have the same segments, where any
/// parameter segment matches any other.
pub open spec fn template_matches(a: Seq<char>, b: Seq<char>) -> bool {
    let sa = split_path(a);
    let sb = split_path(b);
    sa.len() == sb.len() && forall|i: int| 0 <= i < sa.len() ==> segment_matches(#[trigger] sa[i], sb[i])
}

/// Whether `t` occurs in `s`.
pub open spec fn occurs_in(t: Seq<char>, s: Seq<char>) -> bool {
    exists|i: int| 0 <= i && i + t.len() <= s.len() && #[trigger] s.subrange(i, i + t.len()) == t
}

/// Splits `s` at every `/`.
pub fn split_segments(s: &str) -> (r: Vec<String>)
    ensures
        names_of(r@) == split_path(s@),
{
    let mut segs: Vec<String> = Vec::new();
    let mut cur = String::new();
    let n = s.unicode_len();
    let mut i: usize = 0;
    while i < n
        invariant
            n == s@.len(),
            i <= n,
            names_of(segs@).push(cur@) == split_path(s@.subrange(0, i as int)),
        decreases n - i,
    {
        let c = s.get_char(i);
        let ghost pre = s@.subrange(0, i as int);
        assert(s@.subrange(0, i + 1).drop_last() =~= pre);
        assert(s@.subrange(0, i + 1).last() == c);
        proof { lemma_split_nonempty(pre); }
        if c == '/' {
            let done = cur;
            segs.push(done);
            cur = String::new();
            assert(names_of(segs@).push(cur@) =~= split_path(pre).push(Seq::empty()));
        } else {
            cur.push(c);
            assert(names_of(segs@).push(cur@) =~= split_path(pre).update(split_path(pre).len() - 1, split_path(pre).last().push(c)));
        }
        i = i + 1;
    }
    assert(s@.subrange(0, n as int) =~= s@);
    segs.push(cur);
    assert(names_of(segs@) =~= split_path(s@));
    segs
}

fn is_param_segment(seg: &str) -> (r: bool)
    ensures
        r == is_param(seg@),
{
    let n = seg.unicode_len();
    n >= 2 && seg.get_char(0) == '{' && seg.get_char(n - 1) == '}'
}

/// Whether the path templates `a` and `b` match.
pub fn templates_match(a: &str, b: &str) -> (r: bool)
    ensures
        r == template_matches(a@, b@),
{
    let sa = split_segments(a);
    let sb = split_segments(b);
    assert(sa@.len() == split_path(a@).len() && sb@.len() == split_path(b@).len()) by {
        assert(names_of(sa@).len() == sa@.len());
        assert(names_of(sb@).len() == sb@.len());
    }
    if sa.len() != sb.len() {
        return false;
    }
    let mut i: usize = 0;
    while i < sa.len()
        invariant
            i <= sa@.len(),
            sa@.len() == sb@.len(),
            names_of(sa@) == split_path(a@),
            names_of(sb@) == split_path(b@),
            forall|j: int| 0 <= j < i ==> segment_matches(#[trigger] split_path(a@)[j], split_path(b@)[j]),
        decreases sa@.len() - i,
    {
        assert(names_of(sa@)[i as int] == sa@[i as int]@);
        assert(names_of(sb@)[i as int] == sb@[i as int]@);
        let same = sa[i] == sb[i];
        if !same && !(is_param_segment(sa[i].as_str()) && is_param_segment(sb[i].as_str())) {
            assert(!segment_matches(split_path(a@)[i as int], split_path(b@)[i as int]));
            return false;
        }
        i = i + 1;
    }
    true
}

fn occurs_at(t: &str, s: &str, i: usize) -> (r: bool)
    requires
        i + t@.len() <= s@.len(),
    ensures
        r == (s@.subrange(i as int, i + t@.len()) == t@),
{
    let m = t.unicode_len();
    let n = s.unicode_len();
    let mut k: usize = 0;
    while k < m
        invariant
            m == t@.len(),
            n == s@.len(),
            i + m <= s@.len(),
            k <= m,
            forall|j: int| 0 <= j < k ==> s@[i + j] == t@[j],
        decreases m - k,
    {
        if s.get_char(i + k) != t.get_char(k) {
            assert(s@.subrange(i as int, i + t@.len())[k as int] != t@[k as int]);
            return false;
        }
        k = k + 1;
    }
    assert(s@.subrange(i as int, i + t@.len()) =~= t@);
    true
}

/// Whether `t` occurs in `s`.
pub fn occurs(t: &str, s: &str) -> (r: bool)
    ensures
        r == occurs_in(t@, s@),
{
    let n = s.unicode_len();
    let m = t.unicode_len();
    if m > n {
        return false;
    }
    if m == 0 {
        assert(s@.subrange(0int, 0int + t@.len()) =~= t@);
        return true;
    }
    let mut i: usize = 0;
    while i <= n - m
        invariant
            n == s@.len(),
            m == t@.len(),
            1 <= m <= n,
            i <= n - m + 1,
            forall|j: int| 0 <= j < i ==> #[trigger] s@.subrange(j, j + t@.len()) != t@,
        decreases n - m + 1 - i,
    {
        if occurs_at(t, s, i) {
            return true;
        }
        i = i + 1;
    }
    false
}


/// An ASCII letter in lower case; other characters unchanged.
pub open spec fn lower_char(c: char) -> char {
    if 'A' <= c && c <= 'Z' {
        ((c as u8) + 32u8) as char
    } else {
        c
    }
}

/// An ASCII letter in upper case; other characters unchanged.
pub open spec fn upper_char(c: char) -> char {
    if 'a' <= c && c <= 'z' {
        ((c as u8) - 32u8) as char
    } else {
        c
    }
}

/// A character that separates the words of a name.
pub open spec fn is_separator(c: char) -> bool {
    c == '_' || c == '-' || c == ' '
}

/// The snake-case form of a name: letters in lower case, separators as `_`.
pub open spec fn snake_case(s: Seq<char>) -> Seq<char> {
    s.map_values(|c: char| if is_separator(c) { '_' } else { lower_char(c) })
}

/// The upper-camel form of a name: separators dropped, the first letter of each
/// word in upper case.
pub open spec fn pascal_case(s: Seq<char>) -> Seq<char>
    decreases s.len(),
{
    if s.len() == 0 {
        Seq::empty()
    } else {
        let c = s.last();
        let starts_word = s.len() == 1 || is_separator(s[s.len() - 2]);
        pascal_case(s.drop_last()) + if is_separator(c) {
            Seq::empty()
        } else if starts_word {
            seq![upper_char(c)]
        } else {
            seq![c]
        }
    }
}

fn lower(c: char) -> (r: char)
    ensures
        r == lower_char(c),
{
    if 'A' <= c && c <= 'Z' {
        ((c as u8) + 32u8) as char
    } else {
        c
    }
}

fn upper(c: char) -> (r: char)
    ensures
        r == upper_char(c),
{
    if 'a' <= c && c <= 'z' {
        ((c as u8) - 32u8) as char
    } else {
        c
    }
}

fn separator(c: char) -> (r: bool)
    ensures
        r == is_separator(c),
{
    c == '_' || c == '-' || c == ' '
}

/// The snake-case form of `s`.
pub fn to_snake_case(s: &str) -> (r: String)
    ensures
        r@ == snake_case(s@),
{
    let mut r = String::new();
    let n = s.unicode_len();
    let mut i: usize = 0;
    while i < n
        invariant
            n == s@.len(),
            i <= n,
            r@ == snake_case(s@.subrange(0, i as int)),
        decreases n - i,
    {
        let c = s.get_char(i);
        if separator(c) {
            r.push('_');
        } else {
            r.push(lower(c));
        }
        i = i + 1;
        assert(r@ =~= snake_case(s@.subrange(0, i as int)));
    }
    assert(s@.subrange(0, n as int) =~= s@);
    r
}

/// The upper-camel form of `s`.
pub fn to_pascal_case(s: &str) -> (r: String)
    ensures
        r@ == pascal_case(s@),
{
    let mut r = String::new();
    let n = s.unicode_len();
    let mut i: usize = 0;
    while i < n
        invariant
            n == s@.len(),
            i <= n,
            r@ == pascal_case(s@.subrange(0, i as int)),
        decreases n - i,
    {
        let c = s.get_char(i);
        let ghost pre = s@.subrange(0, i + 1);
        assert(pre.drop_last() =~= s@.subrange(0, i as int));
        if !separator(c) {
            if i == 0 || separator(s.get_char(i - 1)) {
                r.push(upper(c));
            } else {
                r.push(c);
            }
        }
        i = i + 1;
        assert(r@ =~= pascal_case(pre));
    }
    assert(s@.subrange(0, n as int) =~= s@);
    r
}

} // verus!
