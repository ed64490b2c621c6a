//! Small text operations on command output: lines, trimming and substring
//! search, stated over character sequences.
use vstd::prelude::*;
use vstd::string::StrSliceExecFns;

verus! {

/// A Unicode white-space character (the `White_Space` property).
pub open spec fn is_space(c: char) -> bool {
    c == ' ' || ('\t' <= c && c <= '\r') || c == '\u{85}' || c == '\u{a0}' || c == '\u{1680}' || (
    '\u{2000}' <= c && c <= '\u{200a}') || c == '\u{2028}' || c == '\u{2029}' || c == '\u{202f}'
        || c == '\u{205f}' || c == '\u{3000}'
}

/// The position of the first `'\n'` at or after `i`, or the length.
pub open spec fn newline_from(s: Seq<char>, i: int) -> int
    decreases s.len() - i,
{
    if i < 0 || i >= s.len() {
        s.len() as int
    } else if s[i] == '\n' {
        i
    } else {
        newline_from(s, i + 1)
    }
}

/// A line without the `'\r'` that ends it, if any.
pub open spec fn without_cr(l: Seq<char>) -> Seq<char> {
    if l.len() > 0 && l.last() == '\r' {
        l.drop_last()
    } else {
        l
    }
}

/// The first line of a text, as `str::lines` gives it; none for empty text.
pub open spec fn first_line(s: Seq<char>) -> Option<Seq<char>> {
    if s.len() == 0 {
        None
    } else {
        Some(without_cr(s.subrange(0, newline_from(s, 0))))
    }
}

/// The text after the first line break; empty when there is none.
pub open spec fn after_first_line(s: Seq<char>) -> Seq<char> {
    let i = newline_from(s, 0);
    if i < s.len() {
        s.subrange(i + 1, s.len() as int)
    } else {
        Seq::empty()
    }
}

/// The text without white space at its start.
pub open spec fn trim_start(s: Seq<char>) -> Seq<char>
    decreases s.len(),
{
    if s.len() > 0 && is_space(s[0]) {
        trim_start(s.drop_first())
    } else {
        s
    }
}

/// The text without white space at its end.
pub open spec fn trim_end(s: Seq<char>) -> Seq<char>
    decreases s.len(),
{
    if s.len() > 0 && is_space(s.last()) {
        trim_end(s.drop_last())
    } else {
        s
    }
}

/// The text without white space at either end.
pub open spec fn trimmed(s: Seq<char>) -> Seq<char> {
    trim_end(trim_start(s))
}

/// `t` occurs in `s` at position `i`.
pub open spec fn occurs_at(s: Seq<char>, t: Seq<char>, i: int) -> bool {
    0 <= i && i + t.len() <= s.len() && s.subrange(i, i + t.len()) == t
}

/// `t` occurs somewhere in `s`.
pub open spec fn contains_seq(s: Seq<char>, t: Seq<char>) -> bool {
    exists|i: int| occurs_at(s, t, i)
}

/// The characters of a string.
pub fn chars_of(s: &str) -> (r: Vec<char>)
    ensures
        r@ == s@,
{
    let n = s.unicode_len();
    let mut v: Vec<char> = Vec::new();
    let mut i: usize = 0;
    while i < n
        invariant
            n == s@.len(),
            i <= n,
            v@ == s@.subrange(0, i as int),
        decreases n - i,
    {
        v.push(s.get_char(i));
        assert(v@ =~= s@.subrange(0, i + 1));
        i = i + 1;
    }
    assert(v@ =~= s@);
    v
}

/// The characters `from..to` of a string.
pub fn string_of(text: &str, from: usize, to: usize) -> (r: String)
    requires
        from <= to <= text@.len(),
    ensures
        r@ == text@.subrange(from as int, to as int),
{
    text.substring_char(from, to).to_owned()
}

/// The position of the first `'\n'` at or after `from`, or the length.
fn find_newline(cs: &Vec<char>, from: usize) -> (r: usize)
    requires
        from <= cs.len(),
    ensures
        r as int == newline_from(cs@, from as int),
        from <= r <= cs.len(),
{
    let mut i = from;
    while i < cs.len()
        invariant
            from <= i <= cs.len(),
            newline_from(cs@, from as int) == newline_from(cs@, i as int),
        decreases cs.len() - i,
    {
        if cs[i] == '\n' {
            return i;
        }
        i = i + 1;
    }
    i
}

proof fn lemma_trim_start_suffix(s: Seq<char>, i: int)
    requires
        0 <= i <= s.len(),
        forall|k: int| 0 <= k < i ==> is_space(#[trigger] s[k]),
    ensures
        trim_start(s) == trim_start(s.subrange(i, s.len() as int)),
    decreases i,
{
    if i > 0 {
        assert(s.drop_first().subrange(i - 1, s.drop_first().len() as int) =~= s.subrange(
            i,
            s.len() as int,
        ));
        lemma_trim_start_suffix(s.drop_first(), i - 1);
    } else {
        assert(s.subrange(0, s.len() as int) =~= s);
    }
}

proof fn lemma_trim_end_prefix(s: Seq<char>, j: int)
    requires
        0 <= j <= s.len(),
        forall|k: int| j <= k < s.len() ==> is_space(#[trigger] s[k]),
    ensures
        trim_end(s) == trim_end(s.subrange(0, j)),
    decreases s.len() - j,
{
    if j < s.len() {
        assert(s.drop_last().subrange(0, j) =~= s.subrange(0, j));
        lemma_trim_end_prefix(s.drop_last(), j);
    } else {
        assert(s.subrange(0, j) =~= s);
    }
}

/// The characters `cs[from..to]` without white space at either end.
pub fn trim_range(text: &str, cs: &Vec<char>, from: usize, to: usize) -> (r: String)
    requires
        cs@ == text@,
        from <= to <= cs.len(),
    ensures
        r@ == trimmed(cs@.subrange(from as int, to as int)),
{
    let ghost s = cs@.subrange(from as int, to as int);
    let mut i = from;
    while i < to && is_white_space(cs[i])
        invariant
            from <= i <= to <= cs.len(),
            s == cs@.subrange(from as int, to as int),
            forall|k: int| from <= k < i ==> is_space(#[trigger] cs@[k]),
        decreases to - i,
    {
        i = i + 1;
    }
    proof {
        assert forall|k: int| 0 <= k < i - from implies is_space(#[trigger] s[k]) by {
            assert(s[k] == cs@[from + k]);
        }
        lemma_trim_start_suffix(s, i - from);
        assert(s.subrange(i - from, s.len() as int) =~= cs@.subrange(i as int, to as int));
        let t = cs@.subrange(i as int, to as int);
        assert(t.len() == 0 || !is_space(t[0]));
    }
    let mut j = to;
    while j > i && is_white_space(cs[j - 1])
        invariant
            from <= i <= j <= to <= cs.len(),
            forall|k: int| j <= k < to ==> is_space(#[trigger] cs@[k]),
        decreases j - i,
    {
        j = j - 1;
    }
    proof {
        let t = cs@.subrange(i as int, to as int);
        assert forall|k: int| j - i <= k < t.len() implies is_space(#[trigger] t[k]) by {
            assert(t[k] == cs@[i + k]);
        }
        lemma_trim_end_prefix(t, j - i);
        assert(t.subrange(0, j - i) =~= cs@.subrange(i as int, j as int));
    }
    string_of(text, i, j)
}

/// Whether a character is white space.
pub fn is_white_space(c: char) -> (r: bool)
    ensures
        r == is_space(c),
{
    c == ' ' || ('\t' <= c && c <= '\r') || c == '\u{85}' || c == '\u{a0}' || c == '\u{1680}' || (
    '\u{2000}' <= c && c <= '\u{200a}') || c == '\u{2028}' || c == '\u{2029}' || c == '\u{202f}'
        || c == '\u{205f}' || c == '\u{3000}'
}

/// The first two lines of a text, each trimmed, as far as there are any.
pub fn first_two_lines(text: &str) -> (r: (Option<String>, Option<String>))
    ensures
        match (r.0, first_line(text@)) {
            (Some(l), Some(m)) => l@ == trimmed(m),
            (None, None) => true,
            _ => false,
        },
        match (r.1, first_line(after_first_line(text@))) {
            (Some(l), Some(m)) => l@ == trimmed(m),
            (None, None) => true,
            _ => false,
        },
{
    let cs = chars_of(text);
    if cs.len() == 0 {
        return (None, None);
    }
    let e1 = find_newline(&cs, 0);
    let end1 = if e1 > 0 && cs[e1 - 1] == '\r' { e1 - 1 } else { e1 };
    proof {
        let l = cs@.subrange(0, e1 as int);
        if e1 > 0 && cs@[e1 - 1] == '\r' {
            assert(without_cr(l) =~= cs@.subrange(0, end1 as int));
        } else {
            assert(without_cr(l) =~= cs@.subrange(0, end1 as int));
        }
    }
    let first = trim_range(text, &cs, 0, end1);
    if e1 == cs.len() || e1 + 1 == cs.len() {
        proof {
            if e1 < cs.len() {
                assert(after_first_line(text@).len() == 0);
            }
        }
        return (Some(first), None);
    }
    let start2 = e1 + 1;
    let ghost rest = after_first_line(text@);
    assert(rest =~= cs@.subrange(start2 as int, cs.len() as int));
    let e2 = find_newline(&cs, start2);
    proof {
        assert forall|k: int| 0 <= k <= rest.len() implies newline_from(rest, k) + start2
            == newline_from(cs@, k + start2) by {
            lemma_newline_shift(cs@, start2 as int, k);
        }
    }
    let end2 = if e2 > start2 && cs[e2 - 1] == '\r' { e2 - 1 } else { e2 };
    proof {
        let l = rest.subrange(0, e2 - start2);
        assert(l =~= cs@.subrange(start2 as int, e2 as int));
        assert(without_cr(l) =~= cs@.subrange(start2 as int, end2 as int));
    }
    let second = trim_range(text, &cs, start2, end2);
    (Some(first), Some(second))
}

proof fn lemma_newline_shift(s: Seq<char>, start: int, k: int)
    requires
        0 <= start <= s.len(),
        0 <= k <= s.len() - start,
    ensures
        newline_from(s.subrange(start, s.len() as int), k) + start == newline_from(s, k + start),
    decreases s.len() - start - k,
{
    if k < s.len() - start && s[k + start] != '\n' {
        lemma_newline_shift(s, start, k + 1);
    }
}

/// Whether `needle` occurs in `hay`.
pub fn contains_str(hay: &str, needle: &str) -> (r: bool)
    ensures
        r == contains_seq(hay@, needle@),
{
    let h = chars_of(hay);
    let n = chars_of(needle);
    if n.len() > h.len() {
        assert forall|i: int| !occurs_at(hay@, needle@, i) by {}
        return false;
    }
    let mut i: usize = 0;
    while i <= h.len() - n.len()
        invariant
            h@ == hay@,
            n@ == needle@,
            n.len() <= h.len(),
            i <= h.len() - n.len() + 1,
            forall|k: int| 0 <= k < i ==> !occurs_at(hay@, needle@, k),
        decreases h.len() - i,
    {
        let mut j: usize = 0;
        while j < n.len() && h[i + j] == n[j]
            invariant
                i + n.len() <= h.len(),
                j <= n.len(),
                forall|m: int| 0 <= m < j ==> h@[i + m] == n@[m],
            decreases n.len() - j,
        {
            j = j + 1;
        }
        if j == n.len() {
            assert(h@.subrange(i as int, i + n.len()) =~= n@);
            assert(occurs_at(hay@, needle@, i as int));
            return true;
        }
        assert(!occurs_at(hay@, needle@, i as int)) by {
            if occurs_at(hay@, needle@, i as int) {
                assert(h@.subrange(i as int, i + n.len())[j as int] == h@[i + j]);
            }
        }
        i = i + 1;
    }
    assert forall|k: int| !occurs_at(hay@, needle@, k) by {
        if 0 <= k && k + needle@.len() <= hay@.len() {
            assert(k < i);
        }
    }
    false
}

} // verus!
