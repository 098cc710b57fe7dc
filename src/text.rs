//! Character-level text helpers: whitespace, trimming, substring search and
//! the first non-blank line of a text.

use vstd::prelude::*;
use vstd::std_specs::iter::IteratorSpec;

verus! {

/// The characters that `char::is_whitespace` accepts (Unicode `White_Space`).
pub open spec fn is_space(c: char) -> bool {
    let u = c as u32;
    ||| 0x09 <= u <= 0x0D
    ||| u == 0x20
    ||| u == 0x85
    ||| u == 0xA0
    ||| u == 0x1680
    ||| 0x2000 <= u <= 0x200A
    ||| u == 0x2028
    ||| u == 0x2029
    ||| u == 0x202F
    ||| u == 0x205F
    ||| u == 0x3000
}

/// A text made of whitespace only (the empty text included).
pub open spec fn is_blank(s: Seq<char>) -> bool {
    forall|i: int| 0 <= i < s.len() ==> is_space(#[trigger] s[i])
}

/// Position of the first occurrence of `c` in `s`, or `s.len()` if there is none.
pub open spec fn index_of(s: Seq<char>, c: char) -> nat
    decreases s.len(),
{
    if s.len() == 0 || s[0] == c {
        0
    } else {
        1 + index_of(s.drop_first(), c)
    }
}

/// Number of leading whitespace characters.
pub open spec fn leading_space(s: Seq<char>) -> nat
    decreases s.len(),
{
    if s.len() == 0 || !is_space(s[0]) {
        0
    } else {
        1 + leading_space(s.drop_first())
    }
}

/// Number of trailing whitespace characters.
pub open spec fn trailing_space(s: Seq<char>) -> nat
    decreases s.len(),
{
    if s.len() == 0 || !is_space(s.last()) {
        0
    } else {
        1 + trailing_space(s.drop_last())
    }
}

/// `s` without leading and trailing whitespace, as `str::trim` gives it.
pub open spec fn trim(s: Seq<char>) -> Seq<char> {
    if is_blank(s) {
        Seq::empty()
    } else {
        s.subrange(leading_space(s) as int, s.len() - trailing_space(s))
    }
}

/// `t` occurs in `s` as a contiguous run.
pub open spec fn contains(s: Seq<char>, t: Seq<char>) -> bool {
    exists|i: int| 0 <= i && i + t.len() <= s.len() && #[trigger] s.subrange(i, i + t.len()) == t
}

/// The first line of `s`, up to the first `'\n'`; a `'\r'` right before that
/// `'\n'` is not part of the line (the line rule of `str::lines`).
pub open spec fn first_line(s: Seq<char>) -> Seq<char> {
    let e = index_of(s, '\n') as int;
    if e < s.len() && e > 0 && s[e - 1] == '\r' {
        s.subrange(0, e - 1)
    } else {
        s.subrange(0, e)
    }
}

/// The first line of `s` that holds a non-whitespace character, or the empty
/// text when there is none.
pub open spec fn first_nonblank_line(s: Seq<char>) -> Seq<char>
    decreases s.len(),
{
    let e = index_of(s, '\n');
    if s.len() == 0 {
        Seq::empty()
    } else if !is_blank(first_line(s)) {
        first_line(s)
    } else if e < s.len() {
        first_nonblank_line(s.subrange(e as int + 1, s.len() as int))
    } else {
        Seq::empty()
    }
}

/// `index_of` is `k` where no `c` comes before position `k` and `c` (or the end
/// of `s`) stands at it.
pub proof fn lemma_index_of_is(s: Seq<char>, c: char, k: int)
    requires
        0 <= k <= s.len(),
        forall|j: int| 0 <= j < k ==> s[j] != c,
        k < s.len() ==> s[k] == c,
    ensures
        index_of(s, c) == k,
    decreases s.len(),
{
    if s.len() > 0 && s[0] != c {
        assert forall|j: int| 0 <= j < k - 1 implies s.drop_first()[j] != c by {
            assert(s[j + 1] != c);
        }
        lemma_index_of_is(s.drop_first(), c, k - 1);
    }
}

/// Whitespace as `char::is_whitespace` decides it.
pub fn is_space_char(c: char) -> (r: bool)
    ensures
        r == is_space(c),
{
    let u = c as u32;
    (0x09 <= u && u <= 0x0D) || u == 0x20 || u == 0x85 || u == 0xA0 || u == 0x1680 || (0x2000
        <= u && u <= 0x200A) || u == 0x2028 || u == 0x2029 || u == 0x202F || u == 0x205F || u
        == 0x3000
}

/// The characters of `s`, in order.
pub fn chars_of(s: &str) -> (r: Vec<char>)
    ensures
        r@ == s@,
{
    let mut r: Vec<char> = Vec::new();
    for c in iter: s.chars()
        invariant
            iter.seq() == s@,
            r@ == s@.take(iter.index() as int),
    {
        r.push(c);
    }
    assert(r@ =~= s@);
    r
}

/// `leading_space` is the length of the whitespace run that opens `s`.
pub proof fn lemma_leading_space_is(s: Seq<char>, k: int)
    requires
        0 <= k <= s.len(),
        forall|j: int| 0 <= j < k ==> is_space(#[trigger] s[j]),
        k < s.len() ==> !is_space(s[k]),
    ensures
        leading_space(s) == k,
    decreases s.len(),
{
    if s.len() > 0 && is_space(s[0]) {
        assert forall|j: int| 0 <= j < k - 1 implies is_space(#[trigger] s.drop_first()[j]) by {
            assert(is_space(s[j + 1]));
        }
        lemma_leading_space_is(s.drop_first(), k - 1);
    }
}

/// `trailing_space` is the length of the whitespace run that closes `s`.
pub proof fn lemma_trailing_space_is(s: Seq<char>, k: int)
    requires
        0 <= k <= s.len(),
        forall|j: int| s.len() - k <= j < s.len() ==> is_space(#[trigger] s[j]),
        k < s.len() ==> !is_space(s[s.len() - k - 1]),
    ensures
        trailing_space(s) == k,
    decreases s.len(),
{
    if s.len() > 0 && is_space(s.last()) {
        let t = s.drop_last();
        assert forall|j: int| t.len() - (k - 1) <= j < t.len() implies is_space(#[trigger] t[j]) by {
            assert(is_space(s[j]));
        }
        if k - 1 < t.len() {
            assert(t[t.len() - (k - 1) - 1] == s[s.len() - k - 1]);
        }
        lemma_trailing_space_is(t, k - 1);
    }
}

/// Whether `cs[from..to]` is whitespace only.
pub fn is_blank_range(cs: &Vec<char>, from: usize, to: usize) -> (r: bool)
    requires
        from <= to <= cs.len(),
    ensures
        r == is_blank(cs@.subrange(from as int, to as int)),
{
    let mut i: usize = from;
    while i < to
        invariant
            from <= i <= to <= cs.len(),
            forall|j: int| from <= j < i ==> is_space(#[trigger] cs@[j]),
        decreases to - i,
    {
        if !is_space_char(cs[i]) {
            assert(!is_space(cs@.subrange(from as int, to as int)[i - from]));
            return false;
        }
        i = i + 1;
    }
    assert forall|j: int| 0 <= j < to - from implies is_space(
        #[trigger] cs@.subrange(from as int, to as int)[j],
    ) by {
        assert(is_space(cs@[from + j]));
    }
    true
}

/// `s` without leading and trailing whitespace.
pub fn trimmed(s: &str) -> (r: String)
    ensures
        r@ == trim(s@),
{
    let cs = chars_of(s);
    let n = cs.len();
    let mut a: usize = 0;
    while a < n && is_space_char(cs[a])
        invariant
            a <= n == cs.len(),
            cs@ == s@,
            forall|j: int| 0 <= j < a ==> is_space(#[trigger] cs@[j]),
        decreases n - a,
    {
        a = a + 1;
    }
    if a == n {
        assert(is_blank(s@));
        return String::new();
    }
    let mut b: usize = n;
    while is_space_char(cs[b - 1])
        invariant
            a < b <= n == cs.len(),
            cs@ == s@,
            !is_space(cs@[a as int]),
            forall|j: int| b <= j < n ==> is_space(#[trigger] cs@[j]),
        decreases b,
    {
        b = b - 1;
    }
    proof {
        lemma_leading_space_is(s@, a as int);
        lemma_trailing_space_is(s@, n - b);
        assert(!is_space(s@[a as int]));
    }
    s.substring_char(a, b).to_string()
}

/// Whether `t` occurs in `s`.
pub fn contains_text(s: &str, t: &str) -> (r: bool)
    ensures
        r == contains(s@, t@),
{
    let cs = chars_of(s);
    let ts = chars_of(t);
    if ts.len() > cs.len() {
        return false;
    }
    let last = cs.len() - ts.len();
    let mut i: usize = 0;
    while i <= last
        invariant
            cs@ == s@,
            ts@ == t@,
            last == cs.len() - ts.len(),
            forall|k: int| 0 <= k < i ==> #[trigger] s@.subrange(k, k + t@.len()) != t@,
        decreases last + 1 - i,
    {
        let mut j: usize = 0;
        while j < ts.len() && cs[i + j] == ts[j]
            invariant
                i <= last,
                last == cs.len() - ts.len(),
                j <= ts.len(),
                forall|m: int| 0 <= m < j ==> cs@[i + m] == ts@[m],
            decreases ts.len() - j,
        {
            j = j + 1;
        }
        if j == ts.len() {
            assert(cs@.subrange(i as int, i + ts@.len()) =~= ts@);
            return true;
        }
        assert(cs@.subrange(i as int, i + ts@.len())[j as int] != ts@[j as int]);
        i = i + 1;
    }
    assert forall|k: int| 0 <= k && k + t@.len() <= s@.len() implies #[trigger] s@.subrange(
        k,
        k + t@.len(),
    ) != t@ by {
        assert(k < i);
    }
    false
}

/// The first line of `s` that is not whitespace only, or the empty text.
pub fn first_nonblank(s: &str) -> (r: String)
    ensures
        r@ == first_nonblank_line(s@),
{
    let cs = chars_of(s);
    let n = cs.len();
    let mut start: usize = 0;
    assert(cs@.subrange(0, n as int) =~= s@);
    while start < n
        invariant
            cs@ == s@,
            n == cs.len(),
            start <= n,
            first_nonblank_line(cs@.subrange(start as int, n as int)) == first_nonblank_line(s@),
        decreases n - start,
    {
        let mut e: usize = start;
        while e < n && cs[e] != '\n'
            invariant
                start <= e <= n == cs.len(),
                forall|j: int| start <= j < e ==> cs@[j] != '\n',
            decreases n - e,
        {
            e = e + 1;
        }
        let end = if e < n && e > start && cs[e - 1] == '\r' {
            e - 1
        } else {
            e
        };
        let ghost t = cs@.subrange(start as int, n as int);
        proof {
            lemma_index_of_is(t, '\n', e - start);
            assert(first_line(t) =~= cs@.subrange(start as int, end as int));
        }
        if !is_blank_range(&cs, start, end) {
            return s.substring_char(start, end).to_string();
        }
        if e == n {
            return String::new();
        }
        assert(t.subrange(e - start + 1, t.len() as int) =~= cs@.subrange(e + 1, n as int));
        start = e + 1;
    }
    assert(cs@.subrange(start as int, n as int).len() == 0);
    String::new()
}

/// Whether `a` and `b` hold the same characters.
pub fn same_text(a: &str, b: &str) -> (r: bool)
    ensures
        r == (a@ == b@),
{
    let x = chars_of(a);
    let y = chars_of(b);
    if x.len() != y.len() {
        return false;
    }
    let mut i: usize = 0;
    while i < x.len()
        invariant
            x.len() == y.len(),
            x@ == a@,
            y@ == b@,
            forall|j: int| 0 <= j < i ==> x@[j] == y@[j],
        decreases x.len() - i,
    {
        if x[i] != y[i] {
            return false;
        }
        i = i + 1;
    }
    assert(x@ =~= y@);
    true
}

/// Whether `s` is whitespace only.
pub fn is_blank_text(s: &str) -> (r: bool)
    ensures
        r == is_blank(s@),
{
    let cs = chars_of(s);
    assert(cs@.subrange(0, cs.len() as int) =~= s@);
    is_blank_range(&cs, 0, cs.len())
}

} // verus!
