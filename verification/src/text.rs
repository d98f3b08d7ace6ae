//! Text as sequences of characters: what trimming, line splitting, searching
//! and splitting mean, and executable versions that work on index ranges of a
//! character slice.

use vstd::prelude::*;
use vstd::slice::slice_subrange;
use vstd::string::StrSliceExecFns;

verus! {

/// The characters that carry the Unicode `White_Space` property.
pub open spec fn is_whitespace(c: char) -> bool {
    let n = c as u32;
    ||| 0x09 <= n <= 0x0D
    ||| n == 0x20
    ||| n == 0x85
    ||| n == 0xA0
    ||| n == 0x1680
    ||| 0x2000 <= n <= 0x200A
    ||| n == 0x2028
    ||| n == 0x2029
    ||| n == 0x202F
    ||| n == 0x205F
    ||| n == 0x3000
}

/// `s` without its leading whitespace.
pub open spec fn trim_start(s: Seq<char>) -> Seq<char>
    decreases s.len(),
{
    if s.len() > 0 && is_whitespace(s.first()) {
        trim_start(s.drop_first())
    } else {
        s
    }
}

/// `s` without its trailing whitespace.
pub open spec fn trim_end(s: Seq<char>) -> Seq<char>
    decreases s.len(),
{
    if s.len() > 0 && is_whitespace(s.last()) {
        trim_end(s.drop_last())
    } else {
        s
    }
}

/// `s` without leading and trailing whitespace.
pub open spec fn trim(s: Seq<char>) -> Seq<char> {
    trim_end(trim_start(s))
}

/// The index of the first `c` in `s`, or the length of `s` when `c` does not
/// occur.
pub open spec fn position(s: Seq<char>, c: char) -> nat
    decreases s.len(),
{
    if s.len() == 0 || s.first() == c {
        0
    } else {
        1 + position(s.drop_first(), c)
    }
}

/// `position` is an index of `s` or its length; where it is an index, `c`
/// stands there, and `c` stands nowhere before it.
pub proof fn lemma_position(s: Seq<char>, c: char)
    ensures
        position(s, c) <= s.len(),
        position(s, c) < s.len() ==> s[position(s, c) as int] == c,
        forall|j: int| 0 <= j < position(s, c) ==> s[j] != c,
    decreases s.len(),
{
    if s.len() == 0 || s.first() == c {
    } else {
        lemma_position(s.drop_first(), c);
        assert forall|j: int| 0 <= j < position(s, c) implies s[j] != c by {
            if j > 0 {
                assert(s.drop_first()[j - 1] == s[j]);
            }
        }
    }
}

/// Whether `c` occurs in `s`.
pub open spec fn has_char(s: Seq<char>, c: char) -> bool {
    position(s, c) < s.len()
}

/// Whether `p` stands in `s` at index `i`.
pub open spec fn occurs_at(s: Seq<char>, p: Seq<char>, i: int) -> bool {
    0 <= i && i + p.len() <= s.len() && s.subrange(i, i + p.len()) == p
}

/// Whether `p` stands somewhere in `s`.
pub open spec fn contains(s: Seq<char>, p: Seq<char>) -> bool {
    exists|i: int| occurs_at(s, p, i)
}

/// Whether `i` is the leftmost index at which `p` stands in `s`.
pub open spec fn is_first_occurrence(s: Seq<char>, p: Seq<char>, i: int) -> bool {
    occurs_at(s, p, i) && forall|j: int| 0 <= j < i ==> !occurs_at(s, p, j)
}

/// The leftmost index at which `p` stands in `s`, if it stands anywhere.
pub open spec fn find(s: Seq<char>, p: Seq<char>) -> Option<int> {
    if exists|i: int| is_first_occurrence(s, p, i) {
        Some(choose|i: int| is_first_occurrence(s, p, i))
    } else {
        None
    }
}

/// `s` without one final carriage return.
pub open spec fn without_final_cr(s: Seq<char>) -> Seq<char> {
    if s.len() > 0 && s.last() == '\r' {
        s.drop_last()
    } else {
        s
    }
}

/// The lines of `s`.  A line ends at a line feed, or at a carriage return
/// directly followed by one; the terminator is not part of the line.  Text
/// after the last line feed is a line of its own unless it is empty.
pub open spec fn lines(s: Seq<char>) -> Seq<Seq<char>>
    decreases s.len(),
{
    if s.len() == 0 {
        Seq::empty()
    } else {
        let n = position(s, '\n');
        if n >= s.len() {
            seq![s]
        } else {
            seq![without_final_cr(s.take(n as int))] + lines(s.skip(n as int + 1))
        }
    }
}

/// The pieces of `s` between the occurrences of `p`, taken from the left
/// without overlap.  An empty `p` stands before, between and after all
/// characters.
pub open spec fn split(s: Seq<char>, p: Seq<char>) -> Seq<Seq<char>>
    decreases s.len(),
{
    if p.len() == 0 {
        seq![Seq::<char>::empty()] + Seq::new(s.len(), |i: int| seq![s[i]]) + seq![
            Seq::<char>::empty(),
        ]
    } else {
        match find(s, p) {
            None => seq![s],
            Some(i) => seq![s.take(i)] + split(s.skip(i + p.len()), p),
        }
    }
}

/// The texts that the index pairs `bounds` cut out of `t`.
pub open spec fn pieces(t: Seq<char>, bounds: Seq<(usize, usize)>) -> Seq<Seq<char>> {
    Seq::new(bounds.len(), |i: int| t.subrange(bounds[i].0 as int, bounds[i].1 as int))
}

/// Whether every index pair of `bounds` is a range of `t`.
pub open spec fn in_bounds(t: Seq<char>, bounds: Seq<(usize, usize)>) -> bool {
    forall|i: int| 0 <= i < bounds.len() ==> (#[trigger] bounds[i]).0 <= bounds[i].1 <= t.len()
}

/// Adding one index pair adds the text that it cuts out.
pub proof fn lemma_pieces_push(t: Seq<char>, bounds: Seq<(usize, usize)>, b: (usize, usize))
    ensures
        pieces(t, bounds.push(b)) == pieces(t, bounds) + seq![t.subrange(b.0 as int, b.1 as int)],
{
}

/// The text of an optional string slice.
pub open spec fn str_option_view(o: Option<&str>) -> Option<Seq<char>> {
    match o {
        Some(s) => Some(s@),
        None => None,
    }
}

/// The text of an optional string.
pub open spec fn string_option_view(o: Option<String>) -> Option<Seq<char>> {
    match o {
        Some(s) => Some(s@),
        None => None,
    }
}

/// The text that an optional index pair cuts out of `t`.
pub open spec fn cut(t: Seq<char>, b: Option<(usize, usize)>) -> Option<Seq<char>> {
    match b {
        Some(r) => Some(t.subrange(r.0 as int, r.1 as int)),
        None => None,
    }
}

/// Whether an optional index pair is a range of `t`.
pub open spec fn is_range(t: Seq<char>, b: Option<(usize, usize)>) -> bool {
    b matches Some(r) ==> r.0 <= r.1 <= t.len()
}

/// The characters of `s`, one by one.
pub fn chars_of(s: &str) -> (out: Vec<char>)
    ensures
        out@ == s@,
{
    broadcast use vstd::string::group_string_axioms;

    let mut out: Vec<char> = Vec::new();
    for c in it: s.chars()
        invariant
            it.seq() == s@,
            out@ == s@.take(it.index() as int),
    {
        out.push(c);
    }
    out
}

/// The part of `s` that an optional range of character indices names.
pub(crate) fn slice_of<'a>(s: &'a str, b: Option<(usize, usize)>) -> (r: Option<&'a str>)
    requires
        is_range(s@, b),
    ensures
        str_option_view(r) == cut(s@, b),
{
    match b {
        Some((from, to)) => Some(s.substring_char(from, to)),
        None => None,
    }
}

/// What `char::to_uppercase` yields for `c`: the uppercase mapping of `c`,
/// which is `c` itself where it has none.
pub uninterp spec fn uppercase_of(c: char) -> Seq<char>;

/// `char::to_uppercase`, with the characters that it yields collected in
/// order.  The mapping is that of the Unicode character database, and is not
/// spelled out here: the result is known by name only.
#[verifier::external_body]
pub(crate) fn uppercase(c: char) -> (out: Vec<char>)
    ensures
        out@ == uppercase_of(c),
{
    c.to_uppercase().collect()
}

/// Tells whether `c` is whitespace.
pub fn whitespace(c: char) -> (b: bool)
    ensures
        b == is_whitespace(c),
{
    let n: u32 = c as u32;
    (0x09 <= n && n <= 0x0D) || n == 0x20 || n == 0x85 || n == 0xA0 || n == 0x1680 || (0x2000 <= n
        && n <= 0x200A) || n == 0x2028 || n == 0x2029 || n == 0x202F || n == 0x205F || n == 0x3000
}

/// The range of `t` that is left when leading and trailing whitespace is
/// taken away.
pub fn trim_bounds(t: &[char]) -> (r: (usize, usize))
    ensures
        r.0 <= r.1 <= t@.len(),
        t@.subrange(r.0 as int, r.1 as int) == trim(t@),
{
    let n: usize = t.len();
    let mut a: usize = 0;
    assert(t@.subrange(0, n as int) =~= t@);
    while a < n && whitespace(t[a])
        invariant
            a <= n,
            n == t@.len(),
            trim_start(t@) == trim_start(t@.subrange(a as int, n as int)),
        decreases n - a,
    {
        assert(t@.subrange(a as int, n as int).drop_first() =~= t@.subrange(a + 1, n as int));
        a += 1;
    }
    let mut b: usize = n;
    while b > a && whitespace(t[b - 1])
        invariant
            a <= b <= n,
            n == t@.len(),
            trim_end(t@.subrange(a as int, n as int)) == trim_end(
                t@.subrange(a as int, b as int),
            ),
        decreases b - a,
    {
        assert(t@.subrange(a as int, b as int).drop_last() =~= t@.subrange(a as int, b - 1));
        b -= 1;
    }
    (a, b)
}

/// The index of the first `c` in `t`, or the length of `t`.
pub fn position_of(t: &[char], c: char) -> (i: usize)
    ensures
        i == position(t@, c),
        i <= t@.len(),
        i < t@.len() ==> t@[i as int] == c,
        forall|j: int| 0 <= j < i ==> t@[j] != c,
{
    let n: usize = t.len();
    let mut i: usize = 0;
    assert(t@.subrange(0, n as int) =~= t@);
    while i < n && t[i] != c
        invariant
            i <= n,
            n == t@.len(),
            position(t@, c) == i + position(t@.subrange(i as int, n as int), c),
            forall|j: int| 0 <= j < i ==> t@[j] != c,
        decreases n - i,
    {
        assert(t@.subrange(i as int, n as int).drop_first() =~= t@.subrange(i + 1, n as int));
        i += 1;
    }
    i
}

/// Tells whether `p` stands in `t` at index `i`.
pub fn matches_at(t: &[char], p: &[char], i: usize) -> (b: bool)
    ensures
        b == occurs_at(t@, p@, i as int),
{
    let m: usize = p.len();
    let n: usize = t.len();
    if m > n || i > n - m {
        return false;
    }
    let mut k: usize = 0;
    while k < m
        invariant
            k <= m,
            m == p@.len(),
            n == t@.len(),
            i + m <= n,
            forall|j: int| 0 <= j < k ==> t@[i + j] == p@[j],
        decreases m - k,
    {
        if t[i + k] != p[k] {
            return false;
        }
        k += 1;
    }
    assert(t@.subrange(i as int, i + m) =~= p@);
    true
}

/// Tells whether `t` begins with `p`.
pub fn starts_with(t: &[char], p: &[char]) -> (b: bool)
    ensures
        b == p@.is_prefix_of(t@),
{
    matches_at(t, p, 0)
}

/// The leftmost index at which `p` stands in `t`.
pub fn find_first(t: &[char], p: &[char]) -> (r: Option<usize>)
    ensures
        match r {
            Some(i) => find(t@, p@) == Some(i as int) && i + p@.len() <= t@.len(),
            None => find(t@, p@) is None,
        },
        r is Some <==> contains(t@, p@),
{
    if p.len() > t.len() {
        return None;
    }
    let last: usize = t.len() - p.len();
    let mut i: usize = 0;
    loop
        invariant
            i <= last,
            last + p@.len() == t@.len(),
            forall|j: int| 0 <= j < i ==> !occurs_at(t@, p@, j),
        decreases last - i,
    {
        if matches_at(t, p, i) {
            assert(is_first_occurrence(t@, p@, i as int));
            return Some(i);
        }
        if i == last {
            return None;
        }
        i += 1;
    }
}

/// The ranges of the lines of `t`.
pub fn line_bounds(t: &[char]) -> (r: Vec<(usize, usize)>)
    ensures
        in_bounds(t@, r@),
        pieces(t@, r@) == lines(t@),
{
    let n: usize = t.len();
    let mut out: Vec<(usize, usize)> = Vec::new();
    let mut start: usize = 0;
    assert(t@.subrange(0, n as int) =~= t@);
    while start < n
        invariant
            start <= n,
            n == t@.len(),
            in_bounds(t@, out@),
            lines(t@) == pieces(t@, out@) + lines(t@.subrange(start as int, n as int)),
        decreases n - start,
    {
        let rest = slice_subrange(t, start, n);
        let k: usize = position_of(rest, '\n');
        let brk: usize = start + k;
        let ghost before = out@;
        if brk >= n {
            out.push((start, n));
            proof {
                lemma_pieces_push(t@, before, (start, n));
            }
            start = n;
        } else {
            let end: usize = if brk > start && t[brk - 1] == '\r' {
                brk - 1
            } else {
                brk
            };
            out.push((start, end));
            proof {
                lemma_pieces_push(t@, before, (start, end));
                assert(rest@.take(k as int) =~= t@.subrange(start as int, brk as int));
                if brk > start {
                    assert(t@.subrange(start as int, brk as int).drop_last() =~= t@.subrange(
                        start as int,
                        brk - 1,
                    ));
                }
                assert(rest@.skip(k + 1) =~= t@.subrange(brk + 1, n as int));
            }
            start = brk + 1;
        }
    }
    out
}

/// The ranges of the pieces of `t` between the occurrences of `p`.
pub fn split_bounds(t: &[char], p: &[char]) -> (r: Vec<(usize, usize)>)
    ensures
        in_bounds(t@, r@),
        pieces(t@, r@) == split(t@, p@),
{
    let n: usize = t.len();
    let mut out: Vec<(usize, usize)> = Vec::new();
    if p.len() == 0 {
        out.push((0, 0));
        let mut i: usize = 0;
        while i < n
            invariant
                i <= n,
                n == t@.len(),
                out@.len() == i + 1,
                out@[0] == (0usize, 0usize),
                forall|j: int| 1 <= j <= i ==> out@[j] == ((j - 1) as usize, j as usize),
            decreases n - i,
        {
            out.push((i, i + 1));
            i += 1;
        }
        out.push((n, n));
        assert forall|j: int| 0 <= j < out@.len() implies pieces(t@, out@)[j] =~= split(
            t@,
            p@,
        )[j] by {}
        return out;
    }
    let mut start: usize = 0;
    assert(t@.subrange(0, n as int) =~= t@);
    loop
        invariant
            start <= n,
            n == t@.len(),
            p@.len() > 0,
            in_bounds(t@, out@),
            split(t@, p@) == pieces(t@, out@) + split(t@.subrange(start as int, n as int), p@),
        decreases n - start,
    {
        let rest = slice_subrange(t, start, n);
        let ghost before = out@;
        match find_first(rest, p) {
            None => {
                out.push((start, n));
                proof {
                    lemma_pieces_push(t@, before, (start, n));
                }
                return out;
            },
            Some(k) => {
                out.push((start, start + k));
                proof {
                    lemma_pieces_push(t@, before, (start, (start + k) as usize));
                    assert(rest@.take(k as int) =~= t@.subrange(start as int, start + k));
                    assert(rest@.skip(k + p@.len()) =~= t@.subrange(
                        start + k + p@.len(),
                        n as int,
                    ));
                }
                start = start + k + p.len();
            },
        }
    }
}

} // verus!
