//! Character level text helpers with their specifications.

use vstd::prelude::*;

verus! {

/// Unicode `White_Space` property, which is what `char::is_whitespace` tests.
pub open spec fn is_whitespace_char(c: char) -> bool {
    ||| ('\u{9}' <= c && c <= '\u{d}')
    ||| c == ' '
    ||| c == '\u{85}'
    ||| c == '\u{a0}'
    ||| c == '\u{1680}'
    ||| ('\u{2000}' <= c && c <= '\u{200a}')
    ||| c == '\u{2028}'
    ||| c == '\u{2029}'
    ||| c == '\u{202f}'
    ||| c == '\u{205f}'
    ||| c == '\u{3000}'
}

/// Removes leading whitespace.
pub open spec fn trim_start(s: Seq<char>) -> Seq<char>
    decreases s.len(),
{
    if s.len() > 0 && is_whitespace_char(s[0]) {
        trim_start(s.drop_first())
    } else {
        s
    }
}

/// Removes trailing whitespace.
pub open spec fn trim_end(s: Seq<char>) -> Seq<char>
    decreases s.len(),
{
    if s.len() > 0 && is_whitespace_char(s.last()) {
        trim_end(s.drop_last())
    } else {
        s
    }
}

/// Removes leading and trailing whitespace, as `str::trim` does.
pub open spec fn trim(s: Seq<char>) -> Seq<char> {
    trim_end(trim_start(s))
}

/// Tests one character for whitespace.
pub fn is_whitespace(c: char) -> (r: bool)
    ensures
        r == is_whitespace_char(c),
{
    ('\u{9}' <= c && c <= '\u{d}') || c == ' ' || c == '\u{85}' || c == '\u{a0}' || c == '\u{1680}'
        || ('\u{2000}' <= c && c <= '\u{200a}') || c == '\u{2028}' || c == '\u{2029}' || c
        == '\u{202f}' || c == '\u{205f}' || c == '\u{3000}'
}

/// Narrows the range `lo..hi` of `v` to its trimmed part.
pub fn trim_range(v: &Vec<char>, lo: usize, hi: usize) -> (r: (usize, usize))
    requires
        lo <= hi <= v@.len(),
    ensures
        lo <= r.0 <= r.1 <= hi,
        v@.subrange(r.0 as int, r.1 as int) == trim(v@.subrange(lo as int, hi as int)),
{
    let mut a = lo;
    while a < hi && is_whitespace(v[a])
        invariant
            lo <= a <= hi <= v@.len(),
            trim_start(v@.subrange(lo as int, hi as int)) == trim_start(
                v@.subrange(a as int, hi as int),
            ),
        decreases hi - a,
    {
        assert(v@.subrange(a as int, hi as int).drop_first() =~= v@.subrange(
            a + 1,
            hi as int,
        ));
        a = a + 1;
    }
    let mut b = hi;
    while b > a && is_whitespace(v[b - 1])
        invariant
            lo <= a <= b <= hi <= v@.len(),
            trim_end(v@.subrange(a as int, hi as int)) == trim_end(
                v@.subrange(a as int, b as int),
            ),
        decreases b - a,
    {
        assert(v@.subrange(a as int, b as int).drop_last() =~= v@.subrange(
            a as int,
            b - 1,
        ));
        b = b - 1;
    }
    (a, b)
}


/// The pieces of `s` between `'\n'` characters, in order; a string without
/// a newline is one piece, and a trailing newline leaves a last empty piece.
pub open spec fn split_lines(s: Seq<char>) -> Seq<Seq<char>>
    decreases s.len(),
{
    if s.len() == 0 {
        seq![Seq::empty()]
    } else {
        let prev = split_lines(s.drop_last());
        if s.last() == '\n' {
            prev.push(Seq::empty())
        } else {
            prev.update(prev.len() - 1, prev.last().push(s.last()))
        }
    }
}

/// The trimmed pieces that are not empty, in order.
pub open spec fn non_empty_trimmed(lines: Seq<Seq<char>>) -> Seq<Seq<char>>
    decreases lines.len(),
{
    if lines.len() == 0 {
        Seq::empty()
    } else {
        let prev = non_empty_trimmed(lines.drop_last());
        if trim(lines.last()).len() > 0 {
            prev.push(trim(lines.last()))
        } else {
            prev
        }
    }
}

/// What `s.lines()` gives after trimming each line and leaving out the
/// empty ones.
pub open spec fn trimmed_lines(s: Seq<char>) -> Seq<Seq<char>> {
    non_empty_trimmed(split_lines(s))
}

/// The index ranges of the lines of `v`: for each piece of `split_lines`,
/// its start and end.
pub fn line_spans(v: &Vec<char>) -> (r: Vec<(usize, usize)>)
    ensures
        r@.len() == split_lines(v@).len(),
        forall|k: int|
            0 <= k < r@.len() ==> {
                &&& (#[trigger] r@[k]).0 <= r@[k].1 <= v@.len()
                &&& v@.subrange(r@[k].0 as int, r@[k].1 as int) == split_lines(v@)[k]
            },
{
    let mut spans: Vec<(usize, usize)> = Vec::new();
    let mut start: usize = 0;
    let mut i: usize = 0;
    assert(v@.take(0) =~= Seq::<char>::empty());
    while i < v.len()
        invariant
            start <= i <= v@.len(),
            spans@.len() + 1 == split_lines(v@.take(i as int)).len(),
            split_lines(v@.take(i as int)).last() == v@.subrange(start as int, i as int),
            forall|k: int|
                0 <= k < spans@.len() ==> {
                    &&& (#[trigger] spans@[k]).0 <= spans@[k].1 <= start
                    &&& v@.subrange(spans@[k].0 as int, spans@[k].1 as int) == split_lines(
                        v@.take(i as int),
                    )[k]
                },
        decreases v@.len() - i,
    {
        let ghost prev = split_lines(v@.take(i as int));
        assert(v@.take(i + 1).drop_last() =~= v@.take(i as int));
        assert(v@.take(i + 1).last() == v@[i as int]);
        if v[i] == '\n' {
            spans.push((start, i));
            start = i + 1;
            assert(v@.subrange(start as int, i + 1) =~= Seq::<char>::empty());
        } else {
            assert(v@.subrange(start as int, i + 1) =~= v@.subrange(start as int, i as int).push(
                v@[i as int],
            ));
        }
        i = i + 1;
    }
    assert(v@.take(v@.len() as int) =~= v@);
    spans.push((start, i));
    spans
}


/// Appends one character with `String::push`.
///
/// Trusted: the contract says that the string afterwards is the old one with
/// `c` added at the end, which is what the standard library documents.
#[verifier::external_body]
pub(crate) fn push_char(s: &mut String, c: char)
    ensures
        final(s)@ == old(s)@.push(c),
{
    s.push(c);
}

/// The characters of a string, in order.
pub fn chars_of(s: &str) -> (r: Vec<char>)
    ensures
        r@ == s@,
{
    let mut r: Vec<char> = Vec::new();
    for c in it: s.chars()
        invariant
            it.seq() == s@,
            r@ == s@.take(it.index()),
    {
        assert(s@.take(it.index() + 1) =~= s@.take(it.index()).push(c));
        r.push(c);
    }
    assert(r@ =~= s@);
    r
}

/// The string made of the characters `v[lo..hi]`.
pub fn string_from_range(v: &Vec<char>, lo: usize, hi: usize) -> (r: String)
    requires
        lo <= hi <= v@.len(),
    ensures
        r@ == v@.subrange(lo as int, hi as int),
{
    let mut r = String::new();
    let mut i = lo;
    while i < hi
        invariant
            lo <= i <= hi <= v@.len(),
            r@ == v@.subrange(lo as int, i as int),
        decreases hi - i,
    {
        push_char(&mut r, v[i]);
        assert(v@.subrange(lo as int, i + 1) =~= v@.subrange(lo as int, i as int).push(
            v@[i as int],
        ));
        i = i + 1;
    }
    r
}

/// The lines of `s`, each trimmed, leaving out those that are empty after
/// trimming.
pub fn trimmed_non_empty_lines(s: &str) -> (r: Vec<String>)
    ensures
        r.deep_view() == trimmed_lines(s@),
{
    let v = chars_of(s);
    let spans = line_spans(&v);
    let ghost lines = split_lines(v@);
    let mut r: Vec<String> = Vec::new();
    let mut k: usize = 0;
    while k < spans.len()
        invariant
            v@ == s@,
            lines == split_lines(v@),
            spans@.len() == lines.len(),
            k <= spans@.len(),
            forall|j: int|
                0 <= j < spans@.len() ==> {
                    &&& (#[trigger] spans@[j]).0 <= spans@[j].1 <= v@.len()
                    &&& v@.subrange(spans@[j].0 as int, spans@[j].1 as int) == lines[j]
                },
            r.deep_view() == non_empty_trimmed(lines.take(k as int)),
        decreases spans@.len() - k,
    {
        let (lo, hi) = spans[k];
        let (a, b) = trim_range(&v, lo, hi);
        assert(lines.take(k + 1).drop_last() =~= lines.take(k as int));
        if a < b {
            let line = string_from_range(&v, a, b);
            r.push(line);
            assert(r.deep_view() =~= non_empty_trimmed(lines.take(k as int)).push(line@));
        }
        k = k + 1;
    }
    assert(lines.take(k as int) =~= lines);
    r
}


/// `s` without the prefix `p`, or `None` when `s` does not start with `p`
/// (`str::strip_prefix`).
pub open spec fn strip_prefix(s: Seq<char>, p: Seq<char>) -> Option<Seq<char>> {
    if p.len() <= s.len() && s.take(p.len() as int) == p {
        Some(s.skip(p.len() as int))
    } else {
        None
    }
}

/// `s` with every trailing `c` removed (`str::trim_end_matches` with a char).
pub open spec fn trim_end_matches(s: Seq<char>, c: char) -> Seq<char>
    decreases s.len(),
{
    if s.len() > 0 && s.last() == c {
        trim_end_matches(s.drop_last(), c)
    } else {
        s
    }
}

/// The index of the last `c` in `s`, or `-1`.
pub open spec fn last_index_of(s: Seq<char>, c: char) -> int
    decreases s.len(),
{
    if s.len() == 0 {
        -1
    } else if s.last() == c {
        s.len() - 1
    } else {
        last_index_of(s.drop_last(), c)
    }
}

/// The parts before and after the last `c` (`str::rsplit_once` with a char).
pub open spec fn rsplit_once(s: Seq<char>, c: char) -> Option<(Seq<char>, Seq<char>)> {
    let i = last_index_of(s, c);
    if i < 0 {
        None
    } else {
        Some((s.take(i), s.skip(i + 1)))
    }
}

/// A found index lies in range and holds `c`.
pub proof fn lemma_last_index_of(s: Seq<char>, c: char)
    ensures
        -1 <= last_index_of(s, c) < s.len(),
        last_index_of(s, c) >= 0 ==> s[last_index_of(s, c)] == c,
    decreases s.len(),
{
    if s.len() > 0 && s.last() != c {
        lemma_last_index_of(s.drop_last(), c);
    }
}

/// Tests whether `v` starts with the characters of `p`.
pub fn starts_with(v: &Vec<char>, p: &Vec<char>) -> (r: bool)
    ensures
        r == (p@.len() <= v@.len() && v@.take(p@.len() as int) == p@),
{
    if p.len() > v.len() {
        return false;
    }
    let mut i: usize = 0;
    while i < p.len()
        invariant
            p@.len() <= v@.len(),
            i <= p@.len(),
            forall|k: int| 0 <= k < i ==> v@[k] == p@[k],
        decreases p@.len() - i,
    {
        if v[i] != p[i] {
            assert(v@.take(p@.len() as int)[i as int] != p@[i as int]);
            return false;
        }
        i = i + 1;
    }
    assert(v@.take(p@.len() as int) =~= p@);
    true
}

/// `str::strip_prefix` on the text of `s`.
pub fn strip_prefix_str(s: &str, p: &str) -> (r: Option<String>)
    ensures
        r.deep_view() == strip_prefix(s@, p@),
{
    let v = chars_of(s);
    let pv = chars_of(p);
    if starts_with(&v, &pv) {
        let r = string_from_range(&v, pv.len(), v.len());
        assert(v@.subrange(pv@.len() as int, v@.len() as int) =~= v@.skip(pv@.len() as int));
        Some(r)
    } else {
        None
    }
}

/// The end of `v[lo..hi]` after removing trailing `c`s.
pub fn trim_end_matches_range(v: &Vec<char>, lo: usize, hi: usize, c: char) -> (r: usize)
    requires
        lo <= hi <= v@.len(),
    ensures
        lo <= r <= hi,
        v@.subrange(lo as int, r as int) == trim_end_matches(v@.subrange(lo as int, hi as int), c),
{
    let mut b = hi;
    while b > lo && v[b - 1] == c
        invariant
            lo <= b <= hi <= v@.len(),
            trim_end_matches(v@.subrange(lo as int, hi as int), c) == trim_end_matches(
                v@.subrange(lo as int, b as int),
                c,
            ),
        decreases b - lo,
    {
        assert(v@.subrange(lo as int, b as int).drop_last() =~= v@.subrange(lo as int, b - 1));
        b = b - 1;
    }
    b
}

/// The index in `v` of the last `c` within `v[lo..hi]`, if any.
pub fn rfind_in_range(v: &Vec<char>, lo: usize, hi: usize, c: char) -> (r: Option<usize>)
    requires
        lo <= hi <= v@.len(),
    ensures
        match r {
            Some(i) => lo <= i < hi && i - lo == last_index_of(
                v@.subrange(lo as int, hi as int),
                c,
            ),
            None => last_index_of(v@.subrange(lo as int, hi as int), c) == -1,
        },
{
    let mut b = hi;
    while b > lo
        invariant
            lo <= b <= hi <= v@.len(),
            last_index_of(v@.subrange(lo as int, hi as int), c) == last_index_of(
                v@.subrange(lo as int, b as int),
                c,
            ),
        decreases b - lo,
    {
        if v[b - 1] == c {
            return Some(b - 1);
        }
        assert(v@.subrange(lo as int, b as int).drop_last() =~= v@.subrange(lo as int, b - 1));
        b = b - 1;
    }
    None
}


/// The items joined with `sep` between each two.
pub open spec fn join(items: Seq<Seq<char>>, sep: Seq<char>) -> Seq<char>
    decreases items.len(),
{
    if items.len() == 0 {
        Seq::empty()
    } else if items.len() == 1 {
        items[0]
    } else {
        join(items.drop_last(), sep) + sep + items.last()
    }
}

/// Appends `t` to `s`.
pub fn push_str(s: &mut String, t: &str)
    ensures
        final(s)@ == old(s)@ + t@,
{
    s.append(t);
}

/// The strings joined with `sep` between each two.
pub fn join_strings(items: &Vec<String>, sep: &str) -> (r: String)
    ensures
        r@ == join(items.deep_view(), sep@),
{
    let ghost iv = items.deep_view();
    let mut r = String::new();
    let mut k: usize = 0;
    while k < items.len()
        invariant
            iv == items.deep_view(),
            k <= iv.len(),
            r@ == join(iv.take(k as int), sep@),
        decreases iv.len() - k,
    {
        assert(iv.take(k + 1).drop_last() =~= iv.take(k as int));
        if k > 0 {
            push_str(&mut r, sep);
        }
        push_str(&mut r, items[k].as_str());
        proof {
            if k == 0 {
                assert(r@ =~= iv.take(1)[0]);
            }
        }
        k = k + 1;
    }
    assert(iv.take(k as int) =~= iv);
    r
}


/// `trim_start` leaves a suffix that does not start with whitespace.
pub proof fn lemma_trim_start(s: Seq<char>)
    ensures
        trim_start(s).len() <= s.len(),
        trim_start(s) == s.skip(s.len() - trim_start(s).len()),
        trim_start(s).len() > 0 ==> !is_whitespace_char(trim_start(s)[0]),
    decreases s.len(),
{
    if s.len() > 0 && is_whitespace_char(s[0]) {
        lemma_trim_start(s.drop_first());
        assert(s.drop_first().skip(s.drop_first().len() - trim_start(s).len()) =~= s.skip(
            s.len() - trim_start(s).len(),
        ));
    } else {
        assert(s.skip(0) =~= s);
    }
}

/// `trim_end` leaves a prefix that does not end with whitespace.
pub proof fn lemma_trim_end(s: Seq<char>)
    ensures
        trim_end(s).len() <= s.len(),
        trim_end(s) == s.take(trim_end(s).len() as int),
        trim_end(s).len() > 0 ==> !is_whitespace_char(trim_end(s).last()),
    decreases s.len(),
{
    if s.len() > 0 && is_whitespace_char(s.last()) {
        lemma_trim_end(s.drop_last());
        assert(s.drop_last().take(trim_end(s).len() as int) =~= s.take(trim_end(s).len() as int));
    } else {
        assert(s.take(s.len() as int) =~= s);
    }
}

/// A trimmed text, when not empty, neither starts nor ends with whitespace.
pub proof fn lemma_trim_ends(s: Seq<char>)
    ensures
        trim(s).len() > 0 ==> !is_whitespace_char(trim(s)[0]) && !is_whitespace_char(
            trim(s).last(),
        ),
{
    lemma_trim_start(s);
    lemma_trim_end(trim_start(s));
    if trim(s).len() > 0 {
        assert(trim(s)[0] == trim_start(s)[0]);
    }
}

/// Every line that `trimmed_non_empty_lines` gives is non-empty and neither
/// starts nor ends with whitespace.
pub proof fn lemma_trimmed_lines_are_trimmed(s: Seq<char>)
    ensures
        forall|k: int|
            0 <= k < trimmed_lines(s).len() ==> {
                let l = #[trigger] trimmed_lines(s)[k];
                &&& l.len() > 0
                &&& !is_whitespace_char(l[0])
                &&& !is_whitespace_char(l.last())
            },
{
    lemma_non_empty_trimmed(split_lines(s));
}

/// Each line of `non_empty_trimmed` is a non-empty trim.
pub proof fn lemma_non_empty_trimmed(lines: Seq<Seq<char>>)
    ensures
        forall|k: int|
            0 <= k < non_empty_trimmed(lines).len() ==> {
                let l = #[trigger] non_empty_trimmed(lines)[k];
                &&& l.len() > 0
                &&& !is_whitespace_char(l[0])
                &&& !is_whitespace_char(l.last())
            },
    decreases lines.len(),
{
    if lines.len() > 0 {
        lemma_non_empty_trimmed(lines.drop_last());
        lemma_trim_ends(lines.last());
        let prev = non_empty_trimmed(lines.drop_last());
        assert forall|k: int| 0 <= k < non_empty_trimmed(lines).len() implies {
            let l = #[trigger] non_empty_trimmed(lines)[k];
            &&& l.len() > 0
            &&& !is_whitespace_char(l[0])
            &&& !is_whitespace_char(l.last())
        } by {
            if k < prev.len() {
                assert(non_empty_trimmed(lines)[k] == prev[k]);
            }
        }
    }
}

/// The decimal digit of `d` (below ten).
pub open spec fn digit_char(d: nat) -> char {
    if d == 0 { '0' }
    else if d == 1 { '1' }
    else if d == 2 { '2' }
    else if d == 3 { '3' }
    else if d == 4 { '4' }
    else if d == 5 { '5' }
    else if d == 6 { '6' }
    else if d == 7 { '7' }
    else if d == 8 { '8' }
    else { '9' }
}

/// The decimal text of `n`, without leading zeros.
pub open spec fn decimal(n: nat) -> Seq<char>
    decreases n,
{
    if n < 10 {
        seq![digit_char(n)]
    } else {
        decimal(n / 10).push(digit_char(n % 10))
    }
}

/// The decimal digit of `d`.
fn digit_of(d: usize) -> (r: char)
    requires
        d < 10,
    ensures
        r == digit_char(d as nat),
{
    if d == 0 { '0' }
    else if d == 1 { '1' }
    else if d == 2 { '2' }
    else if d == 3 { '3' }
    else if d == 4 { '4' }
    else if d == 5 { '5' }
    else if d == 6 { '6' }
    else if d == 7 { '7' }
    else if d == 8 { '8' }
    else { '9' }
}

/// Appends the decimal text of `n` (`Display` of an unsigned integer).
pub fn push_decimal(s: &mut String, n: usize)
    ensures
        final(s)@ == old(s)@ + decimal(n as nat),
    decreases n,
{
    if n >= 10 {
        push_decimal(s, n / 10);
    }
    push_char(s, digit_of(n % 10));
    proof {
        if n < 10 {
            assert(n % 10 == n);
        }
    }
    assert(s@ =~= old(s)@ + decimal(n as nat)) by {
        if n >= 10 {
            assert((n / 10) as nat == n as nat / 10);
        }
    }
}


/// Joining: no items give nothing, one item gives itself, and each further
/// item follows the separator after the items before it.
pub proof fn lemma_join_shape(items: Seq<Seq<char>>, sep: Seq<char>, x: Seq<char>)
    ensures
        join(Seq::empty(), sep) == Seq::<char>::empty(),
        join(seq![x], sep) == x,
        items.len() > 0 ==> join(items.push(x), sep) == join(items, sep) + sep + x,
{
    assert(seq![x][0] == x);
    if items.len() > 0 {
        assert(items.push(x).drop_last() =~= items);
    }
}

} // verus!
