//! Character-level text handling.
//!
//! Tool output and user input arrive as strings. The functions here turn them
//! into character vectors and answer the questions the rest of the crate asks
//! of them: where a pattern occurs, what is left after trimming, how a text
//! falls into lines, fields and words. Every function is specified over
//! `Seq<char>`, the view of a string.

use vstd::prelude::*;
use vstd::string::*;

verus! {

/// `p` is an initial segment of `s`.
pub open spec fn has_prefix(s: Seq<char>, p: Seq<char>) -> bool {
    p.len() <= s.len() && s.take(p.len() as int) == p
}

/// `p` is a final segment of `s`.
pub open spec fn has_suffix(s: Seq<char>, p: Seq<char>) -> bool {
    p.len() <= s.len() && s.skip(s.len() - p.len()) == p
}

/// `p` occurs in `s` starting at index `i`.
pub open spec fn found_at(s: Seq<char>, p: Seq<char>, i: int) -> bool {
    0 <= i && i + p.len() <= s.len() && s.subrange(i, i + p.len()) == p
}

/// `p` occurs somewhere in `s`.
pub open spec fn has_sub(s: Seq<char>, p: Seq<char>) -> bool {
    exists|i: int| found_at(s, p, i)
}

/// The code points with the Unicode property White_Space.
pub open spec fn is_space(c: char) -> bool {
    let n = c as u32;
    (0x09 <= n <= 0x0d) || n == 0x20 || n == 0x85 || n == 0xa0 || n == 0x1680 || (0x2000 <= n
        <= 0x200a) || n == 0x2028 || n == 0x2029 || n == 0x202f || n == 0x205f || n == 0x3000
}

/// An ASCII decimal digit.
pub open spec fn is_digit(c: char) -> bool {
    '0' <= c <= '9'
}

/// The number of leading white-space characters of `s`.
pub open spec fn leading_spaces(s: Seq<char>) -> nat
    decreases s.len(),
{
    if s.len() > 0 && is_space(s[0]) {
        1 + leading_spaces(s.skip(1))
    } else {
        0
    }
}

/// The number of trailing white-space characters of `s`.
pub open spec fn trailing_spaces(s: Seq<char>) -> nat
    decreases s.len(),
{
    if s.len() > 0 && is_space(s.last()) {
        1 + trailing_spaces(s.drop_last())
    } else {
        0
    }
}

/// `s` without its leading and trailing white space.
pub open spec fn trimmed(s: Seq<char>) -> Seq<char> {
    let t = s.skip(leading_spaces(s) as int);
    t.take(t.len() - trailing_spaces(t))
}

/// Every character of `s` is white space.
pub open spec fn is_blank(s: Seq<char>) -> bool {
    forall|i: int| 0 <= i < s.len() ==> is_space(#[trigger] s[i])
}

pub proof fn lemma_leading_spaces(s: Seq<char>)
    ensures
        leading_spaces(s) <= s.len(),
        forall|i: int| 0 <= i < leading_spaces(s) ==> is_space(#[trigger] s[i]),
        leading_spaces(s) < s.len() ==> !is_space(s[leading_spaces(s) as int]),
    decreases s.len(),
{
    if s.len() > 0 && is_space(s[0]) {
        let t = s.skip(1);
        lemma_leading_spaces(t);
        assert forall|i: int| 0 <= i < leading_spaces(s) implies is_space(#[trigger] s[i]) by {
            if i > 0 {
                assert(s[i] == t[i - 1]);
            }
        }
        if leading_spaces(s) < s.len() {
            assert(s[leading_spaces(s) as int] == t[leading_spaces(t) as int]);
        }
    }
}

pub proof fn lemma_trailing_spaces(s: Seq<char>)
    ensures
        trailing_spaces(s) <= s.len(),
        forall|i: int| s.len() - trailing_spaces(s) <= i < s.len() ==> is_space(#[trigger] s[i]),
        trailing_spaces(s) < s.len() ==> !is_space(s[s.len() - trailing_spaces(s) - 1]),
    decreases s.len(),
{
    if s.len() > 0 && is_space(s.last()) {
        let t = s.drop_last();
        lemma_trailing_spaces(t);
        assert forall|i: int| s.len() - trailing_spaces(s) <= i < s.len() implies is_space(
            #[trigger] s[i],
        ) by {
            if i < s.len() - 1 {
                assert(s[i] == t[i]);
            }
        }
        if trailing_spaces(s) < s.len() {
            assert(s[s.len() - trailing_spaces(s) - 1] == t[t.len() - trailing_spaces(t) - 1]);
        }
    }
}

/// The count of leading spaces is the one index below which all is space and
/// at which, if it lies inside `s`, a character other than space stands.
pub proof fn lemma_leading_spaces_unique(s: Seq<char>, k: int)
    requires
        0 <= k <= s.len(),
        forall|i: int| 0 <= i < k ==> is_space(#[trigger] s[i]),
        k < s.len() ==> !is_space(s[k]),
    ensures
        leading_spaces(s) == k,
{
    lemma_leading_spaces(s);
    let n = leading_spaces(s) as int;
    if n < k {
        assert(is_space(s[n]));
    } else if k < n {
        assert(is_space(s[k]));
    }
}

pub proof fn lemma_trailing_spaces_unique(s: Seq<char>, k: int)
    requires
        0 <= k <= s.len(),
        forall|i: int| s.len() - k <= i < s.len() ==> is_space(#[trigger] s[i]),
        k < s.len() ==> !is_space(s[s.len() - k - 1]),
    ensures
        trailing_spaces(s) == k,
{
    lemma_trailing_spaces(s);
    let n = trailing_spaces(s) as int;
    if n < k {
        assert(is_space(s[s.len() - n - 1]));
    } else if k < n {
        assert(is_space(s[s.len() - k - 1]));
    }
}

/// The length of the longest initial segment of `s` that holds neither `a`
/// nor `b`.
pub open spec fn field_end(s: Seq<char>, a: char, b: char) -> nat
    decreases s.len(),
{
    if s.len() == 0 || s[0] == a || s[0] == b {
        0
    } else {
        1 + field_end(s.skip(1), a, b)
    }
}

/// The pieces into which the separators `a` and `b` cut `s`. A text without
/// separator is one piece; two adjacent separators enclose an empty piece.
pub open spec fn fields(s: Seq<char>, a: char, b: char) -> Seq<Seq<char>>
    decreases s.len(),
{
    let k = field_end(s, a, b);
    if k >= s.len() {
        seq![s]
    } else {
        seq![s.take(k as int)] + fields(s.skip(k as int + 1), a, b)
    }
}

/// `l` without one trailing carriage return.
pub open spec fn strip_cr(l: Seq<char>) -> Seq<char> {
    if l.len() > 0 && l.last() == '\r' {
        l.drop_last()
    } else {
        l
    }
}

/// The lines of a text. A line ends at a line feed; a carriage return just
/// before the line feed belongs to the line ending. Text after the last line
/// feed is a line of its own, unless it is empty.
pub open spec fn lines_of(s: Seq<char>) -> Seq<Seq<char>>
    decreases s.len(),
{
    if s.len() == 0 {
        seq![]
    } else {
        let k = field_end(s, '\n', '\n');
        if k >= s.len() {
            seq![s]
        } else {
            seq![strip_cr(s.take(k as int))] + lines_of(s.skip(k as int + 1))
        }
    }
}

/// The length of the longest initial segment of `s` without white space.
pub open spec fn word_end(s: Seq<char>) -> nat
    decreases s.len(),
{
    if s.len() == 0 || is_space(s[0]) {
        0
    } else {
        1 + word_end(s.skip(1))
    }
}

/// The maximal runs of characters other than white space, in order.
pub open spec fn words_of(s: Seq<char>) -> Seq<Seq<char>>
    decreases s.len(),
    via words_of_terminates
{
    let t = s.skip(leading_spaces(s) as int);
    if t.len() == 0 || is_space(t[0]) {
        seq![]
    } else {
        let k = word_end(t);
        seq![t.take(k as int)] + words_of(t.skip(k as int))
    }
}

#[via_fn]
proof fn words_of_terminates(s: Seq<char>) {
    lemma_leading_spaces(s);
    let t = s.skip(leading_spaces(s) as int);
    if !(t.len() == 0 || is_space(t[0])) {
        lemma_word_end(t);
    }
}

/// The views of a vector of texts.
pub open spec fn views(v: Seq<Vec<char>>) -> Seq<Seq<char>> {
    Seq::new(v.len(), |i: int| v[i]@)
}

pub proof fn lemma_field_end(s: Seq<char>, a: char, b: char)
    ensures
        field_end(s, a, b) <= s.len(),
        forall|i: int| 0 <= i < field_end(s, a, b) ==> #[trigger] s[i] != a && s[i] != b,
        field_end(s, a, b) < s.len() ==> s[field_end(s, a, b) as int] == a || s[field_end(
            s,
            a,
            b,
        ) as int] == b,
    decreases s.len(),
{
    if !(s.len() == 0 || s[0] == a || s[0] == b) {
        let t = s.skip(1);
        lemma_field_end(t, a, b);
        assert forall|i: int| 0 <= i < field_end(s, a, b) implies #[trigger] s[i] != a && s[i]
            != b by {
            if i > 0 {
                assert(s[i] == t[i - 1]);
            }
        }
        if field_end(s, a, b) < s.len() {
            assert(s[field_end(s, a, b) as int] == t[field_end(t, a, b) as int]);
        }
    }
}

pub proof fn lemma_field_end_unique(s: Seq<char>, a: char, b: char, k: int)
    requires
        0 <= k <= s.len(),
        forall|i: int| 0 <= i < k ==> #[trigger] s[i] != a && s[i] != b,
        k < s.len() ==> s[k] == a || s[k] == b,
    ensures
        field_end(s, a, b) == k,
{
    lemma_field_end(s, a, b);
    let n = field_end(s, a, b) as int;
    if n < k {
        assert(s[n] != a && s[n] != b);
    } else if k < n {
        assert(s[k] != a && s[k] != b);
    }
}

pub proof fn lemma_word_end(s: Seq<char>)
    ensures
        word_end(s) <= s.len(),
        forall|i: int| 0 <= i < word_end(s) ==> !is_space(#[trigger] s[i]),
        word_end(s) < s.len() ==> is_space(s[word_end(s) as int]),
    decreases s.len(),
{
    if !(s.len() == 0 || is_space(s[0])) {
        let t = s.skip(1);
        lemma_word_end(t);
        assert forall|i: int| 0 <= i < word_end(s) implies !is_space(#[trigger] s[i]) by {
            if i > 0 {
                assert(s[i] == t[i - 1]);
            }
        }
        if word_end(s) < s.len() {
            assert(s[word_end(s) as int] == t[word_end(t) as int]);
        }
    }
}

pub proof fn lemma_word_end_unique(s: Seq<char>, k: int)
    requires
        0 <= k <= s.len(),
        forall|i: int| 0 <= i < k ==> !is_space(#[trigger] s[i]),
        k < s.len() ==> is_space(s[k]),
    ensures
        word_end(s) == k,
{
    lemma_word_end(s);
    let n = word_end(s) as int;
    if n < k {
        assert(!is_space(s[n]));
    } else if k < n {
        assert(!is_space(s[k]));
    }
}

/// Trusted, not proved: `String::push` of the standard library. Its
/// documentation says that it appends the given character to the end of the
/// string; the contract says the same of the string's view, and nothing
/// else.
pub assume_specification[ String::push ](s: &mut String, c: char)
    ensures
        final(s)@ == old(s)@.push(c),
;

/// The characters of a string, in order.
pub fn chars_of(s: &str) -> (v: Vec<char>)
    ensures
        v@ == s@,
{
    let mut v: Vec<char> = Vec::new();
    for c in it: s.chars()
        invariant
            v@ == it.seq().take(it.index() as int),
            it.seq() == s@,
    {
        v.push(c);
    }
    v
}

/// The string made of the characters `v[from..to]`.
pub fn string_of_range(v: &Vec<char>, from: usize, to: usize) -> (s: String)
    requires
        from <= to <= v.len(),
    ensures
        s@ == v@.subrange(from as int, to as int),
{
    let mut s = String::new();
    let mut i: usize = from;
    while i < to
        invariant
            from <= i <= to <= v.len(),
            s@ == v@.subrange(from as int, i as int),
        decreases to - i,
    {
        s.push(v[i]);
        i = i + 1;
    }
    s
}

/// The string made of the characters of `v`.
pub fn string_of(v: &Vec<char>) -> (s: String)
    ensures
        s@ == v@,
{
    let s = string_of_range(v, 0, v.len());
    assert(v@.subrange(0, v.len() as int) == v@);
    s
}

/// A copy of `v[from..to]`.
pub fn slice_of(v: &Vec<char>, from: usize, to: usize) -> (r: Vec<char>)
    requires
        from <= to <= v.len(),
    ensures
        r@ == v@.subrange(from as int, to as int),
{
    let mut r: Vec<char> = Vec::new();
    let mut i: usize = from;
    while i < to
        invariant
            from <= i <= to <= v.len(),
            r@ == v@.subrange(from as int, i as int),
        decreases to - i,
    {
        r.push(v[i]);
        i = i + 1;
    }
    r
}

/// Whether `p` stands in `s` at index `i`.
pub fn matches_at(s: &Vec<char>, p: &Vec<char>, i: usize) -> (b: bool)
    ensures
        b == found_at(s@, p@, i as int),
{
    if i > s.len() || p.len() > s.len() - i {
        return false;
    }
    let mut k: usize = 0;
    while k < p.len()
        invariant
            i + p.len() <= s.len(),
            k <= p.len(),
            s@.subrange(i as int, i + k) == p@.take(k as int),
        decreases p.len() - k,
    {
        if s[i + k] != p[k] {
            assert(s@.subrange(i as int, i + p.len())[k as int] != p@[k as int]);
            return false;
        }
        assert(s@.subrange(i as int, i + k + 1) == s@.subrange(i as int, i + k).push(
            s@[i + k],
        ));
        assert(p@.take(k + 1) == p@.take(k as int).push(p@[k as int]));
        k = k + 1;
    }
    assert(p@.take(p.len() as int) == p@);
    true
}

/// Whether two character vectors hold the same text.
pub fn same_text(a: &Vec<char>, b: &Vec<char>) -> (r: bool)
    ensures
        r == (a@ == b@),
{
    if a.len() != b.len() {
        return false;
    }
    let r = matches_at(a, b, 0);
    assert(a@.subrange(0, a.len() as int) == a@);
    r
}

/// Whether `s` begins with `p`.
pub fn starts_with(s: &Vec<char>, p: &Vec<char>) -> (b: bool)
    ensures
        b == has_prefix(s@, p@),
{
    matches_at(s, p, 0)
}

/// Whether `s` ends with `p`.
pub fn ends_with(s: &Vec<char>, p: &Vec<char>) -> (b: bool)
    ensures
        b == has_suffix(s@, p@),
{
    if p.len() > s.len() {
        return false;
    }
    matches_at(s, p, s.len() - p.len())
}

/// Whether `p` occurs in `s`.
pub fn contains_text(s: &Vec<char>, p: &Vec<char>) -> (b: bool)
    ensures
        b == has_sub(s@, p@),
{
    if p.len() > s.len() {
        assert forall|i: int| !found_at(s@, p@, i) by {}
        return false;
    }
    let last: usize = s.len() - p.len();
    let mut i: usize = 0;
    loop
        invariant
            last == s.len() - p.len(),
            i <= last,
            forall|j: int| 0 <= j < i ==> !found_at(s@, p@, j),
        decreases last - i,
    {
        if matches_at(s, p, i) {
            return true;
        }
        if i == last {
            assert forall|j: int| !found_at(s@, p@, j) by {}
            return false;
        }
        i = i + 1;
    }
}

/// Whether `c` is one of the Unicode white-space characters.
pub fn space_char(c: char) -> (b: bool)
    ensures
        b == is_space(c),
{
    let n: u32 = c as u32;
    (0x09 <= n && n <= 0x0d) || n == 0x20 || n == 0x85 || n == 0xa0 || n == 0x1680 || (0x2000 <= n
        && n <= 0x200a) || n == 0x2028 || n == 0x2029 || n == 0x202f || n == 0x205f || n
        == 0x3000
}

/// `s` without its leading and trailing white space.
pub fn trim(s: &Vec<char>) -> (r: Vec<char>)
    ensures
        r@ == trimmed(s@),
{
    let mut a: usize = 0;
    while a < s.len() && space_char(s[a])
        invariant
            a <= s.len(),
            forall|i: int| 0 <= i < a ==> is_space(#[trigger] s@[i]),
        decreases s.len() - a,
    {
        a = a + 1;
    }
    let mut b: usize = s.len();
    while b > a && space_char(s[b - 1])
        invariant
            a <= b <= s.len(),
            forall|i: int| b <= i < s.len() ==> is_space(#[trigger] s@[i]),
        decreases b,
    {
        b = b - 1;
    }
    proof {
        lemma_leading_spaces_unique(s@, a as int);
        let t = s@.skip(a as int);
        assert forall|i: int| t.len() - (s.len() - b) <= i < t.len() implies is_space(
            #[trigger] t[i],
        ) by {
            assert(t[i] == s@[i + a]);
        }
        lemma_trailing_spaces_unique(t, s.len() - b);
        assert(t.take(t.len() - (s.len() - b)) == s@.subrange(a as int, b as int));
    }
    slice_of(s, a, b)
}

/// Whether the text consists of white space only.
pub fn blank(s: &Vec<char>) -> (b: bool)
    ensures
        b == is_blank(s@),
{
    let mut i: usize = 0;
    while i < s.len()
        invariant
            i <= s.len(),
            forall|j: int| 0 <= j < i ==> is_space(#[trigger] s@[j]),
        decreases s.len() - i,
    {
        if !space_char(s[i]) {
            return false;
        }
        i = i + 1;
    }
    true
}

/// Appends the characters of `src` to `dst`.
pub fn push_all(dst: &mut Vec<char>, src: &Vec<char>)
    ensures
        final(dst)@ == old(dst)@ + src@,
{
    let mut i: usize = 0;
    while i < src.len()
        invariant
            i <= src.len(),
            dst@ == old(dst)@ + src@.take(i as int),
        decreases src.len() - i,
    {
        dst.push(src[i]);
        i = i + 1;
    }
    assert(src@.take(src.len() as int) == src@);
}

/// The index of the first `a` or `b` at or after `from`, or the length of `s`.
pub fn find_either(s: &Vec<char>, from: usize, a: char, b: char) -> (e: usize)
    requires
        from <= s.len(),
    ensures
        from <= e <= s.len(),
        e - from == field_end(s@.skip(from as int), a, b),
{
    let mut e: usize = from;
    while e < s.len() && s[e] != a && s[e] != b
        invariant
            from <= e <= s.len(),
            forall|i: int| from <= i < e ==> #[trigger] s@[i] != a && s@[i] != b,
        decreases s.len() - e,
    {
        e = e + 1;
    }
    proof {
        let t = s@.skip(from as int);
        assert forall|i: int| 0 <= i < e - from implies #[trigger] t[i] != a && t[i] != b by {
            assert(t[i] == s@[i + from]);
        }
        lemma_field_end_unique(t, a, b, e - from);
    }
    e
}

/// The pieces into which the separators `a` and `b` cut `s`.
pub fn split_fields(s: &Vec<char>, a: char, b: char) -> (r: Vec<Vec<char>>)
    ensures
        views(r@) == fields(s@, a, b),
        r.len() >= 1,
{
    let mut r: Vec<Vec<char>> = Vec::new();
    let mut start: usize = 0;
    assert(s@.skip(0) == s@);
    loop
        invariant
            start <= s.len(),
            views(r@) + fields(s@.skip(start as int), a, b) == fields(s@, a, b),
        decreases s.len() - start,
    {
        let e: usize = find_either(s, start, a, b);
        let piece = slice_of(s, start, e);
        let ghost rest = s@.skip(start as int);
        let ghost before = views(r@);
        proof {
            assert(rest.take(e - start) == s@.subrange(start as int, e as int));
        }
        r.push(piece);
        assert(views(r@) == before.push(piece@));
        if e >= s.len() {
            assert(fields(rest, a, b) == seq![rest]);
            assert(rest == piece@);
            assert(before.push(piece@) == before + seq![rest]);
            return r;
        }
        proof {
            assert(rest.skip(e - start + 1) == s@.skip(e + 1));
            assert(before.push(piece@) + fields(s@.skip(e + 1), a, b) == before + (seq![
                piece@,
            ] + fields(s@.skip(e + 1), a, b)));
        }
        start = e + 1;
    }
}

/// The lines of a text.
pub fn split_lines(s: &Vec<char>) -> (r: Vec<Vec<char>>)
    ensures
        views(r@) == lines_of(s@),
{
    let mut r: Vec<Vec<char>> = Vec::new();
    let mut start: usize = 0;
    assert(s@.skip(0) == s@);
    while start < s.len()
        invariant
            start <= s.len(),
            views(r@) + lines_of(s@.skip(start as int)) == lines_of(s@),
        decreases s.len() - start,
    {
        let e: usize = find_either(s, start, '\n', '\n');
        let ghost rest = s@.skip(start as int);
        let ghost before = views(r@);
        proof {
            assert(rest.take(e - start) == s@.subrange(start as int, e as int));
        }
        if e >= s.len() {
            let piece = slice_of(s, start, e);
            r.push(piece);
            assert(views(r@) == before.push(piece@));
            assert(rest == piece@);
            assert(before.push(piece@) == before + seq![rest]);
            assert(s@.skip(s.len() as int) == Seq::<char>::empty());
            start = s.len();
        } else {
            let stop: usize = if e > start && s[e - 1] == '\r' {
                (e - 1) as usize
            } else {
                e
            };
            let piece = slice_of(s, start, stop);
            r.push(piece);
            proof {
                let l = rest.take(e - start);
                assert(views(r@) == before.push(piece@));
                assert(piece@ == strip_cr(l));
                assert(rest.skip(e - start + 1) == s@.skip(e + 1));
                assert(before.push(piece@) + lines_of(s@.skip(e + 1)) == before + (seq![
                    piece@,
                ] + lines_of(s@.skip(e + 1))));
            }
            start = e + 1;
        }
    }
    assert(s@.skip(start as int).len() == 0);
    r
}

/// The maximal runs of characters other than white space.
pub fn split_words(s: &Vec<char>) -> (r: Vec<Vec<char>>)
    ensures
        views(r@) == words_of(s@),
{
    let mut r: Vec<Vec<char>> = Vec::new();
    let mut pos: usize = 0;
    assert(s@.skip(0) == s@);
    loop
        invariant
            pos <= s.len(),
            views(r@) + words_of(s@.skip(pos as int)) == words_of(s@),
        decreases s.len() - pos,
    {
        let mut a: usize = pos;
        while a < s.len() && space_char(s[a])
            invariant
                pos <= a <= s.len(),
                forall|i: int| pos <= i < a ==> is_space(#[trigger] s@[i]),
            decreases s.len() - a,
        {
            a = a + 1;
        }
        let ghost rest = s@.skip(pos as int);
        let ghost before = views(r@);
        proof {
            assert forall|i: int| 0 <= i < a - pos implies is_space(#[trigger] rest[i]) by {
                assert(rest[i] == s@[i + pos]);
            }
            lemma_leading_spaces_unique(rest, a - pos);
            assert(rest.skip(a - pos) == s@.skip(a as int));
        }
        if a >= s.len() {
            assert(words_of(rest) == Seq::<Seq<char>>::empty());
            return r;
        }
        let mut e: usize = a;
        while e < s.len() && !space_char(s[e])
            invariant
                a <= e <= s.len(),
                forall|i: int| a <= i < e ==> !is_space(#[trigger] s@[i]),
            decreases s.len() - e,
        {
            e = e + 1;
        }
        let piece = slice_of(s, a, e);
        r.push(piece);
        proof {
            let t = s@.skip(a as int);
            assert forall|i: int| 0 <= i < e - a implies !is_space(#[trigger] t[i]) by {
                assert(t[i] == s@[i + a]);
            }
            lemma_word_end_unique(t, e - a);
            assert(t.take(e - a) == piece@);
            assert(t.skip(e - a) == s@.skip(e as int));
            assert(views(r@) == before.push(piece@));
            assert(before.push(piece@) + words_of(s@.skip(e as int)) == before + (seq![piece@]
                + words_of(s@.skip(e as int))));
        }
        pos = e;
    }
}

/// Whether two strings hold the same text.
pub fn equal(a: &str, b: &str) -> (r: bool)
    ensures
        r == (a@ == b@),
{
    let x = chars_of(a);
    let y = chars_of(b);
    same_text(&x, &y)
}

/// Whether the string `s` begins with `p`.
pub fn begins_with(s: &str, p: &str) -> (b: bool)
    ensures
        b == has_prefix(s@, p@),
{
    let x = chars_of(s);
    let y = chars_of(p);
    starts_with(&x, &y)
}

/// Whether `p` occurs in the string `s`.
pub fn contains(s: &str, p: &str) -> (b: bool)
    ensures
        b == has_sub(s@, p@),
{
    let x = chars_of(s);
    let y = chars_of(p);
    contains_text(&x, &y)
}

/// The text of an optional string.
pub open spec fn opt_text(o: Option<String>) -> Option<Seq<char>> {
    match o {
        Some(s) => Some(s@),
        None => None,
    }
}

/// The texts of a vector of strings.
pub open spec fn texts(v: Seq<String>) -> Seq<Seq<char>> {
    Seq::new(v.len(), |i: int| v[i]@)
}

/// A copy of a string.
pub fn copy(s: &str) -> (r: String)
    ensures
        r@ == s@,
{
    String::from_str(s)
}

/// A copy of an optional string.
pub fn copy_opt(o: &Option<String>) -> (r: Option<String>)
    ensures
        opt_text(r) == opt_text(*o),
{
    match o {
        Some(s) => Some(copy(s.as_str())),
        None => None,
    }
}

} // verus!
