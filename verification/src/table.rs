//! Rewriting the size of one partition in a partition-table description.
//!
//! The description has one line per partition: the partition's node, a
//! colon, and attributes separated by commas, among them `start=` and
//! `size=` in sectors of 512 bytes. To resize a partition is to replace the
//! value of `size=` on its line; every other character of the line, and
//! every other line, is carried over as it is.

use vstd::prelude::*;
use crate::device::{raw_node, raw_path};
use crate::number::{decimal, push_decimal};
use crate::text::{
    chars_of, field_end, find_either, found_at, is_space, leading_spaces,
    lemma_field_end, lemma_leading_spaces, lemma_leading_spaces_unique, lemma_trailing_spaces,
    lemma_trailing_spaces_unique, lines_of, matches_at, push_all, same_text, slice_of,
    space_char, split_lines, string_of, strip_cr, trim, trimmed, views,
};

verus! {

/// The bytes of a sector.
pub const SECTOR_BYTES: u64 = 512;

/// The sectors needed to hold `bytes` bytes.
pub open spec fn sectors_for(bytes: nat) -> nat {
    (bytes + 511) / 512
}

/// The node of partition `index` of `disk`, index right behind the disk's
/// name: `/dev/sda1`.
pub open spec fn plain_node(disk: Seq<char>, index: nat) -> Seq<char> {
    raw_path(disk) + decimal(index)
}

/// The node of partition `index` of `disk`, with a `p` between the two:
/// `/dev/nvme0n1p1`.
pub open spec fn infixed_node(disk: Seq<char>, index: nat) -> Seq<char> {
    raw_path(disk) + seq!['p'] + decimal(index)
}

/// Where the node of a line ends: at its first colon, or at its end.
pub open spec fn node_end(line: Seq<char>) -> nat {
    field_end(line, ':', ':')
}

/// The node that a line describes: what stands before its first colon,
/// without the white space around it.
pub open spec fn device_field(line: Seq<char>) -> Seq<char> {
    trimmed(line.take(node_end(line) as int))
}

/// Whether a line describes partition `index` of `disk`, under either way
/// of naming its node.
pub open spec fn describes(line: Seq<char>, disk: Seq<char>, index: nat) -> bool {
    device_field(line) == plain_node(disk, index) || device_field(line) == infixed_node(
        disk,
        index,
    )
}

/// The key of the attribute that states where a partition starts.
pub open spec fn start_key() -> Seq<char> {
    "start="@
}

/// The key of the attribute that states the size of a partition.
pub open spec fn size_key() -> Seq<char> {
    "size="@
}

/// Whether a piece, the text between two commas, is the attribute of the
/// given key: the key stands at its beginning, white space before it
/// aside.
pub open spec fn is_attr(piece: Seq<char>, key: Seq<char>) -> bool {
    found_at(piece, key, leading_spaces(piece) as int)
}

/// The piece of `s` that begins at `i`: the text up to the next comma.
pub open spec fn piece_at(s: Seq<char>, i: int) -> Seq<char> {
    s.skip(i).take(field_end(s.skip(i), ',', ',') as int)
}

/// The index in `s` at which the first piece begins that is the attribute
/// of the given key.
pub open spec fn attr_at(s: Seq<char>, key: Seq<char>) -> Option<nat>
    decreases s.len(),
{
    let k = field_end(s, ',', ',');
    if is_attr(s.take(k as int), key) {
        Some(0nat)
    } else if k >= s.len() {
        None
    } else {
        match attr_at(s.skip(k as int + 1), key) {
            Some(i) => Some(k + 1 + i),
            None => None,
        }
    }
}

/// The attributes of a line: what stands behind its first colon.
pub open spec fn attr_text(line: Seq<char>) -> Seq<char> {
    if node_end(line) < line.len() {
        line.skip(node_end(line) as int + 1)
    } else {
        Seq::empty()
    }
}

/// Whether a line states where its partition starts.
pub open spec fn has_start(line: Seq<char>) -> bool {
    attr_at(attr_text(line), start_key()) is Some
}

/// A stretch of a line: where the key of an attribute begins, and from
/// where to where its value reaches.
pub struct Span {
    pub key: nat,
    pub from: nat,
    pub to: nat,
}

/// Where on a line the value of `size=` stands. The value is what follows
/// the key up to the next comma, without the white space around it.
pub open spec fn size_span(line: Seq<char>) -> Option<Span> {
    match attr_at(attr_text(line), size_key()) {
        None => None,
        Some(i) => {
            let base = node_end(line) + 1 + i;
            let piece = piece_at(attr_text(line), i as int);
            let key = leading_spaces(piece);
            let value = piece.skip(key + size_key().len() as int);
            let pad = leading_spaces(value);
            Some(
                Span {
                    key: base + key,
                    from: base + key + size_key().len() + pad,
                    to: base + key + size_key().len() + pad + trimmed(value).len(),
                },
            )
        },
    }
}

/// A partition's line with its size set to `sectors`: the line as it is,
/// but for the value of `size=`, in whose place the new size stands.
pub open spec fn resized_line(line: Seq<char>, sectors: nat) -> Seq<char> {
    match size_span(line) {
        Some(span) => line.take(span.from as int) + decimal(sectors) + line.skip(span.to as int),
        None => line,
    }
}

/// Why a description could not be rewritten.
#[derive(Debug, Clone, Copy, PartialEq, Eq, Structural)]
pub enum RewriteError {
    /// A line describes the partition but states no start.
    NoStart,
    /// A line describes the partition but states no size.
    NoSize,
    /// No line describes the partition.
    NotFound,
}

/// What keeps a partition's line from being resized, if anything: it must
/// state a start and a size.
pub open spec fn fault_of(line: Seq<char>) -> Option<RewriteError> {
    if !has_start(line) {
        Some(RewriteError::NoStart)
    } else if size_span(line) is None {
        Some(RewriteError::NoSize)
    } else {
        None
    }
}

/// The fault of the first line that describes the partition and cannot be
/// resized.
pub open spec fn first_fault(lines: Seq<Seq<char>>, disk: Seq<char>, index: nat) -> Option<
    RewriteError,
>
    decreases lines.len(),
{
    if lines.len() == 0 {
        None
    } else if describes(lines[0], disk, index) && fault_of(lines[0]) is Some {
        fault_of(lines[0])
    } else {
        first_fault(lines.skip(1), disk, index)
    }
}

/// The line that stands in the new description for `line`.
pub open spec fn new_line(line: Seq<char>, disk: Seq<char>, index: nat, bytes: nat) -> Seq<
    char,
> {
    if describes(line, disk, index) {
        resized_line(line, sectors_for(bytes))
    } else {
        line
    }
}

/// The lines of the new description: as many as before and in the same
/// order, each the line it stands for or that line resized.
pub open spec fn new_lines(lines: Seq<Seq<char>>, disk: Seq<char>, index: nat, bytes: nat)
    -> Seq<Seq<char>> {
    Seq::new(lines.len(), |i: int| new_line(lines[i], disk, index, bytes))
}

/// The text made of the lines, a line feed after each.
pub open spec fn text_of_lines(lines: Seq<Seq<char>>) -> Seq<char>
    decreases lines.len(),
{
    if lines.len() == 0 {
        Seq::empty()
    } else {
        text_of_lines(lines.drop_last()) + lines.last() + seq!['\n']
    }
}

/// Some line among the first `n` describes the partition.
pub open spec fn found_before(lines: Seq<Seq<char>>, disk: Seq<char>, index: nat, n: int)
    -> bool {
    exists|i: int| 0 <= i < n && i < lines.len() && describes(#[trigger] lines[i], disk, index)
}

/// The description with the size of partition `index` of `disk` set to what
/// holds `bytes` bytes. Every line that describes the partition is resized;
/// every other line is carried over unchanged. A line that describes the
/// partition without stating start or size makes the whole fail, and so
/// does a description without a line for the partition.
pub open spec fn rewritten_table(table: Seq<char>, disk: Seq<char>, index: nat, bytes: nat)
    -> Result<Seq<char>, RewriteError> {
    let lines = lines_of(table);
    match first_fault(lines, disk, index) {
        Some(e) => Err(e),
        None => if !found_before(lines, disk, index, lines.len() as int) {
            Err(RewriteError::NotFound)
        } else {
            Ok(text_of_lines(new_lines(lines, disk, index, bytes)))
        },
    }
}

/// Where `attr_at` finds an attribute, a piece begins that is the
/// attribute.
pub proof fn lemma_attr_at(s: Seq<char>, key: Seq<char>)
    ensures
        attr_at(s, key) matches Some(i) ==> i <= s.len() && is_attr(piece_at(s, i as int), key)
            && i + piece_at(s, i as int).len() <= s.len(),
    decreases s.len(),
{
    lemma_field_end(s, ',', ',');
    let k = field_end(s, ',', ',');
    if is_attr(s.take(k as int), key) {
        assert(s.skip(0) == s);
    } else if k < s.len() {
        let rest = s.skip(k as int + 1);
        lemma_attr_at(rest, key);
        match attr_at(rest, key) {
            Some(i) => {
                assert(rest.skip(i as int) == s.skip(k + 1 + i as int));
                lemma_field_end(rest.skip(i as int), ',', ',');
            },
            None => {},
        }
    }
}

/// Where a line has a size, the key stands on the line in front of the
/// value, with nothing but white space between the two, and the value lies
/// within the line.
pub proof fn lemma_size_span(line: Seq<char>)
    requires
        size_span(line) is Some,
    ensures
        ({
            let span = size_span(line)->0;
            &&& span.key + size_key().len() <= span.from <= span.to <= line.len()
            &&& line.subrange(span.key as int, span.key + size_key().len() as int) == size_key()
            &&& forall|j: int|
                span.key + size_key().len() <= j < span.from ==> is_space(#[trigger] line[j])
        }),
{
    let region = attr_text(line);
    let i = attr_at(region, size_key())->0;
    lemma_attr_at(region, size_key());
    lemma_field_end(line, ':', ':');
    let k = node_end(line);
    let piece = piece_at(region, i as int);
    let key = leading_spaces(piece);
    let klen = size_key().len();
    let value = piece.skip(key + klen as int);
    let pad = leading_spaces(value);
    lemma_leading_spaces(piece);
    lemma_leading_spaces(value);
    let rest = value.skip(pad as int);
    lemma_trailing_spaces(rest);
    lemma_field_end(region.skip(i as int), ',', ',');
    assert(klen == 5) by {
        reveal_strlit("size=");
    }
    assert(piece.len() >= key + klen);
    assert(k < line.len());
    let base = k + 1 + i;
    assert forall|j: int| 0 <= j < piece.len() implies piece[j] == line[base + j] by {
        assert(piece[j] == region.skip(i as int)[j]);
    }
    assert(line.subrange(base + key as int, base + key + klen as int) == piece.subrange(
        key as int,
        key + klen as int,
    ));
    assert forall|j: int| base + key + klen <= j < base + key + klen + pad implies is_space(
        #[trigger] line[j],
    ) by {
        assert(value[j - base - key - klen] == piece[j - base]);
        assert(is_space(value[j - base - key - klen]));
    }
}

/// To resize a line is to replace the value of `size=` and nothing else:
/// the resized line agrees with the line up to the value, holds the new
/// size in its place, and agrees with the line from the end of the value
/// on. The key `size=`, the white space behind it, the node, `start=` and
/// every other attribute stay character for character.
pub proof fn law_resize_replaces_the_size_value_only(line: Seq<char>, sectors: nat)
    requires
        size_span(line) is Some,
    ensures
        ({
            let span = size_span(line)->0;
            let resized = resized_line(line, sectors);
            let n = decimal(sectors).len();
            &&& span.key + size_key().len() <= span.from <= span.to <= line.len()
            &&& line.subrange(span.key as int, span.key + size_key().len() as int) == size_key()
            &&& forall|j: int|
                span.key + size_key().len() <= j < span.from ==> is_space(#[trigger] line[j])
            &&& resized.len() == span.from + n + (line.len() - span.to)
            &&& resized.take(span.from as int) == line.take(span.from as int)
            &&& resized.subrange(span.from as int, span.from + n as int) == decimal(sectors)
            &&& resized.skip(span.from + n as int) == line.skip(span.to as int)
        }),
{
    lemma_size_span(line);
}

/// Where no line is at fault, every line that describes the partition
/// states a start and a size.
pub proof fn lemma_no_fault(lines: Seq<Seq<char>>, disk: Seq<char>, index: nat, i: int)
    requires
        first_fault(lines, disk, index) is None,
        0 <= i < lines.len(),
        describes(lines[i], disk, index),
    ensures
        fault_of(lines[i]) is None,
    decreases lines.len(),
{
    if i > 0 {
        assert(lines.skip(1)[i - 1] == lines[i]);
        lemma_no_fault(lines.skip(1), disk, index, i - 1);
    }
}

/// A rewritten description is made of a line for each line of the old one,
/// in the same order. A line that does not describe the partition is the
/// old line; a line that does is the old line with the value of `size=`
/// replaced by the new size in sectors of 512 bytes, rounded up. At least
/// one line describes the partition.
pub proof fn law_rewrite_touches_one_partition(
    table: Seq<char>,
    disk: Seq<char>,
    index: nat,
    bytes: nat,
)
    requires
        rewritten_table(table, disk, index, bytes) is Ok,
    ensures
        ({
            let old_lines = lines_of(table);
            let lines = new_lines(old_lines, disk, index, bytes);
            &&& rewritten_table(table, disk, index, bytes) == Ok::<Seq<char>, RewriteError>(
                text_of_lines(lines),
            )
            &&& lines.len() == old_lines.len()
            &&& forall|i: int|
                0 <= i < lines.len() && !describes(old_lines[i], disk, index) ==> #[trigger] lines[i]
                    == old_lines[i]
            &&& forall|i: int|
                0 <= i < lines.len() && describes(old_lines[i], disk, index) ==> {
                    &&& size_span(old_lines[i]) matches Some(span)
                    &&& has_start(old_lines[i])
                    &&& #[trigger] lines[i] == old_lines[i].take(span.from as int) + decimal(
                        (bytes + 511) / 512,
                    ) + old_lines[i].skip(span.to as int)
                }
            &&& exists|i: int| 0 <= i < lines.len() && describes(#[trigger] old_lines[i], disk, index)
        }),
{
    let old_lines = lines_of(table);
    let lines = new_lines(old_lines, disk, index, bytes);
    assert(found_before(old_lines, disk, index, old_lines.len() as int));
    let k = choose|i: int|
        0 <= i < old_lines.len() && i < old_lines.len() && describes(
            #[trigger] old_lines[i],
            disk,
            index,
        );
    assert(describes(old_lines[k], disk, index));
    assert forall|i: int|
        0 <= i < lines.len() && describes(old_lines[i], disk, index) implies fault_of(
        old_lines[i],
    ) is None by {
        lemma_no_fault(old_lines, disk, index, i);
    }
}

/// No character of `s` is `c`.
pub open spec fn free_of(s: Seq<char>, c: char) -> bool {
    forall|j: int| 0 <= j < s.len() ==> #[trigger] s[j] != c
}

/// `s` does not end with a carriage return.
pub open spec fn ends_cleanly(s: Seq<char>) -> bool {
    s.len() > 0 ==> s.last() != '\r'
}

/// The text of a line followed by more lines is the line, a line feed, and
/// the text of the rest.
pub proof fn lemma_text_of_lines_cons(a: Seq<char>, rest: Seq<Seq<char>>)
    ensures
        text_of_lines(seq![a] + rest) == a + seq!['\n'] + text_of_lines(rest),
    decreases rest.len(),
{
    let all = seq![a] + rest;
    if rest.len() == 0 {
        assert(all.drop_last() == Seq::<Seq<char>>::empty());
        assert(all.last() == a);
        assert(text_of_lines(all.drop_last()) == Seq::<char>::empty());
        assert(Seq::<char>::empty() + a + seq!['\n'] == a + seq!['\n'] + Seq::<char>::empty());
    } else {
        lemma_text_of_lines_cons(a, rest.drop_last());
        assert(all.drop_last() == seq![a] + rest.drop_last());
        assert(all.last() == rest.last());
        assert(a + seq!['\n'] + text_of_lines(rest.drop_last()) + rest.last() + seq!['\n'] == a
            + seq!['\n'] + (text_of_lines(rest.drop_last()) + rest.last() + seq!['\n']));
    }
}

/// A text that begins with a line free of line feeds, followed by a line
/// feed, has that line as its first.
pub proof fn lemma_lines_of_cons(a: Seq<char>, t: Seq<char>)
    requires
        free_of(a, '\n'),
    ensures
        lines_of(a + seq!['\n'] + t) == seq![strip_cr(a)] + lines_of(t),
{
    let s = a + seq!['\n'] + t;
    assert forall|i: int| 0 <= i < a.len() implies #[trigger] s[i] != '\n' && s[i] != '\n' by {
        assert(s[i] == a[i]);
    }
    assert(s[a.len() as int] == '\n');
    crate::text::lemma_field_end_unique(s, '\n', '\n', a.len() as int);
    assert(s.take(a.len() as int) == a);
    assert(s.skip(a.len() as int + 1) == t);
}

/// Lines that are free of line feeds and end cleanly are the lines of their
/// text.
pub proof fn lemma_lines_round_trip(lines: Seq<Seq<char>>)
    requires
        forall|i: int| 0 <= i < lines.len() ==> free_of(#[trigger] lines[i], '\n'),
        forall|i: int| 0 <= i < lines.len() ==> ends_cleanly(#[trigger] lines[i]),
    ensures
        lines_of(text_of_lines(lines)) == lines,
    decreases lines.len(),
{
    if lines.len() > 0 {
        let a = lines[0];
        let rest = lines.skip(1);
        assert(lines == seq![a] + rest);
        assert forall|i: int| 0 <= i < rest.len() implies free_of(#[trigger] rest[i], '\n') by {
            assert(rest[i] == lines[i + 1]);
        }
        assert forall|i: int| 0 <= i < rest.len() implies ends_cleanly(#[trigger] rest[i]) by {
            assert(rest[i] == lines[i + 1]);
        }
        lemma_lines_round_trip(rest);
        lemma_text_of_lines_cons(a, rest);
        assert(free_of(lines[0], '\n'));
        assert(ends_cleanly(lines[0]));
        lemma_lines_of_cons(a, text_of_lines(rest));
        assert(strip_cr(a) == a);
    }
}

/// The lines of a text are free of line feeds.
pub proof fn lemma_lines_are_free(s: Seq<char>)
    ensures
        forall|i: int| 0 <= i < lines_of(s).len() ==> free_of(#[trigger] lines_of(s)[i], '\n'),
    decreases s.len(),
{
    if s.len() > 0 {
        crate::text::lemma_field_end(s, '\n', '\n');
        let k = crate::text::field_end(s, '\n', '\n');
        if k >= s.len() {
            assert(lines_of(s) == seq![s]);
        } else {
            let rest = s.skip(k as int + 1);
            lemma_lines_are_free(rest);
            let first = strip_cr(s.take(k as int));
            assert(free_of(first, '\n')) by {
                assert forall|j: int| 0 <= j < first.len() implies #[trigger] first[j] != '\n' by {
                    assert(first[j] == s[j]);
                }
            }
            assert forall|i: int| 0 <= i < lines_of(s).len() implies free_of(
                #[trigger] lines_of(s)[i],
                '\n',
            ) by {
                if i > 0 {
                    assert(lines_of(s)[i] == lines_of(rest)[i - 1]);
                }
            }
        }
    }
}

/// A numeral is free of line feeds and ends cleanly.
pub proof fn lemma_decimal_is_free(n: nat)
    ensures
        free_of(decimal(n), '\n'),
        decimal(n).len() > 0,
        decimal(n).last() != '\r',
{
    crate::number::law_numeral_round_trip(n);
    let d = decimal(n);
    assert forall|j: int| 0 <= j < d.len() implies #[trigger] d[j] != '\n' by {
        assert(crate::text::is_digit(d[j]));
    }
    assert(crate::text::is_digit(d[d.len() - 1]));
}

/// A resized line is free of line feeds and ends cleanly, if the line it
/// stands for is and does.
pub proof fn lemma_resized_is_clean(line: Seq<char>, sectors: nat)
    requires
        free_of(line, '\n'),
        ends_cleanly(line),
    ensures
        free_of(resized_line(line, sectors), '\n'),
        ends_cleanly(resized_line(line, sectors)),
{
    if size_span(line) is Some {
        lemma_size_span(line);
        lemma_decimal_is_free(sectors);
        let span = size_span(line)->0;
        let a = line.take(span.from as int);
        let b = decimal(sectors);
        let c = line.skip(span.to as int);
        let all = a + b + c;
        assert forall|j: int| 0 <= j < all.len() implies #[trigger] all[j] != '\n' by {
            if j < a.len() {
                assert(all[j] == line[j]);
            } else if j < a.len() + b.len() {
                assert(all[j] == b[j - a.len()]);
            } else {
                assert(all[j] == line[j - a.len() - b.len() + span.to]);
            }
        }
        if c.len() > 0 {
            assert(all.last() == line.last());
        } else {
            assert(all.last() == b.last());
        }
    }
}

/// The lines of a rewritten description are the lines it was made of: it
/// has a line for each line of the old description, in the same order, and
/// each is the old line or the old line resized. This holds of every
/// description none of whose lines ends with a carriage return of its own.
pub proof fn law_rewrite_keeps_the_lines(
    table: Seq<char>,
    disk: Seq<char>,
    index: nat,
    bytes: nat,
)
    requires
        rewritten_table(table, disk, index, bytes) is Ok,
        forall|i: int|
            0 <= i < lines_of(table).len() ==> ends_cleanly(#[trigger] lines_of(table)[i]),
    ensures
        lines_of(rewritten_table(table, disk, index, bytes)->Ok_0) == new_lines(
            lines_of(table),
            disk,
            index,
            bytes,
        ),
{
    let old_lines = lines_of(table);
    let lines = new_lines(old_lines, disk, index, bytes);
    lemma_lines_are_free(table);
    assert forall|i: int| 0 <= i < lines.len() implies free_of(#[trigger] lines[i], '\n')
        && ends_cleanly(lines[i]) by {
        assert(free_of(old_lines[i], '\n'));
        assert(ends_cleanly(old_lines[i]));
        lemma_resized_is_clean(old_lines[i], sectors_for(bytes));
    }
    lemma_lines_round_trip(lines);
}

/// The sectors needed to hold `bytes` bytes.
pub fn sectors(bytes: u64) -> (n: u64)
    ensures
        n == sectors_for(bytes as nat),
{
    let whole: u64 = bytes / SECTOR_BYTES;
    if bytes % SECTOR_BYTES > 0 {
        whole + 1
    } else {
        whole
    }
}

/// The text `line[from..to]` without the white space around it, as the
/// stretch of the line in which it stands.
fn trimmed_stretch(line: &Vec<char>, from: usize, to: usize) -> (r: (usize, usize))
    requires
        from <= to <= line.len(),
    ensures
        from <= r.0 <= r.1 <= to,
        r.0 - from == leading_spaces(line@.subrange(from as int, to as int)),
        r.1 - r.0 == trimmed(line@.subrange(from as int, to as int)).len(),
{
    let ghost part = line@.subrange(from as int, to as int);
    let mut a: usize = from;
    while a < to && space_char(line[a])
        invariant
            from <= a <= to <= line.len(),
            forall|i: int| from <= i < a ==> is_space(#[trigger] line@[i]),
        decreases to - a,
    {
        a = a + 1;
    }
    let mut b: usize = to;
    while b > a && space_char(line[b - 1])
        invariant
            a <= b <= to <= line.len(),
            forall|i: int| b <= i < to ==> is_space(#[trigger] line@[i]),
        decreases b,
    {
        b = b - 1;
    }
    proof {
        assert forall|i: int| 0 <= i < a - from implies is_space(#[trigger] part[i]) by {
            assert(part[i] == line@[i + from]);
        }
        lemma_leading_spaces_unique(part, a - from);
        let t = part.skip(a - from);
        assert forall|i: int| t.len() - (to - b) <= i < t.len() implies is_space(
            #[trigger] t[i],
        ) by {
            assert(t[i] == line@[i + a]);
        }
        lemma_trailing_spaces_unique(t, to - b);
    }
    (a, b)
}

/// The index at or after `from` at which the first piece of `line` begins
/// that is the attribute of the given key.
fn find_attr(line: &Vec<char>, from: usize, key: &Vec<char>) -> (r: Option<usize>)
    requires
        from <= line.len(),
    ensures
        match r {
            Some(p) => from <= p <= line.len() && attr_at(line@.skip(from as int), key@) == Some(
                (p - from) as nat,
            ),
            None => attr_at(line@.skip(from as int), key@) is None,
        },
{
    let mut pos: usize = from;
    loop
        invariant
            from <= pos <= line.len(),
            attr_at(line@.skip(from as int), key@) == match attr_at(
                line@.skip(pos as int),
                key@,
            ) {
                Some(i) => Some((i + pos - from) as nat),
                None => None,
            },
        decreases line.len() - pos,
    {
        let e: usize = find_either(line, pos, ',', ',');
        let (a, _b) = trimmed_stretch(line, pos, e);
        let ghost rest = line@.skip(pos as int);
        let ghost piece = rest.take(e - pos);
        proof {
            assert(piece == line@.subrange(pos as int, e as int));
            if a + key.len() <= e {
                assert(piece.subrange(a - pos, a - pos + key.len()) == line@.subrange(
                    a as int,
                    a + key.len(),
                ));
            }
        }
        let here = key.len() <= e - a && matches_at(line, key, a);
        assert(here == is_attr(piece, key@));
        if here {
            return Some(pos);
        }
        if e >= line.len() {
            return None;
        }
        proof {
            assert(rest.skip(e - pos + 1) == line@.skip(e + 1));
        }
        pos = e + 1;
    }
}

/// Whether a line whose node ends at `k` states where its partition
/// starts.
fn states_start(line: &Vec<char>, k: usize) -> (b: bool)
    requires
        k == node_end(line@),
    ensures
        b == has_start(line@),
{
    let key = chars_of("start=");
    if k >= line.len() {
        proof {
            reveal_strlit("start=");
            assert(attr_text(line@).take(0).len() == 0);
        }
        return false;
    }
    find_attr(line, k + 1, &key).is_some()
}

/// The stretch of a line, whose node ends at `k`, in which the value of
/// `size=` stands.
fn size_stretch(line: &Vec<char>, k: usize) -> (r: Option<(usize, usize)>)
    requires
        k == node_end(line@),
    ensures
        match r {
            Some(s) => s.0 <= s.1 <= line.len() && (size_span(line@) matches Some(span)
                && span.from == s.0 && span.to == s.1),
            None => size_span(line@) is None,
        },
{
    let key = chars_of("size=");
    if k >= line.len() {
        proof {
            reveal_strlit("size=");
            assert(attr_text(line@).take(0).len() == 0);
        }
        return None;
    }
    let p: usize = match find_attr(line, k + 1, &key) {
        None => {
            return None;
        },
        Some(p) => p,
    };
    let e: usize = find_either(line, p, ',', ',');
    let (key_at, _key_end) = trimmed_stretch(line, p, e);
    let ghost region = attr_text(line@);
    let ghost i = (p - k - 1) as int;
    let ghost piece = piece_at(region, i);
    proof {
        lemma_attr_at(region, size_key());
        assert(region.skip(i) == line@.skip(p as int));
        assert(piece == line@.subrange(p as int, e as int));
        assert(is_attr(piece, size_key()));
    }
    let value_from: usize = key_at + key.len();
    let (from, to) = trimmed_stretch(line, value_from, e);
    proof {
        assert(piece.skip(key_at - p + size_key().len()) == line@.subrange(
            value_from as int,
            e as int,
        ));
    }
    Some((from, to))
}

/// Resizes a partition's line; fails where the line states no start or no
/// size.
fn resize_line(line: &Vec<char>, sectors: u64) -> (r: Result<Vec<char>, RewriteError>)
    ensures
        match r {
            Ok(l) => fault_of(line@) is None && l@ == resized_line(line@, sectors as nat),
            Err(e) => fault_of(line@) == Some(e),
        },
{
    assert(line@.skip(0) == line@);
    let k: usize = find_either(line, 0, ':', ':');
    if !states_start(line, k) {
        return Err(RewriteError::NoStart);
    }
    let (from, to) = match size_stretch(line, k) {
        None => {
            return Err(RewriteError::NoSize);
        },
        Some(s) => s,
    };
    let mut out = slice_of(line, 0, from);
    push_decimal(&mut out, sectors);
    let tail = slice_of(line, to, line.len());
    push_all(&mut out, &tail);
    proof {
        assert(line@.subrange(0, from as int) == line@.take(from as int));
        assert(line@.subrange(to as int, line.len() as int) == line@.skip(to as int));
    }
    Ok(out)
}

/// Sets the size of partition `index` of `disk` in a description of the
/// disk's partition table.
pub fn rewrite_table(table: &str, disk: &str, index: u64, new_size_bytes: u64) -> (r: Result<
    String,
    RewriteError,
>)
    ensures
        r is Ok <==> rewritten_table(table@, disk@, index as nat, new_size_bytes as nat) is Ok,
        r matches Ok(t) ==> rewritten_table(table@, disk@, index as nat, new_size_bytes as nat)
            == Ok::<Seq<char>, RewriteError>(t@),
        r matches Err(e) ==> rewritten_table(table@, disk@, index as nat, new_size_bytes as nat)
            == Err::<Seq<char>, RewriteError>(e),
{
    let text = chars_of(table);
    let lines = split_lines(&text);
    let mut plain = chars_of(raw_node(disk).as_str());
    let mut infixed = chars_of(raw_node(disk).as_str());
    push_decimal(&mut plain, index);
    infixed.push('p');
    push_decimal(&mut infixed, index);
    let count: u64 = sectors(new_size_bytes);
    let ghost ls = lines_of(table@);
    let ghost d = disk@;
    let ghost ix = index as nat;
    let ghost bytes = new_size_bytes as nat;
    let mut out: Vec<char> = Vec::new();
    let mut found = false;
    let mut i: usize = 0;
    assert(new_lines(ls, d, ix, bytes).take(0) == Seq::<Seq<char>>::empty());
    assert(ls.skip(0) == ls);
    while i < lines.len()
        invariant
            i <= lines.len(),
            views(lines@) == ls,
            ls == lines_of(table@),
            d == disk@,
            ix == index as nat,
            bytes == new_size_bytes as nat,
            plain@ == plain_node(d, ix),
            infixed@ == infixed_node(d, ix),
            count == sectors_for(bytes),
            found == found_before(ls, d, ix, i as int),
            first_fault(ls.skip(i as int), d, ix) == first_fault(ls, d, ix),
            out@ == text_of_lines(new_lines(ls, d, ix, bytes).take(i as int)),
        decreases lines.len() - i,
    {
        let line = &lines[i];
        assert(line@.skip(0) == line@);
        let k: usize = find_either(line, 0, ':', ':');
        let field = trim(&slice_of(line, 0, k));
        let ghost before = new_lines(ls, d, ix, bytes).take(i as int);
        let ghost now = new_lines(ls, d, ix, bytes).take(i + 1);
        proof {
            assert(ls[i as int] == line@);
            assert(line@.subrange(0, k as int) == line@.take(k as int));
            assert(field@ == device_field(line@));
            assert(now.drop_last() == before);
            assert(now.last() == new_line(line@, d, ix, bytes));
            assert(ls.skip(i as int)[0] == line@);
            assert(ls.skip(i as int).skip(1) == ls.skip(i + 1));
        }
        if same_text(&field, &plain) || same_text(&field, &infixed) {
            assert(describes(ls[i as int], d, ix));
            match resize_line(line, count) {
                Err(e) => {
                    return Err(e);
                },
                Ok(l) => {
                    push_all(&mut out, &l);
                    out.push('\n');
                    found = true;
                    assert(found_before(ls, d, ix, i + 1));
                },
            }
        } else {
            push_all(&mut out, line);
            out.push('\n');
            assert(found_before(ls, d, ix, i + 1) == found_before(ls, d, ix, i as int)) by {
                if found_before(ls, d, ix, i + 1) {
                    let j = choose|j: int|
                        0 <= j < i + 1 && j < ls.len() && describes(#[trigger] ls[j], d, ix);
                    assert(j != i);
                    assert(describes(ls[j], d, ix));
                }
            }
        }
        i = i + 1;
    }
    assert(new_lines(ls, d, ix, bytes).take(lines.len() as int) == new_lines(ls, d, ix, bytes));
    assert(ls.skip(lines.len() as int).len() == 0);
    if !found {
        return Err(RewriteError::NotFound);
    }
    Ok(string_of(&out))
}

} // verus!
