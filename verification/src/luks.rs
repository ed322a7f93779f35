//! Reading what the encryption tool prints.

use vstd::prelude::*;
use crate::device::raw_path;
use crate::error::join2;
use crate::number::{all_digits, digits_only};
use crate::operations::{LuksInfo, LuksInfoView};
use crate::text::{
    chars_of, contains_text, ends_with, fields, has_prefix, has_sub, has_suffix, lines_of,
    same_text, split_fields, split_lines, split_words, starts_with, string_of, trim, trimmed,
    views, words_of,
};

verus! {

/// The second of the pieces into which `sep` cuts `line`, trimmed; empty
/// where there is no second piece.
pub open spec fn second_field(line: Seq<char>, sep: char) -> Seq<char> {
    let f = fields(line, sep, sep);
    if f.len() > 1 {
        trimmed(f[1])
    } else {
        Seq::empty()
    }
}

/// The backing device that a line of a mapping's status names, if the line
/// is the one that names it.
pub open spec fn reported_device(line: Seq<char>) -> Option<Seq<char>> {
    if has_prefix(trimmed(line), "device:"@) {
        Some(second_field(line, ':'))
    } else {
        None
    }
}

/// Whether a backing path is that of the device: it ends with the device's
/// name, or is the device's node.
pub open spec fn refers_to(path: Seq<char>, device: Seq<char>) -> bool {
    has_suffix(path, device) || path == raw_path(device)
}

/// The first backing path among `lines` that is that of the device.
pub open spec fn backing_in(lines: Seq<Seq<char>>, device: Seq<char>) -> Option<Seq<char>>
    decreases lines.len(),
{
    if lines.len() == 0 {
        None
    } else {
        let here = reported_device(lines[0]);
        if here is Some && refers_to(here->0, device) {
            here
        } else {
            backing_in(lines.skip(1), device)
        }
    }
}

/// The backing path that a mapping's status reports, where it is that of the
/// device.
pub open spec fn backing_device(status: Seq<char>, device: Seq<char>) -> Option<Seq<char>> {
    backing_in(lines_of(status), device)
}

fn second_of(line: &Vec<char>, sep: char) -> (r: Vec<char>)
    ensures
        r@ == second_field(line@, sep),
{
    let f = split_fields(line, sep, sep);
    if f.len() > 1 {
        assert(views(f@)[1] == f@[1]@);
        trim(&f[1])
    } else {
        Vec::new()
    }
}

/// Finds in the status of a mapping the backing path, where it is that of
/// the device.
pub fn find_backing_device(status: &str, device: &str) -> (r: Option<String>)
    ensures
        crate::text::opt_text(r) == backing_device(status@, device@),
{
    let text = chars_of(status);
    let dev = chars_of(device);
    let node = chars_of(join2("/dev/", device).as_str());
    let key = chars_of("device:");
    let lines = split_lines(&text);
    let mut i: usize = 0;
    assert(views(lines@).skip(0) == views(lines@));
    while i < lines.len()
        invariant
            i <= lines.len(),
            key@ == "device:"@,
            dev@ == device@,
            node@ == raw_path(device@),
            views(lines@) == lines_of(status@),
            backing_in(views(lines@).skip(i as int), device@) == backing_in(
                views(lines@),
                device@,
            ),
        decreases lines.len() - i,
    {
        let line = &lines[i];
        let ghost rest = views(lines@).skip(i as int);
        assert(rest[0] == line@);
        assert(rest.skip(1) == views(lines@).skip(i + 1));
        let t = trim(line);
        if starts_with(&t, &key) {
            let path = second_of(line, ':');
            if ends_with(&path, &dev) || same_text(&path, &node) {
                return Some(string_of(&path));
            }
        }
        i = i + 1;
    }
    None
}

/// The second word of a line; `fallback` where there is none.
pub open spec fn second_word(line: Seq<char>, fallback: Seq<char>) -> Seq<char> {
    let w = words_of(line);
    if w.len() > 1 {
        w[1]
    } else {
        fallback
    }
}

/// The first of `words` that consists of digits only; `fallback` where
/// there is none. An empty word cannot occur among words.
pub open spec fn first_number(words: Seq<Seq<char>>, fallback: Seq<char>) -> Seq<char>
    decreases words.len(),
{
    if words.len() == 0 {
        fallback
    } else if all_digits(words[0]) {
        words[0]
    } else {
        first_number(words.skip(1), fallback)
    }
}

/// The header facts after one more line of the dump was read.
pub open spec fn info_step(info: LuksInfoView, line: Seq<char>) -> LuksInfoView {
    if has_prefix(line, "Version:"@) {
        LuksInfoView { version: "LUKS"@ + second_word(line, "2"@), ..info }
    } else if has_prefix(line, "UUID:"@) {
        LuksInfoView { uuid: second_word(line, Seq::empty()), ..info }
    } else if has_sub(line, "Cipher:"@) {
        LuksInfoView { cipher: second_field(line, ':'), ..info }
    } else if has_sub(line, "Key:"@) && has_sub(line, "bits"@) {
        LuksInfoView { key_size: first_number(words_of(line), "256"@), ..info }
    } else {
        info
    }
}

/// The header facts after the given lines were read, starting from `info`.
pub open spec fn info_fold(info: LuksInfoView, lines: Seq<Seq<char>>) -> LuksInfoView
    decreases lines.len(),
{
    if lines.len() == 0 {
        info
    } else {
        info_fold(info_step(info, lines[0]), lines.skip(1))
    }
}

/// What is assumed of a header before its dump is read.
pub open spec fn info_default() -> LuksInfoView {
    LuksInfoView {
        version: "LUKS2"@,
        uuid: Seq::empty(),
        cipher: Seq::empty(),
        key_size: Seq::empty(),
    }
}

/// The header facts that a dump states. Of several lines that state the
/// same fact the last one counts.
pub open spec fn header_info(dump: Seq<char>) -> LuksInfoView {
    info_fold(info_default(), lines_of(dump))
}

fn second_word_of(line: &Vec<char>, fallback: &str) -> (r: String)
    ensures
        r@ == second_word(line@, fallback@),
{
    let w = split_words(line);
    if w.len() > 1 {
        assert(views(w@)[1] == w@[1]@);
        string_of(&w[1])
    } else {
        crate::text::copy(fallback)
    }
}

fn first_number_of(line: &Vec<char>, fallback: &str) -> (r: String)
    ensures
        r@ == first_number(words_of(line@), fallback@),
{
    let w = split_words(line);
    let mut i: usize = 0;
    assert(views(w@).skip(0) == views(w@));
    while i < w.len()
        invariant
            i <= w.len(),
            views(w@) == words_of(line@),
            first_number(views(w@).skip(i as int), fallback@) == first_number(
                views(w@),
                fallback@,
            ),
        decreases w.len() - i,
    {
        let ghost rest = views(w@).skip(i as int);
        assert(rest[0] == w@[i as int]@);
        assert(rest.skip(1) == views(w@).skip(i + 1));
        if digits_only(&w[i]) {
            return string_of(&w[i]);
        }
        i = i + 1;
    }
    crate::text::copy(fallback)
}

/// Reads version, UUID, cipher and key size from a header dump.
pub fn parse_luks_info(dump: &str) -> (info: LuksInfo)
    ensures
        info@ == header_info(dump@),
{
    let text = chars_of(dump);
    let lines = split_lines(&text);
    let k_version = chars_of("Version:");
    let k_uuid = chars_of("UUID:");
    let k_cipher = chars_of("Cipher:");
    let k_key = chars_of("Key:");
    let k_bits = chars_of("bits");
    let mut info = LuksInfo {
        version: crate::text::copy("LUKS2"),
        uuid: String::new(),
        cipher: String::new(),
        key_size: String::new(),
    };
    let mut i: usize = 0;
    assert(views(lines@).skip(0) == views(lines@));
    while i < lines.len()
        invariant
            i <= lines.len(),
            views(lines@) == lines_of(dump@),
            k_version@ == "Version:"@,
            k_uuid@ == "UUID:"@,
            k_cipher@ == "Cipher:"@,
            k_key@ == "Key:"@,
            k_bits@ == "bits"@,
            info_fold(info@, views(lines@).skip(i as int)) == header_info(dump@),
        decreases lines.len() - i,
    {
        let line = &lines[i];
        let ghost rest = views(lines@).skip(i as int);
        let ghost before = info@;
        assert(rest[0] == line@);
        assert(rest.skip(1) == views(lines@).skip(i + 1));
        if starts_with(line, &k_version) {
            let w = second_word_of(line, "2");
            info.version = join2("LUKS", w.as_str());
        } else if starts_with(line, &k_uuid) {
            info.uuid = second_word_of(line, "");
            assert(""@ == Seq::<char>::empty()) by {
                reveal_strlit("");
            }
        } else if contains_text(line, &k_cipher) {
            let c = second_of(line, ':');
            info.cipher = string_of(&c);
        } else if contains_text(line, &k_key) && contains_text(line, &k_bits) {
            info.key_size = first_number_of(line, "256");
        }
        assert(info@ == info_step(before, line@));
        i = i + 1;
    }
    info
}

} // verus!
