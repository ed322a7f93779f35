//! Reading what a disk's self-monitoring prints.

use vstd::prelude::*;
use crate::device::{raw_node, raw_path};
use crate::engine::{
    args3, run, tool, Action, ActionView, Outcome, OutcomeView, ToolResult, ToolResultView,
};
use crate::number::{parse_unsigned, unsigned_of};
use crate::operations::SmartData;
use crate::text::{
    chars_of, contains_text, copy, has_sub, lines_of, split_lines, split_words, views, words_of,
};

verus! {

/// The health that a report states: `PASSED` where that word occurs,
/// otherwise `FAILED` where that word occurs, otherwise unknown.
pub open spec fn health_of(report: Seq<char>) -> Seq<char> {
    if has_sub(report, "PASSED"@) {
        "PASSED"@
    } else if has_sub(report, "FAILED"@) {
        "FAILED"@
    } else {
        "N/A"@
    }
}

/// Whether a word writes a number between `low` and `high`.
pub open spec fn in_range(word: Seq<char>, low: nat, high: nat) -> bool {
    unsigned_of(word) is Some && low <= unsigned_of(word)->0 <= high
}

/// The first number between `low` and `high` among the words.
pub open spec fn first_in_range(words: Seq<Seq<char>>, low: nat, high: nat) -> Option<nat>
    decreases words.len(),
{
    if words.len() == 0 {
        None
    } else if in_range(words[0], low, high) {
        unsigned_of(words[0])
    } else {
        first_in_range(words.skip(1), low, high)
    }
}

/// The first number between `low` and `high` on the first line that holds
/// `key`.
pub open spec fn reading(lines: Seq<Seq<char>>, key: Seq<char>, low: nat, high: nat) -> Option<
    nat,
>
    decreases lines.len(),
{
    if lines.len() == 0 {
        None
    } else if has_sub(lines[0], key) {
        first_in_range(words_of(lines[0]), low, high)
    } else {
        reading(lines.skip(1), key, low, high)
    }
}

/// The temperature that a report states, in degrees Celsius: the first
/// number from 1 to 99 on the first line that speaks of the temperature.
pub open spec fn temperature_of(report: Seq<char>) -> Option<nat> {
    reading(lines_of(report), "Temperature"@, 1, 99)
}

/// The hours that a report states the disk to have been powered on: the
/// first number above zero on the line of that attribute.
pub open spec fn hours_of(report: Seq<char>) -> Option<nat> {
    reading(lines_of(report), "Power_On_Hours"@, 1, u64::MAX as nat)
}

fn first_value(line: &Vec<char>, low: u64, high: u64) -> (r: Option<u64>)
    ensures
        r is Some <==> first_in_range(words_of(line@), low as nat, high as nat) is Some,
        r matches Some(n) ==> low <= n <= high && first_in_range(
            words_of(line@),
            low as nat,
            high as nat,
        ) == Some(n as nat),
{
    let words = split_words(line);
    let mut i: usize = 0;
    let ghost all = views(words@);
    assert(all.skip(0) == all);
    while i < words.len()
        invariant
            i <= words.len(),
            all == views(words@),
            all == words_of(line@),
            first_in_range(all.skip(i as int), low as nat, high as nat) == first_in_range(
                all,
                low as nat,
                high as nat,
            ),
        decreases words.len() - i,
    {
        let ghost rest = all.skip(i as int);
        assert(rest[0] == words@[i as int]@);
        assert(rest.skip(1) == all.skip(i + 1));
        match parse_unsigned(&words[i]) {
            Some(n) => {
                if low <= n && n <= high {
                    return Some(n);
                }
            },
            None => {},
        }
        i = i + 1;
    }
    None
}

fn read_value(lines: &Vec<Vec<char>>, key: &str, low: u64, high: u64) -> (r: Option<u64>)
    ensures
        r is Some <==> reading(views(lines@), key@, low as nat, high as nat) is Some,
        r matches Some(n) ==> low <= n <= high && reading(
            views(lines@),
            key@,
            low as nat,
            high as nat,
        ) == Some(n as nat),
{
    let k = chars_of(key);
    let mut i: usize = 0;
    let ghost all = views(lines@);
    assert(all.skip(0) == all);
    while i < lines.len()
        invariant
            i <= lines.len(),
            all == views(lines@),
            k@ == key@,
            reading(all.skip(i as int), key@, low as nat, high as nat) == reading(
                all,
                key@,
                low as nat,
                high as nat,
            ),
        decreases lines.len() - i,
    {
        let ghost rest = all.skip(i as int);
        assert(rest[0] == lines@[i as int]@);
        assert(rest.skip(1) == all.skip(i + 1));
        if contains_text(&lines[i], &k) {
            return first_value(&lines[i], low, high);
        }
        i = i + 1;
    }
    None
}

/// The invocation that asks a disk for its health and attributes.
pub open spec fn smart_query(disk: Seq<char>) -> ActionView {
    tool("smartctl"@, seq!["-H"@, "-A"@, raw_path(disk)])
}

/// Builds [`smart_query`].
pub fn smart_probe(disk: &str) -> (a: Action)
    ensures
        a@ == smart_query(disk@),
{
    run("smartctl", args3("-H", "-A", raw_node(disk).as_str()))
}

/// Reads health, temperature and hours from a report.
pub fn parse_smart_data(report: &str) -> (d: SmartData)
    ensures
        d.health@ == health_of(report@),
        match d.temperature {
            Some(t) => 1 <= t <= 99 && temperature_of(report@) == Some(t as nat),
            None => temperature_of(report@) is None,
        },
        match d.power_on_hours {
            Some(h) => hours_of(report@) == Some(h as nat),
            None => hours_of(report@) is None,
        },
{
    let text = chars_of(report);
    let passed = chars_of("PASSED");
    let failed = chars_of("FAILED");
    let health = if contains_text(&text, &passed) {
        copy("PASSED")
    } else if contains_text(&text, &failed) {
        copy("FAILED")
    } else {
        copy("N/A")
    };
    let lines = split_lines(&text);
    let temperature: Option<i32> = match read_value(&lines, "Temperature", 1, 99) {
        Some(t) => Some(t as i32),
        None => None,
    };
    let power_on_hours = read_value(&lines, "Power_On_Hours", 1, u64::MAX);
    SmartData { health, temperature, power_on_hours }
}

/// What the self-monitoring says, told from the outcome of [`smart_probe`].
/// Where the tool could not be run, nothing is known; where it ran, its
/// report is read whatever its exit status.
pub fn get_smart_data(outcome: &Outcome) -> (d: SmartData)
    ensures
        outcome@ matches OutcomeView::Tool(ToolResultView::Exited { stdout, .. }) ==> {
            &&& d.health@ == health_of(stdout)
            &&& match d.temperature {
                Some(t) => 1 <= t <= 99 && temperature_of(stdout) == Some(t as nat),
                None => temperature_of(stdout) is None,
            }
            &&& match d.power_on_hours {
                Some(h) => hours_of(stdout) == Some(h as nat),
                None => hours_of(stdout) is None,
            }
        },
        !(outcome@ matches OutcomeView::Tool(ToolResultView::Exited { .. })) ==> d.health@
            == "N/A"@ && d.temperature is None && d.power_on_hours is None,
{
    match outcome {
        Outcome::Tool(ToolResult::Exited { stdout, .. }) => parse_smart_data(stdout.as_str()),
        _ => SmartData { health: copy("N/A"), temperature: None, power_on_hours: None },
    }
}

} // verus!
