//! Where the sockets are: the compositor's own, and the one on which a
//! running instance is told to toggle its overlay.
//!
//! Both paths derive from the environment. This module reads no
//! environment and no file: the caller hands in what it found there.

use crate::error::NiriError;
use crate::text::{
    chars_of, has_prefix_at, is_white_space, line_end, scan_line, white_space,
};
use crate::types::text_view;
use vstd::prelude::*;
use vstd::string::StringExecFns;

verus! {

broadcast use vstd::string::group_string_axioms;

/// The user id that is assumed where none can be read.
pub const DEFAULT_UID: u32 = 1000;

/// The label of the line that holds the user ids in a process status text.
pub open spec fn uid_label() -> Seq<char> {
    seq!['U', 'i', 'd', ':']
}

/// Whether a character is a decimal digit.
pub open spec fn is_digit(c: char) -> bool {
    '0' <= c <= '9'
}

/// The value of a decimal digit.
pub open spec fn digit_value(c: char) -> nat {
    (c as u32 - '0' as u32) as nat
}

/// The decimal digit of a value below ten.
pub open spec fn digit_of(value: nat) -> char {
    (value + '0' as u32) as char
}

/// The number that a run of decimal digits writes.
pub open spec fn decimal_value(digits: Seq<char>) -> nat
    decreases digits.len(),
{
    if digits.len() == 0 {
        0
    } else {
        decimal_value(digits.drop_last()) * 10 + digit_value(digits.last())
    }
}

/// The decimal digits that write a number, without leading zeros.
pub open spec fn decimal(value: nat) -> Seq<char>
    decreases value,
{
    if value < 10 {
        seq![digit_of(value)]
    } else {
        decimal(value / 10).push(digit_of(value % 10))
    }
}

/// Whether every character of the text is a decimal digit.
pub open spec fn all_digits(text: Seq<char>) -> bool {
    forall|i: int| 0 <= i < text.len() ==> is_digit(#[trigger] text[i])
}

/// The digits of a number's text: the text without a plus sign in front.
pub open spec fn unsigned_part(word: Seq<char>) -> Seq<char> {
    if word.len() > 0 && word[0] == '+' {
        word.drop_first()
    } else {
        word
    }
}

/// The number that a word writes, where it writes one that fits 32 bits: an
/// optional plus sign and then one decimal digit or more.
pub open spec fn parsed_u32(word: Seq<char>) -> Option<u32> {
    let digits = unsigned_part(word);
    if digits.len() > 0 && all_digits(digits) && decimal_value(digits) <= u32::MAX {
        Some(decimal_value(digits) as u32)
    } else {
        None
    }
}

/// The first position from `from` on, and before `end`, that holds no white
/// space; `end` where there is none.
pub open spec fn skip_white(text: Seq<char>, from: int, end: int) -> int
    decreases end - from,
{
    if from < end && 0 <= from < text.len() && is_white_space(text[from]) {
        skip_white(text, from + 1, end)
    } else {
        from
    }
}

/// The first position from `from` on, and before `end`, that holds white
/// space; `end` where there is none.
pub open spec fn skip_word(text: Seq<char>, from: int, end: int) -> int
    decreases end - from,
{
    if from < end && 0 <= from < text.len() && !is_white_space(text[from]) {
        skip_word(text, from + 1, end)
    } else {
        from
    }
}

/// Where the first line that starts with the user id label begins and ends,
/// looking at the lines that begin at `from` or later.
pub open spec fn uid_line(text: Seq<char>, from: int) -> Option<(int, int)>
    decreases text.len() - from,
{
    if 0 <= from < text.len() {
        let end = line_end(text, from);
        if has_prefix_at(text, from, uid_label()) {
            Some((from, end))
        } else if from <= end < text.len() {
            uid_line(text, end + 1)
        } else {
            None
        }
    } else {
        None
    }
}

/// Where the second of the words between `from` and `end` begins and ends;
/// words are the runs of characters that white space separates.
pub open spec fn second_word(text: Seq<char>, from: int, end: int) -> Option<(int, int)> {
    let first = skip_white(text, from, end);
    let gap = skip_word(text, first, end);
    let second = skip_white(text, gap, end);
    if second < end {
        Some((second, skip_word(text, second, end)))
    } else {
        None
    }
}

/// The user id that a process status text gives: the number that the second
/// word writes on the first line that starts with the user id label. Where
/// there is no such line, word or number, it is [`DEFAULT_UID`].
pub open spec fn uid_of(status: Seq<char>) -> u32 {
    match uid_line(status, 0) {
        Some((from, end)) => match second_word(status, from, end) {
            Some((start, stop)) => match parsed_u32(status.subrange(start, stop)) {
                Some(uid) => uid,
                None => DEFAULT_UID,
            },
            None => DEFAULT_UID,
        },
        None => DEFAULT_UID,
    }
}

fn scan_white(text: &Vec<char>, from: usize, end: usize) -> (at: usize)
    requires
        from <= end <= text.len(),
    ensures
        at == skip_white(text@, from as int, end as int),
        from <= at <= end,
{
    let mut at = from;
    while at < end && white_space(text[at])
        invariant
            from <= at <= end <= text.len(),
            skip_white(text@, from as int, end as int) == skip_white(text@, at as int, end as int),
        decreases end - at,
    {
        at += 1;
    }
    at
}

fn scan_word(text: &Vec<char>, from: usize, end: usize) -> (at: usize)
    requires
        from <= end <= text.len(),
    ensures
        at == skip_word(text@, from as int, end as int),
        from <= at <= end,
{
    let mut at = from;
    while at < end && !white_space(text[at])
        invariant
            from <= at <= end <= text.len(),
            skip_word(text@, from as int, end as int) == skip_word(text@, at as int, end as int),
        decreases end - at,
    {
        at += 1;
    }
    at
}

fn starts_with_uid_label(text: &Vec<char>, at: usize) -> (found: bool)
    requires
        at <= text.len(),
    ensures
        found == has_prefix_at(text@, at as int, uid_label()),
{
    if text.len() - at < 4 {
        return false;
    }
    let found = text[at] == 'U' && text[at + 1] == 'i' && text[at + 2] == 'd' && text[at + 3]
        == ':';
    proof {
        let part = text@.subrange(at as int, at + 4);
        assert(part[0] == text@[at as int]);
        assert(part[1] == text@[at + 1]);
        assert(part[2] == text@[at + 2]);
        assert(part[3] == text@[at + 3]);
        if found {
            assert(part =~= uid_label());
        }
    }
    found
}

fn find_uid_line(text: &Vec<char>) -> (found: Option<(usize, usize)>)
    ensures
        match found {
            Some((from, end)) => uid_line(text@, 0) == Some((from as int, end as int)) && from
                <= end <= text.len(),
            None => uid_line(text@, 0) is None,
        },
{
    let mut from: usize = 0;
    while from < text.len()
        invariant
            from <= text.len(),
            uid_line(text@, 0) == uid_line(text@, from as int),
        decreases text.len() - from,
    {
        let end = scan_line(text, from);
        if starts_with_uid_label(text, from) {
            return Some((from, end));
        }
        if end < text.len() {
            from = end + 1;
        } else {
            return None;
        }
    }
    None
}

/// A number is at least the number that the first of its digits write.
proof fn lemma_decimal_value_grows(digits: Seq<char>, upto: int)
    requires
        0 <= upto <= digits.len(),
        all_digits(digits),
    ensures
        decimal_value(digits.take(upto)) <= decimal_value(digits),
    decreases digits.len() - upto,
{
    if upto < digits.len() {
        lemma_decimal_value_grows(digits, upto + 1);
        assert(digits.take(upto + 1).drop_last() =~= digits.take(upto));
        assert(digits.take(upto + 1).last() == digits[upto]);
    } else {
        assert(digits.take(upto) =~= digits);
    }
}

fn parse_u32(text: &Vec<char>, from: usize, end: usize) -> (value: Option<u32>)
    requires
        from <= end <= text.len(),
    ensures
        value == parsed_u32(text@.subrange(from as int, end as int)),
{
    let ghost word = text@.subrange(from as int, end as int);
    let start = if from < end && text[from] == '+' {
        from + 1
    } else {
        from
    };
    let ghost digits = text@.subrange(start as int, end as int);
    proof {
        assert(digits =~= unsigned_part(word));
    }
    if start == end {
        return None;
    }
    let mut total: u64 = 0;
    let mut at = start;
    while at < end
        invariant
            from <= start <= at <= end <= text.len(),
            digits == text@.subrange(start as int, end as int),
            digits == unsigned_part(text@.subrange(from as int, end as int)),
            digits.len() > 0,
            all_digits(digits.take(at - start)),
            total == decimal_value(digits.take(at - start)),
            total <= u32::MAX,
        decreases end - at,
    {
        let c = text[at];
        let ghost seen = digits.take(at - start);
        let ghost more = digits.take(at - start + 1);
        proof {
            assert(more.drop_last() =~= seen);
            assert(more.last() == c);
            assert(digits[at - start] == c);
        }
        if !('0' <= c && c <= '9') {
            proof {
                assert(!is_digit(digits[at - start]));
            }
            return None;
        }
        total = total * 10 + (c as u32 - '0' as u32) as u64;
        proof {
            assert forall|i: int| 0 <= i < more.len() implies is_digit(#[trigger] more[i]) by {
                if i < seen.len() {
                    assert(more[i] == seen[i]);
                }
            }
        }
        if total > u32::MAX as u64 {
            proof {
                if all_digits(digits) {
                    lemma_decimal_value_grows(digits, at - start + 1);
                }
            }
            return None;
        }
        at += 1;
    }
    proof {
        assert(digits.take(at - start) =~= digits);
    }
    Some(total as u32)
}

/// The user id that a process status text gives; [`DEFAULT_UID`] where the
/// text could not be read or gives none.
pub fn read_uid(status: Option<&str>) -> (uid: u32)
    ensures
        uid == match status {
            Some(text) => uid_of(text@),
            None => DEFAULT_UID,
        },
{
    let text = match status {
        Some(text) => chars_of(text),
        None => {
            return DEFAULT_UID;
        },
    };
    let (from, end) = match find_uid_line(&text) {
        Some(line) => line,
        None => {
            return DEFAULT_UID;
        },
    };
    let first = scan_white(&text, from, end);
    let gap = scan_word(&text, first, end);
    let second = scan_white(&text, gap, end);
    if second >= end {
        return DEFAULT_UID;
    }
    let stop = scan_word(&text, second, end);
    match parse_u32(&text, second, stop) {
        Some(uid) => uid,
        None => DEFAULT_UID,
    }
}

fn digit_text(value: u32) -> (text: &'static str)
    requires
        value < 10,
    ensures
        text@ == seq![digit_of(value as nat)],
{
    proof {
        reveal_strlit("0");
        reveal_strlit("1");
        reveal_strlit("2");
        reveal_strlit("3");
        reveal_strlit("4");
        reveal_strlit("5");
        reveal_strlit("6");
        reveal_strlit("7");
        reveal_strlit("8");
        reveal_strlit("9");
    }
    let text = match value {
        0 => "0",
        1 => "1",
        2 => "2",
        3 => "3",
        4 => "4",
        5 => "5",
        6 => "6",
        7 => "7",
        8 => "8",
        _ => "9",
    };
    proof {
        assert(text@ =~= seq![digit_of(value as nat)]);
    }
    text
}

/// Writes a number in decimal digits.
pub fn decimal_text(value: u32) -> (text: String)
    ensures
        text@ == decimal(value as nat),
    decreases value,
{
    if value < 10 {
        String::from_str(digit_text(value))
    } else {
        let mut text = decimal_text(value / 10);
        let ghost front = text@;
        text.append(digit_text(value % 10));
        proof {
            assert(text@ =~= front.push(digit_of((value % 10) as nat)));
        }
        text
    }
}

/// The directory for runtime files: the configured one, or the one that
/// the system keeps for the user.
pub open spec fn runtime_dir_of(runtime_dir: Option<Seq<char>>, uid: u32) -> Seq<char> {
    match runtime_dir {
        Some(dir) => dir,
        None => "/run/user/"@ + decimal(uid as nat),
    }
}

/// The path of the compositor's socket: the configured path, or
/// `niri/socket` in the directory for runtime files.
pub open spec fn socket_path_of(
    niri_socket: Option<Seq<char>>,
    runtime_dir: Option<Seq<char>>,
    uid: u32,
) -> Seq<char> {
    match niri_socket {
        Some(path) => path,
        None => runtime_dir_of(runtime_dir, uid) + "/niri/socket"@,
    }
}

/// The path of the socket on which a running instance is told to toggle
/// its overlay: `niri-switch.sock` in the directory for runtime files.
pub open spec fn toggle_socket_path_of(runtime_dir: Option<Seq<char>>, uid: u32) -> Seq<char> {
    runtime_dir_of(runtime_dir, uid) + "/niri-switch.sock"@
}

/// The user id that stands behind an optional status text.
pub open spec fn uid_behind(status: Option<&str>) -> u32 {
    match status {
        Some(text) => uid_of(text@),
        None => DEFAULT_UID,
    }
}

fn resolve_runtime_dir(configured: Option<String>, status: Option<&str>) -> (dir: String)
    ensures
        dir@ == runtime_dir_of(text_view(configured), uid_behind(status)),
{
    match configured {
        Some(dir) => dir,
        None => {
            let mut dir = String::from_str("/run/user/");
            dir.append(decimal_text(read_uid(status)).as_str());
            dir
        },
    }
}

/// The path of the compositor's socket. `niri_socket` is the value of
/// `NIRI_SOCKET` and `runtime_dir` that of `XDG_RUNTIME_DIR`, each `None`
/// where the variable is not set; `status` is the text of
/// `/proc/self/status`, `None` where it was not read.
pub fn socket_path(
    niri_socket: Option<String>,
    runtime_dir: Option<String>,
    status: Option<&str>,
) -> (path: Result<String, NiriError>)
    ensures
        path is Ok,
        path->Ok_0@ == socket_path_of(
            text_view(niri_socket),
            text_view(runtime_dir),
            uid_behind(status),
        ),
{
    match niri_socket {
        Some(path) => Ok(path),
        None => {
            let mut path = resolve_runtime_dir(runtime_dir, status);
            path.append("/niri/socket");
            Ok(path)
        },
    }
}

/// The path of the socket on which a running instance is told to toggle
/// its overlay.
pub fn toggle_socket_path(runtime_dir: Option<String>, status: Option<&str>) -> (path: String)
    ensures
        path@ == toggle_socket_path_of(text_view(runtime_dir), uid_behind(status)),
{
    let mut path = resolve_runtime_dir(runtime_dir, status);
    path.append("/niri-switch.sock");
    path
}

} // verus!
