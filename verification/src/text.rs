//! Small verified tools for texts: prefixes, lines, pieces, and the removal
//! of a word.

use vstd::prelude::*;
use vstd::string::StrSliceExecFns;
use vstd::string::StringExecFns;

verus! {

broadcast use vstd::string::group_string_axioms;

/// The characters of a text.
pub fn chars_of(text: &str) -> (chars: Vec<char>)
    ensures
        chars@ == text@,
{
    let mut chars: Vec<char> = Vec::new();
    for c in it: text.chars()
        invariant
            it.seq() == text@,
            chars@ == it.seq().take(it.index() as int),
    {
        chars.push(c);
    }
    chars
}

/// Whether the text holds `word` at position `at`.
pub open spec fn has_prefix_at(text: Seq<char>, at: int, word: Seq<char>) -> bool {
    0 <= at && at + word.len() <= text.len() && text.subrange(at, at + word.len()) == word
}

/// Whether the text holds `word` at position `at`.
pub fn matches_at(text: &Vec<char>, at: usize, word: &Vec<char>) -> (found: bool)
    requires
        at <= text.len(),
    ensures
        found == has_prefix_at(text@, at as int, word@),
{
    if text.len() - at < word.len() {
        return false;
    }
    let ghost part = text@.subrange(at as int, at + word.len());
    let mut i: usize = 0;
    while i < word.len()
        invariant
            i <= word.len(),
            at + word.len() <= text.len(),
            part == text@.subrange(at as int, at + word.len()),
            forall|j: int| 0 <= j < i ==> part[j] == word@[j],
        decreases word.len() - i,
    {
        if text[at + i] != word[i] {
            proof {
                assert(part[i as int] == text@[at + i]);
            }
            return false;
        }
        proof {
            assert(part[i as int] == text@[at + i]);
        }
        i += 1;
    }
    proof {
        assert(part =~= word@);
    }
    true
}

/// Whether two texts are the same.
pub fn same_text(a: &Vec<char>, b: &Vec<char>) -> (same: bool)
    ensures
        same == (a@ == b@),
{
    if a.len() != b.len() {
        return false;
    }
    let same = matches_at(a, 0, b);
    proof {
        assert(a@.subrange(0, a@.len() as int) =~= a@);
    }
    same
}

/// Whether `word` occurs anywhere in the text.
pub open spec fn occurs_in(text: Seq<char>, word: Seq<char>) -> bool {
    exists|at: int| has_prefix_at(text, at, word)
}

/// Whether `word` occurs anywhere in the text.
pub fn contains_text(text: &Vec<char>, word: &Vec<char>) -> (found: bool)
    ensures
        found == occurs_in(text@, word@),
{
    if word.len() > text.len() {
        return false;
    }
    let last = text.len() - word.len();
    let mut at: usize = 0;
    loop
        invariant
            at <= last,
            last == text.len() - word.len(),
            forall|j: int| 0 <= j < at ==> !has_prefix_at(text@, j, word@),
        decreases last - at,
    {
        if matches_at(text, at, word) {
            return true;
        }
        if at == last {
            return false;
        }
        at += 1;
    }
}

/// The first position from `from` on that holds a newline; the text's
/// length where there is none.
pub open spec fn line_end(text: Seq<char>, from: int) -> int
    decreases text.len() - from,
{
    if 0 <= from < text.len() && text[from] != '\n' {
        line_end(text, from + 1)
    } else {
        from
    }
}

/// Where the line that begins at `from` stops: at its end, or one before
/// where a newline ends it and a carriage return stands before the newline.
pub open spec fn line_stop(text: Seq<char>, from: int) -> int {
    let end = line_end(text, from);
    if from < end < text.len() && text[end - 1] == '\r' {
        end - 1
    } else {
        end
    }
}

/// Finds the end of the line that begins at `from`.
pub fn scan_line(text: &Vec<char>, from: usize) -> (at: usize)
    requires
        from <= text.len(),
    ensures
        at == line_end(text@, from as int),
        from <= at <= text.len(),
        at < text.len() ==> text@[at as int] == '\n',
        forall|j: int| from <= j < at ==> text@[j] != '\n',
{
    let mut at = from;
    while at < text.len() && text[at] != '\n'
        invariant
            from <= at <= text.len(),
            line_end(text@, from as int) == line_end(text@, at as int),
            forall|j: int| from <= j < at ==> text@[j] != '\n',
        decreases text.len() - at,
    {
        at += 1;
    }
    at
}

/// Finds where the line that begins at `from` and ends at `end` stops.
pub fn trim_line_end(text: &Vec<char>, from: usize, end: usize) -> (stop: usize)
    requires
        from <= end <= text.len(),
        end == line_end(text@, from as int),
    ensures
        stop == line_stop(text@, from as int),
        from <= stop <= end,
{
    if from < end && end < text.len() && text[end - 1] == '\r' {
        end - 1
    } else {
        end
    }
}

/// The part of a text between two positions, as a text of its own.
pub fn slice_text(text: &str, from: usize, to: usize) -> (part: String)
    requires
        from <= to <= text@.len(),
    ensures
        part@ == text@.subrange(from as int, to as int),
{
    String::from_str(text.substring_char(from, to))
}

/// The first position from `from` on that holds `mark`; the text's length
/// where there is none.
pub open spec fn next_mark(text: Seq<char>, from: int, mark: char) -> int
    decreases text.len() - from,
{
    if 0 <= from < text.len() && text[from] != mark {
        next_mark(text, from + 1, mark)
    } else {
        from
    }
}

/// The pieces of the text from `from` on that `mark` separates. There is
/// always at least one piece; pieces may be empty.
pub open spec fn pieces_from(text: Seq<char>, from: int, mark: char) -> Seq<Seq<char>>
    decreases text.len() - from,
{
    if 0 <= from <= text.len() {
        let end = next_mark(text, from, mark);
        if from <= end < text.len() {
            seq![text.subrange(from, end)] + pieces_from(text, end + 1, mark)
        } else {
            seq![text.subrange(from, text.len() as int)]
        }
    } else {
        Seq::empty()
    }
}

/// The pieces of the text that `mark` separates.
pub open spec fn pieces(text: Seq<char>, mark: char) -> Seq<Seq<char>> {
    pieces_from(text, 0, mark)
}

/// The texts that a list of strings holds.
pub open spec fn texts(list: Seq<String>) -> Seq<Seq<char>> {
    list.map_values(|s: String| s@)
}

fn scan_mark(text: &Vec<char>, from: usize, mark: char) -> (at: usize)
    requires
        from <= text.len(),
    ensures
        at == next_mark(text@, from as int, mark),
        from <= at <= text.len(),
{
    let mut at = from;
    while at < text.len() && text[at] != mark
        invariant
            from <= at <= text.len(),
            next_mark(text@, from as int, mark) == next_mark(text@, at as int, mark),
        decreases text.len() - at,
    {
        at += 1;
    }
    at
}

/// Splits the text at every `mark`.
pub fn split_on(text: &str, mark: char) -> (list: Vec<String>)
    ensures
        texts(list@) == pieces(text@, mark),
{
    let chars = chars_of(text);
    let mut list: Vec<String> = Vec::new();
    let mut from: usize = 0;
    loop
        invariant
            chars@ == text@,
            from <= chars.len(),
            pieces(text@, mark) == texts(list@) + pieces_from(text@, from as int, mark),
        decreases chars.len() - from,
    {
        let end = scan_mark(&chars, from, mark);
        let ghost before = list@;
        let piece = slice_text(text, from, end);
        list.push(piece);
        proof {
            assert(texts(list@) =~= texts(before).push(piece@));
        }
        if end < chars.len() {
            proof {
                assert(texts(before) + (seq![piece@] + pieces_from(text@, end + 1, mark)) =~= texts(
                    list@,
                ) + pieces_from(text@, end + 1, mark));
            }
            from = end + 1;
        } else {
            proof {
                assert(texts(before) + seq![piece@] =~= texts(list@));
            }
            return list;
        }
    }
}

/// The last of the pieces that `mark` separates: the text after the last
/// `mark`, or the whole text where it holds none.
pub open spec fn last_piece(text: Seq<char>, mark: char) -> Seq<char> {
    pieces(text, mark).last()
}

/// The text without `word`: every occurrence of `word` is taken out, from
/// left to right, and an occurrence that begins inside another is not one.
pub open spec fn without_word(text: Seq<char>, word: Seq<char>) -> Seq<char>
    decreases text.len(),
{
    if word.len() == 0 || text.len() == 0 {
        text
    } else if has_prefix_at(text, 0, word) {
        without_word(text.skip(word.len() as int), word)
    } else {
        seq![text[0]] + without_word(text.skip(1), word)
    }
}

/// Takes every occurrence of `word` out of the text.
pub fn remove_word(text: &str, word: &str) -> (left: String)
    ensures
        left@ == without_word(text@, word@),
{
    let chars = chars_of(text);
    let pattern = chars_of(word);
    if pattern.len() == 0 {
        return String::from_str(text);
    }
    let mut left = String::new();
    let mut at: usize = 0;
    proof {
        assert(text@.skip(0) =~= text@);
        assert(left@ + without_word(text@, word@) =~= without_word(text@, word@));
    }
    while at < chars.len()
        invariant
            chars@ == text@,
            pattern@ == word@,
            pattern.len() > 0,
            at <= chars.len(),
            without_word(text@, word@) == left@ + without_word(text@.skip(at as int), word@),
        decreases chars.len() - at,
    {
        let ghost rest = text@.skip(at as int);
        let ghost kept = left@;
        proof {
            assert(has_prefix_at(rest, 0, word@) == has_prefix_at(text@, at as int, word@)) by {
                if at + word@.len() <= text@.len() {
                    assert(rest.subrange(0, word@.len() as int) =~= text@.subrange(
                        at as int,
                        at + word@.len(),
                    ));
                }
            }
        }
        if matches_at(&chars, at, &pattern) {
            proof {
                assert(rest.skip(word@.len() as int) =~= text@.skip(at + word@.len()));
            }
            at += pattern.len();
        } else {
            left.append(text.substring_char(at, at + 1));
            proof {
                assert(text@.subrange(at as int, at + 1) =~= seq![rest[0]]);
                assert(rest.skip(1) =~= text@.skip(at + 1));
                assert(left@ + without_word(text@.skip(at + 1), word@) =~= kept + (seq![rest[0]]
                    + without_word(rest.skip(1), word@)));
            }
            at += 1;
        }
    }
    proof {
        assert(text@.skip(at as int) =~= Seq::empty());
        assert(left@ + Seq::<char>::empty() =~= left@);
    }
    left
}

/// Whether a character has the Unicode property White_Space.
pub open spec fn is_white_space(c: char) -> bool {
    ||| c == ' '
    ||| '\u{9}' <= c <= '\u{d}'
    ||| c == '\u{85}'
    ||| c == '\u{a0}'
    ||| c == '\u{1680}'
    ||| '\u{2000}' <= c <= '\u{200a}'
    ||| c == '\u{2028}'
    ||| c == '\u{2029}'
    ||| c == '\u{202f}'
    ||| c == '\u{205f}'
    ||| c == '\u{3000}'
}

/// A text without the white space it starts with.
pub open spec fn trimmed_start(text: Seq<char>) -> Seq<char>
    decreases text.len(),
{
    if text.len() > 0 && is_white_space(text[0]) {
        trimmed_start(text.drop_first())
    } else {
        text
    }
}

/// A text without the white space it ends with.
pub open spec fn trimmed_end(text: Seq<char>) -> Seq<char>
    decreases text.len(),
{
    if text.len() > 0 && is_white_space(text.last()) {
        trimmed_end(text.drop_last())
    } else {
        text
    }
}

/// A text without the white space at either end of it.
pub open spec fn trimmed(text: Seq<char>) -> Seq<char> {
    trimmed_end(trimmed_start(text))
}

/// Calls `str::trim`, which returns the slice of the text that is left when
/// leading and trailing characters with the Unicode property White_Space are
/// taken off.
#[verifier::external_body]
pub(crate) fn trim(text: &str) -> (inner: &str)
    ensures
        inner@ == trimmed(text@),
{
    text.trim()
}

/// Whether a character has the Unicode property White_Space.
pub fn white_space(c: char) -> (white: bool)
    ensures
        white == is_white_space(c),
{
    let code = c as u32;
    code == 0x20 || (0x9 <= code && code <= 0xd) || code == 0x85 || code == 0xa0 || code == 0x1680
        || (0x2000 <= code && code <= 0x200a) || code == 0x2028 || code == 0x2029 || code
        == 0x202f || code == 0x205f || code == 0x3000
}

} // verus!
