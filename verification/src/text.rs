//! Text as bytes: searching, trimming and cutting UTF-8 text, and writing
//! numbers as text.
//!
//! The functions of this module look at text byte by byte. For text in
//! UTF-8 this gives the same answers as looking at it character by
//! character, as long as what is searched for is itself whole characters.

use vstd::prelude::*;

verus! {

/// Whether `text` starts with `prefix`.
pub open spec fn spec_starts_with(text: Seq<u8>, prefix: Seq<u8>) -> bool {
    prefix.len() <= text.len() && text.subrange(0, prefix.len() as int) == prefix
}

/// Whether `needle` occurs in `text` at position `at`.
pub open spec fn spec_occurs_at(text: Seq<u8>, needle: Seq<u8>, at: int) -> bool {
    0 <= at && at + needle.len() <= text.len() && text.subrange(at, at + needle.len()) == needle
}

/// Whether `needle` occurs anywhere in `text`.
pub open spec fn spec_contains(text: Seq<u8>, needle: Seq<u8>) -> bool {
    exists|at: int| spec_occurs_at(text, needle, at)
}

/// Position of the first byte of `text` that equals `byte`, if there is one.
pub open spec fn spec_find_byte(text: Seq<u8>, byte: u8) -> Option<int> {
    if exists|at: int| 0 <= at < text.len() && text[at] == byte {
        Some(choose|at: int| spec_first_byte_at(text, byte, at))
    } else {
        None
    }
}

/// Whether `at` is the position of the first byte of `text` that equals
/// `byte`.
pub open spec fn spec_first_byte_at(text: Seq<u8>, byte: u8, at: int) -> bool {
    &&& 0 <= at < text.len()
    &&& text[at] == byte
    &&& forall|before: int| 0 <= before < at ==> text[before] != byte
}

/// Number of bytes of the white space character that starts at position
/// `at` of `text`, or zero if none starts there. A byte sequence counts as
/// white space if it is the UTF-8 form of a character with the Unicode
/// property White_Space.
pub open spec fn spec_space_width(text: Seq<u8>, at: int) -> int {
    if at < 0 || at >= text.len() {
        0
    } else if (0x09 <= text[at] <= 0x0D) || text[at] == 0x20 {
        1
    } else if at + 1 < text.len() && text[at] == 0xC2 && (text[at + 1] == 0x85 || text[at + 1]
        == 0xA0) {
        2
    } else if at + 2 < text.len() && text[at] == 0xE1 && text[at + 1] == 0x9A && text[at + 2]
        == 0x80 {
        3
    } else if at + 2 < text.len() && text[at] == 0xE2 && text[at + 1] == 0x80 && (text[at + 2]
        <= 0x8A && text[at + 2] >= 0x80 || text[at + 2] == 0xA8 || text[at + 2] == 0xA9 || text[at
        + 2] == 0xAF) {
        3
    } else if at + 2 < text.len() && text[at] == 0xE2 && text[at + 1] == 0x81 && text[at + 2]
        == 0x9F {
        3
    } else if at + 2 < text.len() && text[at] == 0xE3 && text[at + 1] == 0x80 && text[at + 2]
        == 0x80 {
        3
    } else {
        0
    }
}

/// Position of the first byte of `text`, from `from` on, that does not
/// belong to white space; the length of `text` if only white space follows.
pub open spec fn spec_skip_space(text: Seq<u8>, from: int) -> int
    decreases text.len() - from,
{
    if spec_space_width(text, from) > 0 {
        spec_skip_space(text, from + spec_space_width(text, from))
    } else if from < 0 {
        0
    } else if from > text.len() {
        text.len() as int
    } else {
        from
    }
}

/// Whether the first character of `text` after leading white space is an
/// opening brace.
pub open spec fn spec_opens_brace(text: Seq<u8>) -> bool {
    spec_skip_space(text, 0) < text.len() && text[spec_skip_space(text, 0)] == 0x7B
}

/// Whether `text` starts with `prefix`.
pub fn starts_with(text: &[u8], prefix: &[u8]) -> (found: bool)
    ensures
        found == spec_starts_with(text@, prefix@),
{
    if prefix.len() > text.len() {
        return false;
    }
    let mut i: usize = 0;
    while i < prefix.len()
        invariant
            i <= prefix.len(),
            prefix.len() <= text.len(),
            text@.subrange(0, i as int) == prefix@.subrange(0, i as int),
        decreases prefix.len() - i,
    {
        if text[i] != prefix[i] {
            proof {
                assert(text@.subrange(0, prefix.len() as int)[i as int] == text@[i as int]);
            }
            return false;
        }
        proof {
            assert(text@.subrange(0, i + 1) =~= text@.subrange(0, i as int).push(text@[i as int]));
            assert(prefix@.subrange(0, i + 1) =~= prefix@.subrange(0, i as int).push(
                prefix@[i as int],
            ));
        }
        i = i + 1;
    }
    proof {
        assert(prefix@.subrange(0, prefix.len() as int) =~= prefix@);
    }
    true
}

/// Whether `needle` occurs in `text` at position `at`.
pub fn occurs_at(text: &[u8], needle: &[u8], at: usize) -> (found: bool)
    ensures
        found == spec_occurs_at(text@, needle@, at as int),
{
    if at > text.len() || needle.len() > text.len() - at {
        return false;
    }
    let mut i: usize = 0;
    while i < needle.len()
        invariant
            i <= needle.len(),
            at + needle.len() <= text.len(),
            text@.subrange(at as int, at + i) == needle@.subrange(0, i as int),
        decreases needle.len() - i,
    {
        if text[at + i] != needle[i] {
            proof {
                assert(text@.subrange(at as int, at + needle.len())[i as int] == text@[at + i]);
            }
            return false;
        }
        proof {
            assert(text@.subrange(at as int, at + i + 1) =~= text@.subrange(
                at as int,
                at + i,
            ).push(text@[at + i]));
            assert(needle@.subrange(0, i + 1) =~= needle@.subrange(0, i as int).push(
                needle@[i as int],
            ));
        }
        i = i + 1;
    }
    proof {
        assert(needle@.subrange(0, needle.len() as int) =~= needle@);
    }
    true
}

/// Whether `needle` occurs anywhere in `text`.
pub fn contains(text: &[u8], needle: &[u8]) -> (found: bool)
    ensures
        found == spec_contains(text@, needle@),
{
    if needle.len() > text.len() {
        return false;
    }
    let last: usize = text.len() - needle.len();
    let mut at: usize = 0;
    while at < last
        invariant
            at <= last,
            last == text.len() - needle.len(),
            needle.len() <= text.len(),
            forall|before: int| 0 <= before < at ==> !spec_occurs_at(text@, needle@, before),
        decreases last - at,
    {
        if occurs_at(text, needle, at) {
            return true;
        }
        at = at + 1;
    }
    occurs_at(text, needle, last)
}

/// Position of the first byte of `text` that equals `byte`.
pub fn find_byte(text: &[u8], byte: u8) -> (found: Option<usize>)
    ensures
        match found {
            Some(at) => spec_first_byte_at(text@, byte, at as int),
            None => forall|at: int| 0 <= at < text.len() ==> text@[at] != byte,
        },
        found == match spec_find_byte(text@, byte) {
            Some(at) => Some(at as usize),
            None => None,
        },
{
    let mut at: usize = 0;
    while at < text.len()
        invariant
            at <= text.len(),
            forall|before: int| 0 <= before < at ==> text@[before] != byte,
        decreases text.len() - at,
    {
        if text[at] == byte {
            proof {
                lemma_first_byte_unique(text@, byte, at as int);
            }
            return Some(at);
        }
        at = at + 1;
    }
    None
}

/// The first position of a byte is one position only.
proof fn lemma_first_byte_unique(text: Seq<u8>, byte: u8, at: int)
    requires
        spec_first_byte_at(text, byte, at),
    ensures
        spec_find_byte(text, byte) == Some(at),
{
    let chosen = choose|other: int| spec_first_byte_at(text, byte, other);
    assert(spec_first_byte_at(text, byte, chosen));
    if chosen < at {
        assert(text[chosen] != byte);
    }
    if at < chosen {
        assert(text[at] != byte);
    }
}

/// Number of bytes of the white space character that starts at `at`, or
/// zero if none starts there.
pub fn space_width(text: &[u8], at: usize) -> (width: usize)
    ensures
        width == spec_space_width(text@, at as int),
        at + width <= text.len() || width == 0,
        width <= 3,
{
    if at >= text.len() {
        return 0;
    }
    let first: u8 = text[at];
    if (0x09 <= first && first <= 0x0D) || first == 0x20 {
        return 1;
    }
    if text.len() - at < 2 {
        return 0;
    }
    let second: u8 = text[at + 1];
    if first == 0xC2 && (second == 0x85 || second == 0xA0) {
        return 2;
    }
    if text.len() - at < 3 {
        return 0;
    }
    let third: u8 = text[at + 2];
    if first == 0xE1 && second == 0x9A && third == 0x80 {
        3
    } else if first == 0xE2 && second == 0x80 && (third <= 0x8A && third >= 0x80 || third == 0xA8
        || third == 0xA9 || third == 0xAF) {
        3
    } else if first == 0xE2 && second == 0x81 && third == 0x9F {
        3
    } else if first == 0xE3 && second == 0x80 && third == 0x80 {
        3
    } else {
        0
    }
}

/// Position of the first byte of `text`, from `from` on, that does not
/// belong to white space.
pub fn skip_space(text: &[u8], from: usize) -> (at: usize)
    ensures
        at == spec_skip_space(text@, from as int),
        at <= text.len(),
        from <= text.len() ==> from <= at,
{
    let mut at: usize = from;
    while space_width(text, at) > 0
        invariant
            spec_skip_space(text@, from as int) == spec_skip_space(text@, at as int),
            from <= at,
            from <= text.len() ==> at <= text.len(),
        decreases text.len() - at,
    {
        at = at + space_width(text, at);
    }
    if at > text.len() {
        text.len()
    } else {
        at
    }
}

/// Whether the first character of `text` after leading white space is an
/// opening brace.
pub fn opens_brace(text: &[u8]) -> (opens: bool)
    ensures
        opens == spec_opens_brace(text@),
{
    let at: usize = skip_space(text, 0);
    at < text.len() && text[at] == 0x7B
}

/// The part of `text` from position `from` on.
pub open spec fn spec_tail(text: Seq<u8>, from: int) -> Seq<u8> {
    if 0 <= from <= text.len() {
        text.subrange(from, text.len() as int)
    } else {
        Seq::empty()
    }
}

/// Position of the first byte of `text`, from `from` on, that is not equal
/// to `byte`.
pub open spec fn spec_skip_byte(text: Seq<u8>, byte: u8, from: int) -> int
    decreases text.len() - from,
{
    if 0 <= from < text.len() && text[from] == byte {
        spec_skip_byte(text, byte, from + 1)
    } else {
        from
    }
}

/// The end of `text` without the bytes equal to `byte` that it ends with,
/// looking no further back than `floor`.
pub open spec fn spec_skip_byte_back(text: Seq<u8>, byte: u8, floor: int, end: int) -> int
    decreases end,
{
    if floor < end <= text.len() && 0 <= floor && text[end - 1] == byte {
        spec_skip_byte_back(text, byte, floor, end - 1)
    } else {
        end
    }
}

/// `text` without the bytes equal to `byte` at its start and at its end.
pub open spec fn spec_strip_byte(text: Seq<u8>, byte: u8) -> Seq<u8> {
    let start = spec_skip_byte(text, byte, 0);
    text.subrange(start, spec_skip_byte_back(text, byte, start, text.len() as int))
}

/// `text` with every pair of bytes `first`, `second` replaced by the one
/// byte `with`, going from left to right, from `from` on.
pub open spec fn spec_replace_pair(text: Seq<u8>, first: u8, second: u8, with: u8, from: int) -> Seq<
    u8,
>
    decreases text.len() - from,
{
    if from < 0 || from >= text.len() {
        Seq::empty()
    } else if from + 1 < text.len() && text[from] == first && text[from + 1] == second {
        seq![with] + spec_replace_pair(text, first, second, with, from + 2)
    } else {
        seq![text[from]] + spec_replace_pair(text, first, second, with, from + 1)
    }
}

/// Position after the copies of `prefix` that `text` starts with, from
/// `from` on.
pub open spec fn spec_skip_prefix(text: Seq<u8>, prefix: Seq<u8>, from: int) -> int
    decreases text.len() - from,
{
    if prefix.len() > 0 && spec_occurs_at(text, prefix, from) {
        spec_skip_prefix(text, prefix, from + prefix.len())
    } else {
        from
    }
}

/// Length of the white space character that ends just before `end`, or
/// zero if none ends there.
pub open spec fn spec_space_width_before(text: Seq<u8>, end: int) -> int {
    if end < 1 || end > text.len() {
        0
    } else if spec_space_width(text, end - 1) == 1 {
        1
    } else if end >= 2 && spec_space_width(text, end - 2) == 2 {
        2
    } else if end >= 3 && spec_space_width(text, end - 3) == 3 {
        3
    } else {
        0
    }
}

/// The end of `text` without the white space before `end`, looking no
/// further back than `floor`.
pub open spec fn spec_skip_space_back(text: Seq<u8>, floor: int, end: int) -> int
    decreases end,
{
    if spec_space_width_before(text, end) > 0 && end - spec_space_width_before(text, end)
        >= floor {
        spec_skip_space_back(text, floor, end - spec_space_width_before(text, end))
    } else {
        end
    }
}

/// `text` without the white space at its start and at its end.
pub open spec fn spec_trim(text: Seq<u8>) -> Seq<u8> {
    let start = spec_skip_space(text, 0);
    text.subrange(start, spec_skip_space_back(text, start, text.len() as int))
}

/// A copy of the part of `text` from `start` up to `end`.
pub fn copy_range(text: &[u8], start: usize, end: usize) -> (copy: Vec<u8>)
    requires
        start <= end <= text.len(),
    ensures
        copy@ == text@.subrange(start as int, end as int),
{
    let mut copy: Vec<u8> = Vec::new();
    let mut at: usize = start;
    while at < end
        invariant
            start <= at <= end <= text.len(),
            copy@ == text@.subrange(start as int, at as int),
        decreases end - at,
    {
        copy.push(text[at]);
        proof {
            assert(text@.subrange(start as int, at + 1) =~= text@.subrange(
                start as int,
                at as int,
            ).push(text@[at as int]));
        }
        at = at + 1;
    }
    copy
}

/// `text` without the bytes equal to `byte` at its start and at its end.
pub fn strip_byte(text: &[u8], byte: u8) -> (stripped: Vec<u8>)
    ensures
        stripped@ == spec_strip_byte(text@, byte),
{
    let mut start: usize = 0;
    while start < text.len() && text[start] == byte
        invariant
            start <= text.len(),
            spec_skip_byte(text@, byte, 0) == spec_skip_byte(text@, byte, start as int),
        decreases text.len() - start,
    {
        start = start + 1;
    }
    let mut end: usize = text.len();
    while end > start && text[end - 1] == byte
        invariant
            start <= end <= text.len(),
            spec_skip_byte_back(text@, byte, start as int, text.len() as int)
                == spec_skip_byte_back(text@, byte, start as int, end as int),
        decreases end,
    {
        end = end - 1;
    }
    copy_range(text, start, end)
}

/// `text` with every pair of bytes `first`, `second` replaced by the one
/// byte `with`, going from left to right.
pub fn replace_pair(text: &[u8], first: u8, second: u8, with: u8) -> (replaced: Vec<u8>)
    ensures
        replaced@ == spec_replace_pair(text@, first, second, with, 0),
{
    let mut replaced: Vec<u8> = Vec::new();
    let mut at: usize = 0;
    while at < text.len()
        invariant
            at <= text.len(),
            spec_replace_pair(text@, first, second, with, 0) == replaced@ + spec_replace_pair(
                text@,
                first,
                second,
                with,
                at as int,
            ),
        decreases text.len() - at,
    {
        let ghost before = replaced@;
        if text.len() - at >= 2 && text[at] == first && text[at + 1] == second {
            replaced.push(with);
            proof {
                assert(before + (seq![with] + spec_replace_pair(
                    text@,
                    first,
                    second,
                    with,
                    at + 2,
                )) =~= before.push(with) + spec_replace_pair(text@, first, second, with, at + 2));
            }
            at = at + 2;
        } else {
            replaced.push(text[at]);
            proof {
                assert(before + (seq![text@[at as int]] + spec_replace_pair(
                    text@,
                    first,
                    second,
                    with,
                    at + 1,
                )) =~= before.push(text@[at as int]) + spec_replace_pair(
                    text@,
                    first,
                    second,
                    with,
                    at + 1,
                ));
            }
            at = at + 1;
        }
    }
    proof {
        assert(replaced@ + Seq::<u8>::empty() =~= replaced@);
    }
    replaced
}

/// Position after the copies of `prefix` that `text` starts with.
pub fn skip_prefix(text: &[u8], prefix: &[u8]) -> (at: usize)
    ensures
        at == spec_skip_prefix(text@, prefix@, 0),
        at <= text.len(),
{
    let mut at: usize = 0;
    if prefix.len() == 0 {
        return 0;
    }
    while occurs_at(text, prefix, at)
        invariant
            at <= text.len(),
            prefix.len() > 0,
            spec_skip_prefix(text@, prefix@, 0) == spec_skip_prefix(text@, prefix@, at as int),
        decreases text.len() - at,
    {
        at = at + prefix.len();
    }
    at
}

/// Length of the white space character that ends just before `end`.
pub fn space_width_before(text: &[u8], end: usize) -> (width: usize)
    ensures
        width == spec_space_width_before(text@, end as int),
        width <= end,
        width <= 3,
{
    if end < 1 || end > text.len() {
        0
    } else if space_width(text, end - 1) == 1 {
        1
    } else if end >= 2 && space_width(text, end - 2) == 2 {
        2
    } else if end >= 3 && space_width(text, end - 3) == 3 {
        3
    } else {
        0
    }
}

/// `text` without the white space at its start and at its end.
pub fn trim(text: &[u8]) -> (trimmed: Vec<u8>)
    ensures
        trimmed@ == spec_trim(text@),
{
    let start: usize = skip_space(text, 0);
    let mut end: usize = text.len();
    while space_width_before(text, end) > 0 && end - space_width_before(text, end) >= start
        invariant
            start <= end <= text.len(),
            spec_skip_space_back(text@, start as int, text.len() as int) == spec_skip_space_back(
                text@,
                start as int,
                end as int,
            ),
        decreases end,
    {
        end = end - space_width_before(text, end);
    }
    copy_range(text, start, end)
}

/// One decimal digit as text.
pub open spec fn spec_digit(digit: int) -> Seq<char> {
    if digit == 0 {
        "0"@
    } else if digit == 1 {
        "1"@
    } else if digit == 2 {
        "2"@
    } else if digit == 3 {
        "3"@
    } else if digit == 4 {
        "4"@
    } else if digit == 5 {
        "5"@
    } else if digit == 6 {
        "6"@
    } else if digit == 7 {
        "7"@
    } else if digit == 8 {
        "8"@
    } else {
        "9"@
    }
}

/// A number in decimal notation.
pub open spec fn spec_decimal(number: nat) -> Seq<char>
    decreases number,
{
    if number < 10 {
        spec_digit(number as int)
    } else {
        spec_decimal(number / 10) + spec_digit(number as int % 10)
    }
}

/// One decimal digit as text.
fn digit(value: usize) -> (text: &'static str)
    requires
        value < 10,
    ensures
        text@ == spec_digit(value as int),
{
    match value {
        0 => "0",
        1 => "1",
        2 => "2",
        3 => "3",
        4 => "4",
        5 => "5",
        6 => "6",
        7 => "7",
        8 => "8",
        _ => "9",
    }
}

/// A number in decimal notation.
pub fn decimal(number: usize) -> (text: String)
    ensures
        text@ == spec_decimal(number as nat),
    decreases number,
{
    if number < 10 {
        digit(number).to_owned()
    } else {
        decimal(number / 10).concat(digit(number % 10))
    }
}

} // verus!
