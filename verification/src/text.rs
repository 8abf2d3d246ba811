//! Searching in text, character by character.

use vstd::prelude::*;
use vstd::string::StrSliceExecFns;

verus! {

/// `needle` occurs in `haystack` at position `at`.
pub open spec fn occurs_at(haystack: Seq<char>, needle: Seq<char>, at: int) -> bool {
    &&& 0 <= at
    &&& at + needle.len() <= haystack.len()
    &&& haystack.subrange(at, at + needle.len()) == needle
}

/// `needle` occurs somewhere in `haystack`.
pub open spec fn contains_text(haystack: Seq<char>, needle: Seq<char>) -> bool {
    exists|at: int| occurs_at(haystack, needle, at)
}

/// `at` is the first position at which `needle` occurs in `haystack`.
pub open spec fn first_occurrence(haystack: Seq<char>, needle: Seq<char>, at: int) -> bool {
    &&& occurs_at(haystack, needle, at)
    &&& forall|earlier: int| earlier < at ==> !occurs_at(haystack, needle, earlier)
}

/// `text` begins with `prefix`.
pub open spec fn starts_with_text(text: Seq<char>, prefix: Seq<char>) -> bool {
    occurs_at(text, prefix, 0)
}

/// The characters of a string.
pub fn chars_of(text: &str) -> (out: Vec<char>)
    ensures
        out@ == text@,
{
    let len = text.unicode_len();
    let mut out: Vec<char> = Vec::new();
    let mut i: usize = 0;
    while i < len
        invariant
            len == text@.len(),
            i <= len,
            out@ == text@.subrange(0, i as int),
        decreases len - i,
    {
        out.push(text.get_char(i));
        i += 1;
        assert(out@ =~= text@.subrange(0, i as int));
    }
    assert(text@.subrange(0, len as int) =~= text@);
    out
}

/// Whether `needle` occurs in `haystack` at position `at`.
pub fn matches_at(haystack: &Vec<char>, needle: &Vec<char>, at: usize) -> (out: bool)
    ensures
        out == occurs_at(haystack@, needle@, at as int),
{
    if needle.len() > haystack.len() || at > haystack.len() - needle.len() {
        return false;
    }
    let mut i: usize = 0;
    while i < needle.len()
        invariant
            i <= needle.len(),
            at + needle.len() <= haystack.len(),
            forall|k: int| 0 <= k < i ==> haystack[at + k] == needle[k],
        decreases needle.len() - i,
    {
        if haystack[at + i] != needle[i] {
            proof {
                let window = haystack@.subrange(at as int, at + needle.len());
                assert(window[i as int] == haystack[at + i]);
            }
            return false;
        }
        i += 1;
    }
    assert(haystack@.subrange(at as int, at + needle.len()) =~= needle@);
    true
}

/// The first position at which `needle` occurs in `haystack`.
pub fn find(haystack: &Vec<char>, needle: &Vec<char>) -> (out: Option<usize>)
    ensures
        out is Some <==> contains_text(haystack@, needle@),
        out matches Some(at) ==> first_occurrence(haystack@, needle@, at as int),
{
    if needle.len() > haystack.len() {
        return None;
    }
    let last = haystack.len() - needle.len();
    let mut at: usize = 0;
    loop
        invariant
            at <= last,
            last == haystack.len() - needle.len(),
            forall|earlier: int| earlier < at ==> !occurs_at(haystack@, needle@, earlier),
        decreases last - at,
    {
        if matches_at(haystack, needle, at) {
            return Some(at);
        }
        if at == last {
            return None;
        }
        at += 1;
    }
}

/// Whether `needle` occurs in `haystack`.
pub fn contains(haystack: &Vec<char>, needle: &str) -> (out: bool)
    ensures
        out == contains_text(haystack@, needle@),
{
    let needle = chars_of(needle);
    find(haystack, &needle).is_some()
}

/// Whether `text` begins with `prefix`.
pub fn starts_with(text: &Vec<char>, prefix: &str) -> (out: bool)
    ensures
        out == starts_with_text(text@, prefix@),
{
    let prefix = chars_of(prefix);
    matches_at(text, &prefix, 0)
}

/// Whether `text` is exactly `other`.
pub fn equals(text: &Vec<char>, other: &str) -> (out: bool)
    ensures
        out == (text@ == other@),
{
    let other = chars_of(other);
    if text.len() != other.len() {
        return false;
    }
    let same = matches_at(text, &other, 0);
    proof {
        assert(text@.subrange(0, text.len() as int) =~= text@);
    }
    same
}

/// A decimal digit.
pub open spec fn is_digit(c: char) -> bool {
    '0' <= c <= '9'
}

/// The number that a run of digits stands for.
pub open spec fn digits_value(digits: Seq<char>) -> nat
    decreases digits.len(),
{
    if digits.len() == 0 {
        0
    } else {
        digits_value(digits.drop_last()) * 10 + (digits.last() as nat - '0' as nat) as nat
    }
}

/// A text without the plus sign that it may begin with.
pub open spec fn unsigned_part(text: Seq<char>) -> Seq<char> {
    if text.len() > 0 && text[0] == '+' {
        text.subrange(1, text.len() as int)
    } else {
        text
    }
}

/// The number up to `limit` that a run of digits stands for, if it is one.
pub open spec fn number_of(digits: Seq<char>, limit: u64) -> Option<u64> {
    if digits.len() > 0 && (forall|i: int| 0 <= i < digits.len() ==> is_digit(#[trigger] digits[i]))
        && digits_value(digits) <= limit {
        Some(digits_value(digits) as u64)
    } else {
        None
    }
}

/// The number up to `limit` that a text stands for: digits, at least one,
/// after at most one plus sign.
pub open spec fn number_up_to(text: Seq<char>, limit: u64) -> Option<u64> {
    number_of(unsigned_part(text), limit)
}

/// The largest limit that `parse_number` takes.
pub const LARGEST_LIMIT: u64 = 1_000_000_000_000;

/// Reads a number up to `limit`.
pub fn parse_number(text: &str, limit: u64) -> (out: Option<u64>)
    requires
        limit <= LARGEST_LIMIT,
    ensures
        out == number_up_to(text@, limit),
{
    let chars = chars_of(text);
    let start: usize = if chars.len() > 0 && chars[0] == '+' {
        1
    } else {
        0
    };
    let ghost digits = chars@.subrange(start as int, chars.len() as int);
    if start == 0 {
        assert(digits =~= chars@);
    }
    assert(digits == unsigned_part(text@));
    if chars.len() == start {
        return None;
    }
    let mut value: u64 = 0;
    let mut i: usize = start;
    assert(digits.subrange(0, 0) =~= Seq::<char>::empty());
    while i < chars.len()
        invariant
            limit <= LARGEST_LIMIT,
            start <= i <= chars.len(),
            digits == chars@.subrange(start as int, chars.len() as int),
            digits == unsigned_part(text@),
            forall|k: int| 0 <= k < i - start ==> is_digit(#[trigger] digits[k]),
            value == (if digits_value(digits.subrange(0, i - start)) > limit {
                limit + 1
            } else {
                digits_value(digits.subrange(0, i - start)) as int
            }),
        decreases chars.len() - i,
    {
        let c = chars[i];
        if !('0' <= c && c <= '9') {
            proof {
                assert(digits[i - start] == c);
                assert(!is_digit(digits[i - start]));
            }
            return None;
        }
        let digit: u64 = (c as u32 - '0' as u32) as u64;
        proof {
            let prefix = digits.subrange(0, i - start + 1);
            assert(prefix.drop_last() =~= digits.subrange(0, i - start));
            assert(prefix.last() == c);
        }
        value = value * 10 + digit;
        if value > limit {
            value = limit + 1;
        }
        i += 1;
    }
    assert(digits.subrange(0, digits.len() as int) =~= digits);
    if value > limit {
        None
    } else {
        Some(value)
    }
}

/// Calls `String::from_iter` on a run of characters. Trusted: the text
/// holds these characters, one for one.
#[verifier::external_body]
pub(crate) fn string_from(chars: &Vec<char>) -> (out: String)
    ensures
        out@ == chars@,
{
    String::from_iter(chars.iter())
}

/// Appends the characters of a text.
pub fn push_text(out: &mut Vec<char>, text: &str)
    ensures
        final(out)@ == old(out)@ + text@,
{
    let mut chars = chars_of(text);
    out.append(&mut chars);
}

/// The decimal digits of a number, as characters.
pub open spec fn decimal_text(n: nat) -> Seq<char> {
    crate::ansi::decimal(n).map_values(|digit: u8| digit as char)
}

/// Appends the decimal digits of a number.
pub fn push_decimal_text(out: &mut Vec<char>, n: u64)
    ensures
        final(out)@ == old(out)@ + decimal_text(n as nat),
{
    let mut digits: Vec<u8> = Vec::new();
    crate::ansi::push_decimal(&mut digits, n);
    assert(digits@ =~= crate::ansi::decimal(n as nat));
    let mut i: usize = 0;
    while i < digits.len()
        invariant
            i <= digits.len(),
            digits@ == crate::ansi::decimal(n as nat),
            out@ == old(out)@ + decimal_text(n as nat).subrange(0, i as int),
        decreases digits.len() - i,
    {
        out.push(digits[i] as char);
        i += 1;
        assert(out@ =~= old(out)@ + decimal_text(n as nat).subrange(0, i as int));
    }
    assert(decimal_text(n as nat).subrange(0, digits.len() as int) =~= decimal_text(n as nat));
}

/// The text that `str::to_lowercase` gives.
pub uninterp spec fn lowercase_of(text: Seq<char>) -> Seq<char>;

/// The text that `str::trim` gives.
pub uninterp spec fn trimmed_text(text: Seq<char>) -> Seq<char>;

/// Calls `str::to_lowercase`. Trusted: the result is a function of the text
/// alone.
#[verifier::external_body]
pub(crate) fn lowercase(text: &str) -> (out: String)
    ensures
        out@ == lowercase_of(text@),
{
    text.to_lowercase()
}

/// Calls `str::trim`. Trusted: the result is a function of the text alone.
#[verifier::external_body]
pub(crate) fn trim(text: &str) -> (out: String)
    ensures
        out@ == trimmed_text(text@),
{
    text.trim().to_owned()
}

} // verus!
