//! A line mapping for `KEY=VALUE` text with whole-number values: blank lines
//! and lines that start with `#` are skipped, any other line gives the entry
//! from the text before its first `=` to the number after it, and a line
//! without `=` or without a number is an error.

use vstd::prelude::*;
use vstd::string::*;
use crate::error::CacheError;
use crate::error::ErrorKind;
use crate::processor::copy_range;
use crate::processor::find_from;
use crate::processor::first_index;
use crate::processor::LineMapper;
use crate::processor::Mapped;
use crate::processor::EQUALS;
use crate::processor::HASH;

verus! {

/// The byte of the minus sign.
pub const MINUS: u8 = 45;

/// The byte of the plus sign.
pub const PLUS: u8 = 43;

/// Whether a byte is ASCII white space: a space, or one of tab, line feed,
/// vertical tab, form feed and carriage return.
pub open spec fn is_space(b: u8) -> bool {
    b == 32 || (9 <= b && b <= 13)
}

/// Whether a line holds nothing but ASCII white space.
pub open spec fn is_blank(line: Seq<u8>) -> bool {
    forall|i: int| 0 <= i < line.len() ==> is_space(#[trigger] line[i])
}

/// Whether a line is a comment.
pub open spec fn is_comment(line: Seq<u8>) -> bool {
    line.len() > 0 && line[0] == HASH
}

/// Whether a byte is a decimal digit.
pub open spec fn is_digit(b: u8) -> bool {
    48 <= b && b <= 57
}

/// Whether every byte is a decimal digit.
pub open spec fn all_digits(s: Seq<u8>) -> bool {
    forall|i: int| 0 <= i < s.len() ==> is_digit(#[trigger] s[i])
}

/// The number that a run of decimal digits stands for.
pub open spec fn digits_value(s: Seq<u8>) -> int
    decreases s.len(),
{
    if s.len() == 0 {
        0
    } else {
        digits_value(s.drop_last()) * 10 + (s.last() - 48)
    }
}

/// Whether a text starts with a sign.
pub open spec fn has_sign(text: Seq<u8>) -> bool {
    text.len() > 0 && (text[0] == MINUS || text[0] == PLUS)
}

/// The digits of a text: all of it but a sign at its start.
pub open spec fn digits_of(text: Seq<u8>) -> Seq<u8> {
    if has_sign(text) {
        text.subrange(1, text.len() as int)
    } else {
        text
    }
}

/// The number that a text of digits with a sign before it or none stands
/// for, before any limit is put on its size.
pub open spec fn signed_value(text: Seq<u8>) -> int {
    if text.len() > 0 && text[0] == MINUS {
        -digits_value(digits_of(text))
    } else {
        digits_value(digits_of(text))
    }
}

/// The number that a value's bytes stand for: they are a `+`, a `-` or
/// nothing, and then one decimal digit or more and nothing else, and the
/// number fits 32 bits with a sign. Anything else stands for no number.
pub open spec fn value_of(text: Seq<u8>) -> Option<i32> {
    if digits_of(text).len() > 0 && all_digits(digits_of(text)) && i32::MIN <= signed_value(text)
        <= i32::MAX {
        Some(signed_value(text) as i32)
    } else {
        None
    }
}

/// The message for a line without `=`.
pub open spec fn no_separator_message() -> Seq<char> {
    "Failed to parse line: no '=' in it"@
}

/// The message for a line whose value is no number.
pub open spec fn bad_value_message() -> Seq<char> {
    "Failed to parse line: the value is no number"@
}

/// What a key and the number read for it are mapped to.
pub open spec fn entry_of(key: Seq<u8>, value: Option<i32>) -> Mapped<i32> {
    match value {
        Some(number) => Ok(Some((key, number))),
        None => Err(bad_value_message()),
    }
}

/// What a line is mapped to.
pub open spec fn key_value(line: Seq<u8>) -> Mapped<i32> {
    if is_blank(line) || is_comment(line) {
        Ok(None)
    } else {
        let at = first_index(line, EQUALS, 0);
        if 0 <= at < line.len() {
            entry_of(line.subrange(0, at), value_of(line.subrange(at + 1, line.len() as int)))
        } else {
            Err(no_separator_message())
        }
    }
}

/// Whether a line holds nothing but ASCII white space.
pub fn is_blank_line(line: &[u8]) -> (r: bool)
    ensures
        r == is_blank(line@),
{
    let mut i: usize = 0;
    while i < line.len()
        invariant
            i <= line.len(),
            forall|j: int| 0 <= j < i ==> is_space(#[trigger] line@[j]),
        decreases line.len() - i,
    {
        let b: u8 = line[i];
        if !(b == 32 || (9 <= b && b <= 13)) {
            return false;
        }
        i = i + 1;
    }
    true
}

/// The number of the first digits of a run of digits is not below zero and
/// not above the number of the whole run.
pub proof fn lemma_prefix_value_le(s: Seq<u8>, k: int)
    requires
        all_digits(s),
        0 <= k <= s.len(),
    ensures
        0 <= digits_value(s.take(k)) <= digits_value(s),
    decreases s.len(),
{
    if k == s.len() {
        assert(s.take(k) =~= s);
        if s.len() > 0 {
            lemma_prefix_value_le(s.drop_last(), k - 1);
            assert(s.drop_last().take(k - 1) =~= s.drop_last());
        }
    } else {
        lemma_prefix_value_le(s.drop_last(), k);
        assert(s.drop_last().take(k) =~= s.take(k));
    }
}

/// The number that a value's bytes stand for, if they stand for one.
pub fn parse_value(text: &[u8]) -> (r: Option<i32>)
    ensures
        r == value_of(text@),
{
    let n: usize = text.len();
    if n == 0 {
        return None;
    }
    let negative: bool = text[0] == MINUS;
    let start: usize = if text[0] == MINUS || text[0] == PLUS {
        1
    } else {
        0
    };
    let ghost digits = digits_of(text@);
    assert(digits =~= text@.subrange(start as int, n as int));
    if start == n {
        return None;
    }
    let limit: i64 = if negative {
        2147483648
    } else {
        2147483647
    };
    let mut acc: i64 = 0;
    let mut i: usize = start;
    while i < n
        invariant
            start <= i <= n,
            n == text@.len(),
            digits == text@.subrange(start as int, n as int),
            digits == digits_of(text@),
            negative == (text@[0] == MINUS),
            limit == (if negative {
                2147483648i64
            } else {
                2147483647i64
            }),
            all_digits(digits.take(i - start)),
            acc == digits_value(digits.take(i - start)),
            0 <= acc <= limit <= 2147483648,
        decreases n - i,
    {
        let b: u8 = text[i];
        if b < 48 || b > 57 {
            assert(digits[i - start] == b);
            assert(!is_digit(digits[i - start]));
            return None;
        }
        let next: i64 = acc * 10 + (b - 48) as i64;
        proof {
            assert(digits.take(i + 1 - start).drop_last() =~= digits.take(i - start));
            assert(digits.take(i + 1 - start).last() == b);
        }
        if next > limit {
            proof {
                if all_digits(digits) {
                    lemma_prefix_value_le(digits, i + 1 - start);
                    assert(digits_value(digits) > limit);
                }
            }
            return None;
        }
        acc = next;
        i = i + 1;
    }
    proof {
        assert(digits.take(i - start) =~= digits);
    }
    let value: i64 = if negative {
        -acc
    } else {
        acc
    };
    Some(value as i32)
}

/// The entry for `key` and the number read for it, or the error for a value
/// that is no number.
pub fn entry(key: Vec<u8>, value: Option<i32>) -> (r: Result<Option<(Vec<u8>, i32)>, CacheError>)
    ensures
        match value {
            Some(number) => r matches Ok(Some(e)) && e.0 == key && e.1 == number,
            None => r matches Err(e) && e.kind == ErrorKind::Process && e.message@
                == bad_value_message(),
        },
{
    match value {
        Some(number) => Ok(Some((key, number))),
        None => Err(
            CacheError::process(String::from_str("Failed to parse line: the value is no number")),
        ),
    }
}

/// Maps one line.
pub fn parse_line(line: &[u8]) -> (r: Result<Option<(Vec<u8>, i32)>, CacheError>)
    ensures
        match r {
            Ok(None) => key_value(line@) == Mapped::<i32>::Ok(None),
            Ok(Some(e)) => key_value(line@) == Mapped::<i32>::Ok(Some((e.0@, e.1))),
            Err(e) => e.kind == ErrorKind::Process && key_value(line@) == Mapped::<i32>::Err(
                e.message@,
            ),
        },
{
    if is_blank_line(line) || (line.len() > 0 && line[0] == HASH) {
        return Ok(None);
    }
    let at: usize = find_from(line, EQUALS, 0);
    if at >= line.len() {
        return Err(CacheError::process(String::from_str("Failed to parse line: no '=' in it")));
    }
    let key = copy_range(line, 0, at);
    let text = copy_range(line, at + 1, line.len());
    entry(key, parse_value(text.as_slice()))
}

/// The mapping of `KEY=VALUE` lines.
pub struct KeyValueLines;

impl LineMapper<i32> for KeyValueLines {
    open spec fn mapped(&self, line: Seq<u8>) -> Mapped<i32> {
        key_value(line)
    }

    fn map_line(&self, line: &[u8]) -> (r: Result<Option<(Vec<u8>, i32)>, CacheError>) {
        parse_line(line)
    }
}

} // verus!
