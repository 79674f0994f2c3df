//! Reading the API version that a driver reports.
//!
//! The driver reports a text that starts with the major version, a dot and
//! the minor version; a second dot and anything at all may follow. Each of
//! the two numbers is written in decimal digits, with an optional plus sign
//! in front, and has to fit in eight bits.

use vstd::prelude::*;
use crate::context::ContextDescriptor;
use crate::device::Device;
use crate::types::GLVersion;

verus! {

/// The byte that separates the parts of a version.
pub const DOT: u8 = 0x2e;

/// The sign that may stand in front of a number.
pub const PLUS: u8 = 0x2b;

/// The digit zero; the other digits follow it.
pub const ZERO: u8 = 0x30;

pub open spec fn is_digit(byte: u8) -> bool {
    ZERO <= byte <= ZERO + 9
}

/// The value of a run of decimal digits.
pub open spec fn decimal(digits: Seq<u8>) -> nat
    decreases digits.len(),
{
    if digits.len() == 0 {
        0
    } else {
        decimal(digits.drop_last()) * 10 + (digits.last() - ZERO) as nat
    }
}

/// The digits of a number: what follows the sign, or all of it.
pub open spec fn digits_of(text: Seq<u8>) -> Seq<u8> {
    if text.len() > 0 && text[0] == PLUS {
        text.skip(1)
    } else {
        text
    }
}

/// The number that `text` spells, if it spells one that fits in eight bits.
pub open spec fn number_spec(text: Seq<u8>) -> Option<u8> {
    let digits = digits_of(text);
    if digits.len() > 0 && (forall|k: int| 0 <= k < digits.len() ==> is_digit(#[trigger] digits[k]))
        && decimal(digits) <= u8::MAX {
        Some(decimal(digits) as u8)
    } else {
        None
    }
}

/// The position of the first dot at or after `from`, or the length of the
/// text if none follows.
pub open spec fn part_end(text: Seq<u8>, from: int) -> int
    decreases text.len() - from,
{
    if from < 0 || from >= text.len() {
        text.len() as int
    } else if text[from] == DOT {
        from
    } else {
        part_end(text, from + 1)
    }
}

/// The version that `text` starts with, if it starts with one.
pub open spec fn version_spec(text: Seq<u8>) -> Option<GLVersion> {
    let major_end = part_end(text, 0);
    if major_end >= text.len() {
        // No dot, so no minor version.
        None
    } else {
        let minor_end = part_end(text, major_end + 1);
        match (
            number_spec(text.subrange(0, major_end)),
            number_spec(text.subrange(major_end + 1, minor_end)),
        ) {
            (Some(major), Some(minor)) => Some(GLVersion { major, minor }),
            _ => None,
        }
    }
}

/// A longer run of digits has no smaller value than any of its prefixes.
proof fn lemma_decimal_grows(digits: Seq<u8>, n: int)
    requires
        0 <= n <= digits.len(),
        forall|k: int| 0 <= k < digits.len() ==> is_digit(#[trigger] digits[k]),
    ensures
        decimal(digits.take(n)) <= decimal(digits),
    decreases digits.len() - n,
{
    if n == digits.len() {
        assert(digits.take(n) =~= digits);
    } else {
        lemma_decimal_grows(digits, n + 1);
        let longer = digits.take(n + 1);
        assert(longer.drop_last() =~= digits.take(n));
        assert(is_digit(digits[n]));
        assert(longer.last() == digits[n]);
    }
}

/// Finds the end of the part that starts at `from`.
fn find_part_end(text: &[u8], from: usize) -> (end: usize)
    requires
        from <= text@.len(),
    ensures
        end == part_end(text@, from as int),
        from <= end <= text@.len(),
{
    let mut at: usize = from;
    while at < text.len() && text[at] != DOT
        invariant
            from <= at <= text@.len(),
            part_end(text@, from as int) == part_end(text@, at as int),
        decreases text@.len() - at,
    {
        at += 1;
    }
    at
}

/// Reads the number that `text[from..to]` spells.
fn parse_number(text: &[u8], from: usize, to: usize) -> (number: Option<u8>)
    requires
        from <= to <= text@.len(),
    ensures
        number == number_spec(text@.subrange(from as int, to as int)),
{
    let ghost part = text@.subrange(from as int, to as int);
    let start: usize = if from < to && text[from] == PLUS { from + 1 } else { from };
    let ghost digits = digits_of(part);
    assert(digits =~= text@.subrange(start as int, to as int));
    if start == to {
        return None;
    }
    let mut value: u32 = 0;
    let mut at: usize = start;
    while at < to
        invariant
            start <= at <= to <= text@.len(),
            digits == text@.subrange(start as int, to as int),
            digits == digits_of(text@.subrange(from as int, to as int)),
            digits.len() > 0,
            forall|k: int| 0 <= k < at - start ==> is_digit(#[trigger] digits[k]),
            value == decimal(digits.take(at - start)),
            value <= u8::MAX,
        decreases to - at,
    {
        let byte = text[at];
        if byte < ZERO || byte > ZERO + 9 {
            assert(!is_digit(digits[at - start]));
            return None;
        }
        let ghost longer = digits.take(at - start + 1);
        assert(longer.drop_last() =~= digits.take(at - start));
        assert(longer.last() == byte);
        value = value * 10 + (byte - ZERO) as u32;
        if value > 255 {
            proof {
                if forall|k: int| 0 <= k < digits.len() ==> is_digit(#[trigger] digits[k]) {
                    lemma_decimal_grows(digits, at - start + 1);
                }
            }
            return None;
        }
        at += 1;
    }
    assert(digits.take(at - start) =~= digits);
    Some(value as u8)
}

/// Reads the version that a driver's version text starts with.
///
/// Returns nothing if the text has no dot, or if what stands before the
/// first dot, or between it and the second dot or the end, is not a number
/// of at most 255.
pub fn parse_gl_version(text: &[u8]) -> (version: Option<GLVersion>)
    ensures
        version == version_spec(text@),
{
    let major_end = find_part_end(text, 0);
    if major_end >= text.len() {
        return None;
    }
    let minor_end = find_part_end(text, major_end + 1);
    let major = parse_number(text, 0, major_end);
    let minor = parse_number(text, major_end + 1, minor_end);
    match (major, minor) {
        (Some(major), Some(minor)) => Some(GLVersion::new(major, minor)),
        _ => None,
    }
}

impl Device {
    /// Describes an existing context by the pixel format of its drawable
    /// and by the version text that the context reports while it is
    /// current.
    ///
    /// The text must start with a version; [`parse_gl_version`] tells
    /// whether it does.
    pub fn context_descriptor(&self, pixel_format: i32, version_text: &[u8]) -> (descriptor:
        ContextDescriptor)
        requires
            version_spec(version_text@) is Some,
        ensures
            descriptor.pixel_format == pixel_format,
            Some(descriptor.gl_version) == version_spec(version_text@),
    {
        let gl_version = parse_gl_version(version_text).unwrap();
        ContextDescriptor { pixel_format, gl_version }
    }
}

} // verus!
