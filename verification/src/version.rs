//! The protocol version of the ledger: the major number of the version of the
//! package, read from its text.

use vstd::prelude::*;
use vstd::string::StringSliceAdditionalSpecFns;
use crate::contract::SubscriptionContract;

verus! {

/// The byte `.`, which parts the components of a version.
pub const FULL_STOP: u8 = 0x2e;

/// The byte `+`, which may stand before a number.
pub const PLUS: u8 = 0x2b;

/// The byte `0`.
pub const ZERO: u8 = 0x30;

/// Whether `byte` is one of `0` to `9`.
pub open spec fn is_digit(byte: u8) -> bool {
    ZERO <= byte <= ZERO + 9
}

/// What the digit `byte` counts for; nothing, if it is no digit.
pub open spec fn digit_value(byte: u8) -> nat {
    if is_digit(byte) {
        (byte - ZERO) as nat
    } else {
        0
    }
}

/// The part of `text` before its first full stop; all of it, if it has none.
pub open spec fn first_component(text: Seq<u8>) -> Seq<u8>
    decreases text.len(),
{
    if text.len() == 0 || text[0] == FULL_STOP {
        Seq::empty()
    } else {
        seq![text[0]] + first_component(text.skip(1))
    }
}

/// The number that the decimal digits `digits` write.
pub open spec fn decimal_value(digits: Seq<u8>) -> nat
    decreases digits.len(),
{
    if digits.len() == 0 {
        0
    } else {
        10 * decimal_value(digits.drop_last()) + digit_value(digits.last())
    }
}

/// The number that `digits` write in 32 bits: one or more decimal digits that
/// come to no more than `u32::MAX`.
pub open spec fn unsigned_u32(digits: Seq<u8>) -> Option<u32> {
    if digits.len() > 0 && (forall|i: int| 0 <= i < digits.len() ==> is_digit(#[trigger] digits[i]))
        && decimal_value(digits) <= u32::MAX {
        Some(decimal_value(digits) as u32)
    } else {
        None
    }
}

/// The number that `text` writes in 32 bits; a `+` may precede its digits.
pub open spec fn decimal_u32(text: Seq<u8>) -> Option<u32> {
    if text.len() > 0 && text[0] == PLUS {
        unsigned_u32(text.skip(1))
    } else {
        unsigned_u32(text)
    }
}

/// The major number of the version that `text` writes, if its first component
/// is a number of 32 bits.
pub open spec fn major_version(text: Seq<u8>) -> Option<u32> {
    decimal_u32(first_component(text))
}

/// The first component of a text ends at the first full stop.
proof fn lemma_first_component_ends(text: Seq<u8>, end: int)
    requires
        0 <= end <= text.len(),
        forall|i: int| 0 <= i < end ==> text[i] != FULL_STOP,
        end < text.len() ==> text[end] == FULL_STOP,
    ensures
        first_component(text) == text.take(end),
    decreases end,
{
    if end == 0 {
        assert(text.take(0) =~= Seq::<u8>::empty());
    } else {
        let rest = text.skip(1);
        assert forall|i: int| 0 <= i < end - 1 implies rest[i] != FULL_STOP by {
            assert(rest[i] == text[i + 1]);
        }
        lemma_first_component_ends(rest, end - 1);
        assert(seq![text[0]] + rest.take(end - 1) =~= text.take(end));
    }
}

/// Digits written after a number make it no smaller.
proof fn lemma_decimal_value_grows(digits: Seq<u8>, shorter: int)
    requires
        0 <= shorter <= digits.len(),
    ensures
        decimal_value(digits.take(shorter)) <= decimal_value(digits),
    decreases digits.len() - shorter,
{
    if shorter == digits.len() {
        assert(digits.take(shorter) =~= digits);
    } else {
        lemma_decimal_value_grows(digits.drop_last(), shorter);
        assert(digits.drop_last().take(shorter) =~= digits.take(shorter));
    }
}

/// Reads the major number of a version from the bytes of its text.
pub fn parse_major(text: &[u8]) -> (major: Option<u32>)
    ensures
        major == major_version(text@),
{
    let mut end: usize = 0;
    while end < text.len() && text[end] != FULL_STOP
        invariant
            end <= text.len(),
            forall|i: int| 0 <= i < end ==> text@[i] != FULL_STOP,
        decreases text.len() - end,
    {
        end = end + 1;
    }
    proof {
        lemma_first_component_ends(text@, end as int);
    }
    let start: usize = if end > 0 && text[0] == PLUS {
        1
    } else {
        0
    };
    let ghost digits = text@.subrange(start as int, end as int);
    assert(digits =~= if start == 1 {
        text@.take(end as int).skip(1)
    } else {
        text@.take(end as int)
    });
    if start == end {
        return None;
    }
    let mut value: u64 = 0;
    let mut i: usize = start;
    while i < end
        invariant
            start <= i <= end <= text.len(),
            digits == text@.subrange(start as int, end as int),
            major_version(text@) == unsigned_u32(digits),
            forall|j: int| 0 <= j < i - start ==> is_digit(#[trigger] digits[j]),
            value == decimal_value(digits.take(i - start)),
            value <= u32::MAX,
        decreases end - i,
    {
        let byte = text[i];
        assert(digits[i - start] == byte);
        if byte < ZERO || byte > ZERO + 9 {
            assert(!is_digit(digits[i - start]));
            return None;
        }
        assert(digits.take(i - start + 1).drop_last() =~= digits.take(i - start));
        value = 10 * value + (byte - ZERO) as u64;
        if value > u32::MAX as u64 {
            proof {
                lemma_decimal_value_grows(digits, i - start + 1);
            }
            return None;
        }
        i = i + 1;
    }
    assert(digits.take(end - start) =~= digits);
    Some(value as u32)
}

impl SubscriptionContract {
    /// The protocol version of the ledger: the major number of
    /// `package_version`, the version of the package as text.
    pub fn version(package_version: &str) -> (major: Option<u32>)
        ensures
            major == major_version(package_version.spec_bytes()),
    {
        parse_major(package_version.as_bytes())
    }
}

} // verus!
