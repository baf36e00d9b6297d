//! What a `utun` device is asked for: its unit, read from the name, and
//! its flags.

use vstd::prelude::*;
use vstd::slice::slice_subrange;
use vstd::string::StringSliceAdditionalSpecFns;
use crate::error::Error;

verus! {

/// The longest name an interface can have.
pub const IFNAMSIZ: usize = 16;

/// The flag of an interface that is up.
pub const IFF_UP: i16 = 0x1;

/// The flag of an interface that is running.
pub const IFF_RUNNING: i16 = 0x40;

/// The bytes every `utun` name starts with.
pub open spec fn utun_prefix() -> Seq<u8> {
    seq![0x75u8, 0x74u8, 0x75u8, 0x6eu8]
}

/// The byte is an ASCII digit.
pub open spec fn is_digit(byte: u8) -> bool {
    0x30 <= byte <= 0x39
}

/// The number that a run of ASCII digits spells.
pub open spec fn decimal_value(digits: Seq<u8>) -> nat
    decreases digits.len(),
{
    if digits.len() == 0 {
        0
    } else {
        decimal_value(digits.drop_last()) * 10 + (digits.last() - 0x30) as nat
    }
}

/// Every byte is an ASCII digit.
pub open spec fn all_digits(digits: Seq<u8>) -> bool {
    forall|i: int| 0 <= i < digits.len() ==> is_digit(#[trigger] digits[i])
}

/// What is left of `text` without a leading plus sign.
pub open spec fn unsigned_part(text: Seq<u8>) -> Seq<u8> {
    if text.len() > 0 && text[0] == 0x2b {
        text.skip(1)
    } else {
        text
    }
}

/// The number under 256 that `text` spells in decimal: one digit or more,
/// after an optional plus sign.
pub open spec fn spec_decimal_u8(text: Seq<u8>) -> Option<u8> {
    let digits = unsigned_part(text);
    if digits.len() > 0 && all_digits(digits) && decimal_value(digits) <= u8::MAX {
        Some(decimal_value(digits) as u8)
    } else {
        None
    }
}

/// The unit of the `utun` device of that name: the number that follows
/// `utun`. A name longer than `IFNAMSIZ` is too long; one that does not
/// start with `utun`, or in which no number under 256 follows, is invalid.
pub open spec fn spec_unit(name: Seq<u8>) -> Result<u8, Error> {
    if name.len() > IFNAMSIZ {
        Err(Error::TunNameTooLong)
    } else if !(name.len() >= 4 && name.take(4) == utun_prefix()) {
        Err(Error::InvalidTunName)
    } else {
        match spec_decimal_u8(name.skip(4)) {
            Some(unit) => Ok(unit),
            None => Err(Error::InvalidTunName),
        }
    }
}

/// The flags of an interface after `value` is applied to `origin`: a
/// value above zero sets its bits, one below zero clears the bits of its
/// opposite.
pub open spec fn spec_flags(origin: i16, value: i16) -> i16 {
    if value < 0 {
        origin & !((-value) as i16)
    } else {
        origin | value
    }
}

/// A growing decimal number stays the value of its digits.
proof fn lemma_decimal_step(digits: Seq<u8>, next: int)
    requires
        0 <= next < digits.len(),
    ensures
        decimal_value(digits.take(next + 1)) == decimal_value(digits.take(next)) * 10 + (digits[next] - 0x30) as nat,
{
    assert(digits.take(next + 1).drop_last() =~= digits.take(next));
}

/// A decimal number only grows with more digits.
proof fn lemma_decimal_grows(digits: Seq<u8>, shorter: int)
    requires
        0 <= shorter <= digits.len(),
        all_digits(digits),
    ensures
        decimal_value(digits.take(shorter)) <= decimal_value(digits),
    decreases digits.len() - shorter,
{
    if shorter == digits.len() {
        assert(digits.take(shorter) =~= digits);
    } else {
        lemma_decimal_step(digits, shorter);
        lemma_decimal_grows(digits, shorter + 1);
    }
}

/// The number under 256 that `text` spells in decimal, if it spells one.
pub fn decimal_u8(text: &[u8]) -> (number: Option<u8>)
    ensures
        number == spec_decimal_u8(text@),
{
    let start: usize = if text.len() > 0 && text[0] == 0x2b {
        1
    } else {
        0
    };
    let digits = slice_subrange(text, start, text.len());
    assert(digits@ =~= unsigned_part(text@));
    if digits.len() == 0 {
        return None;
    }
    let mut value: u16 = 0;
    let mut i: usize = 0;
    while i < digits.len()
        invariant
            i <= digits@.len(),
            digits@ == unsigned_part(text@),
            all_digits(digits@.take(i as int)),
            value == decimal_value(digits@.take(i as int)),
            value <= u8::MAX,
        decreases digits@.len() - i,
    {
        let byte = digits[i];
        if byte < 0x30 || byte > 0x39 {
            assert(!is_digit(digits@[i as int]));
            return None;
        }
        proof {
            lemma_decimal_step(digits@, i as int);
            assert forall|j: int| 0 <= j < i + 1 implies is_digit(#[trigger] digits@.take(i + 1)[j]) by {
                if j < i {
                    assert(digits@.take(i as int)[j] == digits@[j]);
                }
            }
        }
        let next: u16 = value * 10 + (byte - 0x30) as u16;
        if next > 255 {
            proof {
                if all_digits(digits@) {
                    lemma_decimal_grows(digits@, i + 1);
                }
            }
            return None;
        }
        value = next;
        i = i + 1;
    }
    assert(digits@.take(digits@.len() as int) =~= digits@);
    Some(value as u8)
}

/// The unit of the `utun` device of that name.
pub fn unit_of(name: &str) -> (unit: Result<u8, Error>)
    ensures
        unit == spec_unit(name.spec_bytes()),
{
    let bytes = name.as_bytes();
    if bytes.len() > IFNAMSIZ {
        return Err(Error::TunNameTooLong);
    }
    if bytes.len() < 4 || bytes[0] != 0x75 || bytes[1] != 0x74 || bytes[2] != 0x75 || bytes[3] != 0x6e {
        assert(bytes@.len() >= 4 ==> bytes@.take(4)[0] == bytes@[0] && bytes@.take(4)[1] == bytes@[1]
            && bytes@.take(4)[2] == bytes@[2] && bytes@.take(4)[3] == bytes@[3]);
        return Err(Error::InvalidTunName);
    }
    assert(bytes@.take(4) =~= utun_prefix());
    match decimal_u8(slice_subrange(bytes, 4, bytes.len())) {
        Some(unit) => Ok(unit),
        None => Err(Error::InvalidTunName),
    }
}

/// The unit of the device a configuration asks for: that of its name, or
/// the first where no name is set.
pub fn unit_or_first(name: Option<&str>) -> (unit: Result<u8, Error>)
    ensures
        unit == match name {
            Some(name) => spec_unit(name.spec_bytes()),
            None => Ok(0u8),
        },
{
    match name {
        Some(name) => unit_of(name),
        None => Ok(0),
    }
}

/// The flags of an interface after `value` is applied to `origin`.
pub fn merged_flags(origin: i16, value: i16) -> (flags: i16)
    requires
        value > i16::MIN,
    ensures
        flags == spec_flags(origin, value),
{
    if value < 0 {
        origin & !(-value)
    } else {
        origin | value
    }
}

/// The value to apply to an interface's flags to bring it up, or down.
pub fn enabled_flags(enabled: bool) -> (value: i16)
    ensures
        value == if enabled {
            (IFF_UP | IFF_RUNNING) as i16
        } else {
            -IFF_UP as i16
        },
        value > i16::MIN,
{
    if enabled {
        assert(IFF_UP | IFF_RUNNING == 0x41) by (bit_vector);
        IFF_UP | IFF_RUNNING
    } else {
        -IFF_UP
    }
}

} // verus!
