//! Checks on what a user types for a zip code or a station code.

use crate::error::Error;
use vstd::prelude::*;
use vstd::string::StringSliceAdditionalSpecFns;

verus! {

/// Whether `byte` is an ASCII decimal digit.
pub open spec fn is_digit(byte: u8) -> bool {
    0x30 <= byte <= 0x39
}

/// The number that the decimal digits `digits` write.
pub open spec fn digits_value(digits: Seq<u8>) -> int
    decreases digits.len(),
{
    if digits.len() == 0 {
        0
    } else {
        digits_value(digits.drop_last()) * 10 + (digits.last() - 0x30)
    }
}

/// Whether `digits` is made of ASCII decimal digits, and of at least one.
pub open spec fn is_number(digits: Seq<u8>) -> bool {
    digits.len() > 0 && forall|i: int| 0 <= i < digits.len() ==> is_digit(#[trigger] digits[i])
}

/// The integer that `text` writes in decimal: one or more digits, with at most
/// one `+` or `-` in front of them. `None` when `text` is not of that form.
pub open spec fn signed_decimal(text: Seq<u8>) -> Option<int> {
    if text.len() > 0 && text[0] == 0x2d {
        if is_number(text.drop_first()) {
            Some(-digits_value(text.drop_first()))
        } else {
            None
        }
    } else if text.len() > 0 && text[0] == 0x2b {
        if is_number(text.drop_first()) {
            Some(digits_value(text.drop_first()))
        } else {
            None
        }
    } else if is_number(text) {
        Some(digits_value(text))
    } else {
        None
    }
}

/// A number written with `len` digits is below the `len`-th power of ten.
proof fn lemma_digits_value_bound(digits: Seq<u8>)
    requires
        digits.len() <= 5,
        forall|i: int| 0 <= i < digits.len() ==> is_digit(digits[i]),
    ensures
        0 <= digits_value(digits) < 100_000,
        digits.len() <= 4 ==> digits_value(digits) < 10_000,
        digits.len() <= 3 ==> digits_value(digits) < 1_000,
        digits.len() <= 2 ==> digits_value(digits) < 100,
        digits.len() <= 1 ==> digits_value(digits) < 10,
        digits.len() == 0 ==> digits_value(digits) == 0,
    decreases digits.len(),
{
    if digits.len() > 0 {
        lemma_digits_value_bound(digits.drop_last());
    }
}

/// The zip code that `arg` writes.
///
/// A zip code is written in exactly five bytes that read as a decimal integer.
/// Anything of another length is refused as not five digits, and five bytes
/// that are no integer are refused as invalid.
pub fn check_zip_code(arg: &str) -> (result: Result<i32, Error>)
    ensures
        match result {
            Ok(zip_code) => arg.spec_bytes().len() == 5 && signed_decimal(arg.spec_bytes())
                == Some(zip_code as int),
            Err(Error::Invalid(message)) => if arg.spec_bytes().len() != 5 {
                message@ == "The zip code provided is not five digits"@
            } else {
                signed_decimal(arg.spec_bytes()) is None && message@
                    == "The zip code provided is invalid"@
            },
            Err(Error::NotFound(_)) => false,
        },
{
    let bytes: &[u8] = arg.as_bytes();
    if bytes.len() != 5 {
        return Err(Error::Invalid("The zip code provided is not five digits".to_owned()));
    }
    let signed: bool = bytes[0] == 0x2b || bytes[0] == 0x2d;
    let first: usize = if signed {
        1
    } else {
        0
    };
    let ghost digits = if signed {
        bytes@.drop_first()
    } else {
        bytes@
    };
    let mut value: i32 = 0;
    let mut i: usize = first;
    while i < 5
        invariant
            bytes@ == arg.spec_bytes(),
            bytes@.len() == 5,
            first <= i <= 5,
            signed == (bytes@[0] == 0x2b || bytes@[0] == 0x2d),
            first == if signed { 1usize } else { 0usize },
            digits == if signed { bytes@.drop_first() } else { bytes@ },
            forall|j: int| 0 <= j < i - first ==> is_digit(digits[j]),
            value == digits_value(digits.take(i - first)),
            0 <= value < 100_000,
            i - first <= 4 ==> value < 10_000,
        decreases 5 - i,
    {
        let byte: u8 = bytes[i];
        if byte < 0x30 || byte > 0x39 {
            proof {
                assert(!is_digit(digits[i - first]));
            }
            return Err(Error::Invalid("The zip code provided is invalid".to_owned()));
        }
        proof {
            assert(digits[i - first] == byte);
            let taken = digits.take(i - first + 1);
            assert(taken.drop_last() == digits.take(i - first));
            assert(taken.last() == byte);
            lemma_digits_value_bound(digits.take(i - first));
        }
        value = value * 10 + (byte - 0x30) as i32;
        i += 1;
        proof {
            lemma_digits_value_bound(digits.take(i - first));
        }
    }
    proof {
        assert(digits.take(5 - first) == digits);
    }
    if signed && bytes[0] == 0x2d {
        Ok(-value)
    } else {
        Ok(value)
    }
}

/// Whether `station` can be the code of a U.S. weather station: four bytes, the
/// first of them a capital `K`.
///
/// Anything of another length is refused as invalid, and four bytes that begin
/// otherwise are refused as not of the U.S.
pub fn check_station_code(station: &str) -> (result: Result<(), Error>)
    ensures
        match result {
            Ok(()) => station.spec_bytes().len() == 4 && station.spec_bytes()[0] == 0x4b,
            Err(Error::Invalid(message)) => if station.spec_bytes().len() != 4 {
                message@ == "The station code provided is invalid"@
            } else {
                station.spec_bytes()[0] != 0x4b && message@
                    == "U.S. station codes only (e.g., KSFO, KJFK)"@
            },
            Err(Error::NotFound(_)) => false,
        },
{
    let bytes: &[u8] = station.as_bytes();
    if bytes.len() == 4 {
        if bytes[0] == 0x4b {
            Ok(())
        } else {
            Err(Error::Invalid("U.S. station codes only (e.g., KSFO, KJFK)".to_owned()))
        }
    } else {
        Err(Error::Invalid("The station code provided is invalid".to_owned()))
    }
}

} // verus!
