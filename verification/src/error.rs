//! The single error kind shared by the identifier and timestamp codecs.

use vstd::prelude::*;

use crate::render::char_to_string;
use crate::render::decimal_seq;
use crate::render::u64_to_decimal;

verus! {

/// Raised when decoding an identifier or a timestamp fails because the input
/// has an invalid shape, length, or character. Conversions are pure, so a
/// failed decode indicates wire corruption or a schema mismatch; callers are
/// expected to propagate the error rather than substitute a default value.
#[derive(Debug, Clone, Copy, PartialEq, Eq)]
pub enum MalformedInput {
    /// The input's length differs from what the codec expects; carries the
    /// offending length and the expected one.
    InvalidLength { found: usize, expected: usize },
    /// A hexadecimal string has an odd number of characters.
    OddLength { found: usize },
    /// A character that is not a hexadecimal digit was encountered; carries
    /// the first such character.
    InvalidCharacter { character: char },
    /// An epoch-seconds value that lies outside the representable range of
    /// instants; carries the offending value.
    InvalidInstant { seconds: i64 },
    /// A date-time string that does not follow the RFC 3339 grammar, or that
    /// denotes an instant outside the representable range.
    InvalidDateTime,
    /// The raw wire value has a shape (string, bytes, or integer) that the
    /// codec does not accept for this field and transport.
    UnexpectedShape,
}

/// The decimal digit string of an integer, with a sign when negative.
pub open spec fn signed_decimal_seq(n: int) -> Seq<char> {
    if n < 0 {
        "-"@ + decimal_seq(-n)
    } else {
        decimal_seq(n)
    }
}

impl MalformedInput {
    /// The human-readable diagnostic the error stands for.
    pub open spec fn message_spec(self) -> Seq<char> {
        match self {
            MalformedInput::InvalidLength { found, expected } => "invalid length "@ + decimal_seq(
                found as int,
            ) + ", expected "@ + decimal_seq(expected as int),
            MalformedInput::OddLength { found } => "odd number of hexadecimal digits: "@
                + decimal_seq(found as int),
            MalformedInput::InvalidCharacter { character } => "invalid hexadecimal character: "@
                + seq![character],
            MalformedInput::InvalidInstant { seconds } => "seconds outside the representable instants: "@
                + signed_decimal_seq(seconds as int),
            MalformedInput::InvalidDateTime => "malformed RFC 3339 date-time string"@,
            MalformedInput::UnexpectedShape => "unexpected shape of a raw wire value"@,
        }
    }

    /// Renders the human-readable diagnostic the error stands for.
    pub fn message(&self) -> (r: String)
        ensures
            r@ == self.message_spec(),
    {
        match self {
            MalformedInput::InvalidLength { found, expected } => String::from_str(
                "invalid length ",
            ).concat(u64_to_decimal(*found as u64).as_str()).concat(", expected ").concat(
                u64_to_decimal(*expected as u64).as_str(),
            ),
            MalformedInput::OddLength { found } => String::from_str(
                "odd number of hexadecimal digits: ",
            ).concat(u64_to_decimal(*found as u64).as_str()),
            MalformedInput::InvalidCharacter { character } => String::from_str(
                "invalid hexadecimal character: ",
            ).concat(char_to_string(*character).as_str()),
            MalformedInput::InvalidInstant { seconds } => {
                let magnitude: u64 = if *seconds < 0 {
                    ((-1 - *seconds) as u64) + 1
                } else {
                    *seconds as u64
                };
                let digits = u64_to_decimal(magnitude);
                let prefix = String::from_str("seconds outside the representable instants: ");
                if *seconds < 0 {
                    prefix.concat("-").concat(digits.as_str())
                } else {
                    prefix.concat(digits.as_str())
                }
            },
            MalformedInput::InvalidDateTime => String::from_str(
                "malformed RFC 3339 date-time string",
            ),
            MalformedInput::UnexpectedShape => String::from_str(
                "unexpected shape of a raw wire value",
            ),
        }
    }
}

} // verus!
