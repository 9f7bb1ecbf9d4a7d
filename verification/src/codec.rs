//! Format-aware dispatch for the two scalar codecs. A caller-supplied flag
//! says whether the transport is human-readable (text) or binary, and the
//! raw wire value is a tagged union over the shapes a field can arrive in:
//! a string, a byte buffer, or an integer. Encoding picks the shape from
//! the flag; decoding probes the shape of the value itself, except that a
//! binary transport never carries a textual timestamp.

use vstd::prelude::*;

use crate::datetime::is_valid_rfc3339;
use crate::datetime::rfc3339_format;
use crate::datetime::spec_instant;
use crate::datetime::spec_nanos;
use crate::datetime::timestamp_from_epoch_seconds;
use crate::datetime::timestamp_from_epoch_seconds_unsigned;
use crate::datetime::timestamp_from_string;
use crate::datetime::timestamp_to_rfc3339;
use crate::datetime::Timestamp;
use crate::calendar::MAX_EPOCH_SECONDS;
use crate::calendar::MIN_EPOCH_SECONDS;
use crate::error::MalformedInput;
use crate::oid::all_hex_digits;
use crate::oid::bytes_to_hex_lower;
use crate::oid::first_non_hex;
use crate::oid::hex_to_bytes;
use crate::oid::identifier_from_bytes;
use crate::oid::identifier_from_hex;
use crate::oid::identifier_to_bytes;
use crate::oid::identifier_to_hex;
use crate::oid::Oid;
use crate::oid::OID_HEX_LEN;
use crate::oid::OID_LEN;

verus! {

/// Whether a transport's native representation is text (JSON and friends)
/// or binary. The same logical value is encoded differently for each.
#[derive(Debug, Clone, Copy, PartialEq, Eq, Hash, Structural)]
pub enum TransportFormat {
    HumanReadable,
    Binary,
}

/// A raw scalar as it arrives from or leaves for the wire: the shapes a
/// schema field can take before a codec gives it meaning.
#[derive(Debug, Clone, PartialEq, Eq)]
pub enum RawScalar {
    Text(String),
    Bytes(Vec<u8>),
    Int(i64),
    UInt(u64),
}

/// Decodes an identifier from whatever shape the wire supplied: a
/// 40-character hex string or a raw 20-byte buffer; an integer is never a
/// valid identifier shape. Both wire forms decode to the same 20 bytes.
pub fn identifier_decode(raw: &RawScalar) -> (r: Result<Oid, MalformedInput>)
    ensures
        raw matches RawScalar::Text(s) ==> {
            &&& (r is Ok <==> s@.len() == OID_HEX_LEN && all_hex_digits(s@))
            &&& (r matches Ok(o) ==> o@ == hex_to_bytes(s@))
            &&& (s@.len() % 2 != 0 ==> r == Err::<Oid, MalformedInput>(
                MalformedInput::OddLength { found: s@.len() as usize },
            ))
            &&& (s@.len() % 2 == 0 && s@.len() != OID_HEX_LEN ==> r == Err::<Oid, MalformedInput>(
                MalformedInput::InvalidLength { found: s@.len() as usize, expected: OID_HEX_LEN },
            ))
            &&& (s@.len() == OID_HEX_LEN && !all_hex_digits(s@) ==> r == Err::<Oid, MalformedInput>(
                MalformedInput::InvalidCharacter { character: s@[first_non_hex(s@)] },
            ))
        },
        raw matches RawScalar::Bytes(b) ==> {
            &&& (r is Ok <==> b@.len() == OID_LEN)
            &&& (r matches Ok(o) ==> o@ == b@)
            &&& (b@.len() != OID_LEN ==> r == Err::<Oid, MalformedInput>(
                MalformedInput::InvalidLength { found: b@.len() as usize, expected: OID_LEN },
            ))
        },
        raw is Int || raw is UInt ==> r == Err::<Oid, MalformedInput>(
            MalformedInput::UnexpectedShape,
        ),
{
    match raw {
        RawScalar::Text(s) => identifier_from_hex(s.as_str()),
        RawScalar::Bytes(b) => identifier_from_bytes(b.as_slice()),
        RawScalar::Int(_) => Err(MalformedInput::UnexpectedShape),
        RawScalar::UInt(_) => Err(MalformedInput::UnexpectedShape),
    }
}

/// Encodes an identifier for the given transport: 40 lowercase hex
/// characters on a human-readable transport, the raw 20 bytes on a binary
/// one.
pub fn identifier_encode(format: TransportFormat, oid: &Oid) -> (r: RawScalar)
    ensures
        format is HumanReadable ==> (r matches RawScalar::Text(s) && s@ == bytes_to_hex_lower(
            oid@,
        )),
        format is Binary ==> (r matches RawScalar::Bytes(b) && b@ == oid@),
{
    match format {
        TransportFormat::HumanReadable => RawScalar::Text(identifier_to_hex(oid)),
        TransportFormat::Binary => RawScalar::Bytes(identifier_to_bytes(oid)),
    }
}

/// Decodes a timestamp. On a human-readable transport the field may still
/// arrive as either a string or an integer, so both shapes are probed; a
/// binary transport always supplies an integer. A byte buffer is never a
/// valid timestamp shape.
pub fn timestamp_decode(format: TransportFormat, raw: &RawScalar) -> (r: Result<
    Timestamp,
    MalformedInput,
>)
    ensures
        raw matches RawScalar::Text(s) ==> (format is HumanReadable ==> {
            &&& (r is Ok <==> is_valid_rfc3339(s@))
            &&& (r matches Ok(t) ==> t.sec() == spec_instant(s@) && t.nsec() == spec_nanos(s@))
            &&& (r is Err ==> r == Err::<Timestamp, MalformedInput>(MalformedInput::InvalidDateTime))
        }),
        raw is Text && format is Binary ==> r == Err::<Timestamp, MalformedInput>(
            MalformedInput::UnexpectedShape,
        ),
        raw matches RawScalar::Int(secs) ==> {
            &&& (r is Ok <==> MIN_EPOCH_SECONDS <= *secs <= MAX_EPOCH_SECONDS)
            &&& (r matches Ok(t) ==> t.sec() == *secs && t.nsec() == 0)
            &&& (!(MIN_EPOCH_SECONDS <= *secs <= MAX_EPOCH_SECONDS) ==> r == Err::<
                Timestamp,
                MalformedInput,
            >(MalformedInput::InvalidInstant { seconds: *secs }))
        },
        raw matches RawScalar::UInt(secs) ==> {
            &&& (r is Ok <==> *secs <= MAX_EPOCH_SECONDS as u64)
            &&& (r matches Ok(t) ==> t.sec() == *secs && t.nsec() == 0)
            &&& (*secs > MAX_EPOCH_SECONDS as u64 ==> r == Err::<Timestamp, MalformedInput>(
                MalformedInput::InvalidInstant {
                    seconds: if *secs <= i64::MAX as u64 {
                        *secs as i64
                    } else {
                        i64::MAX
                    },
                },
            ))
        },
        raw is Bytes ==> r == Err::<Timestamp, MalformedInput>(MalformedInput::UnexpectedShape),
{
    match raw {
        RawScalar::Text(s) => match format {
            TransportFormat::HumanReadable => timestamp_from_string(s.as_str()),
            TransportFormat::Binary => Err(MalformedInput::UnexpectedShape),
        },
        RawScalar::Int(secs) => timestamp_from_epoch_seconds(*secs),
        RawScalar::UInt(secs) => timestamp_from_epoch_seconds_unsigned(*secs),
        RawScalar::Bytes(_) => Err(MalformedInput::UnexpectedShape),
    }
}

/// Encodes a timestamp: always the RFC 3339 string form, whatever the
/// transport, and whichever form it was decoded from.
pub fn timestamp_encode(ts: &Timestamp) -> (r: RawScalar)
    ensures
        r matches RawScalar::Text(s) ==> s@ == rfc3339_format(ts.sec(), ts.nsec()),
        r is Text,
{
    RawScalar::Text(timestamp_to_rfc3339(ts))
}

} // verus!
