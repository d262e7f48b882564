use vstd::prelude::*;

use crate::payload::{IntegerValue, PayloadValue, Timestamp};
use plist::Value as Plist;

verus! {

#[verifier::external_type_specification]
#[verifier::external_body]
pub struct ExPlistError(plist::Error);

#[verifier::external_type_specification]
#[verifier::external_body]
pub struct ExPlistValue(plist::Value);

#[verifier::external_type_specification]
#[verifier::external_body]
pub struct ExPlistDate(plist::Date);

/// Why payload bytes could not be decoded into a dictionary.
#[derive(Clone, Copy, Debug, PartialEq, Eq, Structural)]
pub enum DecodeError {
    /// The bytes are not a property list in any of its encodings.
    Malformed,
    /// The property list's top-level value is not a dictionary.
    UnexpectedShape,
}

/// The value that the property list (XML, binary or ASCII) in `b` holds, in the
/// library's own form; `None` where `b` is not a property list.
pub uninterp spec fn property_list_of(b: Seq<u8>) -> Option<PayloadValue>;

/// Converts a value of `plist` into the library's tree, variant by variant. It is
/// the conversion half of [`read_property_list`].
#[verifier::external_body]
fn payload_from_plist(v: Plist) -> PayloadValue {
    match v {
        Plist::String(s) => PayloadValue::String(s),
        Plist::Integer(i) => PayloadValue::Integer(IntegerValue { signed: i.as_signed(), unsigned: i.as_unsigned() }),
        Plist::Boolean(b) => PayloadValue::Boolean(b),
        Plist::Date(d) => PayloadValue::Date(timestamp_from_plist(d)),
        Plist::Data(d) => PayloadValue::Binary(d),
        Plist::Array(a) => PayloadValue::Sequence(a.into_iter().map(payload_from_plist).collect()),
        Plist::Dictionary(d) => PayloadValue::Mapping(d.into_iter().map(|(k, x)| (k, payload_from_plist(x))).collect()),
        Plist::Real(_) => PayloadValue::Real,
        Plist::Uid(u) => PayloadValue::Uid(u.get()),
        _ => PayloadValue::Unknown,
    }
}

/// Converts a date of `plist` into a [`Timestamp`] through `chrono::DateTime<Utc>`.
/// It is part of the conversion done by [`read_property_list`].
#[verifier::external_body]
fn timestamp_from_plist(d: plist::Date) -> Timestamp {
    let t = chrono::DateTime::<chrono::Utc>::from(std::time::SystemTime::from(d));
    Timestamp { secs: t.timestamp(), nanos: t.timestamp_subsec_nanos() }
}

/// Relies on `plist::from_bytes`, which reads a property list in any of its encodings;
/// the value is then converted into the library's own tree.
#[verifier::external_body]
fn read_property_list(b: &[u8]) -> (r: Result<PayloadValue, plist::Error>)
    ensures
        match r {
            Ok(v) => property_list_of(b@) == Some(v),
            Err(_) => property_list_of(b@) is None,
        },
{
    plist::from_bytes::<plist::Value>(b).map(payload_from_plist)
}

/// What decoding gives for a value read from a property list.
pub open spec fn decode_spec(v: Option<PayloadValue>) -> Result<Vec<(String, PayloadValue)>, DecodeError> {
    match v {
        None => Err(DecodeError::Malformed),
        Some(PayloadValue::Mapping(m)) => Ok(m),
        Some(_) => Err(DecodeError::UnexpectedShape),
    }
}

/// Keeps the entries of a top-level dictionary and refuses any other value.
pub fn top_level_entries(v: PayloadValue) -> (r: Result<Vec<(String, PayloadValue)>, DecodeError>)
    ensures
        r == decode_spec(Some(v)),
{
    match v {
        PayloadValue::Mapping(m) => Ok(m),
        _ => Err(DecodeError::UnexpectedShape),
    }
}

/// Decodes payload bytes into the entries of their top-level dictionary.
pub fn decode(bytes: &[u8]) -> (r: Result<Vec<(String, PayloadValue)>, DecodeError>)
    ensures
        r == decode_spec(property_list_of(bytes@)),
{
    match read_property_list(bytes) {
        Ok(v) => top_level_entries(v),
        Err(_) => Err(DecodeError::Malformed),
    }
}

} // verus!
