//! Field codec for optional values: absence and the format's null both
//! stand for `None`.

use vstd::prelude::*;
use crate::codec::{TextDecode, TextEncode};
use crate::error::ConversionError;
use crate::wrapper::Serde;

verus! {

/// What the host format holds for an optional field.
#[derive(Clone, Debug, PartialEq, Eq)]
pub enum FieldValue {
    /// The field is not there at all.
    Absent,
    /// The field holds the format's "no value".
    Null,
    /// The field holds a string.
    Text(String),
}

/// Reads an optional field: `None` where it is absent or null, otherwise
/// the value its text decodes to.
pub fn deserialize<T: TextDecode>(field: &FieldValue) -> (r: Result<Option<T>, ConversionError>)
    ensures
        match *field {
            FieldValue::Text(text) => match r {
                Ok(Some(v)) => T::decodable(text@) && T::decodes_to(text@, v),
                Ok(None) => false,
                Err(e) => !T::decodable(text@) && e.rejects(text@, T::expecting()),
            },
            _ => r matches Ok(None),
        },
{
    match field {
        FieldValue::Text(text) => match Serde::<T>::decode(text.as_str()) {
            Ok(w) => Ok(Some(w.into_inner())),
            Err(e) => Err(e),
        },
        _ => Ok(None),
    }
}

/// Writes an optional field: `None` (the format's null) for no value,
/// otherwise the value's canonical text.
pub fn serialize<T: TextEncode>(value: &Option<T>) -> (r: Result<Option<String>, ConversionError>)
    ensures
        value matches Some(v) && v.encodable() ==> r matches Ok(Some(_)),
        match *value {
            Some(v) => match r {
                Ok(Some(s)) => v.encoded() == Some(s@),
                Ok(None) => false,
                Err(e) => v.encoded() is None && e is OutOfRange,
            },
            None => r matches Ok(None),
        },
{
    match value {
        Some(v) => match Serde::new(v).encode() {
            Ok(s) => Ok(Some(s)),
            Err(e) => Err(e),
        },
        None => Ok(None),
    }
}

} // verus!
