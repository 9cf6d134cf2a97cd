use vstd::prelude::*;
use crate::codec::{TextDecode, TextEncode};
use crate::error::ConversionError;
use crate::wrapper::Serde;

verus! {

/// Reads a required field from its text.
pub fn deserialize<T: TextDecode>(text: &str) -> (r: Result<T, ConversionError>)
    ensures
        match r {
            Ok(v) => T::decodable(text@) && T::decodes_to(text@, v),
            Err(e) => !T::decodable(text@) && e.rejects(text@, T::expecting()),
        },
{
    match Serde::<T>::decode(text) {
        Ok(w) => Ok(w.into_inner()),
        Err(e) => Err(e),
    }
}

/// Writes a required field as its canonical text.
pub fn serialize<T: TextEncode>(value: &T) -> (r: Result<String, ConversionError>)
    ensures
        value.encodable() ==> r is Ok,
        match r {
            Ok(s) => value.encoded() == Some(s@),
            Err(e) => value.encoded() is None && e is OutOfRange,
        },
{
    Serde::new(value).encode()
}

} // verus!
