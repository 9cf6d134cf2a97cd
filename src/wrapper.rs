use vstd::prelude::*;
use crate::codec::{TextDecode, TextEncode};
use crate::error::ConversionError;

verus! {

/// A carrier that owns (or borrows) a value so that the text codec of its
/// type can be picked by the type alone.
#[derive(Copy, Clone, PartialEq, Eq, Hash)]
pub struct Serde<T>(T);

impl<T> Serde<T> {
    /// The carried value.
    pub closed spec fn inner(self) -> T {
        self.0
    }

    /// The wrapper around `value`.
    pub closed spec fn wrapped(value: T) -> Serde<T> {
        Serde(value)
    }

    /// Wraps a value.
    pub fn new(value: T) -> (r: Serde<T>)
        ensures
            r == Serde::wrapped(value),
            r.inner() == value,
    {
        Serde(value)
    }

    /// Borrows the carried value.
    pub fn get(&self) -> (r: &T)
        ensures
            *r == self.inner(),
    {
        &self.0
    }

    /// Borrows the carried value mutably; what is written through the borrow
    /// becomes the carried value.
    pub fn get_mut(&mut self) -> (r: &mut T)
        ensures
            *r == old(self).inner(),
            final(self).inner() == *final(r),
    {
        &mut self.0
    }

    /// Consumes the wrapper, returning the carried value.
    pub fn into_inner(self) -> (r: T)
        ensures
            r == self.inner(),
    {
        self.0
    }
}

impl<T> From<T> for Serde<T> {
    fn from(value: T) -> (r: Serde<T>) {
        Serde(value)
    }
}

impl<T: TextDecode> Serde<T> {
    /// Parses `text` into a wrapped value.
    pub fn decode(text: &str) -> (r: Result<Serde<T>, ConversionError>)
        ensures
            match r {
                Ok(w) => T::decodable(text@) && T::decodes_to(text@, w.inner()),
                Err(e) => !T::decodable(text@) && e.rejects(text@, T::expecting()),
            },
    {
        match T::decode(text) {
            Ok(v) => Ok(Serde(v)),
            Err(e) => Err(e),
        }
    }
}

impl<T: TextEncode> Serde<T> {
    /// Renders the carried value, owned or borrowed, as its canonical text.
    pub fn encode(&self) -> (r: Result<String, ConversionError>)
        ensures
            self.inner().encodable() ==> r is Ok,
            match r {
                Ok(s) => self.inner().encoded() == Some(s@),
                Err(e) => self.inner().encoded() is None && e is OutOfRange,
            },
    {
        self.0.encode()
    }
}

/// Unwrapping a wrapped value gives the value back.
pub proof fn lemma_unwrap_wrapped<T>(value: T)
    ensures
        Serde::wrapped(value).inner() == value,
{
}

/// A value and a borrow of it, each wrapped, have the same text.
pub proof fn lemma_borrowed_encodes_alike<T: TextEncode>(value: T)
    ensures
        Serde::wrapped(&value).inner().encoded() == Serde::wrapped(value).inner().encoded(),
{
}

impl<T> vstd::std_specs::convert::FromSpecImpl<T> for Serde<T> {
    open spec fn obeys_from_spec() -> bool {
        true
    }

    open spec fn from_spec(value: T) -> Serde<T> {
        Serde::wrapped(value)
    }
}

} // verus!
