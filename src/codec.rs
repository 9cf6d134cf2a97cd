use vstd::prelude::*;
use crate::error::{ConversionError, Expecting};

verus! {

/// A type whose values have a canonical human-readable text.
pub trait TextEncode {
    /// The canonical text of the value, or `None` where the text form cannot
    /// express it.
    spec fn encoded(&self) -> Option<Seq<char>>;

    /// Holds of the values whose text form is sure to exist.
    spec fn encodable(&self) -> bool;

    /// Renders the value as its canonical text.
    fn encode(&self) -> (r: Result<String, ConversionError>)
        ensures
            self.encodable() ==> r is Ok,
            match r {
                Ok(s) => self.encoded() == Some(s@),
                Err(e) => self.encoded() is None && e is OutOfRange,
            },
    ;
}

/// A type whose values can be read from human-readable text.
pub trait TextDecode: Sized {
    /// What a decoder of this type reports it was looking for.
    spec fn expecting() -> Expecting;

    /// Holds when `text` is in the grammar of this type.
    spec fn decodable(text: Seq<char>) -> bool;

    /// Holds when `value` is what `text` decodes to.
    spec fn decodes_to(text: Seq<char>, value: Self) -> bool;

    /// Returns what a decoder of this type reports it was looking for.
    fn expected() -> (r: Expecting)
        ensures
            r == Self::expecting(),
    ;

    /// Parses `text`.
    fn decode(text: &str) -> (r: Result<Self, ConversionError>)
        ensures
            match r {
                Ok(v) => Self::decodable(text@) && Self::decodes_to(text@, v),
                Err(e) => !Self::decodable(text@) && e.rejects(text@, Self::expecting()),
            },
    ;
}

/// A borrowed value has the text of the value it borrows.
impl<'a, T: TextEncode> TextEncode for &'a T {
    open spec fn encoded(&self) -> Option<Seq<char>> {
        (**self).encoded()
    }

    open spec fn encodable(&self) -> bool {
        (**self).encodable()
    }

    fn encode(&self) -> (r: Result<String, ConversionError>) {
        (**self).encode()
    }
}

} // verus!
