use vstd::prelude::*;

verus! {

/// What kind of text a decoder was looking for, for diagnostics.
#[derive(Copy, Clone, Debug, PartialEq, Eq, Hash)]
pub enum Expecting {
    Duration,
    Timestamp,
}

impl Expecting {
    /// The phrase that names what was expected.
    pub open spec fn phrase(self) -> Seq<char> {
        match self {
            Expecting::Duration => "a duration"@,
            Expecting::Timestamp => "a timestamp"@,
        }
    }

    /// Returns the phrase that names what was expected.
    pub fn description(&self) -> (r: &'static str)
        ensures
            r@ == self.phrase(),
    {
        match self {
            Expecting::Duration => "a duration",
            Expecting::Timestamp => "a timestamp",
        }
    }
}

/// Why a conversion between a value and its text failed.
#[derive(Clone, Debug, PartialEq, Eq)]
pub enum ConversionError {
    /// The text is not in the grammar of the expected kind of value.
    InvalidValue { text: String, expecting: Expecting },
    /// The value lies outside the range that the text form can express.
    OutOfRange,
}

impl ConversionError {
    /// Holds when `self` reports that `text` is not a valid `expecting`.
    pub open spec fn rejects(self, text: Seq<char>, expecting: Expecting) -> bool {
        match self {
            ConversionError::InvalidValue { text: t, expecting: e } => t@ == text && e == expecting,
            ConversionError::OutOfRange => false,
        }
    }

    /// Builds the error for text that is not a valid `expecting`.
    pub fn invalid(text: &str, expecting: Expecting) -> (r: ConversionError)
        ensures
            r.rejects(text@, expecting),
    {
        ConversionError::InvalidValue { text: text.to_owned(), expecting }
    }
}

} // verus!
