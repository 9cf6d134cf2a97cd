use vstd::prelude::*;
use crate::codec::{TextDecode, TextEncode};
use crate::duration::NANOS_PER_SEC;
use crate::error::{ConversionError, Expecting};

verus! {

/// The earliest second chrono can hold: -262143-01-01T00:00:00 UTC, in
/// seconds since the Unix epoch.
pub const MIN_TIMESTAMP_SECS: i64 = -8_334_601_228_800;

/// The last second chrono can hold: 262142-12-31T23:59:59 UTC, in seconds
/// since the Unix epoch.
pub const MAX_TIMESTAMP_SECS: i64 = 8_210_266_876_799;

/// Offsets from UTC lie strictly within one day.
pub const MAX_OFFSET_SECS: i32 = 86_399;

/// Holds of the seconds since the Unix epoch that chrono can hold.
pub open spec fn secs_in_range(secs: int) -> bool {
    MIN_TIMESTAMP_SECS <= secs <= MAX_TIMESTAMP_SECS
}

/// Holds of the offsets from UTC that chrono accepts.
pub open spec fn offset_in_range(offset: int) -> bool {
    -MAX_OFFSET_SECS <= offset <= MAX_OFFSET_SECS
}

/// Holds when chrono could build the instant and the offset but the local
/// time they give would fall outside its range.
pub open spec fn local_overflows(secs: int, offset: int) -> bool {
    secs_in_range(secs) && offset_in_range(offset) && !secs_in_range(secs + offset)
}

/// What chrono's RFC 3339 parser makes of a text: seconds since the Unix
/// epoch, the nanoseconds beyond them, and the offset from UTC in seconds;
/// `None` where the text is rejected.
pub uninterp spec fn rfc3339_parsed(text: Seq<char>) -> Option<(i64, u32, i32)>;

/// The RFC 3339 text, to whole seconds and with `Z` for a zero offset, that
/// chrono writes for an instant shown at an offset from UTC; `None` where
/// chrono cannot build the instant or the offset.
pub uninterp spec fn rfc3339_text(secs: i64, nanos: u32, offset: i32) -> Option<Seq<char>>;

/// Relies on `chrono::DateTime::parse_from_rfc3339`: its outcome depends on
/// the text alone. The parts are read with `timestamp`,
/// `timestamp_subsec_nanos` and `FixedOffset::local_minus_utc`.
#[verifier::external_body]
fn parse_rfc3339_text(text: &str) -> (r: Option<(i64, u32, i32)>)
    ensures
        r == rfc3339_parsed(text@),
{
    match chrono::DateTime::parse_from_rfc3339(text) {
        Ok(t) => Some((t.timestamp(), t.timestamp_subsec_nanos(), t.offset().local_minus_utc())),
        Err(_) => None,
    }
}

/// Relies on `chrono::DateTime::to_rfc3339_opts` with `SecondsFormat::Secs`
/// and `use_z`: the text depends on the instant and the offset alone. The
/// value is built with `DateTime::from_timestamp` and `FixedOffset::east_opt`,
/// whose `None` (out of range) is passed on; both succeed for seconds in
/// chrono's range, nanoseconds below one second and an offset within a day.
/// `to_rfc3339_opts` panics in `naive_local` when the offset pushes the local
/// time out of chrono's range, which `requires` leaves out.
#[verifier::external_body]
fn format_rfc3339_text(secs: i64, nanos: u32, offset: i32) -> (r: Option<String>)
    requires
        !local_overflows(secs as int, offset as int),
    ensures
        secs_in_range(secs as int) && nanos < NANOS_PER_SEC && offset_in_range(offset as int)
            ==> r is Some,
        match r {
            Some(s) => rfc3339_text(secs, nanos, offset) == Some(s@),
            None => rfc3339_text(secs, nanos, offset) is None,
        },
{
    match (chrono::DateTime::from_timestamp(secs, nanos), chrono::FixedOffset::east_opt(offset)) {
        (Some(t), Some(o)) => Some(
            t.with_timezone(&o).to_rfc3339_opts(chrono::SecondsFormat::Secs, true),
        ),
        _ => None,
    }
}

/// An instant, reported in UTC: seconds since the Unix epoch and the
/// nanoseconds beyond them (a leap second shows as nanoseconds of a second
/// or more).
#[derive(Copy, Clone, Debug, PartialEq, Eq, Hash)]
pub struct UtcTimestamp {
    pub secs: i64,
    pub nanos: u32,
}

/// An instant together with the fixed offset from UTC, in seconds, at which
/// it is shown.
#[derive(Copy, Clone, Debug, PartialEq, Eq, Hash)]
pub struct OffsetTimestamp {
    pub secs: i64,
    pub nanos: u32,
    pub offset: i32,
}

impl UtcTimestamp {
    /// Builds the outcome of decoding `text` from what chrono's RFC 3339
    /// parser made of it: the instant it found, with the offset dropped, or
    /// the error naming the rejected text.
    pub fn from_parsed(text: &str, parsed: Option<(i64, u32, i32)>) -> (r: Result<UtcTimestamp, ConversionError>)
        ensures
            match parsed {
                Some(p) => r matches Ok(v) && v == (UtcTimestamp { secs: p.0, nanos: p.1 }),
                None => r matches Err(e) && e.rejects(text@, Expecting::Timestamp),
            },
    {
        match OffsetTimestamp::from_parsed(text, parsed) {
            Ok(t) => Ok(t.to_utc()),
            Err(e) => Err(e),
        }
    }
}

impl OffsetTimestamp {
    /// Builds the outcome of decoding `text` from what chrono's RFC 3339
    /// parser made of it: the instant and offset it found, or the error
    /// naming the rejected text.
    pub fn from_parsed(text: &str, parsed: Option<(i64, u32, i32)>) -> (r: Result<OffsetTimestamp, ConversionError>)
        ensures
            match parsed {
                Some(p) => r matches Ok(v) && v == (OffsetTimestamp { secs: p.0, nanos: p.1, offset: p.2 }),
                None => r matches Err(e) && e.rejects(text@, Expecting::Timestamp),
            },
    {
        match parsed {
            Some((secs, nanos, offset)) => Ok(OffsetTimestamp { secs, nanos, offset }),
            None => Err(ConversionError::invalid(text, Expecting::Timestamp)),
        }
    }

    /// The same instant, reported in UTC.
    pub fn to_utc(&self) -> (r: UtcTimestamp)
        ensures
            r.secs == self.secs,
            r.nanos == self.nanos,
    {
        UtcTimestamp { secs: self.secs, nanos: self.nanos }
    }
}

impl TextDecode for UtcTimestamp {
    open spec fn expecting() -> Expecting {
        Expecting::Timestamp
    }

    /// Any valid RFC 3339 text, whatever its offset.
    open spec fn decodable(text: Seq<char>) -> bool {
        rfc3339_parsed(text) is Some
    }

    /// The instant of the text; its offset is dropped.
    open spec fn decodes_to(text: Seq<char>, value: UtcTimestamp) -> bool {
        rfc3339_parsed(text) matches Some(p) && p.0 == value.secs && p.1 == value.nanos
    }

    fn expected() -> (r: Expecting) {
        Expecting::Timestamp
    }

    fn decode(text: &str) -> (r: Result<UtcTimestamp, ConversionError>) {
        UtcTimestamp::from_parsed(text, parse_rfc3339_text(text))
    }
}

impl TextEncode for UtcTimestamp {
    open spec fn encoded(&self) -> Option<Seq<char>> {
        rfc3339_text(self.secs, self.nanos, 0)
    }

    /// An instant in chrono's range, without a leap second.
    open spec fn encodable(&self) -> bool {
        secs_in_range(self.secs as int) && self.nanos < NANOS_PER_SEC
    }

    fn encode(&self) -> (r: Result<String, ConversionError>) {
        match format_rfc3339_text(self.secs, self.nanos, 0) {
            Some(s) => Ok(s),
            None => Err(ConversionError::OutOfRange),
        }
    }
}

impl TextDecode for OffsetTimestamp {
    open spec fn expecting() -> Expecting {
        Expecting::Timestamp
    }

    open spec fn decodable(text: Seq<char>) -> bool {
        rfc3339_parsed(text) is Some
    }

    /// The instant and the offset of the text, both kept.
    open spec fn decodes_to(text: Seq<char>, value: OffsetTimestamp) -> bool {
        rfc3339_parsed(text) == Some((value.secs, value.nanos, value.offset))
    }

    fn expected() -> (r: Expecting) {
        Expecting::Timestamp
    }

    fn decode(text: &str) -> (r: Result<OffsetTimestamp, ConversionError>) {
        OffsetTimestamp::from_parsed(text, parse_rfc3339_text(text))
    }
}

impl TextEncode for OffsetTimestamp {
    /// `None` also where the local time would leave chrono's range.
    open spec fn encoded(&self) -> Option<Seq<char>> {
        if local_overflows(self.secs as int, self.offset as int) {
            None
        } else {
            rfc3339_text(self.secs, self.nanos, self.offset)
        }
    }

    /// An instant in chrono's range, without a leap second, at an offset
    /// within a day that keeps the local time in range too.
    open spec fn encodable(&self) -> bool {
        &&& secs_in_range(self.secs as int)
        &&& self.nanos < NANOS_PER_SEC
        &&& offset_in_range(self.offset as int)
        &&& secs_in_range(self.secs + self.offset)
    }

    fn encode(&self) -> (r: Result<String, ConversionError>) {
        if MIN_TIMESTAMP_SECS <= self.secs && self.secs <= MAX_TIMESTAMP_SECS
            && -MAX_OFFSET_SECS <= self.offset && self.offset <= MAX_OFFSET_SECS
        {
            let local = self.secs + self.offset as i64;
            if local < MIN_TIMESTAMP_SECS || local > MAX_TIMESTAMP_SECS {
                return Err(ConversionError::OutOfRange);
            }
        }
        match format_rfc3339_text(self.secs, self.nanos, self.offset) {
            Some(s) => Ok(s),
            None => Err(ConversionError::OutOfRange),
        }
    }
}

/// A timestamp decoded with its offset keeps that offset, and where it has a
/// text, the text is chrono's rendering of the parsed instant at the parsed
/// offset, not at UTC.
pub proof fn lemma_offset_survives_round_trip(text: Seq<char>, value: OffsetTimestamp)
    requires
        OffsetTimestamp::decodable(text),
        OffsetTimestamp::decodes_to(text, value),
    ensures
        rfc3339_parsed(text) matches Some(p) && value.offset == p.2
            && (value.encoded() is Some ==> value.encoded() == rfc3339_text(p.0, p.1, p.2)),
{
}

/// Decoding to UTC keeps the instant of the text and writes it back at a
/// zero offset, whatever offset the text carried.
pub proof fn lemma_utc_round_trip_normalizes(text: Seq<char>, value: UtcTimestamp)
    requires
        UtcTimestamp::decodable(text),
        UtcTimestamp::decodes_to(text, value),
    ensures
        rfc3339_parsed(text) matches Some(p) && value.encoded() == rfc3339_text(p.0, p.1, 0),
{
}

} // verus!
