use vstd::prelude::*;
use crate::codec::{TextDecode, TextEncode};
use crate::error::{ConversionError, Expecting};
use vstd::string::StrSliceExecFns;

verus! {

/// Nanoseconds in one second.
pub const NANOS_PER_SEC: u32 = 1_000_000_000;

/// The largest weight of the whole numbers in a duration text, where a
/// number of k whole digits weighs 10^k. The numbers then sum below 10^11,
/// there are fewer than 10^10 of them, every unit is at most a year of
/// 31,557,600 seconds, and every fraction adds less than one unit, so the
/// total stays below 3.5 * 10^18 seconds, far under `u64::MAX`.
pub const MAX_WHOLE_NUMBER_WEIGHT: u64 = 100_000_000_000;

/// Holds of the characters that end a number and begin its unit.
pub open spec fn is_unit_char(c: char) -> bool {
    ('a' <= c && c <= 'z') || ('A' <= c && c <= 'Z') || c == 'µ'
}

/// Scans a duration text as humantime reads its numbers: a number starts
/// at a digit, runs on through digits and whitespace, and ends at a unit's
/// letter or at a `.`, which opens a fraction that a unit's letter closes.
/// Gives the weight of the numbers that have ended, the weight of the
/// number still open (0 where none is), and whether `s` ends in a fraction.
pub open spec fn whole_number_scan(s: Seq<char>) -> (nat, nat, bool)
    decreases s.len(),
{
    if s.len() == 0 {
        (0, 0, false)
    } else {
        let (closed, open, in_fraction) = whole_number_scan(s.drop_last());
        let c = s.last();
        if '0' <= c && c <= '9' {
            if in_fraction {
                (closed, open, true)
            } else if open == 0 {
                (closed, 10, false)
            } else {
                (closed, open * 10, false)
            }
        } else if c == '.' {
            (closed + open, 0, true)
        } else if is_unit_char(c) {
            (closed + open, 0, false)
        } else {
            (closed, open, in_fraction)
        }
    }
}

/// The weight of all the whole numbers of `s`.
pub open spec fn whole_number_weight(s: Seq<char>) -> nat {
    whole_number_scan(s).0 + whole_number_scan(s).1
}

/// Holds of the texts that this library hands to humantime's parser.
pub open spec fn whole_digits_within(text: Seq<char>) -> bool {
    whole_number_weight(text) <= MAX_WHOLE_NUMBER_WEIGHT
}

/// The weight of a prefix never exceeds the weight of the whole text.
proof fn lemma_weight_grows(s: Seq<char>, i: int)
    requires
        0 <= i <= s.len(),
    ensures
        whole_number_weight(s.take(i)) <= whole_number_weight(s),
    decreases s.len() - i,
{
    if i < s.len() {
        assert(s.take(i + 1).drop_last() =~= s.take(i));
        lemma_weight_grows(s, i + 1);
    } else {
        assert(s.take(i) =~= s);
    }
}

/// Tells whether the whole numbers of `text` stay within
/// `MAX_WHOLE_NUMBER_WEIGHT`.
pub fn whole_numbers_within(text: &str) -> (r: bool)
    ensures
        r == whole_digits_within(text@),
{
    let len = text.unicode_len();
    let mut closed: u64 = 0;
    let mut open: u64 = 0;
    let mut in_fraction = false;
    let mut i: usize = 0;
    while i < len
        invariant
            len == text@.len(),
            i <= len,
            closed + open <= MAX_WHOLE_NUMBER_WEIGHT,
            (closed as nat, open as nat, in_fraction) == whole_number_scan(text@.take(i as int)),
        decreases len - i,
    {
        let c = text.get_char(i);
        assert(text@.take(i + 1).drop_last() =~= text@.take(i as int));
        if '0' <= c && c <= '9' {
            if !in_fraction {
                if open == 0 {
                    open = 10;
                } else {
                    open = open * 10;
                }
            }
        } else if c == '.' {
            closed = closed + open;
            open = 0;
            in_fraction = true;
        } else if ('a' <= c && c <= 'z') || ('A' <= c && c <= 'Z') || c == 'µ' {
            closed = closed + open;
            open = 0;
            in_fraction = false;
        }
        i = i + 1;
        if closed + open > MAX_WHOLE_NUMBER_WEIGHT {
            proof {
                lemma_weight_grows(text@, i as int);
            }
            return false;
        }
    }
    assert(text@.take(len as int) =~= text@);
    true
}

/// What humantime's duration parser makes of a text: whole seconds and the
/// nanoseconds beyond them, or `None` where the text is rejected.
pub uninterp spec fn humantime_parsed(text: Seq<char>) -> Option<(u64, u32)>;

/// The text that humantime's duration formatter writes for the given
/// seconds and nanoseconds.
pub uninterp spec fn humantime_text(secs: u64, nanos: u32) -> Seq<char>;

/// Relies on `humantime::parse_duration`: its outcome depends on the text
/// alone, and the std `Duration` it returns keeps its sub-second part below
/// one second. Its `add_current` panics in `Duration::new` when a running
/// total reaches `u64::MAX` seconds with a full second of nanoseconds to
/// carry; the bound on whole-number digits keeps totals far below that.
#[verifier::external_body]
fn parse_duration_text(text: &str) -> (r: Option<(u64, u32)>)
    requires
        whole_digits_within(text@),
    ensures
        r == humantime_parsed(text@),
        r matches Some(p) ==> p.1 < NANOS_PER_SEC,
{
    match humantime::parse_duration(text) {
        Ok(d) => Some((d.as_secs(), d.subsec_nanos())),
        Err(_) => None,
    }
}

/// Relies on `humantime::format_duration` and its `Display`: the text
/// depends on the duration alone, and humantime documents that it parses
/// back to the same value; stated here for texts whose numbers keep the
/// parser's sums from overflowing. `std::time::Duration::new` does not panic
/// when the nanoseconds are below one second.
#[verifier::external_body]
fn format_duration_text(secs: u64, nanos: u32) -> (r: String)
    requires
        nanos < NANOS_PER_SEC,
    ensures
        r@ == humantime_text(secs, nanos),
        whole_digits_within(r@) ==> humantime_parsed(r@) == Some((secs, nanos)),
{
    humantime::format_duration(std::time::Duration::new(secs, nanos)).to_string()
}

/// An elapsed time: whole seconds and the nanoseconds beyond them.
#[derive(Copy, Clone, Debug, PartialEq, Eq, Hash)]
pub struct Duration {
    secs: u64,
    nanos: u32,
}

impl Duration {
    #[verifier::type_invariant]
    spec fn inv(self) -> bool {
        self.nanos < NANOS_PER_SEC
    }

    /// The whole seconds.
    pub closed spec fn secs(self) -> u64 {
        self.secs
    }

    /// The nanoseconds beyond the whole seconds.
    pub closed spec fn subsec(self) -> u32 {
        self.nanos
    }

    /// Builds a duration of `secs` seconds and `nanos` nanoseconds; nanoseconds
    /// of a second or more are carried into the seconds.
    pub fn new(secs: u64, nanos: u32) -> (r: Duration)
        requires
            secs + nanos / NANOS_PER_SEC <= u64::MAX,
        ensures
            r.secs() == secs + nanos / NANOS_PER_SEC,
            r.subsec() == nanos % NANOS_PER_SEC,
    {
        Duration { secs: secs + (nanos / NANOS_PER_SEC) as u64, nanos: nanos % NANOS_PER_SEC }
    }

    /// Builds a duration of whole seconds.
    pub fn from_secs(secs: u64) -> (r: Duration)
        ensures
            r.secs() == secs,
            r.subsec() == 0,
    {
        Duration { secs, nanos: 0 }
    }

    /// Builds the outcome of decoding `text` from what humantime made of it:
    /// the duration it found, or the error naming the rejected text.
    pub fn from_parsed(text: &str, parsed: Option<(u64, u32)>) -> (r: Result<Duration, ConversionError>)
        requires
            parsed matches Some(p) ==> p.1 < NANOS_PER_SEC,
        ensures
            match parsed {
                Some(p) => r matches Ok(v) && v.secs() == p.0 && v.subsec() == p.1,
                None => r matches Err(e) && e.rejects(text@, Expecting::Duration),
            },
    {
        match parsed {
            Some((secs, nanos)) => Ok(Duration { secs, nanos }),
            None => Err(ConversionError::invalid(text, Expecting::Duration)),
        }
    }

    /// Writes the duration in humantime's short form; where that text is
    /// within the decoder's bound on whole numbers, it decodes back to this
    /// very duration.
    pub fn to_text(&self) -> (r: String)
        ensures
            r@ == humantime_text(self.secs(), self.subsec()),
            whole_digits_within(r@) ==> Duration::decodable(r@) && Duration::decodes_to(r@, *self),
    {
        proof {
            use_type_invariant(self);
        }
        format_duration_text(self.secs, self.nanos)
    }

    /// Returns the whole seconds.
    pub fn as_secs(&self) -> (r: u64)
        ensures
            r == self.secs(),
    {
        self.secs
    }

    /// Returns the nanoseconds beyond the whole seconds.
    pub fn subsec_nanos(&self) -> (r: u32)
        ensures
            r == self.subsec(),
            r < NANOS_PER_SEC,
    {
        proof {
            use_type_invariant(self);
        }
        self.nanos
    }
}

impl TextDecode for Duration {
    open spec fn expecting() -> Expecting {
        Expecting::Duration
    }

    /// Text that humantime accepts, whose whole numbers stay within
    /// `MAX_WHOLE_NUMBER_WEIGHT`.
    open spec fn decodable(text: Seq<char>) -> bool {
        whole_digits_within(text) && humantime_parsed(text) is Some
    }

    open spec fn decodes_to(text: Seq<char>, value: Duration) -> bool {
        humantime_parsed(text) == Some((value.secs(), value.subsec()))
    }

    fn expected() -> (r: Expecting) {
        Expecting::Duration
    }

    fn decode(text: &str) -> (r: Result<Duration, ConversionError>) {
        if !whole_numbers_within(text) {
            return Err(ConversionError::invalid(text, Expecting::Duration));
        }
        Duration::from_parsed(text, parse_duration_text(text))
    }
}

impl TextEncode for Duration {
    open spec fn encoded(&self) -> Option<Seq<char>> {
        Some(humantime_text(self.secs(), self.subsec()))
    }

    /// Every duration has a text.
    open spec fn encodable(&self) -> bool {
        true
    }

    fn encode(&self) -> (r: Result<String, ConversionError>) {
        Ok(self.to_text())
    }
}

} // verus!
