//! Human-readable text forms for durations and timestamps, meant to be
//! attached to individual fields of a serialized structure.
//!
//! A duration is written in humantime's short form (`"15s"`) and read from
//! any text that humantime accepts (`"15 seconds"`); a timestamp is written
//! and read as RFC 3339 (`"2018-05-11T18:28:30Z"`).

mod codec;
pub mod duration;
mod error;
mod field;
pub mod option;
pub mod timestamp;
mod wrapper;

pub use codec::{TextDecode, TextEncode};
pub use duration::{Duration, NANOS_PER_SEC};
pub use error::{ConversionError, Expecting};
pub use field::{deserialize, serialize};
pub use timestamp::{OffsetTimestamp, UtcTimestamp};
pub use wrapper::{lemma_borrowed_encodes_alike, lemma_unwrap_wrapped, Serde};
