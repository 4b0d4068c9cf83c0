//! Points in time, as the service writes them.

use vstd::prelude::*;
use crate::error::{DecodeError, DecodeErrorView, Expected, Strictness};
use crate::json::{Json, JsonValue};
use crate::wire::Decode;

verus! {

/// A point in time: the seconds since 1970-01-01 00:00:00 UTC, leap seconds not counted, and
/// the nanoseconds since that second began.
#[derive(Debug, Clone, Copy, PartialEq, Eq, Structural)]
pub struct Instant {
    pub seconds: i64,
    pub nanos: u32,
}

impl DeepView for Instant {
    type V = Instant;

    open spec fn deep_view(&self) -> Instant {
        *self
    }
}

/// The point in time that `chrono` reads from a text, as seconds and nanoseconds, or nothing
/// where it refuses the text.
pub uninterp spec fn instant_of(text: Seq<char>) -> Option<(i64, u32)>;

/// `chrono`'s `FromStr` of `DateTime<FixedOffset>`, which its serde support applies to a
/// string, then `DateTime::timestamp` and `DateTime::timestamp_subsec_nanos`: the point in
/// time that the text names, or nothing where `chrono` refuses the text. It takes RFC 3339
/// and relaxed forms of it.
#[verifier::external_body]
fn read_instant(text: &str) -> (r: Option<(i64, u32)>)
    ensures
        r == instant_of(text@),
{
    match text.parse::<chrono::DateTime<chrono::FixedOffset>>() {
        Ok(at) => Some((at.timestamp(), at.timestamp_subsec_nanos())),
        Err(_) => None,
    }
}

impl Instant {
    /// The point in time that a reading of a text stands for, if the text was read as one.
    pub open spec fn spec_from_reading(reading: Option<(i64, u32)>) -> Result<Instant, DecodeErrorView> {
        match reading {
            Some((seconds, nanos)) => Ok(Instant { seconds, nanos }),
            None => Err(DecodeErrorView::Mismatch(Expected::Instant)),
        }
    }

    /// The point in time that a reading of a text stands for, if the text was read as one.
    pub fn from_reading(reading: Option<(i64, u32)>) -> (r: Result<Instant, DecodeError>)
        ensures
            match r {
                Ok(at) => Self::spec_from_reading(reading) == Ok::<Instant, DecodeErrorView>(at),
                Err(error) => Self::spec_from_reading(reading) == Err::<Instant, DecodeErrorView>(error@),
            },
    {
        match reading {
            Some((seconds, nanos)) => Ok(Instant { seconds, nanos }),
            None => Err(DecodeError::Mismatch(Expected::Instant)),
        }
    }

    /// Whether this point in time comes before the other.
    pub open spec fn spec_is_before(self, other: Instant) -> bool {
        self.seconds < other.seconds || (self.seconds == other.seconds && self.nanos < other.nanos)
    }

    /// Whether this point in time comes before the other.
    pub fn is_before(&self, other: &Instant) -> (r: bool)
        ensures
            r == self.spec_is_before(*other),
    {
        self.seconds < other.seconds || (self.seconds == other.seconds && self.nanos < other.nanos)
    }
}

impl Decode for Instant {
    open spec fn spec_decode(doc: JsonValue, mode: Strictness) -> Result<Instant, DecodeErrorView> {
        match doc {
            JsonValue::String(text) => Instant::spec_from_reading(instant_of(text)),
            _ => Err(DecodeErrorView::Mismatch(Expected::Instant)),
        }
    }

    open spec fn spec_absent() -> Option<Instant> {
        None
    }

    fn decode(doc: &Json, mode: Strictness) -> (r: Result<Instant, DecodeError>) {
        match doc {
            Json::String(text) => Instant::from_reading(read_instant(text.as_str())),
            _ => Err(DecodeError::Mismatch(Expected::Instant)),
        }
    }

    fn absent() -> (r: Option<Instant>) {
        None
    }
}

} // verus!
