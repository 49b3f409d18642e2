//! Instants of time as they are written into conditional requests.
use vstd::prelude::*;

verus! {

/// The first second of the year 0, in seconds since the epoch.
pub const MIN_TIMESTAMP: i64 = -62_167_219_200;

/// The last second of the year 9999, in seconds since the epoch.
pub const MAX_TIMESTAMP: i64 = 253_402_300_799;

/// Whether `chrono::DateTime::from_timestamp` gives an instant for the whole
/// second `timestamp` seconds after the epoch.
pub uninterp spec fn has_instant(timestamp: int) -> bool;

/// The RFC 2822 text of the instant `timestamp` seconds after the epoch, in
/// UTC, as `chrono::DateTime::to_rfc2822` writes it.
pub uninterp spec fn rfc2822_text(timestamp: int) -> Seq<char>;

/// Calls `chrono::DateTime::from_timestamp` and, on the instant it gives,
/// `DateTime::to_rfc2822`. The latter panics outside the years 0 to 9999,
/// which the precondition leaves out. Whether there is an instant and how it
/// is written depend on the timestamp alone, so both are the named ones;
/// nothing is claimed of the timestamps for which there is an instant.
#[verifier::external_body]
fn format_rfc2822(timestamp: i64) -> (text: Option<String>)
    requires
        MIN_TIMESTAMP <= timestamp <= MAX_TIMESTAMP,
    ensures
        text is Some <==> has_instant(timestamp as int),
        text matches Some(t) ==> t@ == rfc2822_text(timestamp as int),
{
    match chrono::DateTime::from_timestamp(timestamp, 0) {
        Some(instant) => Some(instant.to_rfc2822()),
        None => None,
    }
}

/// An instant in UTC, to the second, between the years 0 and 9999, together
/// with its RFC 2822 text.
#[derive(Debug)]
pub struct UtcDateTime {
    timestamp: i64,
    text: String,
}

impl View for UtcDateTime {
    type V = int;

    closed spec fn view(&self) -> int {
        self.timestamp as int
    }
}

impl UtcDateTime {
    #[verifier::type_invariant]
    spec fn well_formed(self) -> bool {
        &&& MIN_TIMESTAMP <= self.timestamp <= MAX_TIMESTAMP
        &&& self.text@ == rfc2822_text(self.timestamp as int)
    }

    /// Whether `timestamp` lies between the years 0 and 9999.
    pub open spec fn in_range(timestamp: int) -> bool {
        MIN_TIMESTAMP <= timestamp <= MAX_TIMESTAMP
    }

    /// The instant `timestamp` seconds after the epoch, given the text that was
    /// made for it, if any.
    pub fn with_text(timestamp: i64, text: Option<String>) -> (instant: Option<UtcDateTime>)
        requires
            text matches Some(t) ==> t@ == rfc2822_text(timestamp as int),
        ensures
            instant is Some <==> Self::in_range(timestamp as int) && text is Some,
            instant matches Some(i) ==> i@ == timestamp,
    {
        if timestamp < MIN_TIMESTAMP || timestamp > MAX_TIMESTAMP {
            return None;
        }
        match text {
            Some(text) => Some(UtcDateTime { timestamp, text }),
            None => None,
        }
    }

    /// The instant `timestamp` seconds after the epoch. There is one exactly
    /// where the timestamp lies between the years 0 and 9999 and `chrono` has
    /// an instant for it.
    pub fn from_timestamp(timestamp: i64) -> (instant: Option<UtcDateTime>)
        ensures
            instant is Some <==> Self::in_range(timestamp as int) && has_instant(timestamp as int),
            instant matches Some(i) ==> i@ == timestamp,
    {
        if timestamp < MIN_TIMESTAMP || timestamp > MAX_TIMESTAMP {
            return None;
        }
        Self::with_text(timestamp, format_rfc2822(timestamp))
    }

    /// Seconds since the epoch.
    pub fn timestamp(&self) -> (timestamp: i64)
        ensures
            timestamp == self@,
            Self::in_range(self@),
    {
        proof {
            use_type_invariant(self);
        }
        self.timestamp
    }

    /// The instant as RFC 2822 text.
    pub fn to_rfc2822(&self) -> (text: &str)
        ensures
            text@ == rfc2822_text(self@),
    {
        proof {
            use_type_invariant(self);
        }
        self.text.as_str()
    }
}

} // verus!
