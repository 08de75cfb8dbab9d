//! Points in time as plain numbers.

use vstd::prelude::*;

verus! {

/// A point in time: whole seconds since 1970-01-01T00:00:00Z and the
/// nanoseconds past that second.
#[derive(Clone, Copy, Debug, PartialEq, Eq, Structural)]
pub struct Timestamp {
    pub secs: i64,
    pub nanos: u32,
}

impl Timestamp {
    /// `self` is strictly later than `other`.
    pub open spec fn later_than(self, other: Timestamp) -> bool {
        self.secs > other.secs || (self.secs == other.secs && self.nanos > other.nanos)
    }

    /// Whether `self` is strictly later than `other`.
    pub fn is_later_than(&self, other: &Timestamp) -> (r: bool)
        ensures
            r == self.later_than(*other),
    {
        self.secs > other.secs || (self.secs == other.secs && self.nanos > other.nanos)
    }
}

/// An optional text as its characters.
pub open spec fn text_view(text: Option<String>) -> Option<Seq<char>> {
    match text {
        Some(s) => Some(s@),
        None => None,
    }
}

/// The RFC 3339 text by which `chrono` shows the moment, `None` where
/// `chrono` cannot hold it.
pub uninterp spec fn rfc3339_text(secs: int, nanos: int) -> Option<Seq<char>>;

/// Calls `Utc::now` of `chrono` and takes its seconds and nanoseconds. The
/// result is the system's time: nothing is claimed of it.
#[verifier::external_body]
pub(crate) fn now() -> (t: Timestamp) {
    let moment = chrono::Utc::now();
    Timestamp { secs: moment.timestamp(), nanos: moment.timestamp_subsec_nanos() }
}

/// Calls `DateTime::from_timestamp` of `chrono` and, where that gives a
/// moment, `to_rfc3339` on it. The outcome is a function of the two numbers
/// alone and is named `rfc3339_text`.
#[verifier::external_body]
pub(crate) fn show_rfc3339(t: &Timestamp) -> (text: Option<String>)
    ensures
        rfc3339_text(t.secs as int, t.nanos as int) == text_view(text),
{
    chrono::DateTime::from_timestamp(t.secs, t.nanos).map(|moment| moment.to_rfc3339())
}

} // verus!
