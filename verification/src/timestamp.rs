//! UTC instants: a clock reading held as whole seconds since the Unix
//! epoch, and its RFC 3339 text.

use vstd::prelude::*;

verus! {

/// Greatest whole-second Unix timestamp the formatter accepts:
/// 9999-12-31T23:59:59 UTC.
pub const TS_MAX_SECS: i64 = 253402300799;

/// The RFC 3339 text of the UTC instant `secs` whole seconds after the Unix
/// epoch, as chrono's `to_rfc3339` renders it. The text is a function of
/// the seconds value alone; its exact shape is not restated here.
pub uninterp spec fn rfc3339_of(secs: int) -> Seq<char>;

/// Relies on `chrono::Utc::now`: reads the system clock. Nothing is
/// promised of the value that comes back; callers bring it into range
/// themselves.
#[verifier::external_body]
fn clock_now_secs() -> i64 {
    chrono::Utc::now().timestamp()
}

/// Relies on `chrono::DateTime::from_timestamp`, which returns `Some` for
/// every admitted seconds value (each lies between the epoch and the year
/// 9999, well inside chrono's range), and on `to_rfc3339`, which formats
/// the instant from its value alone.
#[verifier::external_body]
fn format_rfc3339(s: i64) -> (r: String)
    requires
        0 <= s <= TS_MAX_SECS,
    ensures
        r@ == rfc3339_of(s as int),
{
    chrono::DateTime::<chrono::Utc>::from_timestamp(s, 0).unwrap().to_rfc3339()
}

/// A UTC instant, held as whole seconds since the Unix epoch and kept
/// within the range the formatter accepts.
#[derive(Clone, Copy, Debug, PartialEq, Eq, Structural)]
pub struct Timestamp {
    pub secs: i64,
}

impl Timestamp {
    /// A timestamp is well formed when it lies between the epoch and
    /// 9999-12-31T23:59:59 UTC.
    pub open spec fn wf(self) -> bool {
        0 <= self.secs <= TS_MAX_SECS
    }

    /// The seconds value `s` brought into range: an instant before the
    /// epoch becomes the epoch, one past the supported maximum becomes the
    /// maximum, and everything in between passes through unchanged.
    pub open spec fn clamp_spec(s: i64) -> i64 {
        if s < 0 {
            0
        } else if s > TS_MAX_SECS {
            TS_MAX_SECS
        } else {
            s
        }
    }

    /// Build a timestamp from a seconds value, bringing it into range.
    pub fn from_secs(s: i64) -> (t: Timestamp)
        ensures
            t.secs == Self::clamp_spec(s),
            t.wf(),
    {
        if s < 0 {
            Timestamp { secs: 0 }
        } else if s > TS_MAX_SECS {
            Timestamp { secs: TS_MAX_SECS }
        } else {
            Timestamp { secs: s }
        }
    }

    /// Read the clock. Whatever the clock reports, the result is well
    /// formed; a reading already in range passes through unchanged.
    pub fn now() -> (t: Timestamp)
        ensures
            t.wf(),
    {
        Timestamp::from_secs(clock_now_secs())
    }

    /// The RFC 3339 text of this instant.
    pub fn rfc3339(&self) -> (r: String)
        requires
            self.wf(),
        ensures
            r@ == rfc3339_of(self.secs as int),
    {
        format_rfc3339(self.secs)
    }
}

/// Bringing clock readings into range keeps their order: of two readings,
/// the later one never becomes the earlier timestamp.
pub proof fn lemma_clamp_monotone(s1: i64, s2: i64)
    requires
        s1 <= s2,
    ensures
        Timestamp::clamp_spec(s1) <= Timestamp::clamp_spec(s2),
{
}

} // verus!
