use vstd::prelude::*;

verus! {

/// Whether `millis` milliseconds since the Unix epoch is an instant that chrono's
/// `DateTime<Utc>` can represent (roughly 262,000 years either side of the common era).
pub uninterp spec fn millis_representable(millis: i64) -> bool;

/// Relies on chrono::DateTime::from_timestamp_millis, which returns `Some` exactly when the
/// instant is representable.
#[verifier::external_body]
fn chrono_accepts_millis(millis: i64) -> (r: bool)
    ensures
        r == millis_representable(millis),
{
    chrono::DateTime::from_timestamp_millis(millis).is_some()
}

/// Relies on chrono::Utc::now and DateTime::timestamp_millis: a sample of the wall clock,
/// which round-trips through `from_timestamp_millis` as chrono documents.
#[verifier::external_body]
fn wall_clock_millis() -> (r: i64)
    ensures
        millis_representable(r),
{
    chrono::Utc::now().timestamp_millis()
}

/// An instant in UTC with millisecond resolution, always within chrono's `DateTime<Utc>` range.
#[derive(Debug, Clone, Copy, PartialEq, Eq, Structural)]
pub struct Timestamp {
    millis: i64,
}

impl View for Timestamp {
    type V = i64;

    closed spec fn view(&self) -> i64 {
        self.millis
    }
}

impl Timestamp {
    #[verifier::type_invariant]
    spec fn inv(self) -> bool {
        millis_representable(self.millis)
    }

    /// The instant `millis` milliseconds after the Unix epoch, if chrono can represent it.
    pub fn from_millis(millis: i64) -> (r: Option<Timestamp>)
        ensures
            r is Some <==> millis_representable(millis),
            r matches Some(t) ==> t@ == millis,
    {
        if chrono_accepts_millis(millis) {
            Some(Timestamp { millis })
        } else {
            None
        }
    }

    /// Milliseconds since the Unix epoch.
    pub fn timestamp_millis(&self) -> (r: i64)
        ensures
            r == self@,
            millis_representable(r),
    {
        proof {
            use_type_invariant(self);
        }
        self.millis
    }

    /// The current wall-clock time.
    pub fn now() -> (r: Timestamp) {
        Timestamp { millis: wall_clock_millis() }
    }
}

} // verus!
