use vstd::prelude::*;

verus! {

/// The earliest second chrono can represent: -262143-01-01T00:00:00Z.
pub const MIN_UNIX_SECS: i64 = -8334601228800;

/// The latest second chrono can represent: +262142-12-31T23:59:59Z.
pub const MAX_UNIX_SECS: i64 = 8210266876799;

/// Whether chrono's `DateTime::<Utc>::from_timestamp(secs, nanos)` yields a date: the day
/// must fall within chrono's calendar (years -262143 to 262142), and the nanoseconds must be
/// under 10^9, or under 2 * 10^9 in the last second of a minute (a leap second).
pub open spec fn chrono_accepts(secs: i64, nanos: u32) -> bool {
    &&& MIN_UNIX_SECS <= secs <= MAX_UNIX_SECS
    &&& nanos < 2_000_000_000
    &&& nanos >= 1_000_000_000 ==> (secs as int) % 60 == 59
}

/// The text chrono's `DateTime::<Utc>::to_rfc3339` writes for the instant
/// `DateTime::<Utc>::from_timestamp(secs, nanos)`.
pub uninterp spec fn rfc3339_text(secs: i64, nanos: u32) -> Seq<char>;

/// Calls `chrono::DateTime::<Utc>::from_timestamp` and reports whether it gave a date.
#[verifier::external_body]
fn chrono_from_timestamp_is_some(secs: i64, nanos: u32) -> (b: bool)
    ensures
        b == chrono_accepts(secs, nanos),
{
    chrono::DateTime::<chrono::Utc>::from_timestamp(secs, nanos).is_some()
}

/// Calls `chrono::Utc::now` and returns the instant as seconds since the Unix epoch and
/// nanoseconds past that second. Which instant comes back is up to the clock. `Utc::now`
/// builds the date from the system time's distance past the Unix epoch (seconds, and the
/// nanoseconds of a `Duration`, under 10^9) and would panic before returning an earlier time;
/// chrono documents that `from_timestamp` gives back the same date for these two numbers.
#[verifier::external_body]
fn chrono_now() -> (r: (i64, u32))
    ensures
        r.0 >= 0,
        r.1 < 1_000_000_000,
        chrono_accepts(r.0, r.1),
{
    let now = chrono::Utc::now();
    (now.timestamp(), now.timestamp_subsec_nanos())
}

/// Calls `chrono::DateTime::<Utc>::to_rfc3339` on the instant `from_timestamp(secs, nanos)`.
#[verifier::external_body]
fn chrono_rfc3339(secs: i64, nanos: u32) -> (s: String)
    requires
        chrono_accepts(secs, nanos),
    ensures
        s@ == rfc3339_text(secs, nanos),
{
    chrono::DateTime::<chrono::Utc>::from_timestamp(secs, nanos).unwrap().to_rfc3339()
}

/// An instant in UTC, as chrono counts it: seconds since the Unix epoch and nanoseconds
/// past that second. Only instants chrono can represent are held.
#[derive(Debug)]
pub struct Timestamp {
    secs: i64,
    nanos: u32,
}

impl Timestamp {
    /// Every timestamp is an instant chrono can represent.
    #[verifier::type_invariant]
    spec fn representable(self) -> bool {
        chrono_accepts(self.secs, self.nanos)
    }

    pub closed spec fn spec_secs(&self) -> i64 {
        self.secs
    }

    pub closed spec fn spec_nanos(&self) -> u32 {
        self.nanos
    }

    /// The instant with the given seconds and nanoseconds, when chrono can represent it.
    pub fn from_unix(secs: i64, nanos: u32) -> (r: Option<Timestamp>)
        ensures
            r is Some <==> chrono_accepts(secs, nanos),
            r matches Some(t) ==> t.spec_secs() == secs && t.spec_nanos() == nanos,
    {
        if chrono_from_timestamp_is_some(secs, nanos) {
            Some(Timestamp { secs, nanos })
        } else {
            None
        }
    }

    /// The current instant, read from the system clock: at or after the Unix epoch, and not
    /// inside a leap second.
    pub fn now() -> (r: Timestamp)
        ensures
            r.spec_secs() >= 0,
            r.spec_nanos() < 1_000_000_000,
    {
        let (secs, nanos) = chrono_now();
        Timestamp { secs, nanos }
    }

    /// Seconds since the Unix epoch.
    pub fn secs(&self) -> (r: i64)
        ensures
            r == self.spec_secs(),
    {
        self.secs
    }

    /// Nanoseconds past the second.
    pub fn nanos(&self) -> (r: u32)
        ensures
            r == self.spec_nanos(),
    {
        self.nanos
    }

    /// The instant in RFC 3339 form, as it is stored in the database.
    pub fn to_rfc3339(&self) -> (s: String)
        ensures
            s@ == rfc3339_text(self.spec_secs(), self.spec_nanos()),
    {
        proof {
            use_type_invariant(self);
        }
        chrono_rfc3339(self.secs, self.nanos)
    }
}

impl Clone for Timestamp {
    fn clone(&self) -> (r: Self)
        ensures
            r == *self,
    {
        proof {
            use_type_invariant(self);
        }
        Timestamp { secs: self.secs, nanos: self.nanos }
    }
}

} // verus!
