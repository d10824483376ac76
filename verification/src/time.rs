//! A UTC point in time, as `chrono::DateTime<Utc>` holds one: whole seconds
//! since the Unix epoch and the nanoseconds past that second (a leap second
//! shows as nanoseconds of one second or more).
use vstd::prelude::*;

verus! {

/// Whether `chrono::DateTime::<Utc>::from_timestamp(secs, nanos)` gives a
/// time (it refuses dates out of its range and malformed nanoseconds).
pub uninterp spec fn chrono_accepts(secs: i64, nanos: u32) -> bool;

/// The text that `to_rfc3339` writes for the time
/// `DateTime::<Utc>::from_timestamp(secs, nanos)`.
pub uninterp spec fn chrono_rfc3339(secs: i64, nanos: u32) -> Seq<char>;

/// Calls `chrono::DateTime::<Utc>::from_timestamp(secs, nanos)` and, where
/// it gives a time, `DateTime::to_rfc3339` on it.  Claimed: `Some` exactly
/// when chrono accepts the pair, and then the RFC 3339 text, a function of
/// the pair alone; and, as chrono's source shows, an accepted pair has
/// nanoseconds below two seconds and a day number (`secs` divided by a day,
/// rounded down, plus 719163) within `i32`.
#[verifier::external_body]
fn rfc3339_of(secs: i64, nanos: u32) -> (r: Option<String>)
    ensures
        r is Some == chrono_accepts(secs, nanos),
        r is Some ==> nanos < 2_000_000_000 && i32::MIN <= secs as int / 86400 + 719163 <= i32::MAX,
        r matches Some(s) ==> s@ == chrono_rfc3339(secs, nanos),
{
    match chrono::DateTime::from_timestamp(secs, nanos) {
        Some(t) => Some(t.to_rfc3339()),
        None => None,
    }
}

/// A time that chrono accepts, held as seconds and nanoseconds.
#[derive(Clone, Copy)]
pub struct UtcTimestamp {
    secs: i64,
    nanos: u32,
}

impl UtcTimestamp {
    #[verifier::type_invariant]
    spec fn valid(self) -> bool {
        &&& chrono_accepts(self.secs, self.nanos)
        &&& self.nanos < 2_000_000_000
        &&& i32::MIN <= self.secs as int / 86400 + 719163 <= i32::MAX
    }

    /// Whole seconds since the Unix epoch.
    pub closed spec fn secs(self) -> i64 {
        self.secs
    }

    /// Nanoseconds past the second.
    pub closed spec fn nanos(self) -> u32 {
        self.nanos
    }

    /// The time `secs` seconds and `nanos` nanoseconds after the epoch, or
    /// `None` where chrono refuses that pair.
    pub fn from_timestamp(secs: i64, nanos: u32) -> (r: Option<UtcTimestamp>)
        ensures
            r is Some == chrono_accepts(secs, nanos),
            r matches Some(t) ==> t.secs() == secs && t.nanos() == nanos,
    {
        match rfc3339_of(secs, nanos) {
            Some(_) => Some(UtcTimestamp { secs, nanos }),
            None => None,
        }
    }

    /// Whole seconds since the epoch (`DateTime::timestamp`).
    pub fn timestamp(&self) -> (r: i64)
        ensures
            r == self.secs(),
    {
        self.secs
    }

    /// Nanoseconds past the second (`DateTime::timestamp_subsec_nanos`).
    pub fn timestamp_subsec_nanos(&self) -> (r: u32)
        ensures
            r == self.nanos(),
    {
        self.nanos
    }

    /// Milliseconds since the epoch (`DateTime::timestamp_millis`): the
    /// seconds times a thousand plus the whole milliseconds past them.
    pub fn timestamp_millis(&self) -> (r: i64)
        ensures
            r == self.secs() * 1000 + self.nanos() / 1_000_000,
    {
        proof {
            use_type_invariant(self);
        }
        self.secs * 1000 + (self.nanos / 1_000_000) as i64
    }

    /// Outside a leap second, the milliseconds of a time fall within its
    /// second: dividing them by a thousand (rounding down) gives the seconds.
    pub proof fn lemma_millis_within_second(self)
        requires
            self.nanos() < 1_000_000_000,
        ensures
            (self.secs() * 1000 + self.nanos() / 1_000_000) / 1000 == self.secs(),
    {
        let m = self.nanos() / 1_000_000;
        assert(0 <= m < 1000);
        assert((self.secs() * 1000 + m) / 1000 == self.secs()) by (nonlinear_arith)
            requires
                0 <= m < 1000,
        ;
    }

    /// The RFC 3339 text of the time (`DateTime::to_rfc3339`).
    pub fn to_rfc3339(&self) -> (r: String)
        ensures
            r@ == chrono_rfc3339(self.secs(), self.nanos()),
    {
        proof {
            use_type_invariant(self);
        }
        match rfc3339_of(self.secs, self.nanos) {
            Some(s) => s,
            None => {
                proof {
                    assert(false);
                }
                String::new()
            },
        }
    }
}

} // verus!
