//! Timestamps.
//!
//! A date node counts seconds and microseconds from 2001-01-01T00:00:00Z. A [`Timestamp`]
//! counts from 1970-01-01T00:00:00Z, as native clocks do, in seconds and nanoseconds. Leap
//! seconds are not counted on either side, so the two differ by [`TIMESTAMP_OFFSET`] seconds.
//!
//! An instant before 1970 has a negative number of seconds and still a non-negative number of
//! nanoseconds within the second: one nanosecond before 1970 is second -1, nanosecond
//! 999,999,999.

use vstd::prelude::*;
use crate::error::{ErrorKind, PlistError};
use crate::native::{FromPlistNode, RoundTrip, ToPlistNode};
use crate::node::{Node, OwnedNode};
use crate::value::Value;

verus! {

/// Number of seconds between 1970-01-01T00:00:00Z and 2001-01-01T00:00:00Z. It does not
/// include the leap seconds of those years.
pub const TIMESTAMP_OFFSET: i64 = 978307200;

/// Nanoseconds in a second.
pub const NANOS_PER_SEC: u32 = 1_000_000_000;

/// An instant: `secs` whole seconds after 1970-01-01T00:00:00Z, or before it where `secs` is
/// negative, and `nanos` nanoseconds after that second.
#[derive(Clone, Copy, Debug, PartialEq, Eq, Structural)]
pub struct Timestamp {
    pub secs: i64,
    pub nanos: u32,
}

impl DeepView for Timestamp {
    type V = int;

    /// The instant in nanoseconds after 1970-01-01T00:00:00Z.
    open spec fn deep_view(&self) -> int {
        self.secs * 1_000_000_000 + self.nanos
    }
}

/// The seconds of a date node for an instant given in nanoseconds after 1970: the whole
/// seconds, counted from 2001.
pub open spec fn date_sec(m: int) -> int {
    m / 1_000_000_000 - TIMESTAMP_OFFSET
}

/// The microseconds of a date node for an instant given in nanoseconds after 1970: the whole
/// microseconds within the second.
pub open spec fn date_usec(m: int) -> int {
    (m % 1_000_000_000) / 1000
}

/// The instant of a date node, in nanoseconds after 1970.
pub open spec fn date_instant(sec: i32, usec: i32) -> int {
    ((sec + TIMESTAMP_OFFSET) * 1_000_000 + usec) * 1000
}

impl Timestamp {
    /// The instant that lies the given duration after 1970-01-01T00:00:00Z, if its seconds
    /// can be held.
    pub fn after_epoch(secs: u64, nanos: u32) -> (r: Option<Timestamp>)
        ensures
            secs + nanos / 1_000_000_000 <= i64::MAX <==> r is Some,
            r matches Some(t) ==> t.deep_view() == secs * 1_000_000_000 + nanos && t.nanos
                < 1_000_000_000,
    {
        let whole: u128 = secs as u128 + (nanos / NANOS_PER_SEC) as u128;
        if whole <= i64::MAX as u128 {
            Some(Timestamp { secs: whole as i64, nanos: nanos % NANOS_PER_SEC })
        } else {
            None
        }
    }

    /// The instant that lies the given duration before 1970-01-01T00:00:00Z, if its seconds
    /// can be held. A duration that is not a whole number of seconds reaches into the second
    /// before: the seconds are rounded down and the nanoseconds count up from there.
    pub fn before_epoch(secs: u64, nanos: u32) -> (r: Option<Timestamp>)
        ensures
            r matches Some(t) ==> t.deep_view() == -(secs * 1_000_000_000 + nanos) && t.nanos
                < 1_000_000_000,
            r is Some <==> -(secs * 1_000_000_000 + nanos) >= i64::MIN * 1_000_000_000,
    {
        let whole: u128 = secs as u128 + (nanos / NANOS_PER_SEC) as u128;
        let rest: u32 = nanos % NANOS_PER_SEC;
        let limit: u128 = 0x8000_0000_0000_0000;
        if rest == 0 {
            if whole <= limit {
                let s: i128 = -(whole as i128);
                Some(Timestamp { secs: s as i64, nanos: 0 })
            } else {
                None
            }
        } else {
            if whole < limit {
                let s: i128 = -(whole as i128) - 1;
                Some(Timestamp { secs: s as i64, nanos: NANOS_PER_SEC - rest })
            } else {
                None
            }
        }
    }

    /// The instant that a clock shows which counts a leap second as nanoseconds beyond the
    /// end of the second before it. Leap seconds are not counted: the leap second is taken
    /// for the second before it.
    pub fn from_clock(secs: i64, nanos: u32) -> (r: Timestamp)
        ensures
            r.secs == secs,
            r.nanos == nanos % 1_000_000_000,
    {
        Timestamp { secs, nanos: nanos % NANOS_PER_SEC }
    }

    /// How far the instant lies from 1970-01-01T00:00:00Z: whether it lies before it, and the
    /// seconds and nanoseconds of the distance.
    pub fn distance(&self) -> (r: (bool, u64, u32))
        ensures
            r.2 < 1_000_000_000,
            r.0 ==> self.deep_view() == -(r.1 * 1_000_000_000 + r.2) && self.deep_view() < 0,
            !r.0 ==> self.deep_view() == r.1 * 1_000_000_000 + r.2,
    {
        let whole: i128 = self.secs as i128 + (self.nanos / NANOS_PER_SEC) as i128;
        let rest: u32 = self.nanos % NANOS_PER_SEC;
        if whole >= 0 {
            (false, whole as u64, rest)
        } else if rest == 0 {
            (true, (-whole) as u64, 0)
        } else {
            (true, (-whole - 1) as u64, NANOS_PER_SEC - rest)
        }
    }
}

impl ToPlistNode for Timestamp {
    /// The seconds are cut to 32 bits, as `as` cuts them.
    open spec fn write(m: int) -> Value {
        Value::Date { sec: date_sec(m) as i32, usec: date_usec(m) as i32 }
    }

    fn to_plist_node(&self) -> (r: OwnedNode) {
        let whole: i128 = self.secs as i128 + (self.nanos / NANOS_PER_SEC) as i128;
        let rest: u32 = self.nanos % NANOS_PER_SEC;
        let shifted: i128 = whole - TIMESTAMP_OFFSET as i128;
        let sec: i32 = #[verifier::truncate] (shifted as i32);
        let usec: i32 = (rest / 1000) as i32;
        OwnedNode::new_date(sec, usec)
    }
}

impl FromPlistNode for Timestamp {
    /// Microseconds below 0 or beyond 999,999 carry into the seconds.
    open spec fn read(v: Value) -> Result<int, ErrorKind> {
        match v {
            Value::Date { sec, usec } => Ok(date_instant(sec, usec)),
            _ => Err(ErrorKind::UnsupportedType(v.tag())),
        }
    }

    fn from_plist_node(node: &Node) -> (r: Result<Timestamp, PlistError>) {
        match node.get_date_val() {
            Some((sec, usec)) => {
                // Moved up by 2^32 seconds the count of microseconds is positive, and the
                // division rounds down.
                let lift: i64 = 0x1_0000_0000;
                let micros: i64 = (sec as i64 + TIMESTAMP_OFFSET + lift) * 1_000_000 + usec as i64;
                let secs: i64 = micros / 1_000_000 - lift;
                let nanos: u32 = ((micros % 1_000_000) * 1000) as u32;
                Ok(Timestamp { secs, nanos })
            },
            None => Err(PlistError::UnsupportedType(node.node_type())),
        }
    }
}

impl RoundTrip for Timestamp {
    /// A date node holds whole microseconds, and seconds of 32 bits.
    open spec fn exact(m: int) -> bool {
        &&& m % 1000 == 0
        &&& i32::MIN <= date_sec(m) <= i32::MAX
    }

    proof fn round_trip(m: int) {
        lemma_timestamp_round_trip(m);
    }
}

/// Writing an instant and reading it back gives the instant cut to whole microseconds, for
/// instants before 1970 as for later ones, as long as the seconds counted from 2001 fit in
/// 32 bits.
pub proof fn lemma_timestamp_round_trip(m: int)
    requires
        i32::MIN <= date_sec(m) <= i32::MAX,
    ensures
        Timestamp::read(Timestamp::write(m)) == Ok::<int, ErrorKind>(m - m % 1000),
{
}

} // verus!
