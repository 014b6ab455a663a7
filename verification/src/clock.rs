//! Instants of time, held as whole seconds since the Unix epoch (UTC) and a
//! nanosecond part, covering every instant that `chrono`'s `DateTime<Utc>`
//! can hold; their RFC 3339 text, computed by `chrono`; and the system clock.
use chrono::{DateTime, Utc};
use std::time::{SystemTime, UNIX_EPOCH};
use vstd::prelude::*;

verus! {

/// Whether `chrono` has a `DateTime<Utc>` `secs` seconds and `nanos`
/// nanoseconds after 1970-01-01T00:00:00Z: whether
/// `DateTime::from_timestamp(secs, nanos)` is `Some`.
pub uninterp spec fn chrono_instant(secs: int, nanos: int) -> bool;

/// The RFC 3339 text that `chrono` renders for that instant (for example
/// `"2024-05-01T12:00:00+00:00"`).
pub uninterp spec fn rfc3339_text(secs: int, nanos: int) -> Seq<char>;

/// The instant that `chrono` reads from `text` when it parses it as a UTC
/// date-time, as its `timestamp()` and `timestamp_subsec_nanos()`; `None`
/// when `text` is not such a date-time.
pub uninterp spec fn parsed_instant(text: Seq<char>) -> Option<(int, int)>;

/// The RFC 3339 text of an instant given as (seconds, nanoseconds).
pub open spec fn instant_text(t: (int, int)) -> Seq<char> {
    rfc3339_text(t.0, t.1)
}

/// `DateTime::from_timestamp(secs, nanos).is_some()` of `chrono`.
#[verifier::external_body]
fn check_instant(secs: i64, nanos: u32) -> (b: bool)
    ensures
        b == chrono_instant(secs as int, nanos as int),
{
    DateTime::from_timestamp(secs, nanos).is_some()
}

/// `DateTime::from_timestamp(secs, nanos)` followed by `to_rfc3339()` of
/// `chrono`: the RFC 3339 text of an instant that `chrono` has.
#[verifier::external_body]
fn format_rfc3339(secs: i64, nanos: u32) -> (text: String)
    requires
        chrono_instant(secs as int, nanos as int),
    ensures
        text@ == rfc3339_text(secs as int, nanos as int),
{
    match DateTime::from_timestamp(secs, nanos) {
        Some(t) => t.to_rfc3339(),
        None => String::new(),
    }
}

/// `text.parse::<DateTime<Utc>>()` of `chrono`, with the parsed instant's
/// `timestamp()` and `timestamp_subsec_nanos()`.  A `DateTime` always has
/// parts that `DateTime::from_timestamp` accepts again.
#[verifier::external_body]
fn parse_rfc3339(text: &str) -> (r: Option<(i64, u32)>)
    ensures
        match r {
            Some((s, n)) => parsed_instant(text@) == Some((s as int, n as int)) && chrono_instant(
                s as int,
                n as int,
            ),
            None => parsed_instant(text@) is None,
        },
{
    match text.parse::<DateTime<Utc>>() {
        Ok(t) => Some((t.timestamp(), t.timestamp_subsec_nanos())),
        Err(_) => None,
    }
}

/// The parts of `DateTime::<Utc>::default()` of `chrono`: the Unix epoch,
/// which `DateTime::from_timestamp` accepts.
#[verifier::external_body]
fn epoch_parts() -> (r: (i64, u32))
    ensures
        r.0 == 0 && r.1 == 0,
        chrono_instant(r.0 as int, r.1 as int),
{
    let t = DateTime::<Utc>::default();
    (t.timestamp(), t.timestamp_subsec_nanos())
}

/// `SystemTime::now().duration_since(UNIX_EPOCH)` of std, as whole seconds
/// and the nanosecond part: `Ok` for a clock at or after the epoch, `Err`
/// with the distance before it otherwise.  std documents the nanosecond part
/// of a duration as less than one billion.  Nothing is stated of the
/// reading itself: it is whatever the system clock says.
#[verifier::external_body]
fn system_clock() -> (r: Result<(u64, u32), (u64, u32)>)
    ensures
        match r {
            Ok(p) => p.1 < 1_000_000_000,
            Err(p) => p.1 < 1_000_000_000,
        },
{
    match SystemTime::now().duration_since(UNIX_EPOCH) {
        Ok(d) => Ok((d.as_secs(), d.subsec_nanos())),
        Err(e) => Err((e.duration().as_secs(), e.duration().subsec_nanos())),
    }
}

/// The instant, as (seconds, nanoseconds) after the epoch, of a clock
/// reading: a distance after the epoch as it is, one before it negated with
/// the nanosecond part kept non-negative.
pub open spec fn clock_parts(reading: Result<(u64, u32), (u64, u32)>) -> (int, int) {
    match reading {
        Ok(p) => (p.0 as int, p.1 as int),
        Err(p) => {
            if p.1 == 0 {
                (-(p.0 as int), 0)
            } else {
                (-(p.0 as int) - 1, 1_000_000_000 - p.1)
            }
        },
    }
}

/// Whether a clock reading has the shape that std gives: a nanosecond
/// part below one billion.
pub open spec fn reading_ok(reading: Result<(u64, u32), (u64, u32)>) -> bool {
    match reading {
        Ok(p) => p.1 < 1_000_000_000,
        Err(p) => p.1 < 1_000_000_000,
    }
}

/// Whether `t` is the instant of the clock reading `reading`: its parts,
/// or `None` exactly where those parts are no instant that `chrono` holds.
pub open spec fn clock_instant(t: Option<Timestamp>, reading: Result<(u64, u32), (u64, u32)>) -> bool {
    match t {
        Some(v) => v@ == clock_parts(reading),
        None => !(fits_parts(clock_parts(reading)) && chrono_instant(
            clock_parts(reading).0,
            clock_parts(reading).1,
        )),
    }
}

/// Whether `t` is what reading the system clock can give: the instant of
/// some reading of the shape that std gives.
pub open spec fn clock_could_read(t: Option<Timestamp>) -> bool {
    exists|reading: Result<(u64, u32), (u64, u32)>|
        reading_ok(reading) && #[trigger] clock_instant(t, reading)
}

/// The signed number of nanoseconds from the epoch that a clock reading
/// measures: after it for `Ok`, before it for `Err`.
pub open spec fn reading_nanos(reading: Result<(u64, u32), (u64, u32)>) -> int {
    match reading {
        Ok(p) => p.0 * 1_000_000_000 + p.1,
        Err(p) => -(p.0 * 1_000_000_000 + p.1),
    }
}

/// The signed number of nanoseconds from the epoch of an instant given as
/// (seconds, nanoseconds).
pub open spec fn instant_nanos(t: (int, int)) -> int {
    t.0 * 1_000_000_000 + t.1
}

/// The instant taken from a clock reading is the time that the reading
/// measured, to the nanosecond, with a nanosecond part below one second.
pub proof fn law_clock_instant_is_measured_time(reading: Result<(u64, u32), (u64, u32)>)
    requires
        reading_ok(reading),
    ensures
        instant_nanos(clock_parts(reading)) == reading_nanos(reading),
        0 <= clock_parts(reading).1 < 1_000_000_000,
{
}

/// Two instants with nanosecond parts below one second are the same exactly
/// when they measure the same number of nanoseconds, and come in the order
/// of those numbers.
pub proof fn law_instant_nanos_is_faithful(a: (int, int), b: (int, int))
    requires
        0 <= a.1 < 1_000_000_000,
        0 <= b.1 < 1_000_000_000,
    ensures
        (instant_nanos(a) == instant_nanos(b)) <==> (a == b),
        (instant_nanos(a) < instant_nanos(b)) <==> (a.0 < b.0 || (a.0 == b.0 && a.1 < b.1)),
{
    assert(a.0 < b.0 ==> a.0 * 1_000_000_000 + 1_000_000_000 <= b.0 * 1_000_000_000) by (nonlinear_arith);
    assert(b.0 < a.0 ==> b.0 * 1_000_000_000 + 1_000_000_000 <= a.0 * 1_000_000_000) by (nonlinear_arith);
}

/// Clock readings keep their order: of two readings, the one that measures
/// the later time gives the later instant, and readings of the same time
/// give the same instant.
pub proof fn law_clock_keeps_order(
    r1: Result<(u64, u32), (u64, u32)>,
    r2: Result<(u64, u32), (u64, u32)>,
)
    requires
        reading_ok(r1),
        reading_ok(r2),
    ensures
        (reading_nanos(r1) < reading_nanos(r2)) <==> (clock_parts(r1).0 < clock_parts(r2).0 || (
        clock_parts(r1).0 == clock_parts(r2).0 && clock_parts(r1).1 < clock_parts(r2).1)),
        (reading_nanos(r1) == reading_nanos(r2)) <==> (clock_parts(r1) == clock_parts(r2)),
{
    law_clock_instant_is_measured_time(r1);
    law_clock_instant_is_measured_time(r2);
    law_instant_nanos_is_faithful(clock_parts(r1), clock_parts(r2));
}

/// Whether (seconds, nanoseconds) fit an `i64` and a `u32`.
pub open spec fn fits_parts(p: (int, int)) -> bool {
    i64::MIN <= p.0 <= i64::MAX && 0 <= p.1 <= u32::MAX
}

/// An instant of time: whole seconds since 1970-01-01T00:00:00Z and a
/// nanosecond part, always one that `chrono` holds.
#[derive(Debug, Clone, Copy, PartialEq, Eq)]
pub struct Timestamp {
    secs: i64,
    nanos: u32,
}

impl View for Timestamp {
    type V = (int, int);

    closed spec fn view(&self) -> (int, int) {
        (self.secs as int, self.nanos as int)
    }
}

impl Timestamp {
    #[verifier::type_invariant]
    closed spec fn inv(self) -> bool {
        chrono_instant(self.secs as int, self.nanos as int)
    }

    /// The instant `secs` seconds and `nanos` nanoseconds after the epoch;
    /// `None` where `chrono` has no such instant.
    pub fn from_unix(secs: i64, nanos: u32) -> (t: Option<Self>)
        ensures
            match t {
                Some(v) => chrono_instant(secs as int, nanos as int) && v@ == (
                    secs as int,
                    nanos as int,
                ),
                None => !chrono_instant(secs as int, nanos as int),
            },
    {
        if check_instant(secs, nanos) {
            Some(Timestamp { secs, nanos })
        } else {
            None
        }
    }

    /// The Unix epoch, 1970-01-01T00:00:00Z.
    pub fn epoch() -> (t: Self)
        ensures
            t@ == (0int, 0int),
    {
        let (secs, nanos) = epoch_parts();
        Timestamp { secs, nanos }
    }

    /// Whole seconds since the epoch.
    pub fn secs(&self) -> (s: i64)
        ensures
            s == self@.0,
    {
        self.secs
    }

    /// The nanosecond part.
    pub fn nanos(&self) -> (n: u32)
        ensures
            n == self@.1,
    {
        self.nanos
    }

    /// The instant of a system clock reading (see `clock_parts`); `None`
    /// where that is not an instant that `chrono` holds.
    pub fn from_clock(reading: Result<(u64, u32), (u64, u32)>) -> (t: Option<Self>)
        ensures
            clock_instant(t, reading),
    {
        match reading {
            Ok((s, n)) => {
                if s <= 9223372036854775807u64 {
                    Timestamp::from_unix(s as i64, n)
                } else {
                    None
                }
            },
            Err((s, n)) => {
                if s <= 9223372036854775807u64 {
                    let back = s as i64;
                    if n == 0 {
                        Timestamp::from_unix(-back, 0)
                    } else if n <= 1_000_000_000 {
                        Timestamp::from_unix(-back - 1, 1_000_000_000 - n)
                    } else {
                        None
                    }
                } else if s == 9223372036854775808u64 && n == 0 {
                    Timestamp::from_unix(i64::MIN, 0)
                } else {
                    None
                }
            },
        }
    }

    /// The current time from the system clock; `None` where the clock reads
    /// an instant that `chrono` cannot hold.
    pub fn now() -> (t: Option<Self>)
        ensures
            clock_could_read(t),
            match t {
                Some(v) => 0 <= v@.1 < 1_000_000_000 && chrono_instant(v@.0, v@.1),
                None => true,
            },
    {
        let reading = system_clock();
        let t = Timestamp::from_clock(reading);
        proof {
            assert(reading_ok(reading) && clock_instant(t, reading));
            if let Some(v) = t {
                use_type_invariant(v);
            }
        }
        t
    }

    /// The RFC 3339 text of this instant.
    pub fn rfc3339(&self) -> (text: String)
        ensures
            text@ == instant_text(self@),
    {
        proof {
            use_type_invariant(self);
        }
        format_rfc3339(self.secs, self.nanos)
    }

    /// The instant that an RFC 3339 text names; `None` where `chrono` cannot
    /// read it.
    pub fn from_rfc3339(text: &str) -> (t: Option<Self>)
        ensures
            match t {
                Some(v) => parsed_instant(text@) == Some(v@),
                None => parsed_instant(text@) is None,
            },
    {
        match parse_rfc3339(text) {
            Some((secs, nanos)) => Some(Timestamp { secs, nanos }),
            None => None,
        }
    }
}

} // verus!
