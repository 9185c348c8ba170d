//! Points in time, and the clock.

use crate::json::{self, json_of, Json};
use vstd::prelude::*;

verus! {

/// A point in time: microseconds since the start of 1970, UTC.
#[derive(Debug, Clone, Copy, PartialEq, Eq, Structural)]
pub struct Timestamp {
    pub micros: i64,
}

/// The last second that the clock can show.
pub const LAST_SECOND: i64 = 8_210_266_876_799;

/// The last millisecond that the clock can show.
pub const LAST_MILLISECOND: i64 = 8_210_266_876_799_999;

/// The first microsecond that `chrono` can hold: the start of the year -262143.
pub const FIRST_MICROSECOND: i64 = -8_334_601_228_800_000_000;

/// The last microsecond that `chrono` can hold: the end of the year 262142.
pub const LAST_MICROSECOND: i64 = 8_210_266_876_799_999_999;

/// `chrono::Utc::now` in seconds: whatever the clock shows, never before 1970
/// and never after the last date `chrono` can hold.
#[verifier::external_body]
pub(crate) fn now_seconds() -> (s: i64)
    ensures
        0 <= s <= LAST_SECOND,
{
    chrono::Utc::now().timestamp()
}

/// `chrono::Utc::now` in milliseconds, within the same bounds.
#[verifier::external_body]
pub(crate) fn now_milliseconds() -> (ms: i64)
    ensures
        0 <= ms <= LAST_MILLISECOND,
{
    chrono::Utc::now().timestamp_millis()
}

/// A point in time as the clock shows it: seconds since the start of 1970, UTC, and
/// nanoseconds.
#[derive(Debug, Clone, Copy, PartialEq, Eq, Structural)]
pub struct Moment {
    pub seconds: i64,
    pub nanos: u32,
}

impl Moment {
    /// Whether the clock can show it.
    pub open spec fn shown(self) -> bool {
        0 <= self.seconds <= LAST_SECOND && self.nanos < 1_000_000_000
    }

    /// The whole milliseconds since the start of 1970.
    pub open spec fn milliseconds(self) -> int {
        self.seconds * 1000 + self.nanos as int / 1_000_000
    }

    /// The whole milliseconds since the start of 1970.
    pub fn to_milliseconds(&self) -> (ms: i64)
        requires
            self.shown(),
        ensures
            ms == self.milliseconds(),
            0 <= ms <= LAST_MILLISECOND,
            ms * 1_000_000 <= self.seconds * 1_000_000_000 + self.nanos < (ms + 1) * 1_000_000,
    {
        self.seconds * 1000 + (self.nanos / 1_000_000) as i64
    }
}

/// `chrono::Utc::now` in seconds and nanoseconds: whatever the clock shows, within
/// the same bounds. The nanoseconds are those of a `std::time::Duration`.
#[verifier::external_body]
pub(crate) fn now() -> (m: Moment)
    ensures
        m.shown(),
{
    let t = chrono::Utc::now();
    Moment { seconds: t.timestamp(), nanos: t.timestamp_subsec_nanos() }
}

/// The nanosecond since the start of 1970 before which all those lie that the clock
/// can show.
pub const CLOCK_END: i128 = 8_210_266_876_800_000_000_000;

/// `seconds` and `nanos` since the start of 1970, in nanoseconds.
pub fn in_nanoseconds(seconds: i64, nanos: u32) -> (n: i128)
    ensures
        n == seconds * 1_000_000_000 + nanos,
{
    seconds as i128 * 1_000_000_000 + nanos as i128
}

/// The nanoseconds since the start of 1970: whatever the clock shows.
pub fn now_nanoseconds() -> (n: i128)
    ensures
        0 <= n < CLOCK_END,
{
    let m = now();
    in_nanoseconds(m.seconds, m.nanos)
}

/// The RFC 3339 form of `seconds` and `nanos` since the start of 1970, if `chrono`
/// can hold that date.
pub uninterp spec fn rfc3339_of(seconds: i64, nanos: u32) -> Option<Seq<char>>;

/// `chrono::DateTime::to_rfc3339` of the seconds and nanoseconds since the start of 1970.
#[verifier::external_body]
pub(crate) fn rfc3339(seconds: i64, nanos: u32) -> (r: Option<String>)
    ensures
        match r {
            Some(s) => rfc3339_of(seconds, nanos) == Some(s@),
            None => rfc3339_of(seconds, nanos) is None,
        },
{
    chrono::DateTime::from_timestamp(seconds, nanos).map(|t| t.to_rfc3339())
}

impl Timestamp {
    /// The RFC 3339 form; nothing where `chrono` cannot hold the date.
    pub open spec fn text(self) -> Seq<char> {
        match rfc3339_of((self.micros as int / 1_000_000) as i64, (self.micros as int % 1_000_000 * 1000) as u32) {
            Some(s) => s,
            None => Seq::empty(),
        }
    }

    /// The RFC 3339 form; nothing where `chrono` cannot hold the date.
    pub fn to_text(&self) -> (s: String)
        ensures
            s@ == self.text(),
            forall|seconds: i64, nanos: u32|
                seconds * 1_000_000_000 + nanos == self.micros * 1000 && nanos < 1_000_000_000 ==> match #[trigger] rfc3339_of(
                    seconds,
                    nanos,
                ) {
                    Some(t) => s@ == t,
                    None => s@.len() == 0,
                },
    {
        let mut seconds: i64 = self.micros / 1_000_000;
        let mut rest: i64 = self.micros % 1_000_000;
        if rest < 0 {
            seconds = seconds - 1;
            rest = rest + 1_000_000;
        }
        assert(seconds == self.micros as int / 1_000_000 && rest == self.micros as int % 1_000_000);
        match rfc3339(seconds, rest as u32 * 1000) {
            Some(s) => s,
            None => String::new(),
        }
    }
}

/// How a point in time is written in JSON.
pub uninterp spec fn instant_json(micros: i64) -> Json;

/// `serde_json::to_value` of the `chrono::DateTime` that `micros` stands for: a
/// string, or null where `chrono` cannot hold that date.
#[verifier::external_body]
pub(crate) fn instant_value(micros: i64) -> (v: serde_json::Value)
    ensures
        json_of(v) == instant_json(micros),
        json_of(v) is Str || json_of(v) is Null,
{
    serde_json::to_value(chrono::DateTime::from_timestamp_micros(micros)).unwrap_or_default()
}

impl Timestamp {
    /// `self` as a JSON value.
    pub fn to_json(&self) -> (v: serde_json::Value)
        ensures
            json_of(v) == instant_json(self.micros),
    {
        instant_value(self.micros)
    }
}

/// How a point in time is written in JSON, or null.
pub open spec fn opt_instant_json(t: Option<Timestamp>) -> Json {
    match t {
        Some(x) => instant_json(x.micros),
        None => Json::Null,
    }
}

/// A point in time as a JSON value, or null.
pub(crate) fn opt_instant(t: &Option<Timestamp>) -> (v: serde_json::Value)
    ensures
        json_of(v) == opt_instant_json(*t),
        t matches Some(x) ==> json_of(v) == instant_json(x.micros),
        t is None ==> json_of(v) == Json::Null,
{
    match t {
        Some(x) => x.to_json(),
        None => json::null(),
    }
}

} // verus!
