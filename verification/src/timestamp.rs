//! Timestamps on a dual-resolution sampling grid.
//!
//! A [`Timestamp`] is a number of seconds since a fixed epoch.  Two fixed
//! grids partition the time axis: a short sampling period of 900 s and a long
//! one of 28 800 s (an exact multiple of the short one), so every long-grid
//! boundary is also a short-grid boundary.

use vstd::prelude::*;

verus! {

/// Length of the short sampling period: 15 minutes in seconds.
pub const SHORT_SAMPLE_PERIOD: u32 = 900;

/// Length of the long sampling period: 8 hours in seconds.
pub const LONG_SAMPLE_PERIOD: u32 = 8 * 3600;

/// The one recoverable error of the library: an event or reset carried a
/// timestamp strictly before the last one its tracker accepted.
#[derive(Debug, Clone, Copy, PartialEq, Eq)]
pub enum TimestampError {
    OutOfOrder,
}

/// A point in time, in whole seconds since a fixed epoch.
#[derive(Debug, Clone, Copy, PartialEq, Eq)]
pub struct Timestamp {
    pub seconds: u32,
}

/// `t` rounded down to the nearest multiple of `period`.
pub open spec fn floor_to_period(t: u32, period: u32) -> int {
    (t as int / period as int) * period as int
}

/// The whole days in `t` seconds.
pub open spec fn days_of(t: u32) -> u32 {
    t / 86400
}

/// The whole hours of the last partial day of `t` seconds.
pub open spec fn hours_of(t: u32) -> u32 {
    (t % 86400) / 3600
}

/// The whole minutes of the last partial hour of `t` seconds.
pub open spec fn minutes_of(t: u32) -> u32 {
    ((t % 86400) % 3600) / 60
}

/// The seconds of the last partial minute of `t` seconds.
pub open spec fn secs_of(t: u32) -> u32 {
    ((t % 86400) % 3600) % 60
}

impl Timestamp {
    /// Converts seconds since the epoch to days, hours, minutes, and seconds.
    pub fn to_dhms(&self) -> (r: (u32, u32, u32, u32))
        ensures
            r.0 == days_of(self.seconds),
            r.1 == hours_of(self.seconds),
            r.2 == minutes_of(self.seconds),
            r.3 == secs_of(self.seconds),
            r.1 < 24 && r.2 < 60 && r.3 < 60,
            r.0 * 86400 + r.1 * 3600 + r.2 * 60 + r.3 == self.seconds,
    {
        let t = self.seconds;
        let days = t / 86400;
        proof {
            assert((t / 86400) * 86400 <= t && t - ((t / 86400) * 86400) == t % 86400)
                by (nonlinear_arith);
        }
        let seconds_of_day = t - days * 86400;
        let hours = seconds_of_day / 3600;
        proof {
            assert((seconds_of_day / 3600) * 3600 <= seconds_of_day && seconds_of_day - ((
            seconds_of_day / 3600) * 3600) == seconds_of_day % 3600) by (nonlinear_arith);
            assert(seconds_of_day < 86400 ==> seconds_of_day / 3600 < 24) by (nonlinear_arith);
        }
        let remaining_seconds = seconds_of_day - hours * 3600;
        let minutes = remaining_seconds / 60;
        proof {
            assert((remaining_seconds / 60) * 60 <= remaining_seconds && remaining_seconds - ((
            remaining_seconds / 60) * 60) == remaining_seconds % 60) by (nonlinear_arith);
            assert(remaining_seconds < 3600 ==> remaining_seconds / 60 < 60) by (nonlinear_arith);
        }
        let remaining_seconds = remaining_seconds - minutes * 60;
        (days, hours, minutes, remaining_seconds)
    }

    /// Create an ISO 8601 Duration string.
    pub fn create_iso8601_str(&self) -> (r: String)
        ensures
            r@ == crate::duration::encode_dhms(
                days_of(self.seconds),
                hours_of(self.seconds),
                minutes_of(self.seconds),
                secs_of(self.seconds),
            ),
    {
        let (days, hours, minutes, seconds) = self.to_dhms();
        crate::duration::encode_duration(days, hours, minutes, seconds)
    }

    /// Parses an ISO 8601 Duration string and returns the number of days,
    /// hours, minutes, and seconds.
    pub fn parse_duration(input: &str) -> (r: Option<(u32, u32, u32, u32)>)
        ensures
            r == crate::duration::parse_duration_spec(input@),
    {
        crate::duration::decode_duration(input)
    }

    /// Get the last short sample period end timestamp.
    pub fn get_last_short_sample_end(&self) -> (r: Timestamp)
        ensures
            r.seconds == floor_to_period(self.seconds, SHORT_SAMPLE_PERIOD),
            r.seconds <= self.seconds,
            self.seconds - r.seconds < SHORT_SAMPLE_PERIOD,
    {
        proof {
            lemma_floor_to_period(self.seconds, SHORT_SAMPLE_PERIOD);
        }
        Timestamp { seconds: (self.seconds / SHORT_SAMPLE_PERIOD) * SHORT_SAMPLE_PERIOD }
    }

    /// Get the last long sample period end timestamp.
    pub fn get_last_long_sample_end(&self) -> (r: Timestamp)
        ensures
            r.seconds == floor_to_period(self.seconds, LONG_SAMPLE_PERIOD),
            r.seconds <= self.seconds,
            self.seconds - r.seconds < LONG_SAMPLE_PERIOD,
    {
        proof {
            lemma_floor_to_period(self.seconds, LONG_SAMPLE_PERIOD);
        }
        Timestamp { seconds: (self.seconds / LONG_SAMPLE_PERIOD) * LONG_SAMPLE_PERIOD }
    }
}

/// Rounding down to a grid never overshoots, and lands less than one period
/// short of the input.
proof fn lemma_floor_to_period(t: u32, period: u32)
    requires
        period > 0,
    ensures
        0 <= floor_to_period(t, period) <= t,
        t - floor_to_period(t, period) < period,
        floor_to_period(t, period) == (t / period) * period,
{
    assert(0 <= (t as int / period as int) * period as int <= t) by (nonlinear_arith)
        requires
            period > 0;
    assert(t - ((t as int / period as int) * period as int) < period) by (nonlinear_arith)
        requires
            period > 0;
    assert((t / period) * period == (t as int / period as int) * period as int);
}

/// Encoding a timestamp's day/hour/minute/second split and decoding the
/// result returns the split, for every timestamp that is not a positive whole
/// number of days (those encode without a time part, a form the decoder
/// rejects).
pub proof fn lemma_iso8601_round_trip(t: u32)
    requires
        t < 86400 || t % 86400 != 0,
    ensures
        crate::duration::parse_duration_spec(
            crate::duration::encode_dhms(days_of(t), hours_of(t), minutes_of(t), secs_of(t)),
        ) == Some((days_of(t), hours_of(t), minutes_of(t), secs_of(t))),
{
    assert(hours_of(t) * 3600 + minutes_of(t) * 60 + secs_of(t) == t % 86400) by (nonlinear_arith);
    assert(t < 86400 ==> days_of(t) == 0) by (nonlinear_arith);
    crate::duration::lemma_duration_round_trip(days_of(t), hours_of(t), minutes_of(t), secs_of(t));
}

/// The long grid is coarser than the short one: rounding a timestamp down to
/// the long grid never lands after rounding it down to the short grid, and
/// neither rounding overshoots the timestamp.
pub proof fn lemma_long_floor_le_short_floor(t: u32)
    ensures
        floor_to_period(t, LONG_SAMPLE_PERIOD) <= floor_to_period(t, SHORT_SAMPLE_PERIOD) <= t,
{
    lemma_floor_to_period(t, SHORT_SAMPLE_PERIOD);
    lemma_floor_to_period(t, LONG_SAMPLE_PERIOD);
    let s = floor_to_period(t, SHORT_SAMPLE_PERIOD);
    let l = floor_to_period(t, LONG_SAMPLE_PERIOD);
    // l is a multiple of the short period as well, and no multiple of the
    // short period in (s, t] exists, so l <= s.
    assert(l % SHORT_SAMPLE_PERIOD as int == 0) by (nonlinear_arith)
        requires
            l == (t as int / LONG_SAMPLE_PERIOD as int) * LONG_SAMPLE_PERIOD as int;
    assert(s % SHORT_SAMPLE_PERIOD as int == 0) by (nonlinear_arith)
        requires
            s == (t as int / SHORT_SAMPLE_PERIOD as int) * SHORT_SAMPLE_PERIOD as int;
    if l > s {
        assert(false) by (nonlinear_arith)
            requires
                l % SHORT_SAMPLE_PERIOD as int == 0,
                s % SHORT_SAMPLE_PERIOD as int == 0,
                s < l <= t,
                s == (t as int / SHORT_SAMPLE_PERIOD as int) * SHORT_SAMPLE_PERIOD as int,
                t - s < SHORT_SAMPLE_PERIOD;
    }
}

} // verus!
