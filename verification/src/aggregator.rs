//! The merge-friendly output snapshot: one record combining the temperature,
//! door and power domains' long-interval statistics, with a counter used when
//! records are folded into a coarser period.

use vstd::prelude::*;

verus! {

/// A long-interval snapshot across all three domains.  Temperatures follow
/// the temperature aggregator's conventions: centidegrees, and integral
/// fields holding twice the trapezoidal time-integral in centidegree-seconds.
#[derive(Debug, Clone, Copy, PartialEq)]
pub struct AggregationRecord {
    /// Twice the time-integral of the vaccine temperature, in
    /// centidegree-seconds.
    pub tvc_sum: i128,
    /// Seconds covered by the vaccine integral.
    pub tvc_seconds: u32,
    /// Minimum vaccine reading, in centidegrees.
    pub tvc_min: i32,
    /// Maximum vaccine reading, in centidegrees.
    pub tvc_max: i32,
    /// Twice the time-integral of the ambient temperature, in
    /// centidegree-seconds.
    pub tamb_sum: i128,
    /// Seconds covered by the ambient integral.
    pub tamb_seconds: u32,
    /// Seconds the vaccine temperature was below the good range.
    pub tvc_low_seconds: u32,
    /// Seconds the vaccine temperature was above the good range.
    pub tvc_high_seconds: u32,
    /// Seconds a low temperature alarm was in effect.
    pub low_alarm_seconds: u32,
    /// Seconds a high temperature alarm was in effect.
    pub high_alarm_seconds: u32,
    /// Times the vaccine door was opened.
    pub vaccine_door_count: u16,
    /// Seconds the vaccine door was open.
    pub vaccine_door_seconds: u32,
    /// Seconds mains power was available.
    pub power_available_seconds: u32,
    /// Seconds the compressor was running.
    pub compressor_run_seconds: u32,
    /// Seconds the door alarm was in effect.
    pub door_alarm_seconds: u32,
    /// Only used when combining records into a coarser period: how many
    /// records of combined data this one holds.
    pub records_read: u8,
}

/// The all-zero record.
pub open spec fn aggregation_record_zero() -> AggregationRecord {
    AggregationRecord {
        tvc_sum: 0,
        tvc_seconds: 0,
        tvc_min: 0,
        tvc_max: 0,
        tamb_sum: 0,
        tamb_seconds: 0,
        tvc_low_seconds: 0,
        tvc_high_seconds: 0,
        low_alarm_seconds: 0,
        high_alarm_seconds: 0,
        vaccine_door_count: 0,
        vaccine_door_seconds: 0,
        power_available_seconds: 0,
        compressor_run_seconds: 0,
        door_alarm_seconds: 0,
        records_read: 0,
    }
}

impl AggregationRecord {
    /// Folds `other` into `self` when combining records into a coarser
    /// period: counters and integrals are summed, the minimum and maximum
    /// keep the global extremes, and the combined-records count grows by one.
    pub fn merge(&mut self, other: &AggregationRecord)
        requires
            i128::MIN <= old(self).tvc_sum + other.tvc_sum <= i128::MAX,
            i128::MIN <= old(self).tamb_sum + other.tamb_sum <= i128::MAX,
            old(self).tvc_seconds + other.tvc_seconds <= u32::MAX,
            old(self).tamb_seconds + other.tamb_seconds <= u32::MAX,
            old(self).tvc_low_seconds + other.tvc_low_seconds <= u32::MAX,
            old(self).tvc_high_seconds + other.tvc_high_seconds <= u32::MAX,
            old(self).low_alarm_seconds + other.low_alarm_seconds <= u32::MAX,
            old(self).high_alarm_seconds + other.high_alarm_seconds <= u32::MAX,
            old(self).vaccine_door_count + other.vaccine_door_count <= u16::MAX,
            old(self).vaccine_door_seconds + other.vaccine_door_seconds <= u32::MAX,
            old(self).power_available_seconds + other.power_available_seconds <= u32::MAX,
            old(self).compressor_run_seconds + other.compressor_run_seconds <= u32::MAX,
            old(self).door_alarm_seconds + other.door_alarm_seconds <= u32::MAX,
            old(self).records_read < u8::MAX,
        ensures
            final(self).tvc_sum == old(self).tvc_sum + other.tvc_sum,
            final(self).tvc_seconds == old(self).tvc_seconds + other.tvc_seconds,
            final(self).tvc_min == (if old(self).tvc_min < other.tvc_min {
                old(self).tvc_min
            } else {
                other.tvc_min
            }),
            final(self).tvc_max == (if old(self).tvc_max > other.tvc_max {
                old(self).tvc_max
            } else {
                other.tvc_max
            }),
            final(self).tamb_sum == old(self).tamb_sum + other.tamb_sum,
            final(self).tamb_seconds == old(self).tamb_seconds + other.tamb_seconds,
            final(self).tvc_low_seconds == old(self).tvc_low_seconds + other.tvc_low_seconds,
            final(self).tvc_high_seconds == old(self).tvc_high_seconds + other.tvc_high_seconds,
            final(self).low_alarm_seconds == old(self).low_alarm_seconds + other.low_alarm_seconds,
            final(self).high_alarm_seconds == old(self).high_alarm_seconds
                + other.high_alarm_seconds,
            final(self).vaccine_door_count == old(self).vaccine_door_count
                + other.vaccine_door_count,
            final(self).vaccine_door_seconds == old(self).vaccine_door_seconds
                + other.vaccine_door_seconds,
            final(self).power_available_seconds == old(self).power_available_seconds
                + other.power_available_seconds,
            final(self).compressor_run_seconds == old(self).compressor_run_seconds
                + other.compressor_run_seconds,
            final(self).door_alarm_seconds == old(self).door_alarm_seconds
                + other.door_alarm_seconds,
            final(self).records_read == old(self).records_read + 1,
    {
        self.tvc_sum = self.tvc_sum + other.tvc_sum;
        self.tvc_seconds = self.tvc_seconds + other.tvc_seconds;
        if other.tvc_min < self.tvc_min {
            self.tvc_min = other.tvc_min;
        }
        if other.tvc_max > self.tvc_max {
            self.tvc_max = other.tvc_max;
        }
        self.tamb_sum = self.tamb_sum + other.tamb_sum;
        self.tamb_seconds = self.tamb_seconds + other.tamb_seconds;
        self.tvc_low_seconds = self.tvc_low_seconds + other.tvc_low_seconds;
        self.tvc_high_seconds = self.tvc_high_seconds + other.tvc_high_seconds;
        self.low_alarm_seconds = self.low_alarm_seconds + other.low_alarm_seconds;
        self.high_alarm_seconds = self.high_alarm_seconds + other.high_alarm_seconds;
        self.vaccine_door_count = self.vaccine_door_count + other.vaccine_door_count;
        self.vaccine_door_seconds = self.vaccine_door_seconds + other.vaccine_door_seconds;
        self.power_available_seconds = self.power_available_seconds
            + other.power_available_seconds;
        self.compressor_run_seconds = self.compressor_run_seconds + other.compressor_run_seconds;
        self.door_alarm_seconds = self.door_alarm_seconds + other.door_alarm_seconds;
        self.records_read = self.records_read + 1;
    }
}

impl Default for AggregationRecord {
    /// The all-zero record.
    fn default() -> (r: AggregationRecord)
        ensures
            r == aggregation_record_zero(),
    {
        AggregationRecord {
            tvc_sum: 0,
            tvc_seconds: 0,
            tvc_min: 0,
            tvc_max: 0,
            tamb_sum: 0,
            tamb_seconds: 0,
            tvc_low_seconds: 0,
            tvc_high_seconds: 0,
            low_alarm_seconds: 0,
            high_alarm_seconds: 0,
            vaccine_door_count: 0,
            vaccine_door_seconds: 0,
            power_available_seconds: 0,
            compressor_run_seconds: 0,
            door_alarm_seconds: 0,
            records_read: 0,
        }
    }
}

} // verus!
