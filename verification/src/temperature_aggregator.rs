//! Temperature aggregation: periodic (possibly partial) ambient and vaccine
//! readings are folded into a six-state alarm state machine with persistence
//! timers, time-weighted integrals of both channels, and range/alarm dwell
//! counters collected into a long-interval record.
//!
//! Temperatures are carried in hundredths of a degree Celsius, so every
//! threshold comparison and every integral is exact integer arithmetic.  The
//! integral fields accumulate `(previous + current) * delta` per sample
//! interval — twice the trapezoidal time-integral, in centidegree-seconds —
//! so the time-weighted mean of a record is `sum / (2 * seconds)`.

use crate::timestamp::LONG_SAMPLE_PERIOD;
use crate::timestamp::SHORT_SAMPLE_PERIOD;
use crate::timestamp::Timestamp;
use crate::timestamp::floor_to_period;
use vstd::prelude::*;

verus! {

/// Upper end of the good vaccine range, in centidegrees (8 °C).
pub const MAX_GOOD_VACCINE_TEMP: i32 = 800;

/// Lower end of the good vaccine range, in centidegrees (2 °C).
pub const MIN_GOOD_VACCINE_TEMP: i32 = 200;

/// Above this the compartment counts as hot, in centidegrees (8 °C).
pub const ALARM_HIGH_TEMPERATURE: i32 = 800;

/// At or below this the compartment counts as freezing, in centidegrees
/// (-0.5 °C).
pub const ALARM_LOW_TEMPERATURE: i32 = -50;

/// Hysteresis margin, in centidegrees (0.1 °C).  Kept with the other alarm
/// constants; no transition rule applies it.
pub const ALARM_HYSTERESIS: i32 = 10;

/// A hot excursion must persist this long before it alarms: 10 hours.
pub const ALARM_HIGH_SECONDS: u32 = 10 * 60 * 60;

/// A freeze excursion must persist this long before it alarms: 1 hour.
pub const ALARM_LOW_SECONDS: u32 = 60 * 60;

/// The vaccine temperature assumed at construction when no reading is
/// available, in centidegrees (23 °C): a deterministic stand-in that selects
/// the initial hot state.
pub const ASSUMED_ROOM_TEMP: i32 = 2300;

/// Bound on `previous + current` for two readings, in centidegrees: each
/// reading is an `i32`, so their sum stays within this in absolute value.
/// The integral invariants are stated against it.
pub const TEMP_PAIR_BOUND: i128 = 0x1_0000_0000;

/// One sample: independently optional ambient and vaccine readings in
/// centidegrees.  A sensor fault yields an absent value, not zero.
#[derive(Debug, Clone, Copy, PartialEq)]
pub struct TemperatureSample {
    pub ambient: Option<i32>,
    pub vaccine: Option<i32>,
}

/// The long-interval statistics record.  All fields are zero at construction
/// and after a finalize, and grow only additively in between.
#[derive(Debug, Clone, Copy, PartialEq)]
pub struct TempLongRecord {
    /// Twice the time-integral of the vaccine temperature, in
    /// centidegree-seconds.
    pub tvc_sum: i128,
    /// Seconds covered by the vaccine integral.
    pub tvc_seconds: u32,
    /// Minimum vaccine reading of this record, in centidegrees.
    pub tvc_min: i32,
    /// Maximum vaccine reading of this record, in centidegrees.
    pub tvc_max: i32,
    /// Twice the time-integral of the ambient temperature, in
    /// centidegree-seconds.
    pub tamb_sum: i128,
    /// Seconds covered by the ambient integral.
    pub tamb_seconds: u32,
    /// Seconds the vaccine temperature was below the good range.
    pub tvc_low_seconds: u32,
    /// Seconds the vaccine temperature was above the good range.
    pub tvc_high_seconds: u32,
    /// Seconds a persisted low-temperature alarm was in effect.
    pub low_alarm_seconds: u32,
    /// Seconds a persisted high-temperature alarm was in effect.
    pub high_alarm_seconds: u32,
}

/// The all-zero record.
pub open spec fn record_zero() -> TempLongRecord {
    TempLongRecord {
        tvc_sum: 0,
        tvc_seconds: 0,
        tvc_min: 0,
        tvc_max: 0,
        tamb_sum: 0,
        tamb_seconds: 0,
        tvc_low_seconds: 0,
        tvc_high_seconds: 0,
        low_alarm_seconds: 0,
        high_alarm_seconds: 0,
    }
}

/// Start timestamps of a cold excursion.
#[derive(Debug, Clone, Copy, PartialEq)]
pub struct ColdTS {
    /// When the temperature went below the good range.
    pub cool_start: Timestamp,
    /// When the temperature reached the freeze threshold.
    pub freeze_start: Timestamp,
}

/// The alarm state machine.  Each excursion state carries the timestamps its
/// persistence check is measured from.
#[derive(Debug, Clone, Copy, PartialEq)]
pub enum AlarmState {
    InRange,
    HotNoAlarm(Timestamp),
    HotAlarm(Timestamp),
    Cold(Timestamp),
    FreezeNoAlarm(ColdTS),
    FreezeAlarm(ColdTS),
}

/// The latest timestamp embedded in an alarm state; zero for `InRange`.
pub open spec fn status_start_max(st: AlarmState) -> int {
    match st {
        AlarmState::InRange => 0,
        AlarmState::HotNoAlarm(t) => t.seconds as int,
        AlarmState::HotAlarm(t) => t.seconds as int,
        AlarmState::Cold(t) => t.seconds as int,
        AlarmState::FreezeNoAlarm(c) => if c.cool_start.seconds >= c.freeze_start.seconds {
            c.cool_start.seconds as int
        } else {
            c.freeze_start.seconds as int
        },
        AlarmState::FreezeAlarm(c) => if c.cool_start.seconds >= c.freeze_start.seconds {
            c.cool_start.seconds as int
        } else {
            c.freeze_start.seconds as int
        },
    }
}

/// The aggregator.
#[derive(Debug, Clone, Copy, PartialEq)]
pub struct TemperatureAggregator {
    /// Present alarm state.
    pub status: AlarmState,
    /// Timestamp of the last sample processed (the grid position at
    /// construction).
    pub last_short_sample_ts: Timestamp,
    /// When the previous long sampling window ended.
    pub prev_long_sample_ended: Timestamp,
    /// The last good ambient reading, in centidegrees.
    pub last_ambient_temp: Option<i32>,
    /// The last good vaccine reading, in centidegrees.
    pub last_vaccine_temp: Option<i32>,
    /// When the last good ambient reading arrived.
    pub last_ambient_ts: Option<Timestamp>,
    /// When the last good vaccine reading arrived.
    pub last_vaccine_ts: Option<Timestamp>,
    /// When the running low alarm began, if one was raised.
    pub low_alarm_start: Option<Timestamp>,
    /// When the running high alarm began, if one was raised.
    pub high_alarm_start: Option<Timestamp>,
    /// The long record currently being aggregated.
    pub long_record: TempLongRecord,
}

/// The initial alarm state, picked from the vaccine reading (or the assumed
/// room temperature when none is available).
pub open spec fn initial_status(vaccine: Option<i32>, now: Timestamp) -> AlarmState {
    let tvc = match vaccine {
        Some(v) => v,
        None => ASSUMED_ROOM_TEMP,
    };
    if tvc > MAX_GOOD_VACCINE_TEMP {
        AlarmState::HotNoAlarm(now)
    } else if tvc < MIN_GOOD_VACCINE_TEMP && tvc > ALARM_LOW_TEMPERATURE {
        AlarmState::Cold(now)
    } else {
        AlarmState::FreezeNoAlarm(ColdTS { cool_start: now, freeze_start: now })
    }
}

/// Trapezoidal integration of the vaccine channel over one interval, with
/// min/max folding: with a previous reading, `(prev + current-or-prev) *
/// delta` joins the integral and the interval joins its seconds; a present
/// current reading folds into min/max, which are re-seeded from the pair on
/// the record's first interval.  With no previous reading, a present current
/// one only seeds min/max.
pub open spec fn with_vaccine_integration(
    rec: TempLongRecord,
    prev: Option<i32>,
    cur: Option<i32>,
    delta: int,
) -> TempLongRecord {
    match prev {
        Some(p) => {
            let c = match cur {
                Some(v) => v,
                None => p,
            };
            let rec1 = TempLongRecord {
                tvc_sum: (rec.tvc_sum + (p + c) * delta) as i128,
                tvc_seconds: (rec.tvc_seconds + delta) as u32,
                ..rec
            };
            match cur {
                Some(cv) => if rec.tvc_seconds == 0 {
                    TempLongRecord {
                        tvc_min: if p < cv {
                            p
                        } else {
                            cv
                        },
                        tvc_max: if p > cv {
                            p
                        } else {
                            cv
                        },
                        ..rec1
                    }
                } else {
                    TempLongRecord {
                        tvc_min: if rec.tvc_min < cv {
                            rec.tvc_min
                        } else {
                            cv
                        },
                        tvc_max: if rec.tvc_max > cv {
                            rec.tvc_max
                        } else {
                            cv
                        },
                        ..rec1
                    }
                },
                None => rec1,
            }
        },
        None => match cur {
            Some(cv) => TempLongRecord { tvc_min: cv, tvc_max: cv, ..rec },
            None => rec,
        },
    }
}

/// Range dwell: the previous vaccine reading — the value in effect during the
/// just-elapsed interval — books the interval as high or low time.
pub open spec fn with_range_dwell(rec: TempLongRecord, prev: Option<i32>, delta: int)
    -> TempLongRecord {
    match prev {
        Some(p) => if p > MAX_GOOD_VACCINE_TEMP {
            TempLongRecord { tvc_high_seconds: (rec.tvc_high_seconds + delta) as u32, ..rec }
        } else if p < MIN_GOOD_VACCINE_TEMP {
            TempLongRecord { tvc_low_seconds: (rec.tvc_low_seconds + delta) as u32, ..rec }
        } else {
            rec
        },
        None => rec,
    }
}

/// Trapezoidal integration of the ambient channel over one interval.
pub open spec fn with_ambient_integration(
    rec: TempLongRecord,
    prev: Option<i32>,
    cur: Option<i32>,
    delta: int,
) -> TempLongRecord {
    match prev {
        Some(p) => {
            let c = match cur {
                Some(v) => v,
                None => p,
            };
            TempLongRecord {
                tamb_sum: (rec.tamb_sum + (p + c) * delta) as i128,
                tamb_seconds: (rec.tamb_seconds + delta) as u32,
                ..rec
            }
        },
        None => rec,
    }
}

/// Alarm dwell: the interval books as alarm time when the state at its end
/// was already a persisted alarm.
pub open spec fn with_alarm_dwell(rec: TempLongRecord, st: AlarmState, delta: int)
    -> TempLongRecord {
    match st {
        AlarmState::HotAlarm(_) => TempLongRecord {
            high_alarm_seconds: (rec.high_alarm_seconds + delta) as u32,
            ..rec
        },
        AlarmState::FreezeAlarm(_) => TempLongRecord {
            low_alarm_seconds: (rec.low_alarm_seconds + delta) as u32,
            ..rec
        },
        _ => rec,
    }
}

/// Persistence upgrade: a hot or freeze excursion that has lasted past its
/// threshold is promoted to the alarmed sub-state, keeping its start.
pub open spec fn persistence_upgraded(st: AlarmState, now: Timestamp) -> AlarmState {
    match st {
        AlarmState::HotNoAlarm(hot_start) => if now.seconds - hot_start.seconds
            >= ALARM_HIGH_SECONDS {
            AlarmState::HotAlarm(hot_start)
        } else {
            st
        },
        AlarmState::FreezeNoAlarm(cold_ts) => if now.seconds - cold_ts.freeze_start.seconds
            >= ALARM_LOW_SECONDS {
            AlarmState::FreezeAlarm(cold_ts)
        } else {
            st
        },
        _ => st,
    }
}

/// The transition taken by a present vaccine reading, as a pure function of
/// the (possibly just-upgraded) state, the reading and the timestamp.
pub open spec fn next_status(st: AlarmState, cv: i32, now: Timestamp) -> AlarmState {
    match st {
        AlarmState::HotAlarm(hot_start) => hot_next(hot_start, cv, now),
        AlarmState::HotNoAlarm(hot_start) => hot_next(hot_start, cv, now),
        AlarmState::FreezeAlarm(cold_ts) => freeze_next(cold_ts, cv, now),
        AlarmState::FreezeNoAlarm(cold_ts) => freeze_next(cold_ts, cv, now),
        AlarmState::Cold(cool_start) => if cv <= ALARM_LOW_TEMPERATURE {
            AlarmState::FreezeNoAlarm(ColdTS { cool_start, freeze_start: now })
        } else if cv < MIN_GOOD_VACCINE_TEMP {
            AlarmState::Cold(cool_start)
        } else if cv > MAX_GOOD_VACCINE_TEMP {
            AlarmState::HotNoAlarm(now)
        } else {
            AlarmState::InRange
        },
        AlarmState::InRange => if cv > MAX_GOOD_VACCINE_TEMP {
            AlarmState::HotNoAlarm(now)
        } else if cv < MIN_GOOD_VACCINE_TEMP {
            if cv <= ALARM_LOW_TEMPERATURE {
                AlarmState::FreezeNoAlarm(ColdTS { cool_start: now, freeze_start: now })
            } else {
                AlarmState::Cold(now)
            }
        } else {
            AlarmState::InRange
        },
    }
}

/// Where a reading sends a hot state: stay hot (re-checking persistence),
/// drop to freeze or cold, or return in range.
pub open spec fn hot_next(hot_start: Timestamp, cv: i32, now: Timestamp) -> AlarmState {
    if cv > MAX_GOOD_VACCINE_TEMP {
        if now.seconds - hot_start.seconds >= ALARM_HIGH_SECONDS {
            AlarmState::HotAlarm(hot_start)
        } else {
            AlarmState::HotNoAlarm(hot_start)
        }
    } else if cv < MIN_GOOD_VACCINE_TEMP {
        if cv <= ALARM_LOW_TEMPERATURE {
            AlarmState::FreezeNoAlarm(ColdTS { cool_start: now, freeze_start: now })
        } else {
            AlarmState::Cold(now)
        }
    } else {
        AlarmState::InRange
    }
}

/// Where a reading sends a freeze state: stay frozen (re-checking
/// persistence), warm to cold keeping the original cool start, jump to hot,
/// or return in range.
pub open spec fn freeze_next(cold_ts: ColdTS, cv: i32, now: Timestamp) -> AlarmState {
    if cv <= ALARM_LOW_TEMPERATURE {
        if now.seconds - cold_ts.freeze_start.seconds >= ALARM_LOW_SECONDS {
            AlarmState::FreezeAlarm(cold_ts)
        } else {
            AlarmState::FreezeNoAlarm(cold_ts)
        }
    } else if cv < MIN_GOOD_VACCINE_TEMP {
        AlarmState::Cold(cold_ts.cool_start)
    } else if cv > MAX_GOOD_VACCINE_TEMP {
        AlarmState::HotNoAlarm(now)
    } else {
        AlarmState::InRange
    }
}

impl TemperatureAggregator {
    /// The latest timestamp this aggregator has been given: the last sample's
    /// timestamp or a later excursion start recorded at construction.  The
    /// ordering contract asks every new sample to be no earlier.
    pub open spec fn last_seen(self) -> int {
        if status_start_max(self.status) >= self.last_short_sample_ts.seconds {
            status_start_max(self.status)
        } else {
            self.last_short_sample_ts.seconds as int
        }
    }

    /// Counters never outrun the clock, the integrals are bounded by the
    /// seconds they cover, and the running minimum never exceeds the running
    /// maximum.
    pub open spec fn wf(self) -> bool {
        &&& self.long_record.tvc_seconds <= self.last_short_sample_ts.seconds
        &&& self.long_record.tamb_seconds <= self.last_short_sample_ts.seconds
        &&& self.long_record.tvc_low_seconds <= self.last_short_sample_ts.seconds
        &&& self.long_record.tvc_high_seconds <= self.last_short_sample_ts.seconds
        &&& self.long_record.low_alarm_seconds <= self.last_short_sample_ts.seconds
        &&& self.long_record.high_alarm_seconds <= self.last_short_sample_ts.seconds
        &&& -(TEMP_PAIR_BOUND as int) * self.long_record.tvc_seconds <= self.long_record.tvc_sum
            <= (TEMP_PAIR_BOUND as int) * self.long_record.tvc_seconds
        &&& -(TEMP_PAIR_BOUND as int) * self.long_record.tamb_seconds <= self.long_record.tamb_sum
            <= (TEMP_PAIR_BOUND as int) * self.long_record.tamb_seconds
        &&& self.long_record.tvc_min <= self.long_record.tvc_max
    }

    /// The state after one sample: the elapsed interval is integrated and
    /// booked, persistence is re-checked, and a present vaccine reading
    /// drives the state machine.
    pub open spec fn after_sample(self, temps: TemperatureSample, now: Timestamp)
        -> TemperatureAggregator {
        let delta = now.seconds - self.last_short_sample_ts.seconds;
        let rec = with_alarm_dwell(
            with_ambient_integration(
                with_range_dwell(
                    with_vaccine_integration(
                        self.long_record,
                        self.last_vaccine_temp,
                        temps.vaccine,
                        delta,
                    ),
                    self.last_vaccine_temp,
                    delta,
                ),
                self.last_ambient_temp,
                temps.ambient,
                delta,
            ),
            self.status,
            delta,
        );
        let upgraded = persistence_upgraded(self.status, now);
        let high_start = match self.status {
            AlarmState::HotNoAlarm(hot_start) => if now.seconds - hot_start.seconds
                >= ALARM_HIGH_SECONDS {
                Some(hot_start)
            } else {
                self.high_alarm_start
            },
            _ => self.high_alarm_start,
        };
        let low_start = match self.status {
            AlarmState::FreezeNoAlarm(cold_ts) => if now.seconds - cold_ts.freeze_start.seconds
                >= ALARM_LOW_SECONDS {
                Some(cold_ts.freeze_start)
            } else {
                self.low_alarm_start
            },
            _ => self.low_alarm_start,
        };
        let st = match temps.vaccine {
            Some(cv) => next_status(upgraded, cv, now),
            None => upgraded,
        };
        TemperatureAggregator {
            status: st,
            last_short_sample_ts: now,
            prev_long_sample_ended: self.prev_long_sample_ended,
            last_ambient_temp: match temps.ambient {
                Some(_) => temps.ambient,
                None => self.last_ambient_temp,
            },
            last_vaccine_temp: match temps.vaccine {
                Some(_) => temps.vaccine,
                None => self.last_vaccine_temp,
            },
            last_ambient_ts: match temps.ambient {
                Some(_) => Some(now),
                None => self.last_ambient_ts,
            },
            last_vaccine_ts: match temps.vaccine {
                Some(_) => Some(now),
                None => self.last_vaccine_ts,
            },
            low_alarm_start: low_start,
            high_alarm_start: high_start,
            long_record: rec,
        }
    }

    /// Create a new temperature aggregator from the present temperatures and
    /// timestamp.
    pub fn new(temps: TemperatureSample, now: Timestamp) -> (r: TemperatureAggregator)
        ensures
            r.status == initial_status(temps.vaccine, now),
            r.last_short_sample_ts.seconds == floor_to_period(now.seconds, SHORT_SAMPLE_PERIOD),
            r.prev_long_sample_ended.seconds == floor_to_period(now.seconds, LONG_SAMPLE_PERIOD),
            r.last_ambient_temp == temps.ambient,
            r.last_vaccine_temp == temps.vaccine,
            r.last_ambient_ts == (if temps.ambient is Some {
                Some(r.last_short_sample_ts)
            } else {
                None::<Timestamp>
            }),
            r.last_vaccine_ts == (if temps.vaccine is Some {
                Some(r.last_short_sample_ts)
            } else {
                None::<Timestamp>
            }),
            r.low_alarm_start is None && r.high_alarm_start is None,
            r.long_record == (match temps.vaccine {
                Some(v) => TempLongRecord { tvc_min: v, tvc_max: v, ..record_zero() },
                None => record_zero(),
            }),
            r.wf(),
            r.last_seen() == now.seconds,
    {
        let last_short_sample_ts = now.get_last_short_sample_end();
        let prev_long_sample_ended = now.get_last_long_sample_end();
        let mut long_record = TempLongRecord::default();

        let last_ambient_temp = temps.ambient;
        let last_vaccine_temp = temps.vaccine;

        // A present reading is assumed aligned with the grid position.
        let last_ambient_ts = if last_ambient_temp.is_some() {
            Some(last_short_sample_ts)
        } else {
            None
        };
        let last_vaccine_ts = if last_vaccine_temp.is_some() {
            Some(last_short_sample_ts)
        } else {
            None
        };

        if let Some(vaccine_temp) = last_vaccine_temp {
            long_record.tvc_min = vaccine_temp;
            long_record.tvc_max = vaccine_temp;
        }

        // The vaccine temperature, or the assumed room temperature when none
        // is available, picks the initial state.
        let tvc_value = if let Some(tvc_value) = last_vaccine_temp {
            tvc_value
        } else {
            ASSUMED_ROOM_TEMP
        };

        let status = if tvc_value > MAX_GOOD_VACCINE_TEMP {
            AlarmState::HotNoAlarm(now)
        } else if tvc_value < MIN_GOOD_VACCINE_TEMP && tvc_value > ALARM_LOW_TEMPERATURE {
            AlarmState::Cold(now)
        } else {
            AlarmState::FreezeNoAlarm(ColdTS { cool_start: now, freeze_start: now })
        };

        TemperatureAggregator {
            status,
            last_short_sample_ts,
            prev_long_sample_ended,
            last_ambient_temp,
            last_vaccine_temp,
            last_ambient_ts,
            last_vaccine_ts,
            low_alarm_start: None,
            high_alarm_start: None,
            long_record,
        }
    }

    /// Add a temperature sample to the aggregator.  The sample's timestamp
    /// must be no earlier than anything the aggregator has seen; the state
    /// becomes exactly [`TemperatureAggregator::after_sample`].
    #[verifier::rlimit(100)]
    pub fn add_sample(&mut self, temps: TemperatureSample, now: Timestamp)
        requires
            old(self).wf(),
            now.seconds >= old(self).last_seen(),
        ensures
            *final(self) == old(self).after_sample(temps, now),
            final(self).wf(),
            final(self).last_seen() == now.seconds,
            final(self).long_record.tvc_min <= final(self).long_record.tvc_max,
            // Between finalizes the counters only grow.
            final(self).long_record.tvc_seconds >= old(self).long_record.tvc_seconds,
            final(self).long_record.tamb_seconds >= old(self).long_record.tamb_seconds,
            final(self).long_record.tvc_low_seconds >= old(self).long_record.tvc_low_seconds,
            final(self).long_record.tvc_high_seconds >= old(self).long_record.tvc_high_seconds,
            final(self).long_record.low_alarm_seconds >= old(self).long_record.low_alarm_seconds,
            final(self).long_record.high_alarm_seconds >= old(
                self,
            ).long_record.high_alarm_seconds,
    {
        let TemperatureSample { ambient, vaccine } = temps;
        let time_delta = now.seconds - self.last_short_sample_ts.seconds;

        // Trapezoidal integration for the vaccine channel, with range dwell
        // booked on the previous reading.
        if let Some(prev_vaccine) = self.last_vaccine_temp {
            let current = if let Some(v) = vaccine {
                v
            } else {
                prev_vaccine
            };
            proof {
                lemma_integral_step(
                    self.long_record.tvc_sum as int,
                    self.long_record.tvc_seconds as int,
                    prev_vaccine as int,
                    current as int,
                    time_delta as int,
                );
            }
            let increment = (prev_vaccine as i128 + current as i128) * (time_delta as i128);
            self.long_record.tvc_sum = self.long_record.tvc_sum + increment;
            self.long_record.tvc_seconds = self.long_record.tvc_seconds + time_delta;

            if let Some(current_vaccine) = vaccine {
                if self.long_record.tvc_seconds == time_delta {
                    // First interval of this record: seed min/max from the
                    // pair of endpoints.
                    self.long_record.tvc_min = if prev_vaccine < current_vaccine {
                        prev_vaccine
                    } else {
                        current_vaccine
                    };
                    self.long_record.tvc_max = if prev_vaccine > current_vaccine {
                        prev_vaccine
                    } else {
                        current_vaccine
                    };
                } else {
                    if current_vaccine < self.long_record.tvc_min {
                        self.long_record.tvc_min = current_vaccine;
                    }
                    if current_vaccine > self.long_record.tvc_max {
                        self.long_record.tvc_max = current_vaccine;
                    }
                }
            }
            if prev_vaccine > MAX_GOOD_VACCINE_TEMP {
                self.long_record.tvc_high_seconds = self.long_record.tvc_high_seconds + time_delta;
            } else if prev_vaccine < MIN_GOOD_VACCINE_TEMP {
                self.long_record.tvc_low_seconds = self.long_record.tvc_low_seconds + time_delta;
            }
        } else if let Some(current_vaccine) = vaccine {
            // First vaccine reading ever: seed min/max without integrating.
            self.long_record.tvc_min = current_vaccine;
            self.long_record.tvc_max = current_vaccine;
        }

        // Trapezoidal integration for the ambient channel.
        if let Some(prev_ambient) = self.last_ambient_temp {
            let current_ambient = if let Some(v) = ambient {
                v
            } else {
                prev_ambient
            };
            proof {
                lemma_integral_step(
                    self.long_record.tamb_sum as int,
                    self.long_record.tamb_seconds as int,
                    prev_ambient as int,
                    current_ambient as int,
                    time_delta as int,
                );
            }
            let increment = (prev_ambient as i128 + current_ambient as i128) * (time_delta
                as i128);
            self.long_record.tamb_sum = self.long_record.tamb_sum + increment;
            self.long_record.tamb_seconds = self.long_record.tamb_seconds + time_delta;
        }

        // Alarm dwell for an already persisted alarm, and persistence
        // upgrades for excursions past their thresholds.
        match self.status {
            AlarmState::HotAlarm(_) => {
                self.long_record.high_alarm_seconds = self.long_record.high_alarm_seconds
                    + time_delta;
            },
            AlarmState::FreezeAlarm(_) => {
                self.long_record.low_alarm_seconds = self.long_record.low_alarm_seconds
                    + time_delta;
            },
            AlarmState::HotNoAlarm(hot_start) => {
                if now.seconds - hot_start.seconds >= ALARM_HIGH_SECONDS {
                    self.status = AlarmState::HotAlarm(hot_start);
                    self.high_alarm_start = Some(hot_start);
                }
            },
            AlarmState::FreezeNoAlarm(cold_ts) => {
                if now.seconds - cold_ts.freeze_start.seconds >= ALARM_LOW_SECONDS {
                    self.status = AlarmState::FreezeAlarm(cold_ts);
                    self.low_alarm_start = Some(cold_ts.freeze_start);
                }
            },
            _ => {},
        }

        // A present vaccine reading drives the state machine.
        if let Some(current_vaccine) = vaccine {
            self.status = match self.status {
                AlarmState::HotAlarm(hot_start) | AlarmState::HotNoAlarm(hot_start) => {
                    if current_vaccine > MAX_GOOD_VACCINE_TEMP {
                        if now.seconds - hot_start.seconds >= ALARM_HIGH_SECONDS {
                            AlarmState::HotAlarm(hot_start)
                        } else {
                            AlarmState::HotNoAlarm(hot_start)
                        }
                    } else if current_vaccine < MIN_GOOD_VACCINE_TEMP {
                        if current_vaccine <= ALARM_LOW_TEMPERATURE {
                            AlarmState::FreezeNoAlarm(
                                ColdTS { cool_start: now, freeze_start: now },
                            )
                        } else {
                            AlarmState::Cold(now)
                        }
                    } else {
                        AlarmState::InRange
                    }
                },
                AlarmState::FreezeAlarm(cold_ts) | AlarmState::FreezeNoAlarm(cold_ts) => {
                    if current_vaccine <= ALARM_LOW_TEMPERATURE {
                        if now.seconds - cold_ts.freeze_start.seconds >= ALARM_LOW_SECONDS {
                            AlarmState::FreezeAlarm(cold_ts)
                        } else {
                            AlarmState::FreezeNoAlarm(cold_ts)
                        }
                    } else if current_vaccine < MIN_GOOD_VACCINE_TEMP {
                        AlarmState::Cold(cold_ts.cool_start)
                    } else if current_vaccine > MAX_GOOD_VACCINE_TEMP {
                        AlarmState::HotNoAlarm(now)
                    } else {
                        AlarmState::InRange
                    }
                },
                AlarmState::Cold(cool_start) => {
                    if current_vaccine <= ALARM_LOW_TEMPERATURE {
                        AlarmState::FreezeNoAlarm(ColdTS { cool_start, freeze_start: now })
                    } else if current_vaccine < MIN_GOOD_VACCINE_TEMP {
                        AlarmState::Cold(cool_start)
                    } else if current_vaccine > MAX_GOOD_VACCINE_TEMP {
                        AlarmState::HotNoAlarm(now)
                    } else {
                        AlarmState::InRange
                    }
                },
                AlarmState::InRange => {
                    if current_vaccine > MAX_GOOD_VACCINE_TEMP {
                        AlarmState::HotNoAlarm(now)
                    } else if current_vaccine < MIN_GOOD_VACCINE_TEMP {
                        if current_vaccine <= ALARM_LOW_TEMPERATURE {
                            AlarmState::FreezeNoAlarm(
                                ColdTS { cool_start: now, freeze_start: now },
                            )
                        } else {
                            AlarmState::Cold(now)
                        }
                    } else {
                        AlarmState::InRange
                    }
                },
            };
        }

        // Record which channels reported.
        self.last_short_sample_ts = now;
        if let Some(new_ambient) = ambient {
            self.last_ambient_temp = Some(new_ambient);
            self.last_ambient_ts = Some(now);
        }
        if let Some(new_vaccine) = vaccine {
            self.last_vaccine_temp = Some(new_vaccine);
            self.last_vaccine_ts = Some(now);
        }
    }

    /// Determine if there is a low temperature alarm in progress as of the
    /// most recent sample (using its timestamp).
    pub fn is_low_alarm(&self) -> (r: bool)
        ensures
            r == (self.status matches AlarmState::FreezeAlarm(_)),
    {
        matches!(self.status, AlarmState::FreezeAlarm(_))
    }

    /// Determine if there is a high temperature alarm in progress as of the
    /// most recent sample (using its timestamp).
    pub fn is_high_alarm(&self) -> (r: bool)
        ensures
            r == (self.status matches AlarmState::HotAlarm(_)),
    {
        matches!(self.status, AlarmState::HotAlarm(_))
    }

    /// Returns the data in the present long record so that it may be saved,
    /// resets the record to all zeros, and moves the long-window boundary to
    /// the last processed sample.  The alarm state and its embedded start
    /// timestamps are untouched: an excursion keeps its persistence clock
    /// across the boundary.
    pub fn finalize_long_record(&mut self) -> (r: TempLongRecord)
        ensures
            r == old(self).long_record,
            *final(self) == (TemperatureAggregator {
                long_record: record_zero(),
                prev_long_sample_ended: old(self).last_short_sample_ts,
                ..*old(self)
            }),
            old(self).wf() ==> final(self).wf(),
    {
        let record = self.long_record;
        self.long_record = TempLongRecord::default();
        self.prev_long_sample_ended = self.last_short_sample_ts;
        record
    }
}

/// One integration step stays within bounds: the increment `(p + c) * delta`
/// fits beside a sum bounded by the covered seconds, and the new sum is
/// bounded by the new covered seconds.
proof fn lemma_integral_step(sum: int, secs: int, p: int, c: int, delta: int)
    requires
        -(TEMP_PAIR_BOUND as int) * secs <= sum <= (TEMP_PAIR_BOUND as int) * secs,
        i32::MIN <= p <= i32::MAX,
        i32::MIN <= c <= i32::MAX,
        0 <= secs <= u32::MAX,
        0 <= delta <= u32::MAX,
    ensures
        -(TEMP_PAIR_BOUND as int) * delta <= (p + c) * delta <= (TEMP_PAIR_BOUND as int) * delta,
        -(TEMP_PAIR_BOUND as int) * (secs + delta) <= sum + (p + c) * delta <= (TEMP_PAIR_BOUND
            as int) * (secs + delta),
        (TEMP_PAIR_BOUND as int) * (secs + delta) < i128::MAX,
{
    assert(-(TEMP_PAIR_BOUND as int) * delta <= (p + c) * delta <= (TEMP_PAIR_BOUND as int)
        * delta) by (nonlinear_arith)
        requires
            -(TEMP_PAIR_BOUND as int) <= p + c <= (TEMP_PAIR_BOUND as int),
            0 <= delta;
    assert((TEMP_PAIR_BOUND as int) * (secs + delta) == (TEMP_PAIR_BOUND as int) * secs + (
    TEMP_PAIR_BOUND as int) * delta) by (nonlinear_arith);
    assert((-(TEMP_PAIR_BOUND as int)) * (secs + delta) == (-(TEMP_PAIR_BOUND as int)) * secs + (-(
    TEMP_PAIR_BOUND as int)) * delta) by (nonlinear_arith);
    assert((-(TEMP_PAIR_BOUND as int)) * secs == -((TEMP_PAIR_BOUND as int) * secs))
        by (nonlinear_arith);
    assert((-(TEMP_PAIR_BOUND as int)) * delta == -((TEMP_PAIR_BOUND as int) * delta))
        by (nonlinear_arith);
    assert((TEMP_PAIR_BOUND as int) * (secs + delta) <= (TEMP_PAIR_BOUND as int) * (u32::MAX as int
        + u32::MAX as int)) by (nonlinear_arith)
        requires
            0 <= secs + delta <= u32::MAX as int + u32::MAX as int;
}

impl Default for TempLongRecord {
    /// The all-zero record.
    fn default() -> (r: TempLongRecord)
        ensures
            r == record_zero(),
    {
        TempLongRecord {
            tvc_sum: 0,
            tvc_seconds: 0,
            tvc_min: 0,
            tvc_max: 0,
            tamb_sum: 0,
            tamb_seconds: 0,
            tvc_low_seconds: 0,
            tvc_high_seconds: 0,
            low_alarm_seconds: 0,
            high_alarm_seconds: 0,
        }
    }
}

impl Default for TemperatureSample {
    /// A sample with both readings absent.
    fn default() -> (r: TemperatureSample)
        ensures
            r.ambient is None && r.vaccine is None,
    {
        TemperatureSample { ambient: None, vaccine: None }
    }
}

} // verus!
