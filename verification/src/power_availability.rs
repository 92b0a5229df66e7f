//! Mains-power availability tracking: on/off events, accumulated powered
//! (on) durations over two independently resettable sampling windows, and an
//! extended-outage alarm threshold.
//!
//! The tracker mirrors the door tracker structurally, but its alarm watches
//! the opposite transition: the accumulators measure on-time, while the alarm
//! latches on an off-interval of at least a day — detected retroactively when
//! power returns, and reported live while the outage is still running.

use crate::timestamp::LONG_SAMPLE_PERIOD;
use crate::timestamp::SHORT_SAMPLE_PERIOD;
use crate::timestamp::Timestamp;
use crate::timestamp::TimestampError;
use crate::timestamp::floor_to_period;
use vstd::prelude::*;

verus! {

/// An outage of at least this many seconds raises the power alarm.
pub const POWER_ALARM_THRESHOLD: u32 = 86400;

/// A power event with the timestamp at which it happened.
#[derive(Debug, Clone, Copy, PartialEq)]
pub enum PowerEvent {
    On(Timestamp),
    Off(Timestamp),
}

impl PowerEvent {
    /// The timestamp the event carries.
    pub open spec fn ts(self) -> Timestamp {
        match self {
            PowerEvent::On(t) => t,
            PowerEvent::Off(t) => t,
        }
    }
}

/// The power tracker's state.
#[derive(Debug, Clone, Copy, PartialEq)]
pub struct PowerAvailability {
    /// Present status, carrying when power last turned on or off.
    pub status: PowerEvent,
    /// Timestamp of the last event or reset.
    pub last_event_ts: Timestamp,
    /// When the previous short sampling window ended.
    pub prev_short_sample_ended: Timestamp,
    /// When the previous long sampling window ended.
    pub prev_long_sample_ended: Timestamp,
    /// Powered seconds accumulated into the short window.
    pub short_power_accum: u32,
    /// Powered seconds accumulated into the long window.
    pub long_power_accum: u32,
    /// Latched alarm flag of the short window.
    pub short_alarmed: bool,
    /// Latched alarm flag of the long window.
    pub long_alarmed: bool,
}

impl PowerAvailability {
    /// The status timestamp never outruns the clock, and the accumulators are
    /// bounded by the on timestamp while powered and by the last event
    /// timestamp while not.  This keeps every duration sum inside a `u32`.
    pub open spec fn wf(self) -> bool {
        match self.status {
            PowerEvent::On(t) => t.seconds <= self.last_event_ts.seconds && self.short_power_accum
                <= t.seconds && self.long_power_accum <= t.seconds,
            PowerEvent::Off(t) => t.seconds <= self.last_event_ts.seconds
                && self.short_power_accum <= self.last_event_ts.seconds && self.long_power_accum
                <= self.last_event_ts.seconds,
        }
    }

    /// Would the tracker accept an event or reset at `ts`?
    pub open spec fn accepts(self, ts: Timestamp) -> bool {
        ts.seconds >= self.last_event_ts.seconds
    }

    /// The state after an accepted event.  Power returning after an outage
    /// latches both alarm flags on whether the outage reached the threshold;
    /// power going away after an on-interval adds that interval to both
    /// accumulators.  The status always becomes the event itself.
    pub open spec fn after_event(self, event: PowerEvent) -> PowerAvailability {
        match event {
            PowerEvent::On(ts) => match self.status {
                PowerEvent::Off(off) => PowerAvailability {
                    status: event,
                    last_event_ts: ts,
                    short_alarmed: ts.seconds - off.seconds >= POWER_ALARM_THRESHOLD,
                    long_alarmed: ts.seconds - off.seconds >= POWER_ALARM_THRESHOLD,
                    ..self
                },
                PowerEvent::On(_) => PowerAvailability { status: event, last_event_ts: ts, ..self },
            },
            PowerEvent::Off(ts) => match self.status {
                PowerEvent::On(on) => PowerAvailability {
                    status: event,
                    last_event_ts: ts,
                    short_power_accum: (self.short_power_accum + (ts.seconds - on.seconds)) as u32,
                    long_power_accum: (self.long_power_accum + (ts.seconds - on.seconds)) as u32,
                    ..self
                },
                PowerEvent::Off(_) => PowerAvailability {
                    status: event,
                    last_event_ts: ts,
                    ..self
                },
            },
        }
    }

    /// Seconds power has been on as of `check_time`, clamped to zero while
    /// off or when `check_time` precedes the on timestamp.
    pub open spec fn live_on_seconds(self, check_time: Timestamp) -> int {
        match self.status {
            PowerEvent::On(on) => if check_time.seconds < on.seconds {
                0
            } else {
                check_time.seconds - on.seconds
            },
            PowerEvent::Off(_) => 0,
        }
    }

    /// Is power off and the outage at or past the alarm threshold at `now`?
    pub open spec fn live_off_past_threshold(self, now: Timestamp) -> bool {
        match self.status {
            PowerEvent::Off(off) => now.seconds >= off.seconds + POWER_ALARM_THRESHOLD,
            PowerEvent::On(_) => false,
        }
    }

    /// Create a new PowerAvailability instance with the current power state.
    pub fn new(on: bool, now: Timestamp) -> (r: PowerAvailability)
        ensures
            r.status == (if on {
                PowerEvent::On(now)
            } else {
                PowerEvent::Off(now)
            }),
            r.last_event_ts == now,
            r.prev_short_sample_ended.seconds == floor_to_period(now.seconds, SHORT_SAMPLE_PERIOD),
            r.prev_long_sample_ended.seconds == floor_to_period(now.seconds, LONG_SAMPLE_PERIOD),
            r.short_power_accum == 0 && r.long_power_accum == 0,
            !r.short_alarmed && !r.long_alarmed,
            r.wf(),
    {
        let sample_ts = now.get_last_short_sample_end();
        let prev_long_sample_ended = now.get_last_long_sample_end();
        let status = if on {
            PowerEvent::On(now)
        } else {
            PowerEvent::Off(now)
        };
        PowerAvailability {
            status,
            last_event_ts: now,
            prev_short_sample_ended: sample_ts,
            prev_long_sample_ended,
            short_power_accum: 0,
            long_power_accum: 0,
            short_alarmed: false,
            long_alarmed: false,
        }
    }

    /// Records an event.  An out-of-order timestamp is rejected and leaves
    /// the state untouched; an accepted event drives the state to exactly
    /// [`PowerAvailability::after_event`].
    pub fn log_event(&mut self, event: PowerEvent) -> (r: Result<(), TimestampError>)
        requires
            old(self).wf(),
        ensures
            r is Ok <==> old(self).accepts(event.ts()),
            r is Ok ==> *final(self) == old(self).after_event(event),
            r is Err ==> *final(self) == *old(self) && r == Err::<(), TimestampError>(
                TimestampError::OutOfOrder,
            ),
            final(self).wf(),
    {
        let timestamp = match event {
            PowerEvent::On(ts) => ts,
            PowerEvent::Off(ts) => ts,
        };
        self.validate_timestamp_and_update(&timestamp)?;
        match event {
            PowerEvent::On(timestamp) => {
                if let PowerEvent::Off(off) = self.status {
                    let duration = timestamp.seconds - off.seconds;
                    self.short_alarmed = duration >= POWER_ALARM_THRESHOLD;
                    self.long_alarmed = duration >= POWER_ALARM_THRESHOLD;
                }
            },
            PowerEvent::Off(timestamp) => {
                if let PowerEvent::On(on) = self.status {
                    let duration = timestamp.seconds - on.seconds;
                    self.short_power_accum += duration;
                    self.long_power_accum += duration;
                }
            },
        }
        self.status = event;
        Ok(())
    }

    /// The short window's powered seconds, an in-progress on-interval
    /// included.
    pub fn get_short_sample(&self, check_time: Timestamp) -> (r: u32)
        requires
            self.wf(),
        ensures
            r == self.short_power_accum + self.live_on_seconds(check_time),
    {
        let presently_on_seconds = if let PowerEvent::On(on) = self.status {
            if check_time.seconds < on.seconds {
                0
            } else {
                check_time.seconds - on.seconds
            }
        } else {
            0
        };
        self.short_power_accum + presently_on_seconds
    }

    /// The long window's powered seconds, an in-progress on-interval
    /// included.
    pub fn get_long_sample(&self, check_time: Timestamp) -> (r: u32)
        requires
            self.wf(),
        ensures
            r == self.long_power_accum + self.live_on_seconds(check_time),
    {
        let presently_on_seconds = if let PowerEvent::On(on) = self.status {
            if check_time.seconds < on.seconds {
                0
            } else {
                check_time.seconds - on.seconds
            }
        } else {
            0
        };
        self.long_power_accum + presently_on_seconds
    }

    /// Zeroes the short window and records its new boundary; the long window
    /// and the power status are untouched.
    pub fn reset_short_sample(&mut self, timestamp: Timestamp) -> (r: Result<(), TimestampError>)
        requires
            old(self).wf(),
        ensures
            r is Ok <==> old(self).accepts(timestamp),
            r is Ok ==> *final(self) == (PowerAvailability {
                last_event_ts: timestamp,
                prev_short_sample_ended: timestamp,
                short_power_accum: 0,
                short_alarmed: false,
                ..*old(self)
            }),
            r is Err ==> *final(self) == *old(self) && r == Err::<(), TimestampError>(
                TimestampError::OutOfOrder,
            ),
            final(self).wf(),
    {
        self.validate_timestamp_and_update(&timestamp)?;
        self.prev_short_sample_ended = timestamp;
        self.short_power_accum = 0;
        self.short_alarmed = false;
        Ok(())
    }

    /// Zeroes the long window and records its new boundary; the short window
    /// and the power status are untouched.
    pub fn reset_long_sample(&mut self, timestamp: Timestamp) -> (r: Result<(), TimestampError>)
        requires
            old(self).wf(),
        ensures
            r is Ok <==> old(self).accepts(timestamp),
            r is Ok ==> *final(self) == (PowerAvailability {
                last_event_ts: timestamp,
                prev_long_sample_ended: timestamp,
                long_power_accum: 0,
                long_alarmed: false,
                ..*old(self)
            }),
            r is Err ==> *final(self) == *old(self) && r == Err::<(), TimestampError>(
                TimestampError::OutOfOrder,
            ),
            final(self).wf(),
    {
        self.validate_timestamp_and_update(&timestamp)?;
        self.prev_long_sample_ended = timestamp;
        self.long_power_accum = 0;
        self.long_alarmed = false;
        Ok(())
    }

    /// Is the short window alarmed: either latched by a past outage, or power
    /// is off and at or past the threshold right now.
    pub fn is_short_sample_alarmed(&self, now: Timestamp) -> (r: bool)
        ensures
            r == (self.short_alarmed || self.live_off_past_threshold(now)),
    {
        let off_long = if let PowerEvent::Off(off) = self.status {
            (now.seconds as u64) >= (off.seconds as u64) + (POWER_ALARM_THRESHOLD as u64)
        } else {
            false
        };
        self.short_alarmed || off_long
    }

    /// Is the long window alarmed: either latched by a past outage, or power
    /// is off and at or past the threshold right now.
    pub fn is_long_sample_alarmed(&self, now: Timestamp) -> (r: bool)
        ensures
            r == (self.long_alarmed || self.live_off_past_threshold(now)),
    {
        let off_long = if let PowerEvent::Off(off) = self.status {
            (now.seconds as u64) >= (off.seconds as u64) + (POWER_ALARM_THRESHOLD as u64)
        } else {
            false
        };
        self.long_alarmed || off_long
    }

    /// Rejects a timestamp before the last accepted one; otherwise records it.
    fn validate_timestamp_and_update(&mut self, timestamp: &Timestamp) -> (r: Result<
        (),
        TimestampError,
    >)
        ensures
            r is Ok <==> old(self).accepts(*timestamp),
            r is Ok ==> *final(self) == (PowerAvailability {
                last_event_ts: *timestamp,
                ..*old(self)
            }),
            r is Err ==> *final(self) == *old(self) && r == Err::<(), TimestampError>(
                TimestampError::OutOfOrder,
            ),
    {
        if timestamp.seconds < self.last_event_ts.seconds {
            return Err(TimestampError::OutOfOrder);
        }
        self.last_event_ts = *timestamp;
        Ok(())
    }
}

impl Default for PowerAvailability {
    /// Power off at the epoch.
    fn default() -> (r: PowerAvailability)
        ensures
            r == (PowerAvailability {
                status: PowerEvent::Off(Timestamp { seconds: 0 }),
                last_event_ts: Timestamp { seconds: 0 },
                prev_short_sample_ended: Timestamp { seconds: 0 },
                prev_long_sample_ended: Timestamp { seconds: 0 },
                short_power_accum: 0,
                long_power_accum: 0,
                short_alarmed: false,
                long_alarmed: false,
            }),
            r.wf(),
    {
        let now = Timestamp { seconds: 0 };
        PowerAvailability {
            status: PowerEvent::Off(now),
            last_event_ts: now,
            prev_short_sample_ended: now,
            prev_long_sample_ended: now,
            short_power_accum: 0,
            long_power_accum: 0,
            short_alarmed: false,
            long_alarmed: false,
        }
    }
}

/// Are the events' timestamps non-decreasing, and the first no earlier than
/// the tracker's last event?
pub open spec fn power_events_in_order(p: PowerAvailability, evs: Seq<PowerEvent>) -> bool {
    &&& (evs.len() > 0 ==> evs[0].ts().seconds >= p.last_event_ts.seconds)
    &&& (forall|i: int|
        0 <= i < evs.len() - 1 ==> (#[trigger] evs[i].ts()).seconds <= evs[i + 1].ts().seconds)
}

/// The state after replaying a sequence of events, first to last.
pub open spec fn power_replay(p: PowerAvailability, evs: Seq<PowerEvent>) -> PowerAvailability
    decreases evs.len(),
{
    if evs.len() == 0 {
        p
    } else {
        power_replay(p.after_event(evs[0]), evs.drop_first())
    }
}

/// The summed lengths of the completed on-intervals in `evs`, starting from
/// power on since `on` (or off, for `None`).  An off while on completes an
/// interval; an on while on restarts it.
pub open spec fn completed_on_seconds(on: Option<Timestamp>, evs: Seq<PowerEvent>) -> int
    decreases evs.len(),
{
    if evs.len() == 0 {
        0
    } else {
        match evs[0] {
            PowerEvent::On(t) => completed_on_seconds(Some(t), evs.drop_first()),
            PowerEvent::Off(t) => match on {
                Some(o) => (t.seconds - o.seconds) + completed_on_seconds(None, evs.drop_first()),
                None => completed_on_seconds(None, evs.drop_first()),
            },
        }
    }
}

/// The on timestamp of a status, if powered.
pub open spec fn on_start(status: PowerEvent) -> Option<Timestamp> {
    match status {
        PowerEvent::On(t) => Some(t),
        PowerEvent::Off(_) => None,
    }
}

/// An accepted event preserves well-formedness and stamps the event's time.
proof fn lemma_after_event_wf(p: PowerAvailability, event: PowerEvent)
    requires
        p.wf(),
        p.accepts(event.ts()),
    ensures
        p.after_event(event).wf(),
        p.after_event(event).last_event_ts == event.ts(),
{
}

/// Replaying in-order events never rejects one: every event in the sequence
/// is accepted by the state the events before it produced.  Afterwards both
/// powered-time accumulators have grown by exactly the summed lengths of the
/// completed on-intervals — and by the same amount, whatever the two windows'
/// reset histories were.
pub proof fn lemma_power_replay(p: PowerAvailability, evs: Seq<PowerEvent>)
    requires
        p.wf(),
        power_events_in_order(p, evs),
    ensures
        forall|i: int|
            0 <= i < evs.len() ==> (#[trigger] power_replay(p, evs.take(i))).accepts(evs[i].ts()),
        power_replay(p, evs).wf(),
        power_replay(p, evs).short_power_accum == p.short_power_accum + completed_on_seconds(
            on_start(p.status),
            evs,
        ),
        power_replay(p, evs).long_power_accum == p.long_power_accum + completed_on_seconds(
            on_start(p.status),
            evs,
        ),
    decreases evs.len(),
{
    if evs.len() > 0 {
        let p1 = p.after_event(evs[0]);
        lemma_after_event_wf(p, evs[0]);
        let rest = evs.drop_first();
        assert(power_events_in_order(p1, rest)) by {
            assert(forall|i: int|
                0 <= i < rest.len() - 1 ==> (#[trigger] rest[i].ts()).seconds <= rest[i
                    + 1].ts().seconds);
        }
        lemma_power_replay(p1, rest);
        assert(power_replay(p, evs) == power_replay(p1, rest));
        assert forall|i: int| 0 <= i < evs.len() implies (#[trigger] power_replay(
            p,
            evs.take(i),
        )).accepts(evs[i].ts()) by {
            if i == 0 {
                assert(evs.take(0) =~= Seq::<PowerEvent>::empty());
                assert(power_replay(p, evs.take(0)) == p);
            } else {
                assert(evs.take(i).drop_first() =~= rest.take(i - 1));
                assert(power_replay(p, evs.take(i)) == power_replay(p1, rest.take(i - 1)));
                assert(power_replay(p1, rest.take(i - 1)).accepts(rest[i - 1].ts()));
            }
        }
    }
}

} // verus!
