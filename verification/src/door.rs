//! Door dwell-time tracking: open/close events, accumulated open durations
//! over two independently resettable sampling windows, and a single-opening
//! alarm threshold.

use crate::timestamp::LONG_SAMPLE_PERIOD;
use crate::timestamp::SHORT_SAMPLE_PERIOD;
use crate::timestamp::Timestamp;
use crate::timestamp::TimestampError;
use crate::timestamp::floor_to_period;
use vstd::prelude::*;

verus! {

/// An opening longer than this many seconds raises the door alarm.
pub const DOOR_ALARM_THRESHOLD: u32 = 300;

/// A door event with the timestamp at which it happened.
#[derive(Debug, Clone, Copy, PartialEq)]
pub enum DoorEvent {
    Opened(Timestamp),
    Closed(Timestamp),
}

impl DoorEvent {
    /// The timestamp the event carries.
    pub open spec fn ts(self) -> Timestamp {
        match self {
            DoorEvent::Opened(t) => t,
            DoorEvent::Closed(t) => t,
        }
    }
}

/// The door tracker's state.
#[derive(Debug, Clone, Copy, PartialEq)]
pub struct Door {
    /// When the door was opened; `None` while it is closed.
    pub opened: Option<Timestamp>,
    /// Timestamp of the last event or reset.
    pub last_event_ts: Timestamp,
    /// When the previous short sampling window ended.
    pub prev_short_sample_ended: Timestamp,
    /// When the previous long sampling window ended.
    pub prev_long_sample_ended: Timestamp,
    /// Openings counted into the short window.
    pub short_open_count: u16,
    /// Open seconds accumulated into the short window.
    pub short_open_accum: u32,
    /// Openings counted into the long window.
    pub long_open_count: u16,
    /// Open seconds accumulated into the long window.
    pub long_open_accum: u32,
    /// Latched alarm flag of the short window.
    pub short_alarmed: bool,
    /// Latched alarm flag of the long window.
    pub long_alarmed: bool,
}

impl Door {
    /// The accumulators never outrun the clock: each one is bounded by the
    /// open timestamp while the door is open, and by the last event timestamp
    /// while it is closed.  This is what keeps every duration sum inside a
    /// `u32`.
    pub open spec fn wf(self) -> bool {
        match self.opened {
            Some(o) => o.seconds <= self.last_event_ts.seconds && self.short_open_accum
                <= o.seconds && self.long_open_accum <= o.seconds,
            None => self.short_open_accum <= self.last_event_ts.seconds && self.long_open_accum
                <= self.last_event_ts.seconds,
        }
    }

    /// Would the tracker accept an event or reset at `ts`?
    pub open spec fn accepts(self, ts: Timestamp) -> bool {
        ts.seconds >= self.last_event_ts.seconds
    }

    /// The state after an accepted event: an opening records its start and
    /// counts once into both windows; a close of an open door adds the open
    /// duration to both windows and latches both alarm flags on whether that
    /// one duration reached the threshold.
    pub open spec fn after_event(self, event: DoorEvent) -> Door {
        match event {
            DoorEvent::Opened(ts) => Door {
                opened: Some(ts),
                last_event_ts: ts,
                short_open_count: (self.short_open_count + 1) as u16,
                long_open_count: (self.long_open_count + 1) as u16,
                ..self
            },
            DoorEvent::Closed(ts) => match self.opened {
                Some(o) => Door {
                    opened: None,
                    last_event_ts: ts,
                    short_open_accum: (self.short_open_accum + (ts.seconds - o.seconds)) as u32,
                    long_open_accum: (self.long_open_accum + (ts.seconds - o.seconds)) as u32,
                    short_alarmed: ts.seconds - o.seconds >= DOOR_ALARM_THRESHOLD,
                    long_alarmed: ts.seconds - o.seconds >= DOOR_ALARM_THRESHOLD,
                    ..self
                },
                None => Door { last_event_ts: ts, ..self },
            },
        }
    }

    /// Seconds the door has been open as of `check_time`, clamped to zero
    /// while it is closed or when `check_time` precedes the opening.
    pub open spec fn live_open_seconds(self, check_time: Timestamp) -> int {
        match self.opened {
            Some(o) => if check_time.seconds < o.seconds {
                0
            } else {
                check_time.seconds - o.seconds
            },
            None => 0,
        }
    }

    /// Is the door open and past the alarm threshold at `now`?
    pub open spec fn live_open_past_threshold(self, now: Timestamp) -> bool {
        match self.opened {
            Some(o) => now.seconds > o.seconds + DOOR_ALARM_THRESHOLD,
            None => false,
        }
    }

    /// Create a new Door instance with the current door state.
    pub fn new(open: bool, now: Timestamp) -> (r: Door)
        ensures
            r.opened == (if open {
                Some(now)
            } else {
                None::<Timestamp>
            }),
            r.last_event_ts == now,
            r.prev_short_sample_ended.seconds == floor_to_period(now.seconds, SHORT_SAMPLE_PERIOD),
            r.prev_long_sample_ended.seconds == floor_to_period(now.seconds, LONG_SAMPLE_PERIOD),
            r.short_open_count == (if open {
                1u16
            } else {
                0u16
            }),
            r.long_open_count == r.short_open_count,
            r.short_open_accum == 0 && r.long_open_accum == 0,
            !r.short_alarmed && !r.long_alarmed,
            r.wf(),
    {
        let sample_ts = now.get_last_short_sample_end();
        let prev_long_sample_ended = now.get_last_long_sample_end();
        let opened = if open {
            Some(now)
        } else {
            None
        };
        let open_count: u16 = if open {
            1
        } else {
            0
        };
        Door {
            opened,
            last_event_ts: now,
            prev_short_sample_ended: sample_ts,
            prev_long_sample_ended,
            short_open_count: open_count,
            short_open_accum: 0,
            long_open_count: open_count,
            long_open_accum: 0,
            short_alarmed: false,
            long_alarmed: false,
        }
    }

    /// Records an event.  An out-of-order timestamp is rejected and leaves
    /// the state untouched; an accepted event drives the state to exactly
    /// [`Door::after_event`].
    pub fn log_event(&mut self, event: DoorEvent) -> (r: Result<(), TimestampError>)
        requires
            old(self).wf(),
            event matches DoorEvent::Opened(_) ==> old(self).short_open_count < u16::MAX && old(
                self,
            ).long_open_count < u16::MAX,
        ensures
            r is Ok <==> old(self).accepts(event.ts()),
            r is Ok ==> *final(self) == old(self).after_event(event),
            r is Err ==> *final(self) == *old(self) && r == Err::<(), TimestampError>(
                TimestampError::OutOfOrder,
            ),
            final(self).wf(),
    {
        let timestamp = match event {
            DoorEvent::Opened(ts) => ts,
            DoorEvent::Closed(ts) => ts,
        };
        self.validate_timestamp_and_update(&timestamp)?;
        match event {
            DoorEvent::Opened(timestamp) => {
                self.opened = Some(timestamp);
                self.short_open_count += 1;
                self.long_open_count += 1;
            },
            DoorEvent::Closed(timestamp) => {
                if let Some(opened) = self.opened {
                    let duration = timestamp.seconds - opened.seconds;
                    self.short_open_accum += duration;
                    self.long_open_accum += duration;
                    self.short_alarmed = duration >= DOOR_ALARM_THRESHOLD;
                    self.long_alarmed = duration >= DOOR_ALARM_THRESHOLD;
                    self.opened = None;
                }
            },
        }
        Ok(())
    }

    /// The short window's opening count and open seconds, an in-progress
    /// opening included.
    pub fn get_short_sample(&self, check_time: Timestamp) -> (r: (u16, u32))
        requires
            self.wf(),
        ensures
            r.0 == self.short_open_count,
            r.1 == self.short_open_accum + self.live_open_seconds(check_time),
    {
        let presently_open_seconds = if let Some(opened) = self.opened {
            if check_time.seconds < opened.seconds {
                0
            } else {
                check_time.seconds - opened.seconds
            }
        } else {
            0
        };
        (self.short_open_count, self.short_open_accum + presently_open_seconds)
    }

    /// The long window's opening count and open seconds, an in-progress
    /// opening included.
    pub fn get_long_sample(&self, check_time: Timestamp) -> (r: (u16, u32))
        requires
            self.wf(),
        ensures
            r.0 == self.long_open_count,
            r.1 == self.long_open_accum + self.live_open_seconds(check_time),
    {
        let presently_open_seconds = if let Some(opened) = self.opened {
            if check_time.seconds < opened.seconds {
                0
            } else {
                check_time.seconds - opened.seconds
            }
        } else {
            0
        };
        (self.long_open_count, self.long_open_accum + presently_open_seconds)
    }

    /// Zeroes the short window and records its new boundary; the long window
    /// and the door's open state are untouched.
    pub fn reset_short_sample(&mut self, timestamp: Timestamp) -> (r: Result<(), TimestampError>)
        requires
            old(self).wf(),
        ensures
            r is Ok <==> old(self).accepts(timestamp),
            r is Ok ==> *final(self) == (Door {
                last_event_ts: timestamp,
                prev_short_sample_ended: timestamp,
                short_open_count: 0,
                short_open_accum: 0,
                short_alarmed: false,
                ..*old(self)
            }),
            r is Err ==> *final(self) == *old(self) && r == Err::<(), TimestampError>(
                TimestampError::OutOfOrder,
            ),
            final(self).wf(),
    {
        self.validate_timestamp_and_update(&timestamp)?;
        self.prev_short_sample_ended = timestamp;
        self.short_open_count = 0;
        self.short_open_accum = 0;
        self.short_alarmed = false;
        Ok(())
    }

    /// Zeroes the long window and records its new boundary; the short window
    /// and the door's open state are untouched.
    pub fn reset_long_sample(&mut self, timestamp: Timestamp) -> (r: Result<(), TimestampError>)
        requires
            old(self).wf(),
        ensures
            r is Ok <==> old(self).accepts(timestamp),
            r is Ok ==> *final(self) == (Door {
                last_event_ts: timestamp,
                prev_long_sample_ended: timestamp,
                long_open_count: 0,
                long_open_accum: 0,
                long_alarmed: false,
                ..*old(self)
            }),
            r is Err ==> *final(self) == *old(self) && r == Err::<(), TimestampError>(
                TimestampError::OutOfOrder,
            ),
            final(self).wf(),
    {
        self.validate_timestamp_and_update(&timestamp)?;
        self.prev_long_sample_ended = timestamp;
        self.long_open_count = 0;
        self.long_open_accum = 0;
        self.long_alarmed = false;
        Ok(())
    }

    /// Is the short window alarmed: either latched by a past opening, or the
    /// door is open and past the threshold right now.
    pub fn is_short_sample_alarmed(&self, now: Timestamp) -> (r: bool)
        ensures
            r == (self.short_alarmed || self.live_open_past_threshold(now)),
    {
        let open_long = if let Some(opened) = self.opened {
            (now.seconds as u64) > (opened.seconds as u64) + (DOOR_ALARM_THRESHOLD as u64)
        } else {
            false
        };
        self.short_alarmed || open_long
    }

    /// Is the long window alarmed: either latched by a past opening, or the
    /// door is open and past the threshold right now.
    pub fn is_long_sample_alarmed(&self, now: Timestamp) -> (r: bool)
        ensures
            r == (self.long_alarmed || self.live_open_past_threshold(now)),
    {
        let open_long = if let Some(opened) = self.opened {
            (now.seconds as u64) > (opened.seconds as u64) + (DOOR_ALARM_THRESHOLD as u64)
        } else {
            false
        };
        self.long_alarmed || open_long
    }

    /// The duration the door has been open at this instant, clamped to zero
    /// while closed or when `now` precedes the opening.
    pub fn get_idrv(&self, now: Timestamp) -> (r: u32)
        ensures
            r == self.live_open_seconds(now),
    {
        if let Some(opened) = self.opened {
            if now.seconds >= opened.seconds {
                now.seconds - opened.seconds
            } else {
                0
            }
        } else {
            0
        }
    }

    /// Rejects a timestamp before the last accepted one; otherwise records it.
    fn validate_timestamp_and_update(&mut self, timestamp: &Timestamp) -> (r: Result<
        (),
        TimestampError,
    >)
        ensures
            r is Ok <==> old(self).accepts(*timestamp),
            r is Ok ==> *final(self) == (Door { last_event_ts: *timestamp, ..*old(self) }),
            r is Err ==> *final(self) == *old(self) && r == Err::<(), TimestampError>(
                TimestampError::OutOfOrder,
            ),
    {
        if timestamp.seconds < self.last_event_ts.seconds {
            return Err(TimestampError::OutOfOrder);
        }
        self.last_event_ts = *timestamp;
        Ok(())
    }
}

impl Default for Door {
    /// The closed door at the epoch.
    fn default() -> (r: Door)
        ensures
            r == (Door {
                opened: None,
                last_event_ts: Timestamp { seconds: 0 },
                prev_short_sample_ended: Timestamp { seconds: 0 },
                prev_long_sample_ended: Timestamp { seconds: 0 },
                short_open_count: 0,
                short_open_accum: 0,
                long_open_count: 0,
                long_open_accum: 0,
                short_alarmed: false,
                long_alarmed: false,
            }),
            r.wf(),
    {
        Door {
            opened: None,
            last_event_ts: Timestamp { seconds: 0 },
            prev_short_sample_ended: Timestamp { seconds: 0 },
            prev_long_sample_ended: Timestamp { seconds: 0 },
            short_open_count: 0,
            short_open_accum: 0,
            long_open_count: 0,
            long_open_accum: 0,
            short_alarmed: false,
            long_alarmed: false,
        }
    }
}

/// Are the events' timestamps non-decreasing, and the first no earlier than
/// the tracker's last event?
pub open spec fn door_events_in_order(d: Door, evs: Seq<DoorEvent>) -> bool {
    &&& (evs.len() > 0 ==> evs[0].ts().seconds >= d.last_event_ts.seconds)
    &&& (forall|i: int|
        0 <= i < evs.len() - 1 ==> (#[trigger] evs[i].ts()).seconds <= evs[i + 1].ts().seconds)
}

/// The state after replaying a sequence of events, first to last.
pub open spec fn door_replay(d: Door, evs: Seq<DoorEvent>) -> Door
    decreases evs.len(),
{
    if evs.len() == 0 {
        d
    } else {
        door_replay(d.after_event(evs[0]), evs.drop_first())
    }
}

/// The summed durations of the completed openings in `evs`, starting from a
/// door opened at `opened` (or closed, for `None`).  A close while open
/// completes an opening; an open while open restarts it.
pub open spec fn completed_open_seconds(opened: Option<Timestamp>, evs: Seq<DoorEvent>) -> int
    decreases evs.len(),
{
    if evs.len() == 0 {
        0
    } else {
        match evs[0] {
            DoorEvent::Opened(t) => completed_open_seconds(Some(t), evs.drop_first()),
            DoorEvent::Closed(t) => match opened {
                Some(o) => (t.seconds - o.seconds) + completed_open_seconds(None, evs.drop_first()),
                None => completed_open_seconds(None, evs.drop_first()),
            },
        }
    }
}

/// An accepted event preserves well-formedness and stamps the event's time.
proof fn lemma_after_event_wf(d: Door, event: DoorEvent)
    requires
        d.wf(),
        d.accepts(event.ts()),
    ensures
        d.after_event(event).wf(),
        d.after_event(event).last_event_ts == event.ts(),
{
}

/// Replaying in-order events never rejects one: every event in the sequence
/// is accepted by the state the events before it produced.  Afterwards both
/// open-time accumulators have grown by exactly the summed durations of the
/// completed openings — and by the same amount, whatever the two windows'
/// reset histories were.
pub proof fn lemma_door_replay(d: Door, evs: Seq<DoorEvent>)
    requires
        d.wf(),
        door_events_in_order(d, evs),
    ensures
        forall|i: int|
            0 <= i < evs.len() ==> (#[trigger] door_replay(d, evs.take(i))).accepts(evs[i].ts()),
        door_replay(d, evs).wf(),
        door_replay(d, evs).short_open_accum == d.short_open_accum + completed_open_seconds(
            d.opened,
            evs,
        ),
        door_replay(d, evs).long_open_accum == d.long_open_accum + completed_open_seconds(
            d.opened,
            evs,
        ),
    decreases evs.len(),
{
    if evs.len() > 0 {
        let d1 = d.after_event(evs[0]);
        lemma_after_event_wf(d, evs[0]);
        let rest = evs.drop_first();
        assert(door_events_in_order(d1, rest)) by {
            assert(forall|i: int|
                0 <= i < rest.len() - 1 ==> (#[trigger] rest[i].ts()).seconds <= rest[i
                    + 1].ts().seconds);
        }
        lemma_door_replay(d1, rest);
        assert(door_replay(d, evs) == door_replay(d1, rest));
        assert forall|i: int| 0 <= i < evs.len() implies (#[trigger] door_replay(
            d,
            evs.take(i),
        )).accepts(evs[i].ts()) by {
            if i == 0 {
                assert(evs.take(0) =~= Seq::<DoorEvent>::empty());
                assert(door_replay(d, evs.take(0)) == d);
            } else {
                assert(evs.take(i).drop_first() =~= rest.take(i - 1));
                assert(door_replay(d, evs.take(i)) == door_replay(d1, rest.take(i - 1)));
                assert(door_replay(d1, rest.take(i - 1)).accepts(rest[i - 1].ts()));
            }
        }
    }
}

} // verus!
