use cold_chain::Status;
use cold_chain::aggregator::AggregationRecord;
use cold_chain::door::Door;
use cold_chain::door::DoorEvent;
use cold_chain::power_availability::PowerAvailability;
use cold_chain::power_availability::PowerEvent;
use cold_chain::process_data;
use cold_chain::temperature_aggregator::TemperatureAggregator;
use cold_chain::temperature_aggregator::TemperatureSample;
use cold_chain::timestamp::Timestamp;

#[test]
fn test_process_data() {
    assert_eq!(process_data("Hello, World!"), Status::Success);
    assert_eq!(process_data(""), Status::Error);
}

// Two brief openings: the dwell accumulators sum the completed durations and
// the opening count follows along, with no alarm.
#[test]
fn test_door_two_openings_scenario() {
    let mut door = Door::default();

    door.log_event(DoorEvent::Opened(Timestamp { seconds: 1000 })).unwrap();
    door.log_event(DoorEvent::Closed(Timestamp { seconds: 1200 })).unwrap();
    let (count, accum) = door.get_short_sample(Timestamp { seconds: 1200 });
    assert_eq!(accum, 200);
    assert_eq!(count, 1);
    assert!(!door.is_short_sample_alarmed(Timestamp { seconds: 1200 }));
    assert!(!door.is_long_sample_alarmed(Timestamp { seconds: 1200 }));

    door.log_event(DoorEvent::Opened(Timestamp { seconds: 1500 })).unwrap();
    door.log_event(DoorEvent::Closed(Timestamp { seconds: 1800 })).unwrap();
    let (count, accum) = door.get_short_sample(Timestamp { seconds: 1800 });
    assert_eq!(accum, 500);
    assert_eq!(count, 2);
    let (count, accum) = door.get_long_sample(Timestamp { seconds: 1800 });
    assert_eq!(accum, 500);
    assert_eq!(count, 2);
}

// Hot persistence under regular 15-minute sampling: the state is promoted at
// the first sample at least 10 hours past the excursion start, and alarm
// dwell accumulates from then on.
#[test]
fn test_hot_persistence_regular_sampling() {
    let t0 = Timestamp { seconds: 0 };
    let initial = TemperatureSample { ambient: None, vaccine: Some(400) };
    let mut agg = TemperatureAggregator::new(initial, t0);

    let hot = TemperatureSample { ambient: None, vaccine: Some(801) };
    let mut t: u32 = 900;
    while t <= 39_600 {
        agg.add_sample(hot, Timestamp { seconds: t });
        if t < 36_900 {
            // The excursion began at 900; ten hours have not yet passed.
            assert!(!agg.is_high_alarm(), "alarmed too early at {}", t);
        } else {
            // 36900 is the first sample with 36000 seconds of persistence.
            assert!(agg.is_high_alarm(), "not alarmed at {}", t);
        }
        t += 900;
    }

    // Promotion at 36900; the intervals ending at 37800, 38700 and 39600
    // were spent inside the persisted alarm.
    assert_eq!(agg.long_record.high_alarm_seconds, 39_600 - 36_900);
    // Every interval after the rise was spent above the range.
    assert_eq!(agg.long_record.tvc_high_seconds, 39_600 - 900);
}

// Extended-outage alarm: off for a day raises the alarm live while still
// off, and the flag latches when power returns.
#[test]
fn test_power_outage_scenario() {
    let mut power = PowerAvailability::new(true, Timestamp { seconds: 0 });
    power.log_event(PowerEvent::Off(Timestamp { seconds: 700 })).unwrap();

    // One second before a full day has passed: no alarm yet.
    assert!(!power.is_short_sample_alarmed(Timestamp { seconds: 700 + 86400 - 1 }));
    assert!(!power.is_long_sample_alarmed(Timestamp { seconds: 700 + 86400 - 1 }));

    // At the full day, and one second past it, the live check alarms while
    // still off.
    assert!(power.is_short_sample_alarmed(Timestamp { seconds: 700 + 86400 }));
    assert!(power.is_long_sample_alarmed(Timestamp { seconds: 700 + 86400 }));
    assert!(power.is_short_sample_alarmed(Timestamp { seconds: 700 + 86400 + 1 }));
    assert!(power.is_long_sample_alarmed(Timestamp { seconds: 700 + 86400 + 1 }));

    // Power returns: the outage is detected retroactively and latched.
    power.log_event(PowerEvent::On(Timestamp { seconds: 700 + 86400 + 1 })).unwrap();
    assert!(power.is_short_sample_alarmed(Timestamp { seconds: 700 + 86400 + 2 }));
    assert!(power.is_long_sample_alarmed(Timestamp { seconds: 700 + 86400 + 2 }));
}

// A sample with a missing vaccine reading integrates the previous value
// flat and leaves the state machine alone.
#[test]
fn test_missing_vaccine_reading() {
    let t0 = Timestamp { seconds: 0 };
    let initial = TemperatureSample { ambient: Some(2000), vaccine: Some(400) };
    let mut agg = TemperatureAggregator::new(initial, t0);

    let blank = TemperatureSample { ambient: None, vaccine: None };
    agg.add_sample(blank, Timestamp { seconds: 900 });

    // Both channels integrated flat from their previous readings.
    assert_eq!(agg.long_record.tvc_sum, (400 + 400) * 900);
    assert_eq!(agg.long_record.tvc_seconds, 900);
    assert_eq!(agg.long_record.tamb_sum, (2000 + 2000) * 900);
    assert_eq!(agg.long_record.tamb_seconds, 900);
    // The absent readings left the remembered values and stamps alone.
    assert_eq!(agg.last_vaccine_temp, Some(400));
    assert_eq!(agg.last_vaccine_ts, Some(Timestamp { seconds: 0 }));
    // Min/max were seeded from the construction reading and are unchanged.
    assert_eq!(agg.long_record.tvc_min, 400);
    assert_eq!(agg.long_record.tvc_max, 400);
}

// Folding one record into another sums the counters, keeps the global
// extremes, and counts the combined record.
#[test]
fn test_aggregation_record_merge() {
    let mut acc = AggregationRecord {
        tvc_sum: 1_000,
        tvc_seconds: 900,
        tvc_min: 250,
        tvc_max: 700,
        tamb_sum: 2_000,
        tamb_seconds: 900,
        tvc_low_seconds: 10,
        tvc_high_seconds: 20,
        low_alarm_seconds: 0,
        high_alarm_seconds: 5,
        vaccine_door_count: 2,
        vaccine_door_seconds: 30,
        power_available_seconds: 800,
        compressor_run_seconds: 400,
        door_alarm_seconds: 0,
        records_read: 1,
    };
    let other = AggregationRecord {
        tvc_sum: -500,
        tvc_seconds: 900,
        tvc_min: 150,
        tvc_max: 600,
        tamb_sum: 3_000,
        tamb_seconds: 900,
        tvc_low_seconds: 40,
        tvc_high_seconds: 0,
        low_alarm_seconds: 15,
        high_alarm_seconds: 0,
        vaccine_door_count: 1,
        vaccine_door_seconds: 45,
        power_available_seconds: 900,
        compressor_run_seconds: 100,
        door_alarm_seconds: 25,
        records_read: 0,
    };
    acc.merge(&other);
    assert_eq!(acc.tvc_sum, 500);
    assert_eq!(acc.tvc_seconds, 1800);
    assert_eq!(acc.tvc_min, 150);
    assert_eq!(acc.tvc_max, 700);
    assert_eq!(acc.tamb_sum, 5_000);
    assert_eq!(acc.tamb_seconds, 1800);
    assert_eq!(acc.tvc_low_seconds, 50);
    assert_eq!(acc.tvc_high_seconds, 20);
    assert_eq!(acc.low_alarm_seconds, 15);
    assert_eq!(acc.high_alarm_seconds, 5);
    assert_eq!(acc.vaccine_door_count, 3);
    assert_eq!(acc.vaccine_door_seconds, 75);
    assert_eq!(acc.power_available_seconds, 1700);
    assert_eq!(acc.compressor_run_seconds, 500);
    assert_eq!(acc.door_alarm_seconds, 25);
    assert_eq!(acc.records_read, 2);

    // The zero record is the starting point for a fold.
    let zero = AggregationRecord::default();
    assert_eq!(zero.tvc_seconds, 0);
    assert_eq!(zero.records_read, 0);
}

// Out-of-order rejections leave every field untouched.
#[test]
fn test_rejection_leaves_state_unchanged() {
    let mut door = Door::default();
    door.log_event(DoorEvent::Opened(Timestamp { seconds: 500 })).unwrap();
    let before = door;
    assert!(door.log_event(DoorEvent::Closed(Timestamp { seconds: 400 })).is_err());
    assert_eq!(door, before);

    let mut power = PowerAvailability::default();
    power.log_event(PowerEvent::On(Timestamp { seconds: 500 })).unwrap();
    let before = power;
    assert!(power.log_event(PowerEvent::Off(Timestamp { seconds: 400 })).is_err());
    assert_eq!(power, before);
}
