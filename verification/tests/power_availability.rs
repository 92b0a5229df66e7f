use cold_chain::power_availability::PowerAvailability;
use cold_chain::power_availability::PowerEvent;
use cold_chain::timestamp::Timestamp;
use cold_chain::timestamp::TimestampError;

#[test]
fn test_power_event_logging() {
    let mut power = PowerAvailability::default();
    let on_time = Timestamp { seconds: 1000 };
    let off_time = Timestamp { seconds: 1200 };

    power.log_event(PowerEvent::On(on_time)).unwrap();
    assert_eq!(power.status, PowerEvent::On(on_time));

    power.log_event(PowerEvent::Off(off_time)).unwrap();
    assert_eq!(power.short_power_accum, 200);
    assert_eq!(power.long_power_accum, 200);

    // Out-of-order event: try to power on at a time before the last event
    let out_of_order_time = Timestamp { seconds: 100 };
    let result = power.log_event(PowerEvent::On(out_of_order_time));
    assert!(matches!(result, Err(TimestampError::OutOfOrder)));

    // On and off again.
    let on_time = Timestamp { seconds: 1500 };
    let off_time = Timestamp { seconds: 1800 };

    power.log_event(PowerEvent::On(on_time)).unwrap();
    assert_eq!(power.status, PowerEvent::On(on_time));

    power.log_event(PowerEvent::Off(off_time)).unwrap();
    assert_eq!(power.short_power_accum, 500);
    assert_eq!(power.long_power_accum, 500);
}

#[test]
fn test_power_alarm_threshold() {
    let mut power = PowerAvailability::default();
    let on_time = Timestamp { seconds: 1000 };
    let off_time = Timestamp { seconds: 1200 };

    power.log_event(PowerEvent::On(on_time)).unwrap();
    assert!(!power.is_short_sample_alarmed(off_time));
    assert!(!power.is_long_sample_alarmed(off_time));

    // Turn off, no alarm yet.
    power.log_event(PowerEvent::Off(off_time)).unwrap();
    assert!(!power.is_short_sample_alarmed(off_time));
    assert!(!power.is_long_sample_alarmed(off_time));

    // Now, let's reach the threshold. Keep off for 24 hours
    let check_time = Timestamp { seconds: 1200 + 86400 };
    let check_time2 = Timestamp { seconds: 1202 + 86400 };

    // Exactly at the threshold, the live check already alarms.
    assert!(power.is_short_sample_alarmed(check_time));
    assert!(power.is_long_sample_alarmed(check_time));

    // And it keeps alarming past it.
    assert!(power.is_short_sample_alarmed(check_time2));
    assert!(power.is_long_sample_alarmed(check_time2));
}

#[test]
fn test_on_off_reset() {
    let mut power = PowerAvailability::default();
    let on_time = Timestamp { seconds: 450 };
    let off_time = Timestamp { seconds: 600 };
    let check_time = Timestamp { seconds: 900 };

    // Power on and off
    power.log_event(PowerEvent::On(on_time)).unwrap();
    power.log_event(PowerEvent::Off(off_time)).unwrap();

    // Get short sample values at 900 seconds
    let short_accum = power.get_short_sample(check_time);
    assert_eq!(short_accum, 150);
    assert!(!power.is_short_sample_alarmed(check_time));

    // Get long sample values at 900 seconds
    let long_accum = power.get_long_sample(check_time);
    assert_eq!(long_accum, 150);
    assert!(!power.is_long_sample_alarmed(check_time));

    // Reset short sample at 900 seconds, should not affect long sample.
    power.reset_short_sample(check_time).unwrap();
    assert_eq!(power.short_power_accum, 0);
    assert_eq!(power.prev_short_sample_ended, check_time);
    assert_eq!(power.long_power_accum, 150);
    assert_eq!(power.prev_long_sample_ended, Timestamp { seconds: 0 });

    // Reset long sample at 900 seconds
    power.reset_long_sample(check_time).unwrap();
    assert_eq!(power.long_power_accum, 0);
    assert_eq!(power.prev_long_sample_ended, check_time);
}

#[test]
fn test_init_on_off_reset() {
    let init_time = Timestamp { seconds: 901 };
    let mut power = PowerAvailability::new(false, init_time);
    let on_time = Timestamp { seconds: 1300 };
    let check_while_on = Timestamp { seconds: 1400 };
    let off_time = Timestamp { seconds: 1700 };
    let check_time = Timestamp { seconds: 1800 };

    // Ensure the initial state is correct
    assert_eq!(power.prev_short_sample_ended.seconds, 900);
    assert_eq!(power.prev_long_sample_ended.seconds, 0);

    // Power on
    power.log_event(PowerEvent::On(on_time)).unwrap();
    let short_accum = power.get_short_sample(check_while_on);
    assert_eq!(short_accum, 100); // 1400 - 1300 = 100 seconds while on
    assert!(!power.is_short_sample_alarmed(check_while_on));

    // Long sample checks while on
    let long_accum = power.get_long_sample(check_while_on);
    assert_eq!(long_accum, 100);
    assert!(!power.is_long_sample_alarmed(check_while_on));

    // Power off
    power.log_event(PowerEvent::Off(off_time)).unwrap();

    // Get short sample values at 1800 seconds
    let short_accum = power.get_short_sample(check_time);
    assert_eq!(short_accum, 400);
    assert!(!power.is_short_sample_alarmed(check_time));

    // Long sample checks after power off
    let long_accum = power.get_long_sample(check_time);
    assert_eq!(long_accum, 400);
    assert!(!power.is_long_sample_alarmed(check_time));

    // Reset short sample at 1800 seconds, which should not affect long sample.
    power.reset_short_sample(check_time).unwrap();
    assert_eq!(power.short_power_accum, 0);
    assert_eq!(power.prev_short_sample_ended, check_time);
    assert_eq!(long_accum, 400);

    // Reset long sample at 1800 seconds
    power.reset_long_sample(check_time).unwrap();
    assert_eq!(power.long_power_accum, 0);
    assert_eq!(power.prev_long_sample_ended, check_time);
}

#[test]
fn test_init_while_on() {
    // Test the case where the power is initialized while on
    let init_time = Timestamp { seconds: 901 };
    let mut power = PowerAvailability::new(true, init_time);
    let check_while_on = Timestamp { seconds: 1400 };
    let off_time = Timestamp { seconds: 1700 };
    let check_time = Timestamp { seconds: 1800 };

    // Ensure the initial state is correct
    assert_eq!(power.prev_short_sample_ended.seconds, 900);
    assert_eq!(power.prev_long_sample_ended.seconds, 0);

    // Get short sample values at 1400 seconds
    let short_accum = power.get_short_sample(check_while_on);
    assert_eq!(short_accum, 499);
    assert!(!power.is_short_sample_alarmed(check_time));

    // Long sample checks while on
    let long_accum = power.get_long_sample(check_while_on);
    assert_eq!(long_accum, 499);
    assert!(!power.is_long_sample_alarmed(check_time));

    // Turn off, then check at 1800 seconds when the power has been on for 799 sec.
    power.log_event(PowerEvent::Off(off_time)).unwrap();
    let short_accum = power.get_short_sample(check_time);
    assert_eq!(short_accum, 799);
    assert!(!power.is_short_sample_alarmed(check_while_on));

    // Long sample checks after off
    let long_accum = power.get_long_sample(check_time);
    assert_eq!(long_accum, 799);
    assert!(!power.is_long_sample_alarmed(check_while_on));
}

#[test]
fn power_availability_test_out_of_order_reset() {
    let mut power = PowerAvailability::default();
    let on_time = Timestamp { seconds: 700 };
    let off_time = Timestamp { seconds: 800 };
    let reset_time = Timestamp { seconds: 900 };

    // Power on
    power.log_event(PowerEvent::On(on_time)).unwrap();

    // Try to reset with an out-of-order timestamp
    let out_of_order_reset = Timestamp { seconds: 600 };
    assert!(
        matches!(power.reset_short_sample(out_of_order_reset), Err(TimestampError::OutOfOrder))
    );

    // Power off
    power.log_event(PowerEvent::Off(off_time)).unwrap();

    // Reset short sample with a valid timestamp
    assert!(power.reset_short_sample(reset_time).is_ok());
    assert_eq!(power.prev_short_sample_ended, reset_time);

    // Try to reset with an out-of-order timestamp
    assert!(
        matches!(power.reset_short_sample(out_of_order_reset), Err(TimestampError::OutOfOrder))
    );
}

#[test]
fn test_multiple_brief_events() {
    let mut power = PowerAvailability::default();
    let on_time1 = Timestamp { seconds: 1000 };
    let off_time1 = Timestamp { seconds: 1150 };
    let on_time2 = Timestamp { seconds: 1200 };
    let check_time2 = Timestamp { seconds: 1300 };
    let off_time2 = Timestamp { seconds: 1450 };

    // Turn on power for the first time.
    power.log_event(PowerEvent::On(on_time1)).unwrap();
    power.log_event(PowerEvent::Off(off_time1)).unwrap();
    assert!(!power.is_short_sample_alarmed(off_time1));
    assert!(!power.is_long_sample_alarmed(off_time1)); // 150 sec, no problem.

    // Turn on power for the second time.
    power.log_event(PowerEvent::On(on_time2)).unwrap();
    assert!(!power.is_short_sample_alarmed(check_time2));
    assert!(!power.is_long_sample_alarmed(check_time2)); // Also 100 sec.
    power.log_event(PowerEvent::Off(off_time2)).unwrap(); // Off after 250 seconds, should not alarm
    assert!(!power.is_short_sample_alarmed(off_time2));
    assert!(!power.is_long_sample_alarmed(off_time2));
}
