use protoglot::emit::EmitterConfig;
use protoglot::emit::SenderConfig;
use protoglot::generators::NdJsonEventGenerator;
use protoglot::generators::RandomStringGenerator;
use protoglot::generators::Syslog5424EventGenerator;
use protoglot::generators::random_facility_severity;
use protoglot::syslog3164::Syslog3164;
use protoglot::syslog3164::Syslog3164EventGenerator;

#[test]
fn test_serialization() {
    let event = Syslog3164 {
        month: 7,
        day: 8,
        hour: 9,
        minute: 10,
        second: 11,
        message: "test message".to_string(),
        facility: 1,
        severity: 5,
        app_name: "test_app".to_string(),
        pid: 1234,
        hostname: "test_host".to_string(),
    };
    let serialized = String::from_utf8(event.serialize()).unwrap();
    assert_eq!(
        serialized,
        "<13>Jul  8 09:10:11 test_host test_app[1234]: test message\n"
    );
}

#[test]
fn serialization_pads_two_digit_days_with_nothing() {
    let event = Syslog3164 {
        month: 12,
        day: 25,
        hour: 23,
        minute: 0,
        second: 5,
        message: "m".to_string(),
        facility: 23,
        severity: 7,
        app_name: "a".to_string(),
        pid: 0,
        hostname: "h".to_string(),
    };
    let serialized = String::from_utf8(event.serialize()).unwrap();
    assert_eq!(serialized, "<191>Dec 25 23:00:05 h a[0]: m\n");
}

#[test]
fn compose_message_joins_index_uuid_and_text() {
    let s = Syslog3164EventGenerator::compose_message(
        3,
        &"0f0e0d0c".to_string(),
        &"hello world".to_string(),
    );
    assert_eq!(s, "idx=3, uuid=0f0e0d0c, msg=hello world");
}

#[test]
fn generator_starts_at_index_zero() {
    let pools = RandomStringGenerator::new(vec![], vec![], vec![]);
    let generator = Syslog3164EventGenerator::new(pools);
    assert_eq!(generator.message_index, 0);
}

#[test]
fn string_pools_fall_back_to_stock_entries() {
    let pools = RandomStringGenerator::new(vec![], vec![], vec![]);
    assert_eq!(pools.generate_message(), "default message");
    assert_eq!(pools.generate_hostname(), "localhost");
    assert_eq!(pools.generate_appname(), "myapp");
}

#[test]
fn string_pools_draw_from_given_entries() {
    let pools = RandomStringGenerator::new(
        vec!["one".to_string(), "two".to_string()],
        vec!["host-a".to_string()],
        vec!["app-a".to_string()],
    );
    let drawn = pools.generate_message();
    assert!(drawn == "one" || drawn == "two");
    assert_eq!(pools.generate_hostname(), "host-a");
    assert_eq!(pools.generate_appname(), "app-a");
}

#[test]
fn facility_and_severity_stay_in_range() {
    for _ in 0..50 {
        let (facility, severity) = random_facility_severity();
        assert!(facility < 24);
        assert!(severity < 8);
    }
}

#[test]
fn ndjson_cursor_advances_and_wraps() {
    let mut generator = NdJsonEventGenerator::new();
    assert_eq!(generator.next_index(10), 1);
    assert_eq!(generator.next_index(10), 2);
    for _ in 0..7 {
        generator.next_index(10);
    }
    assert_eq!(generator.next_index(10), 0);
}

#[test]
fn syslog5424_cursor_advances_and_wraps() {
    let mut generator = Syslog5424EventGenerator::new();
    assert_eq!(generator.next_index(3), 1);
    assert_eq!(generator.next_index(3), 2);
    assert_eq!(generator.next_index(3), 0);
    assert_eq!(generator.message_index, 3);
}

#[test]
fn pacing_intervals_follow_the_rate() {
    let config = EmitterConfig { rate: 1000, num_cycles: 2, events_per_cycle: 5, cycle_delay: 7 };
    assert_eq!(config.interval_nanos(), 1_000_000);
    let sender = SenderConfig { rate: 200, num_batches: 1, events_per_batch: 1, batch_delay: 0 };
    assert_eq!(sender.interval_micros(), 5_000);
}

#[test]
fn cycle_accounting_stops_at_the_count() {
    let config = EmitterConfig { rate: 1, num_cycles: 2, events_per_cycle: 1, cycle_delay: 7 };
    assert!(config.another_cycle(0));
    assert!(config.another_cycle(1));
    assert!(!config.another_cycle(2));
    assert!(config.delay_after_cycle(1));
    assert!(!config.delay_after_cycle(2));
    let forever = EmitterConfig { rate: 1, num_cycles: 0, events_per_cycle: 1, cycle_delay: 0 };
    assert!(forever.another_cycle(u64::MAX - 1));
}
