use protoglot::stats::AbsorberStats;
use protoglot::stats::StatsMessage;

#[test]
fn command_sequence_with_reset() {
    // Two increments, a reset, then one more increment.
    let mut stats = AbsorberStats::new();
    stats.apply(&StatsMessage::Increment { events: 1, bytes: 10 });
    stats.apply(&StatsMessage::Increment { events: 2, bytes: 20 });
    stats.apply(&StatsMessage::Reset);
    stats.apply(&StatsMessage::Increment { events: 1, bytes: 5 });
    assert_eq!(stats.total_events, 1);
    assert_eq!(stats.total_bytes, 5);
    assert_eq!(stats.intv_events, 1);
    assert_eq!(stats.intv_bytes, 5);
}

#[test]
fn increments_accumulate_in_both_counter_sets() {
    let mut stats = AbsorberStats::new();
    stats.apply(&StatsMessage::Increment { events: 3, bytes: 100 });
    stats.apply(&StatsMessage::Increment { events: 4, bytes: 200 });
    assert_eq!(stats.total_events, 7);
    assert_eq!(stats.total_bytes, 300);
    assert_eq!(stats.intv_events, 7);
    assert_eq!(stats.intv_bytes, 300);
}

#[test]
fn tick_without_events_reports_nothing() {
    let mut stats = AbsorberStats::new();
    assert_eq!(stats.tick(), None);
    assert_eq!(stats.intv_events, 0);
    assert_eq!(stats.intv_bytes, 0);
}

#[test]
fn tick_with_events_reports_once_and_zeroes_the_interval() {
    let mut stats = AbsorberStats::new();
    stats.apply(&StatsMessage::Increment { events: 5, bytes: 50 });
    let report = stats.tick().unwrap();
    assert_eq!(report.total_events, 5);
    assert_eq!(report.intv_events, 5);
    assert_eq!(report.intv_bytes, 50);
    // The interval is zeroed, the running totals stay.
    assert_eq!(stats.intv_events, 0);
    assert_eq!(stats.intv_bytes, 0);
    assert_eq!(stats.total_events, 5);
    assert_eq!(stats.total_bytes, 50);
    // A second tick with an empty interval reports nothing.
    assert_eq!(stats.tick(), None);
}
