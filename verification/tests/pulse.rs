use weather_station::pulse::{
    anemo_pin_callback, check_rain_flag, check_rotation_flag, check_time_passed, rain_pin_callback,
    take_rain_count, take_rotation_count, EdgeCounter, PulseCounters,
};

#[test]
fn new_counters_are_clear() {
    let counters = PulseCounters::new();
    assert_eq!(
        counters,
        PulseCounters { rain_flag: false, rotation_flag: false, rain_count: 0, rotation_count: 0 }
    );
}

#[test]
fn rain_callback_raises_only_the_rain_flag() {
    let mut counters =
        PulseCounters { rain_flag: false, rotation_flag: false, rain_count: 3, rotation_count: 4 };
    rain_pin_callback(&mut counters);
    assert_eq!(
        counters,
        PulseCounters { rain_flag: true, rotation_flag: false, rain_count: 3, rotation_count: 4 }
    );
    rain_pin_callback(&mut counters);
    assert!(counters.rain_flag);
    assert_eq!(counters.rain_count, 3);
}

#[test]
fn anemo_callback_raises_only_the_rotation_flag() {
    let mut counters =
        PulseCounters { rain_flag: false, rotation_flag: false, rain_count: 3, rotation_count: 4 };
    anemo_pin_callback(&mut counters);
    assert_eq!(
        counters,
        PulseCounters { rain_flag: false, rotation_flag: true, rain_count: 3, rotation_count: 4 }
    );
}

#[test]
fn pending_rain_pulse_is_counted_once() {
    let mut counters = PulseCounters::new();
    rain_pin_callback(&mut counters);
    rain_pin_callback(&mut counters);
    assert!(check_rain_flag(&mut counters));
    assert_eq!(counters.rain_count, 1);
    assert!(!counters.rain_flag);
    assert!(!check_rain_flag(&mut counters));
    assert_eq!(counters.rain_count, 1);
    assert_eq!(counters.rotation_count, 0);
}

#[test]
fn pending_rotation_is_counted_once() {
    let mut counters = PulseCounters::new();
    anemo_pin_callback(&mut counters);
    assert!(check_rotation_flag(&mut counters));
    assert!(!check_rotation_flag(&mut counters));
    anemo_pin_callback(&mut counters);
    assert!(check_rotation_flag(&mut counters));
    assert_eq!(counters.rotation_count, 2);
    assert_eq!(counters.rain_count, 0);
    assert!(!counters.rain_flag);
}

#[test]
fn counts_are_drained_for_a_report() {
    let mut counters =
        PulseCounters { rain_flag: true, rotation_flag: false, rain_count: 5, rotation_count: 9 };
    assert_eq!(take_rain_count(&mut counters), 5);
    assert_eq!(counters.rain_count, 0);
    assert_eq!(counters.rotation_count, 9);
    assert!(counters.rain_flag);
    assert_eq!(take_rotation_count(&mut counters), 9);
    assert_eq!(take_rotation_count(&mut counters), 0);
}

#[test]
fn period_passes_at_its_end() {
    let mut last = 1_000u128;
    assert!(!check_time_passed(&mut last, 1_000, 60));
    assert!(!check_time_passed(&mut last, 1_059, 60));
    assert_eq!(last, 1_000);
    assert!(check_time_passed(&mut last, 1_060, 60));
    assert_eq!(last, 1_060);
    assert!(!check_time_passed(&mut last, 1_119, 60));
    assert!(check_time_passed(&mut last, 5_000, 60));
    assert_eq!(last, 5_000);
}

#[test]
fn clock_reading_before_the_last_counts_as_no_time() {
    let mut last = 1_000u128;
    assert!(!check_time_passed(&mut last, 10, 60));
    assert_eq!(last, 1_000);
    assert!(check_time_passed(&mut last, 10, 0));
    assert_eq!(last, 10);
}

#[test]
fn first_edge_counts() {
    let mut counter = EdgeCounter::new(100, 5);
    assert_eq!(counter, EdgeCounter { count: 0, last: 95, debounce: 5 });
    counter.on_edge(100);
    assert_eq!(counter, EdgeCounter { count: 1, last: 100, debounce: 5 });
}

#[test]
fn edges_closer_than_the_debounce_time_do_not_count() {
    let mut counter = EdgeCounter::new(100, 5);
    counter.on_edge(100);
    counter.on_edge(101);
    counter.on_edge(104);
    assert_eq!(counter.count, 1);
    assert_eq!(counter.last, 100);
    counter.on_edge(105);
    assert_eq!(counter.count, 2);
    assert_eq!(counter.last, 105);
    counter.on_edge(109);
    counter.on_edge(110);
    assert_eq!(counter.count, 3);
}
