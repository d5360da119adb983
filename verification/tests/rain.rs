use weather_station::rain::{inc_rain_tips, load_rain_tips, RainGauge, MAX_RAIN_TIPS};

#[test]
fn stored_tips_are_read_up_to_the_limit() {
    assert_eq!(MAX_RAIN_TIPS, 100);
    assert_eq!(load_rain_tips(&RainGauge { tips: 0, last_tip: 0 }), 0);
    assert_eq!(load_rain_tips(&RainGauge { tips: 37, last_tip: 0 }), 37);
    assert_eq!(load_rain_tips(&RainGauge { tips: 100, last_tip: 0 }), 100);
}

#[test]
fn stored_tips_over_the_limit_read_as_none() {
    assert_eq!(load_rain_tips(&RainGauge { tips: 101, last_tip: 0 }), 0);
    assert_eq!(load_rain_tips(&RainGauge { tips: 0xDEAD_BEEF, last_tip: 5 }), 0);
}

#[test]
fn first_tip_always_counts() {
    let mut gauge = RainGauge { tips: 0, last_tip: 0 };
    inc_rain_tips(&mut gauge, 1_000, 30);
    assert_eq!(gauge, RainGauge { tips: 1, last_tip: 1_000 });
}

#[test]
fn first_tip_replaces_garbage() {
    let mut gauge = RainGauge { tips: 3_000_000, last_tip: 77 };
    inc_rain_tips(&mut gauge, 80, 30);
    assert_eq!(gauge, RainGauge { tips: 1, last_tip: 80 });
}

#[test]
fn tip_within_the_debounce_time_does_not_count() {
    let mut gauge = RainGauge { tips: 1, last_tip: 1_000 };
    inc_rain_tips(&mut gauge, 1_010, 30);
    assert_eq!(gauge, RainGauge { tips: 1, last_tip: 1_000 });
    inc_rain_tips(&mut gauge, 1_030, 30);
    assert_eq!(gauge, RainGauge { tips: 1, last_tip: 1_000 });
}

#[test]
fn tip_after_the_debounce_time_counts() {
    let mut gauge = RainGauge { tips: 1, last_tip: 1_000 };
    inc_rain_tips(&mut gauge, 1_031, 30);
    assert_eq!(gauge, RainGauge { tips: 2, last_tip: 1_031 });
}

#[test]
fn tip_without_a_last_tip_on_record_does_not_count() {
    let mut gauge = RainGauge { tips: 4, last_tip: 0 };
    inc_rain_tips(&mut gauge, 5_000, 30);
    assert_eq!(gauge, RainGauge { tips: 4, last_tip: 0 });
}

#[test]
fn tip_before_the_last_one_does_not_count() {
    let mut gauge = RainGauge { tips: 4, last_tip: 900 };
    inc_rain_tips(&mut gauge, 100, 30);
    assert_eq!(gauge, RainGauge { tips: 4, last_tip: 900 });
}

#[test]
fn count_passes_the_limit_and_starts_again() {
    let mut gauge = RainGauge { tips: 100, last_tip: 10 };
    inc_rain_tips(&mut gauge, 1_000, 30);
    assert_eq!(gauge, RainGauge { tips: 101, last_tip: 1_000 });
    assert_eq!(load_rain_tips(&gauge), 0);
    inc_rain_tips(&mut gauge, 1_001, 30);
    assert_eq!(gauge, RainGauge { tips: 1, last_tip: 1_001 });
}
