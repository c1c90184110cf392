use rust_4k::{compute_column, compute_spawn_time, ConfigurationError};

#[test]
fn column_is_the_floored_quotient() {
    assert_eq!(compute_column(0, 4), 0);
    assert_eq!(compute_column(127, 4), 0);
    assert_eq!(compute_column(128, 4), 1);
    assert_eq!(compute_column(255, 4), 1);
    assert_eq!(compute_column(256, 4), 2);
    assert_eq!(compute_column(384, 4), 3);
    assert_eq!(compute_column(511, 4), 3);
    assert_eq!(compute_column(256, 7), 3);
    assert_eq!(compute_column(73, 7), 0);
    assert_eq!(compute_column(74, 7), 1);
    assert_eq!(compute_column(300, 1), 0);
}

#[test]
fn column_is_clamped_at_the_right_edge() {
    assert_eq!(compute_column(512, 4), 3);
    assert_eq!(compute_column(513, 4), 3);
    assert_eq!(compute_column(100_000, 4), 3);
    assert_eq!(compute_column(i64::MAX, 9), 8);
    assert_eq!(compute_column(512, 1), 0);
}

#[test]
fn column_is_clamped_at_the_left_edge() {
    assert_eq!(compute_column(-1, 4), 0);
    assert_eq!(compute_column(-128, 4), 0);
    assert_eq!(compute_column(i64::MIN, 9), 0);
}

#[test]
fn column_with_a_huge_lane_count() {
    assert_eq!(compute_column(511, i64::MAX), i64::MAX / 512 * 511 + (i64::MAX % 512) * 511 / 512);
    assert_eq!(compute_column(512, i64::MAX), i64::MAX - 1);
    assert_eq!(compute_column(1, i64::MAX), i64::MAX / 512);
}

#[test]
fn column_is_monotonic_and_in_range() {
    for lanes in 1..=9i64 {
        let mut last = 0;
        for x in -20..=600i64 {
            let column = compute_column(x, lanes);
            assert!(0 <= column && column < lanes, "x = {x}, lanes = {lanes}");
            assert!(last <= column, "x = {x}, lanes = {lanes}");
            last = column;
        }
    }
}

#[test]
fn spawn_time_subtracts_the_travel_time() {
    assert_eq!(compute_spawn_time(1000, 480, 1000), Ok(560));
    assert_eq!(compute_spawn_time(1000, 480, 2000), Ok(780));
    assert_eq!(compute_spawn_time(1000, 480, 500), Ok(120));
    assert_eq!(compute_spawn_time(0, 40, 1000), Ok(0));
    assert_eq!(compute_spawn_time(5000, 1080, 800), Ok(3700));
}

#[test]
fn spawn_time_may_be_negative() {
    assert_eq!(compute_spawn_time(100, 480, 1000), Ok(-340));
    assert_eq!(compute_spawn_time(0, 480, 1), Ok(-440_000));
}

#[test]
fn travel_time_is_rounded_to_the_nearest_millisecond() {
    // 1000 / 3000 of a millisecond rounds down.
    assert_eq!(compute_spawn_time(0, 41, 3000), Ok(0));
    // 2000 / 3000 rounds up.
    assert_eq!(compute_spawn_time(0, 42, 3000), Ok(-1));
    // A half rounds away from zero.
    assert_eq!(compute_spawn_time(0, 41, 2000), Ok(-1));
    assert_eq!(compute_spawn_time(0, 43, 2000), Ok(-2));
    assert_eq!(compute_spawn_time(0, 41, 2001), Ok(0));
    assert_eq!(compute_spawn_time(10, 47, 3), Ok(10 - 2333));
    assert_eq!(compute_spawn_time(10, 45, 3), Ok(10 - 1667));
}

#[test]
fn travel_time_above_the_judgment_line_is_negative() {
    assert_eq!(compute_spawn_time(0, 39, 2000), Ok(1));
    assert_eq!(compute_spawn_time(0, 39, 2001), Ok(0));
    assert_eq!(compute_spawn_time(1000, 0, 1000), Ok(1040));
}

#[test]
fn a_negative_scroll_speed_reverses_the_travel() {
    assert_eq!(compute_spawn_time(1000, 480, -1000), Ok(1440));
    assert_eq!(compute_spawn_time(0, 41, -2000), Ok(1));
    assert_eq!(compute_spawn_time(0, 39, -2000), Ok(-1));
    assert_eq!(compute_spawn_time(7, 40, -5), Ok(7));
    assert_eq!(compute_spawn_time(0, 41, i64::MIN), Ok(0));
}

#[test]
fn zero_scroll_speed_is_a_configuration_error() {
    assert_eq!(compute_spawn_time(1000, 480, 0), Err(ConfigurationError::ZeroScrollSpeed));
    assert_eq!(compute_spawn_time(0, 40, 0), Err(ConfigurationError::ZeroScrollSpeed));
    assert_eq!(compute_spawn_time(i64::MIN, i64::MAX, 0), Err(ConfigurationError::ZeroScrollSpeed));
}

#[test]
fn a_spawn_time_beyond_64_bits_is_a_configuration_error() {
    assert_eq!(
        compute_spawn_time(i64::MIN, 480, 1000),
        Err(ConfigurationError::SpawnTimeOutOfRange)
    );
    assert_eq!(compute_spawn_time(i64::MAX, 0, 1), Err(ConfigurationError::SpawnTimeOutOfRange));
    assert_eq!(compute_spawn_time(0, i64::MAX, 1), Err(ConfigurationError::SpawnTimeOutOfRange));
    assert_eq!(compute_spawn_time(i64::MIN + 440, 480, 1000), Ok(i64::MIN));
    assert_eq!(compute_spawn_time(i64::MIN + 439, 480, 1000), Err(ConfigurationError::SpawnTimeOutOfRange));
    assert_eq!(compute_spawn_time(i64::MAX, 40, 1), Ok(i64::MAX));
    assert_eq!(compute_spawn_time(0, i64::MIN, i64::MIN), Ok(-1000));
}

#[test]
fn spawn_time_is_monotonic_in_hit_time() {
    let mut last = compute_spawn_time(-50, 480, 700).unwrap();
    for hit in -49..500i64 {
        let spawn = compute_spawn_time(hit, 480, 700).unwrap();
        assert!(last <= spawn);
        assert_eq!(spawn - last, 1);
        last = spawn;
    }
}

#[test]
fn a_faster_scroll_never_spawns_earlier() {
    let mut last = compute_spawn_time(10_000, 480, 1).unwrap();
    for speed in 2..3000i64 {
        let spawn = compute_spawn_time(10_000, 480, speed).unwrap();
        assert!(last <= spawn, "speed = {speed}");
        last = spawn;
    }
}

#[test]
fn travel_times_a_millisecond_apart_give_different_spawn_times() {
    // 440_000 / 1000 = 440 and 440_000 / 1003 = 438.68..: more than one apart.
    let slow = compute_spawn_time(0, 480, 1000).unwrap();
    let fast = compute_spawn_time(0, 480, 1003).unwrap();
    assert!(slow < fast);
    // Closer speeds may round to the same millisecond.
    assert_eq!(compute_spawn_time(0, 480, 1_000_000), compute_spawn_time(0, 480, 1_000_001));
}

#[test]
fn above_the_judgment_line_a_faster_scroll_spawns_earlier() {
    // The way is -40 pixels: -40 ms at 1000 px/s, -20 ms at 2000 px/s.
    assert_eq!(compute_spawn_time(0, 0, 1000), Ok(40));
    assert_eq!(compute_spawn_time(0, 0, 2000), Ok(20));
    // On a playfield the order is the other way round.
    assert_eq!(compute_spawn_time(0, 80, 1000), Ok(-40));
    assert_eq!(compute_spawn_time(0, 80, 2000), Ok(-20));
}
