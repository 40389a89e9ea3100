use panther::track::{
    average_speed, project, GpsData, LocationMetric, TrackPoint, MAX_ACCURACY, WARM_UP,
};

const LAT: i32 = 500_000_000;
const LON: i32 = 100_000_000;

/// An accumulator whose warm-up is over: the signal became available at 0.
fn warmed_up() -> GpsData {
    let mut gps = GpsData::new();
    gps.update_location(0, LAT, LON, 3_000, 90_000);
    gps
}

#[test]
fn fresh_accumulator_is_empty() {
    let gps = GpsData::new();
    assert!(!gps.gps_online());
    assert!(!gps.has_initial_metric());
    assert!(!gps.is_good_accuracy());
    assert!(!gps.is_paused());
    assert_eq!(gps.get_last_known_acc(), None);
    assert_eq!(gps.total_distance(), 0);
    assert_eq!(gps.total_time(), 0);
    assert_eq!(gps.avg_speed(), 0);
    assert_eq!(gps.track_len(), 0);
}

#[test]
fn limits_are_ten_seconds_and_five_and_a_half_metres() {
    assert_eq!(WARM_UP, 10_000);
    assert_eq!(MAX_ACCURACY, 5_500);
}

#[test]
fn first_fix_starts_the_warm_up_and_records_accuracy() {
    let mut gps = GpsData::new();
    gps.update_location(1_000, LAT, LON, 2_000, 50);
    assert!(gps.gps_online());
    assert_eq!(gps.get_last_known_acc(), Some(2_000));
    assert!(!gps.has_initial_metric());
    assert!(!gps.is_good_accuracy());
}

#[test]
fn fixes_within_warm_up_never_change_totals() {
    let mut gps = GpsData::new();
    gps.update_location(1_000, LAT, LON, 1_000, 0);
    gps.update_location(4_000, LAT + 10_000, LON + 10_000, 1_000, 3_000);
    gps.update_location(10_999, LAT + 20_000, LON, 1_000, 9_999);
    assert_eq!(gps.total_distance(), 0);
    assert_eq!(gps.total_time(), 0);
    assert!(!gps.has_initial_metric());
    assert_eq!(gps.track_len(), 0);
    assert_eq!(gps.get_last_known_acc(), Some(1_000));
}

#[test]
fn warm_up_ends_after_ten_seconds() {
    let mut gps = GpsData::new();
    gps.update_location(1_000, LAT, LON, 1_000, 0);
    gps.update_location(10_999, LAT, LON, 1_000, 0);
    assert!(!gps.has_initial_metric());
    gps.update_location(11_000, LAT, LON, 1_000, 0);
    assert!(gps.has_initial_metric());
}

#[test]
fn poor_accuracy_never_changes_totals() {
    let mut gps = warmed_up();
    gps.update_location(10_000, LAT, LON, 3_000, 100_000);
    gps.update_location(11_000, LAT, LON, 3_000, 101_000);
    gps.update_location(16_000, LAT + 898, LON, 3_000, 106_000);
    let distance = gps.total_distance();
    let time = gps.total_time();
    assert!(gps.is_good_accuracy());
    for i in 0..5 {
        gps.update_location(20_000 + i, LAT + 50_000 * (i as i32 + 1), LON, 10_000, 110_000 + i);
        assert_eq!(gps.total_distance(), distance);
        assert_eq!(gps.total_time(), time);
        assert!(!gps.is_good_accuracy());
        assert_eq!(gps.get_last_known_acc(), Some(10_000));
    }
    assert_eq!(gps.track_len(), 2);
}

#[test]
fn accuracy_limit_is_inclusive() {
    let mut gps = warmed_up();
    gps.update_location(10_000, LAT, LON, 5_501, 0);
    assert!(!gps.has_initial_metric());
    assert!(!gps.is_good_accuracy());
    gps.update_location(10_001, LAT, LON, 5_500, 0);
    assert!(gps.has_initial_metric());
    assert!(gps.is_good_accuracy());
}

#[test]
fn first_accepted_fix_only_sets_the_reference() {
    let mut gps = warmed_up();
    gps.update_location(10_000, LAT, LON, 3_000, 100_000);
    assert_eq!(
        gps.initial_metric(),
        Some(LocationMetric { latitude: LAT, longitude: LON, accuracy: 3_000, timestamp: 100_000 })
    );
    assert_eq!(gps.track_len(), 0);
    assert_eq!(gps.total_distance(), 0);
    assert_eq!(gps.total_time(), 0);
}

#[test]
fn second_accepted_fix_is_projected_without_distance() {
    let mut gps = warmed_up();
    gps.update_location(10_000, LAT, LON, 3_000, 100_000);
    gps.update_location(11_000, LAT + 898, LON, 4_000, 101_000);
    assert_eq!(gps.track_len(), 1);
    assert_eq!(
        gps.track_point(0),
        Some(TrackPoint { north: 9996, east: 0, accuracy: 4_000, timestamp: 101_000 })
    );
    assert_eq!(gps.track_point(1), None);
    assert_eq!(gps.total_distance(), 0);
    assert_eq!(gps.total_time(), 0);
    // the reference stays
    assert_eq!(gps.initial_metric().map(|m| m.timestamp), Some(100_000));
}

#[test]
fn ten_metres_north_in_five_seconds() {
    let mut gps = warmed_up();
    gps.update_location(10_000, LAT, LON, 3_000, 100_000);
    gps.update_location(11_000, LAT, LON, 3_000, 101_000);
    gps.update_location(16_000, LAT + 898, LON, 3_000, 106_000);
    assert_eq!(gps.total_distance(), 9996);
    assert_eq!(gps.total_time(), 5_000);
    assert_eq!(gps.avg_speed(), 1999);
    let metres = gps.total_distance() as f64 / 1000.0;
    assert!((metres - 10.0).abs() < 0.01);
    let speed = gps.avg_speed() as f64 / 1000.0;
    let expected = metres / (gps.total_time() as f64 / 1000.0);
    assert!((speed - expected).abs() < 0.001);
}

#[test]
fn distance_adds_up_along_the_track() {
    let mut gps = warmed_up();
    gps.update_location(10_000, LAT, LON, 3_000, 100_000);
    gps.update_location(11_000, LAT, LON, 3_000, 101_000);
    // 9996 mm north and 7155 mm east of the reference
    gps.update_location(12_000, LAT + 898, LON + 1000, 3_000, 103_000);
    assert_eq!(gps.total_distance(), 12_292);
    assert_eq!(gps.total_time(), 2_000);
    // and back
    gps.update_location(13_000, LAT, LON, 3_000, 104_500);
    assert_eq!(gps.total_distance(), 24_584);
    assert_eq!(gps.total_time(), 3_500);
    assert_eq!(gps.avg_speed(), 24_584_000 / 3_500);
    assert_eq!(gps.track_len(), 3);
}

#[test]
fn projection_uses_the_latitude_of_the_reference() {
    let origin = LocationMetric { latitude: 600_000_000, longitude: 0, accuracy: 1, timestamp: 1 };
    let sample = LocationMetric { latitude: 0, longitude: 1000, accuracy: 2, timestamp: 3 };
    // at the latitude of the sample, the equator, the offset would be 11131
    assert_eq!(
        project(&sample, &origin),
        TrackPoint { north: -6_679_170_000, east: 5565, accuracy: 2, timestamp: 3 }
    );
}

#[test]
fn earlier_timestamp_adds_no_time() {
    let mut gps = warmed_up();
    gps.update_location(10_000, LAT, LON, 3_000, 100_000);
    gps.update_location(11_000, LAT, LON, 3_000, 101_000);
    gps.update_location(12_000, LAT + 898, LON, 3_000, 100_500);
    assert_eq!(gps.total_distance(), 9996);
    assert_eq!(gps.total_time(), 0);
    assert_eq!(gps.avg_speed(), 0);
}

#[test]
fn paused_accumulator_ignores_fixes() {
    let mut gps = warmed_up();
    gps.update_location(10_000, LAT, LON, 3_000, 100_000);
    gps.update_location(11_000, LAT, LON, 3_000, 101_000);
    gps.update_location(16_000, LAT + 898, LON, 3_000, 106_000);
    gps.pause();
    assert!(gps.is_paused());
    assert!(!gps.gps_online());
    assert!(!gps.has_initial_metric());
    assert_eq!(gps.get_last_known_acc(), None);
    assert_eq!(gps.track_len(), 0);
    assert_eq!(gps.total_distance(), 9996);
    assert_eq!(gps.total_time(), 5_000);
    gps.update_location(50_000, LAT + 5_000, LON, 1_000, 150_000);
    gps.update_location(70_000, LAT + 9_000, LON, 1_000, 170_000);
    assert!(!gps.gps_online());
    assert_eq!(gps.get_last_known_acc(), None);
    assert!(!gps.has_initial_metric());
    assert_eq!(gps.total_distance(), 9996);
    assert_eq!(gps.total_time(), 5_000);
}

#[test]
fn resume_starts_a_new_session_and_keeps_totals() {
    let mut gps = warmed_up();
    gps.update_location(10_000, LAT, LON, 3_000, 100_000);
    gps.update_location(11_000, LAT, LON, 3_000, 101_000);
    gps.update_location(16_000, LAT + 898, LON, 3_000, 106_000);
    gps.pause();
    gps.resume();
    assert!(!gps.is_paused());
    // far away from the old session: the first fix after the pause warms up
    gps.update_location(100_000, LAT + 100_000, LON, 3_000, 200_000);
    assert!(gps.gps_online());
    assert!(!gps.has_initial_metric());
    assert_eq!((gps.total_distance(), gps.total_time()), (9996, 5_000));
    // the first accepted one becomes the new reference and adds nothing
    gps.update_location(110_000, LAT + 100_000, LON, 3_000, 210_000);
    assert_eq!(gps.initial_metric().map(|m| m.latitude), Some(LAT + 100_000));
    assert_eq!((gps.total_distance(), gps.total_time()), (9996, 5_000));
    assert_eq!(gps.track_len(), 0);
    // the next is projected, the one after adds to the totals again
    gps.update_location(111_000, LAT + 100_000, LON, 3_000, 211_000);
    assert_eq!((gps.total_distance(), gps.total_time()), (9996, 5_000));
    gps.update_location(112_000, LAT + 100_898, LON, 3_000, 213_000);
    assert_eq!((gps.total_distance(), gps.total_time()), (19_992, 7_000));
}

#[test]
fn provider_notifications_set_and_clear_the_signal() {
    let mut gps = GpsData::new();
    gps.provider_enabled(5_000);
    assert!(gps.gps_online());
    // the warm-up counts from the notification
    gps.update_location(14_999, LAT, LON, 1_000, 0);
    assert!(!gps.has_initial_metric());
    gps.update_location(15_000, LAT, LON, 1_000, 0);
    assert!(gps.has_initial_metric());
    gps.provider_disabled();
    assert!(!gps.gps_online());
    assert!(gps.has_initial_metric());
    // the next fix starts a new warm-up
    gps.update_location(20_000, LAT, LON, 1_000, 0);
    gps.update_location(29_999, LAT + 898, LON, 1_000, 0);
    assert_eq!(gps.track_len(), 0);
}

#[test]
fn clock_running_backwards_counts_as_warm_up() {
    let mut gps = GpsData::new();
    gps.provider_enabled(50_000);
    gps.update_location(10, LAT, LON, 1_000, 0);
    assert!(!gps.has_initial_metric());
}

#[test]
fn average_speed_is_distance_over_time() {
    assert_eq!(average_speed(0, 0), 0);
    assert_eq!(average_speed(5_000, 0), 0);
    assert_eq!(average_speed(10_000, 5_000), 2_000);
    assert_eq!(average_speed(1, 3), 333);
    assert_eq!(average_speed(u64::MAX, 1), u64::MAX);
    assert_eq!(average_speed(u64::MAX, 1000), u64::MAX);
    assert_eq!(average_speed(u64::MAX, 2000), u64::MAX / 2);
}

#[test]
fn farthest_fixes_do_not_overflow() {
    let mut gps = warmed_up();
    gps.update_location(10_000, 0, 0, 0, 0);
    gps.update_location(10_001, i32::MIN, i32::MIN, 0, 0);
    gps.update_location(10_002, i32::MAX, i32::MAX, 0, u64::MAX);
    assert_eq!(gps.total_time(), u64::MAX);
    assert!(gps.total_distance() > 0);
    gps.update_location(10_003, i32::MIN, i32::MIN, 0, u64::MAX);
    assert_eq!(gps.total_time(), u64::MAX);
}
