use tank_netsync::angle::{calc_angle, delta_angle, delta_angle_max, normalize_angle, FULL_TURN, HALF_TURN};

#[test]
fn normalize_keeps_angles_in_range() {
    assert_eq!(normalize_angle(0), 0);
    assert_eq!(normalize_angle(HALF_TURN), HALF_TURN);
    assert_eq!(normalize_angle(-HALF_TURN), HALF_TURN);
    assert_eq!(normalize_angle(HALF_TURN + 1), 1 - HALF_TURN);
    assert_eq!(normalize_angle(3 * FULL_TURN + 5), 5);
    assert_eq!(normalize_angle(-3 * FULL_TURN - 5), -5);
}

#[test]
fn normalize_is_idempotent() {
    for a in [0, 1, -1, HALF_TURN, -HALF_TURN, 7_000_000, -7_000_000, i64::MAX, i64::MIN] {
        let n = normalize_angle(a);
        assert!(-HALF_TURN < n && n <= HALF_TURN);
        assert_eq!(normalize_angle(n), n);
    }
}

#[test]
fn delta_angle_takes_shortest_turn() {
    assert_eq!(delta_angle(3_000_000, -3_000_000), -283_186);
    assert_eq!(delta_angle(100, 50), 50);
    assert_eq!(delta_angle(i64::MIN, i64::MAX), 1_627_429);
}

#[test]
fn turn_is_limited_by_speed() {
    assert_eq!(delta_angle_max(1_000_000, 0, 500_000, 100_000), 150_000);
    assert_eq!(delta_angle_max(-1_000_000, 0, 500_000, 100_000), -150_000);
    assert_eq!(delta_angle_max(20_000, 0, 500_000, 100_000), 20_000);
    assert_eq!(calc_angle(1_000_000, 0, 500_000, 100_000), 150_000);
    assert_eq!(calc_angle(HALF_TURN - 10, HALF_TURN - 20, 0, 0), HALF_TURN - 20);
    assert_eq!(calc_angle(-HALF_TURN + 10, HALF_TURN - 10, 1_000_000, 100_000), -HALF_TURN + 10);
}
