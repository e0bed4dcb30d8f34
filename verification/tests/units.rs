use redeemer::units::{approach, magnitude, max_speed_step, mirror, sign_of};

#[test]
fn magnitude_of_the_smallest_value_fits() {
    assert_eq!(magnitude(i32::MIN), 2_147_483_648);
    assert_eq!(magnitude(-3), 3);
    assert_eq!(magnitude(3), 3);
    assert_eq!(magnitude(0), 0);
}

#[test]
fn zero_counts_as_positive() {
    assert_eq!(sign_of(0), 1);
    assert_eq!(sign_of(9), 1);
    assert_eq!(sign_of(-9), -1);
}

#[test]
fn approach_moves_by_at_most_the_step() {
    assert_eq!(approach(0, 100, 30), 30);
    assert_eq!(approach(90, 100, 30), 100);
    assert_eq!(approach(0, -100, 30), -30);
    assert_eq!(approach(-90, -100, 30), -100);
    assert_eq!(approach(5, 5, 0), 5);
    assert_eq!(approach(5, 100, 0), 5);
    assert_eq!(approach(i32::MIN, i32::MAX, u64::MAX), i32::MAX);
    assert_eq!(approach(i32::MAX, i32::MIN, 1), i32::MAX - 1);
}

#[test]
fn speed_step_is_acceleration_times_time() {
    assert_eq!(max_speed_step(3600, 10_000_000), 36_000);
    assert_eq!(max_speed_step(1800, 16_666_667), 30_000);
    assert_eq!(max_speed_step(3000, 0), 0);
    assert_eq!(max_speed_step(1, 999_999), 0);
    assert_eq!(max_speed_step(u32::MAX, u64::MAX), u64::MAX);
}

#[test]
fn mirror_negates() {
    assert_eq!(mirror(5), -5);
    assert_eq!(mirror(-5), 5);
    assert_eq!(mirror(0), 0);
    assert_eq!(mirror(i32::MIN), i32::MAX);
}
