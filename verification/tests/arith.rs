use terrain_filter::arith::{average, sat_abs, sat_add, sat_mul};

#[test]
fn sat_add_plain() {
    assert_eq!(sat_add(2, 3), 5);
    assert_eq!(sat_add(-2, 3), 1);
    assert_eq!(sat_add(0, 0), 0);
}

#[test]
fn sat_add_saturates() {
    assert_eq!(sat_add(i64::MAX, 1), i64::MAX);
    assert_eq!(sat_add(i64::MAX, i64::MAX), i64::MAX);
    assert_eq!(sat_add(i64::MIN, -1), i64::MIN);
    assert_eq!(sat_add(i64::MIN, i64::MIN), i64::MIN);
    assert_eq!(sat_add(i64::MAX, i64::MIN), -1);
}

#[test]
fn sat_mul_plain() {
    assert_eq!(sat_mul(3, 4), 12);
    assert_eq!(sat_mul(-3, 4), -12);
    assert_eq!(sat_mul(-3, -4), 12);
    assert_eq!(sat_mul(7, 0), 0);
}

#[test]
fn sat_mul_saturates() {
    assert_eq!(sat_mul(i64::MAX, 2), i64::MAX);
    assert_eq!(sat_mul(i64::MIN, 2), i64::MIN);
    assert_eq!(sat_mul(i64::MIN, -1), i64::MAX);
    assert_eq!(sat_mul(i64::MIN, i64::MIN), i64::MAX);
    assert_eq!(sat_mul(i64::MAX, i64::MIN), i64::MIN);
}

#[test]
fn sat_abs_plain() {
    assert_eq!(sat_abs(5), 5);
    assert_eq!(sat_abs(-5), 5);
    assert_eq!(sat_abs(0), 0);
}

#[test]
fn sat_abs_saturates() {
    assert_eq!(sat_abs(i64::MIN), i64::MAX);
    assert_eq!(sat_abs(i64::MIN + 1), i64::MAX);
    assert_eq!(sat_abs(i64::MAX), i64::MAX);
}

#[test]
fn average_rounds_toward_zero() {
    assert_eq!(average(3, 4), 3);
    assert_eq!(average(4, 4), 4);
    assert_eq!(average(-3, -4), -3);
    assert_eq!(average(7, -2), 2);
    assert_eq!(average(-7, 2), -2);
    assert_eq!(average(0, 0), 0);
}

#[test]
fn average_never_overflows() {
    assert_eq!(average(i64::MAX, i64::MAX), i64::MAX);
    assert_eq!(average(i64::MIN, i64::MIN), i64::MIN);
    assert_eq!(average(i64::MAX, i64::MIN), 0);
    assert_eq!(average(i64::MIN, 0), i64::MIN / 2);
}
