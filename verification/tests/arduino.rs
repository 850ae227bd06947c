use smart_compass::arduino;
use smart_compass::arduino::constrain;

#[test]
fn test_constrain() {
    assert_eq!(constrain(0, 1, 3), 1);
    assert_eq!(constrain(1, 1, 3), 1);
    assert_eq!(constrain(2, 1, 3), 2);
    assert_eq!(constrain(3, 1, 3), 3);
    assert_eq!(constrain(4, 1, 3), 3);
}

#[test]
fn test_map_f32() {
    assert_eq!(arduino::map(-1, -1, 1, 0, 2), 0);
    assert_eq!(arduino::map(0, -1, 1, 0, 2), 1);
    assert_eq!(arduino::map(1, -1, 1, 0, 2), 2);
    assert_eq!(arduino::map(2, -1, 1, 0, 2), 3);
}

#[test]
fn map_rounds_towards_zero() {
    assert_eq!(arduino::map(180, 0, 360, 0, 255), 127);
    assert_eq!(arduino::map(360, 0, 360, 0, 255), 255);
    assert_eq!(arduino::map(1, 0, 3, 0, -2), 0);
    assert_eq!(arduino::map(2, 0, 3, 0, -2), -1);
    assert_eq!(arduino::map(-2, 0, 3, 0, 2), -1);
    assert_eq!(arduino::map(5, 0, -10, 0, 3), -1);
    assert_eq!(arduino::map(-5, 0, -10, 10, 13), 11);
    assert_eq!(arduino::map(i32::MAX, i32::MIN, i32::MAX, i32::MIN, i32::MAX), i32::MAX);
    assert_eq!(arduino::map(i32::MIN, i32::MIN, i32::MAX, i32::MIN, i32::MAX), i32::MIN);
}

#[test]
fn constrain_with_crossed_bounds_prefers_low() {
    assert_eq!(constrain(5, 7, 3), 7);
    assert_eq!(constrain(9, 7, 3), 3);
}
