use clothoids::util::clamp;

#[test]
fn clamp_keeps_a_value_inside_the_interval() {
    assert_eq!(clamp(5, 0, 10), 5);
    assert_eq!(clamp(0, 0, 10), 0);
    assert_eq!(clamp(10, 0, 10), 10);
}

#[test]
fn clamp_raises_a_value_below_the_interval() {
    assert_eq!(clamp(-1, 0, 10), 0);
    assert_eq!(clamp(i64::MIN, -7, 7), -7);
}

#[test]
fn clamp_lowers_a_value_above_the_interval() {
    assert_eq!(clamp(20, 0, 10), 10);
    assert_eq!(clamp(i64::MAX, -7, 7), 7);
}

#[test]
fn clamp_on_a_single_point_interval() {
    assert_eq!(clamp(-3, 4, 4), 4);
    assert_eq!(clamp(4, 4, 4), 4);
    assert_eq!(clamp(9, 4, 4), 4);
}

#[test]
fn clamp_on_the_widest_interval_is_the_identity() {
    for x in [i64::MIN, -1, 0, 1, i64::MAX] {
        assert_eq!(clamp(x, i64::MIN, i64::MAX), x);
    }
}

#[test]
fn clamp_with_crossed_bounds_gives_the_upper_bound() {
    assert_eq!(clamp(5, 10, 0), 0);
    assert_eq!(clamp(-5, 10, 0), 0);
    assert_eq!(clamp(50, 10, 0), 0);
}

#[test]
fn clamp_result_lies_in_the_interval_and_fixes_its_members() {
    for lo in -4..=4 {
        for hi in lo..=4 {
            for x in -6..=6 {
                let r = clamp(x, lo, hi);
                assert!(lo <= r && r <= hi);
                if lo <= x && x <= hi {
                    assert_eq!(r, x);
                }
            }
        }
    }
}
