use tile_runner::terrain::is_hole;

#[test]
fn middle_lane_boundary_values() {
    assert!(is_hole(10, 0));
    assert!(!is_hole(9, 0));
    assert!(is_hole(11, 0));
    assert!(!is_hole(12, 0));
    assert!(!is_hole(0, 0));
    assert!(is_hole(22, 0));
    assert!(is_hole(23, 0));
    assert!(!is_hole(24, 0));
}

#[test]
fn middle_lane_is_mirrored() {
    for x in 0..200 {
        assert_eq!(is_hole(x, 0), is_hole(-x, 0));
        assert_eq!(is_hole(x, -1), is_hole(-x, -1));
        assert_eq!(is_hole(x, 1), is_hole(-x, 1));
    }
    assert!(is_hole(-10, 0));
    assert!(!is_hole(-9, 0));
}

#[test]
fn near_lane_has_period_ten_and_threshold_nine() {
    let holes: Vec<i32> = (0..24).filter(|x| is_hole(*x, -1)).collect();
    assert_eq!(holes, vec![12, 22]);
}

#[test]
fn near_lane_negative_sum_is_no_hole() {
    // |x| + 3z is -3, -2, -1 here; the remainder keeps that sign.
    assert!(!is_hole(0, -1));
    assert!(!is_hole(1, -1));
    assert!(!is_hole(2, -1));
    assert!(!is_hole(-2, -1));
}

#[test]
fn far_lane_has_period_fourteen_and_threshold_eleven() {
    let holes: Vec<i32> = (0..30).filter(|x| is_hole(*x, 1)).collect();
    assert_eq!(holes, vec![8, 9, 10, 22, 23, 24]);
}

#[test]
fn same_inputs_same_answer() {
    for z in -1..2 {
        for x in -50..50 {
            let first = is_hole(x, z);
            let second = is_hole(x, z);
            assert_eq!(first, second);
        }
    }
}

#[test]
fn pattern_repeats_with_the_lane_period() {
    for x in 3..100 {
        assert_eq!(is_hole(x + 10, -1), is_hole(x, -1));
        assert_eq!(is_hole(x + 12, 0), is_hole(x, 0));
        assert_eq!(is_hole(x + 14, 1), is_hole(x, 1));
    }
}

#[test]
fn extreme_columns_do_not_overflow() {
    assert!(!is_hole(i32::MIN, 0));
    assert!(!is_hole(i32::MAX, 1));
    assert!(!is_hole(0, -7));
    assert!(!is_hole(30, -7));
}
