use gamemath::lanes::{
    select, shuffle, simd_max, simd_min, splat, swizzle, wrapping_abs, wrapping_add, wrapping_div,
    wrapping_mul, wrapping_neg, wrapping_rem, wrapping_sub, Which,
};

#[test]
fn splat_fills_every_lane() {
    let r: [i32; 4] = splat(7);
    assert_eq!(r, [7, 7, 7, 7]);
    let r: [bool; 2] = splat(true);
    assert_eq!(r, [true, true]);
}

#[test]
fn add_wraps_on_overflow() {
    assert_eq!(wrapping_add([1, i32::MAX], [2, 1]), [3, i32::MIN]);
    assert_eq!(wrapping_add([i32::MIN, -5, 0, 9], [-1, 5, 0, 1]), [i32::MAX, 0, 0, 10]);
}

#[test]
fn sub_wraps_on_overflow() {
    assert_eq!(wrapping_sub([1, i32::MIN], [2, 1]), [-1, i32::MAX]);
    assert_eq!(wrapping_sub([0, 0, 0, 0], [i32::MIN, 1, -1, 0]), [i32::MIN, -1, 1, 0]);
}

#[test]
fn mul_wraps_on_overflow() {
    assert_eq!(wrapping_mul([3, i32::MAX], [-4, 2]), [-12, -2]);
    assert_eq!(wrapping_mul([65536, i32::MIN, 0, -1], [65536, -1, 5, -1]), [0, i32::MIN, 0, 1]);
}

#[test]
fn div_rounds_toward_zero() {
    assert_eq!(wrapping_div([7, -7, 7, -7], [2, 2, -2, -2]), [3, -3, -3, 3]);
    assert_eq!(wrapping_div([0, 1], [5, -5]), [0, 0]);
}

#[test]
fn div_of_min_by_minus_one_wraps() {
    assert_eq!(wrapping_div([i32::MIN, i32::MIN], [-1, 1]), [i32::MIN, i32::MIN]);
    assert_eq!(wrapping_div([i32::MIN, i32::MAX], [2, -1]), [-1073741824, -i32::MAX]);
}

#[test]
fn rem_has_the_sign_of_the_dividend() {
    assert_eq!(wrapping_rem([7, -7, 7, -7], [2, 2, -2, -2]), [1, -1, 1, -1]);
    assert_eq!(wrapping_rem([i32::MIN, i32::MIN], [-1, 3]), [0, -2]);
}

#[test]
fn neg_and_abs_wrap_on_min() {
    assert_eq!(wrapping_neg([1, -1, 0, i32::MIN]), [-1, 1, 0, i32::MIN]);
    assert_eq!(wrapping_abs([1, -1, 0, i32::MIN]), [1, 1, 0, i32::MIN]);
    assert_eq!(wrapping_abs([i32::MAX, -i32::MAX]), [i32::MAX, i32::MAX]);
}

#[test]
fn min_and_max_work_lane_by_lane() {
    assert_eq!(simd_min([1, 5, -3, 0], [2, 4, -3, i32::MIN]), [1, 4, -3, i32::MIN]);
    assert_eq!(simd_max([1, 5, -3, 0], [2, 4, -3, i32::MIN]), [2, 5, -3, 0]);
}

#[test]
fn select_follows_the_mask() {
    assert_eq!(select([true, false, true, false], [1, 2, 3, 4], [5, 6, 7, 8]), [1, 6, 3, 8]);
    assert_eq!(select([false, false], ['a', 'b'], ['c', 'd']), ['c', 'd']);
}

#[test]
fn swizzle_gathers_and_repeats() {
    assert_eq!(swizzle([10, 20, 30, 40], [3, 3, 0, 1]), [40, 40, 10, 20]);
    assert_eq!(swizzle([10, 20], [1, 0, 1, 1]), [20, 10, 20, 20]);
    assert_eq!(swizzle([1.5f32, 2.5, 3.5, 4.5], [2, 0]), [3.5, 1.5]);
}

#[test]
fn shuffle_picks_from_both_sources() {
    let a = [1, 2, 3, 4];
    let b = [5, 6, 7, 8];
    let picks = [Which::First(0), Which::Second(3), Which::Second(0), Which::First(3)];
    assert_eq!(shuffle(a, b, picks), [1, 8, 5, 4]);
    assert_eq!(shuffle(a, b, [Which::Second(1), Which::Second(1)]), [6, 6]);
}
