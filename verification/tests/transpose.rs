use gamemath::transpose::{move_high_to_low, move_low_to_high, transposed, unpack_high, unpack_low};

#[test]
fn interleaving_passes() {
    let a = [1, 2, 3, 4];
    let b = [5, 6, 7, 8];
    assert_eq!(unpack_low(a, b), [1, 5, 2, 6]);
    assert_eq!(unpack_high(a, b), [3, 7, 4, 8]);
    assert_eq!(move_low_to_high(a, b), [1, 2, 5, 6]);
    assert_eq!(move_high_to_low(a, b), [7, 8, 3, 4]);
}

#[test]
fn transpose_matches_element_swap() {
    let m = [[0, 1, 2, 3], [10, 11, 12, 13], [20, 21, 22, 23], [30, 31, 32, 33]];
    let t = transposed(m);
    for i in 0..4 {
        for j in 0..4 {
            assert_eq!(t[i][j], m[j][i]);
        }
    }
    assert_eq!(t, [[0, 10, 20, 30], [1, 11, 21, 31], [2, 12, 22, 32], [3, 13, 23, 33]]);
}

#[test]
fn transpose_twice_is_the_identity() {
    let m = [[5, -1, 2, 9], [0, 7, 12, -13], [20, 21, -22, 23], [i32::MIN, 31, 32, i32::MAX]];
    assert_eq!(transposed(transposed(m)), m);
}

#[test]
fn transpose_keeps_the_bits_of_floats() {
    let m = [
        [0.1f32, -0.0, f32::INFINITY, 1.0e-40],
        [2.5, f32::MIN_POSITIVE, -7.25, 3.0],
        [f32::MAX, 4.0, 5.0, f32::NEG_INFINITY],
        [6.0, 7.0, f32::EPSILON, 8.0],
    ];
    let t = transposed(m);
    for i in 0..4 {
        for j in 0..4 {
            assert_eq!(t[i][j].to_bits(), m[j][i].to_bits());
        }
    }
}
