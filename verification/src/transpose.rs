//! Transposition of a 4x4 matrix held as four column registers.
//!
//! The transpose is computed by a network of eight two-source shuffles: two
//! passes that interleave pairs of columns, then two passes that join the
//! halves. The contract states that the network moves every element to the
//! mirrored position, as an element by element swap would.

use crate::lanes;
use crate::lanes::Which;
use vstd::prelude::*;

verus! {

/// Interleaves the low halves of two registers: `(a0, b0, a1, b1)`.
pub fn unpack_low<T: Copy>(a: [T; 4], b: [T; 4]) -> (r: [T; 4])
    ensures
        r@ == seq![a[0], b[0], a[1], b[1]],
{
    let r = lanes::shuffle(
        a,
        b,
        [Which::First(0), Which::Second(0), Which::First(1), Which::Second(1)],
    );
    assert(r@ =~= seq![a[0], b[0], a[1], b[1]]);
    r
}

/// Interleaves the high halves of two registers: `(a2, b2, a3, b3)`.
pub fn unpack_high<T: Copy>(a: [T; 4], b: [T; 4]) -> (r: [T; 4])
    ensures
        r@ == seq![a[2], b[2], a[3], b[3]],
{
    let r = lanes::shuffle(
        a,
        b,
        [Which::First(2), Which::Second(2), Which::First(3), Which::Second(3)],
    );
    assert(r@ =~= seq![a[2], b[2], a[3], b[3]]);
    r
}

/// Joins the low half of `a` with the low half of `b`: `(a0, a1, b0, b1)`.
pub fn move_low_to_high<T: Copy>(a: [T; 4], b: [T; 4]) -> (r: [T; 4])
    ensures
        r@ == seq![a[0], a[1], b[0], b[1]],
{
    let r = lanes::shuffle(
        a,
        b,
        [Which::First(0), Which::First(1), Which::Second(0), Which::Second(1)],
    );
    assert(r@ =~= seq![a[0], a[1], b[0], b[1]]);
    r
}

/// Joins the high half of `b` with the high half of `a`: `(b2, b3, a2, a3)`.
pub fn move_high_to_low<T: Copy>(a: [T; 4], b: [T; 4]) -> (r: [T; 4])
    ensures
        r@ == seq![b[2], b[3], a[2], a[3]],
{
    let r = lanes::shuffle(
        a,
        b,
        [Which::Second(2), Which::Second(3), Which::First(2), Which::First(3)],
    );
    assert(r@ =~= seq![b[2], b[3], a[2], a[3]]);
    r
}

/// Transposes a 4x4 matrix given by its columns: element `j` of column `i` of the
/// result is element `i` of column `j` of the argument.
pub fn transposed<T: Copy>(columns: [[T; 4]; 4]) -> (r: [[T; 4]; 4])
    ensures
        forall|i: int, j: int| 0 <= i < 4 && 0 <= j < 4 ==> r[i][j] == columns[j][i],
{
    let c0 = columns[0];
    let c1 = columns[1];
    let c2 = columns[2];
    let c3 = columns[3];

    let tmp0 = unpack_low(c0, c1);
    let tmp2 = unpack_low(c2, c3);
    let tmp1 = unpack_high(c0, c1);
    let tmp3 = unpack_high(c2, c3);
    let r0 = move_low_to_high(tmp0, tmp2);
    let r1 = move_high_to_low(tmp2, tmp0);
    let r2 = move_low_to_high(tmp1, tmp3);
    let r3 = move_high_to_low(tmp3, tmp1);

    [r0, r1, r2, r3]
}

} // verus!
