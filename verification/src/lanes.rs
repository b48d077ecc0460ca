//! Fixed-width lane registers.
//!
//! A register is an array of `N` lanes. Whole-register operations act on every
//! lane independently. Integer lanes use 32-bit two's-complement arithmetic
//! that wraps on overflow; the exact result of each lane is given over
//! mathematical integers by the spec functions of this module.

use vstd::prelude::*;

verus! {

/// The 32-bit two's-complement integer congruent to `v` modulo 2^32.
pub open spec fn wrap(v: int) -> i32 {
    let m = v % 0x1_0000_0000;
    if m > i32::MAX {
        (m - 0x1_0000_0000) as i32
    } else {
        m as i32
    }
}

/// The absolute value of a mathematical integer.
pub open spec fn magnitude(v: int) -> int {
    if v < 0 {
        -v
    } else {
        v
    }
}

/// The quotient of `a` by `b` rounded toward zero.
pub open spec fn trunc_div(a: int, b: int) -> int {
    let q = magnitude(a) / magnitude(b);
    if (a < 0) != (b < 0) {
        -q
    } else {
        q
    }
}

/// The remainder that goes with [`trunc_div`]; it has the sign of `a`.
pub open spec fn trunc_rem(a: int, b: int) -> int {
    a - b * trunc_div(a, b)
}

/// The sum of two lanes, wrapped.
pub open spec fn lane_add(a: i32, b: i32) -> i32 {
    wrap(a + b)
}

/// The difference of two lanes, wrapped.
pub open spec fn lane_sub(a: i32, b: i32) -> i32 {
    wrap(a - b)
}

/// The product of two lanes, wrapped.
pub open spec fn lane_mul(a: i32, b: i32) -> i32 {
    wrap(a * b)
}

/// Division rounds toward zero; `i32::MIN / -1` wraps back to `i32::MIN`.
pub open spec fn lane_div(a: i32, b: i32) -> i32 {
    wrap(trunc_div(a as int, b as int))
}

/// The remainder of the division that rounds toward zero; `i32::MIN % -1` is zero.
pub open spec fn lane_rem(a: i32, b: i32) -> i32 {
    wrap(trunc_rem(a as int, b as int))
}

/// The negation of a lane; `i32::MIN` wraps back to itself.
pub open spec fn lane_neg(a: i32) -> i32 {
    wrap(-a)
}

/// The absolute value; `i32::MIN` wraps back to itself.
pub open spec fn lane_abs(a: i32) -> i32 {
    wrap(magnitude(a as int))
}

/// The smaller of two lanes.
pub open spec fn lane_min(a: i32, b: i32) -> i32 {
    if a <= b {
        a
    } else {
        b
    }
}

/// The larger of two lanes.
pub open spec fn lane_max(a: i32, b: i32) -> i32 {
    if a >= b {
        a
    } else {
        b
    }
}

/// `n` lanes that all hold `v`.
pub open spec fn splat_lanes<T>(v: T, n: nat) -> Seq<T> {
    Seq::new(n, |i: int| v)
}

/// The lane by lane sums of two registers.
pub open spec fn sums(a: Seq<i32>, b: Seq<i32>) -> Seq<i32> {
    Seq::new(a.len(), |i: int| lane_add(a[i], b[i]))
}

/// The lane by lane differences of two registers.
pub open spec fn differences(a: Seq<i32>, b: Seq<i32>) -> Seq<i32> {
    Seq::new(a.len(), |i: int| lane_sub(a[i], b[i]))
}

/// The lane by lane products of two registers.
pub open spec fn products(a: Seq<i32>, b: Seq<i32>) -> Seq<i32> {
    Seq::new(a.len(), |i: int| lane_mul(a[i], b[i]))
}

/// The lane by lane quotients of two registers.
pub open spec fn quotients(a: Seq<i32>, b: Seq<i32>) -> Seq<i32> {
    Seq::new(a.len(), |i: int| lane_div(a[i], b[i]))
}

/// The lane by lane remainders of two registers.
pub open spec fn remainders(a: Seq<i32>, b: Seq<i32>) -> Seq<i32> {
    Seq::new(a.len(), |i: int| lane_rem(a[i], b[i]))
}

/// The negation of every lane of a register.
pub open spec fn negations(a: Seq<i32>) -> Seq<i32> {
    Seq::new(a.len(), |i: int| lane_neg(a[i]))
}

/// The absolute value of every lane of a register.
pub open spec fn magnitudes(a: Seq<i32>) -> Seq<i32> {
    Seq::new(a.len(), |i: int| lane_abs(a[i]))
}

/// The lane by lane minima of two registers.
pub open spec fn minima(a: Seq<i32>, b: Seq<i32>) -> Seq<i32> {
    Seq::new(a.len(), |i: int| lane_min(a[i], b[i]))
}

/// The lane by lane maxima of two registers.
pub open spec fn maxima(a: Seq<i32>, b: Seq<i32>) -> Seq<i32> {
    Seq::new(a.len(), |i: int| lane_max(a[i], b[i]))
}

/// No lane of `a` is zero.
pub open spec fn all_nonzero(a: Seq<i32>) -> bool {
    forall|i: int| 0 <= i < a.len() ==> a[i] != 0
}

/// Lane `i` comes from `a` where the mask is set and from `b` where it is not.
pub open spec fn selected<T>(mask: Seq<bool>, a: Seq<T>, b: Seq<T>) -> Seq<T> {
    Seq::new(
        mask.len(),
        |i: int|
            if mask[i] {
                a[i]
            } else {
                b[i]
            },
    )
}

/// Every index names a lane of a register that is `width` lanes wide.
pub open spec fn indices_within(indices: Seq<usize>, width: nat) -> bool {
    forall|i: int| 0 <= i < indices.len() ==> indices[i] < width
}

/// Lane `i` of the result is the source lane that `indices[i]` names.
pub open spec fn gathered<T>(source: Seq<T>, indices: Seq<usize>) -> Seq<T> {
    Seq::new(indices.len(), |i: int| source[indices[i] as int])
}

/// Dividing by a negative divisor negates the quotient and keeps the remainder.
proof fn lemma_div_negative_divisor(x: int, d: int)
    requires
        0 <= x,
        0 < d,
    ensures
        x / (-d) == -(x / d),
        x % (-d) == x % d,
{
    let q = x / d;
    let r = x % d;
    assert(x == d * q + r && 0 <= r < d) by (nonlinear_arith)
        requires
            0 < d,
            q == x / d,
            r == x % d,
    ;
    let q2 = x / (-d);
    let r2 = x % (-d);
    assert(x == (-d) * q2 + r2 && 0 <= r2 < d) by (nonlinear_arith)
        requires
            0 < d,
            q2 == x / (-d),
            r2 == x % (-d),
    ;
    assert(q2 == -q && r2 == r) by (nonlinear_arith)
        requires
            0 < d,
            x == d * q + r,
            0 <= r < d,
            x == (-d) * q2 + r2,
            0 <= r2 < d,
    ;
}

/// A quotient of non-negative numbers lies between zero and the dividend, and is at most
/// half of it where the divisor is at least two.
proof fn lemma_quotient_bound(x: int, d: int)
    requires
        0 <= x,
        0 < d,
    ensures
        0 <= x / d <= x,
        x == d * (x / d) + x % d,
        0 <= x % d < d,
        d == 1 ==> x / d == x,
        d >= 2 ==> 2 * (x / d) <= x,
{
    assert(0 <= x / d <= x && x == d * (x / d) + x % d && 0 <= x % d < d) by (nonlinear_arith)
        requires
            0 <= x,
            0 < d,
    ;
    assert(d >= 2 ==> 2 * (x / d) <= x) by (nonlinear_arith)
        requires
            0 <= x / d,
            x == d * (x / d) + x % d,
            0 <= x % d,
    ;
}

/// One lane of [`wrapping_add`].
fn add_lane(a: i32, b: i32) -> (r: i32)
    ensures
        r == lane_add(a, b),
{
    a.wrapping_add(b)
}

/// One lane of [`wrapping_sub`].
fn sub_lane(a: i32, b: i32) -> (r: i32)
    ensures
        r == lane_sub(a, b),
{
    a.wrapping_sub(b)
}

/// One lane of [`wrapping_mul`].
fn mul_lane(a: i32, b: i32) -> (r: i32)
    ensures
        r == lane_mul(a, b),
{
    a.wrapping_mul(b)
}

/// One lane of [`wrapping_div`].
fn div_lane(a: i32, b: i32) -> (r: i32)
    requires
        b != 0,
    ensures
        r == lane_div(a, b),
{
    proof {
        let x = magnitude(a as int);
        let d = magnitude(b as int);
        lemma_quotient_bound(x, d);
        if b < 0 {
            lemma_div_negative_divisor(x, d);
        }
    }
    if a == i32::MIN && b == -1 {
        a
    } else {
        a / b
    }
}

/// One lane of [`wrapping_rem`].
fn rem_lane(a: i32, b: i32) -> (r: i32)
    requires
        b != 0,
    ensures
        r == lane_rem(a, b),
{
    proof {
        let x = magnitude(a as int);
        let d = magnitude(b as int);
        lemma_quotient_bound(x, d);
        if b < 0 {
            lemma_div_negative_divisor(x, d);
        }
        assert(b * trunc_div(a as int, b as int) == if a < 0 {
            -(d * (x / d))
        } else {
            d * (x / d)
        }) by (nonlinear_arith)
            requires
                d == magnitude(b as int),
                x == magnitude(a as int),
                b != 0,
        ;
    }
    if a == i32::MIN && b == -1 {
        0
    } else {
        a % b
    }
}

/// One lane of [`wrapping_neg`].
fn neg_lane(a: i32) -> (r: i32)
    ensures
        r == lane_neg(a),
{
    0i32.wrapping_sub(a)
}

/// One lane of [`wrapping_abs`].
fn abs_lane(a: i32) -> (r: i32)
    ensures
        r == lane_abs(a),
{
    if a < 0 {
        0i32.wrapping_sub(a)
    } else {
        a
    }
}

/// One lane of [`simd_min`].
fn min_lane(a: i32, b: i32) -> (r: i32)
    ensures
        r == lane_min(a, b),
{
    if a <= b {
        a
    } else {
        b
    }
}

/// One lane of [`simd_max`].
fn max_lane(a: i32, b: i32) -> (r: i32)
    ensures
        r == lane_max(a, b),
{
    if a >= b {
        a
    } else {
        b
    }
}

/// A register whose lanes all hold `v`.
pub fn splat<T: Copy, const N: usize>(v: T) -> (r: [T; N])
    ensures
        r@ == splat_lanes(v, N as nat),
{
    let r = [v;N];
    assert(r@ =~= splat_lanes(v, N as nat));
    r
}

/// Adds lane by lane, wrapping on overflow.
pub fn wrapping_add<const N: usize>(a: [i32; N], b: [i32; N]) -> (r: [i32; N])
    ensures
        r@ == sums(a@, b@),
{
    let mut r = a;
    let mut i: usize = 0;
    while i < N
        invariant
            i <= N,
            forall|j: int| 0 <= j < i ==> r[j] == lane_add(a[j], b[j]),
        decreases N - i,
    {
        r[i] = add_lane(a[i], b[i]);
        i += 1;
    }
    assert(r@ =~= sums(a@, b@));
    r
}

/// Subtracts lane by lane, wrapping on overflow.
pub fn wrapping_sub<const N: usize>(a: [i32; N], b: [i32; N]) -> (r: [i32; N])
    ensures
        r@ == differences(a@, b@),
{
    let mut r = a;
    let mut i: usize = 0;
    while i < N
        invariant
            i <= N,
            forall|j: int| 0 <= j < i ==> r[j] == lane_sub(a[j], b[j]),
        decreases N - i,
    {
        r[i] = sub_lane(a[i], b[i]);
        i += 1;
    }
    assert(r@ =~= differences(a@, b@));
    r
}

/// Multiplies lane by lane, wrapping on overflow.
pub fn wrapping_mul<const N: usize>(a: [i32; N], b: [i32; N]) -> (r: [i32; N])
    ensures
        r@ == products(a@, b@),
{
    let mut r = a;
    let mut i: usize = 0;
    while i < N
        invariant
            i <= N,
            forall|j: int| 0 <= j < i ==> r[j] == lane_mul(a[j], b[j]),
        decreases N - i,
    {
        r[i] = mul_lane(a[i], b[i]);
        i += 1;
    }
    assert(r@ =~= products(a@, b@));
    r
}

/// Divides lane by lane, rounding toward zero. No lane of the divisor may be zero.
pub fn wrapping_div<const N: usize>(a: [i32; N], b: [i32; N]) -> (r: [i32; N])
    requires
        all_nonzero(b@),
    ensures
        r@ == quotients(a@, b@),
{
    let mut r = a;
    let mut i: usize = 0;
    while i < N
        invariant
            i <= N,
            all_nonzero(b@),
            forall|j: int| 0 <= j < i ==> r[j] == lane_div(a[j], b[j]),
        decreases N - i,
    {
        r[i] = div_lane(a[i], b[i]);
        i += 1;
    }
    assert(r@ =~= quotients(a@, b@));
    r
}

/// The lane by lane remainder of division rounded toward zero. No lane of the divisor may be zero.
pub fn wrapping_rem<const N: usize>(a: [i32; N], b: [i32; N]) -> (r: [i32; N])
    requires
        all_nonzero(b@),
    ensures
        r@ == remainders(a@, b@),
{
    let mut r = a;
    let mut i: usize = 0;
    while i < N
        invariant
            i <= N,
            all_nonzero(b@),
            forall|j: int| 0 <= j < i ==> r[j] == lane_rem(a[j], b[j]),
        decreases N - i,
    {
        r[i] = rem_lane(a[i], b[i]);
        i += 1;
    }
    assert(r@ =~= remainders(a@, b@));
    r
}

/// Negates every lane, wrapping on overflow.
pub fn wrapping_neg<const N: usize>(a: [i32; N]) -> (r: [i32; N])
    ensures
        r@ == negations(a@),
{
    let mut r = a;
    let mut i: usize = 0;
    while i < N
        invariant
            i <= N,
            forall|j: int| 0 <= j < i ==> r[j] == lane_neg(a[j]),
        decreases N - i,
    {
        r[i] = neg_lane(a[i]);
        i += 1;
    }
    assert(r@ =~= negations(a@));
    r
}

/// The absolute value of every lane, wrapping on overflow.
pub fn wrapping_abs<const N: usize>(a: [i32; N]) -> (r: [i32; N])
    ensures
        r@ == magnitudes(a@),
{
    let mut r = a;
    let mut i: usize = 0;
    while i < N
        invariant
            i <= N,
            forall|j: int| 0 <= j < i ==> r[j] == lane_abs(a[j]),
        decreases N - i,
    {
        r[i] = abs_lane(a[i]);
        i += 1;
    }
    assert(r@ =~= magnitudes(a@));
    r
}

/// The smaller value of each pair of lanes.
pub fn simd_min<const N: usize>(a: [i32; N], b: [i32; N]) -> (r: [i32; N])
    ensures
        r@ == minima(a@, b@),
{
    let mut r = a;
    let mut i: usize = 0;
    while i < N
        invariant
            i <= N,
            forall|j: int| 0 <= j < i ==> r[j] == lane_min(a[j], b[j]),
        decreases N - i,
    {
        r[i] = min_lane(a[i], b[i]);
        i += 1;
    }
    assert(r@ =~= minima(a@, b@));
    r
}

/// The larger value of each pair of lanes.
pub fn simd_max<const N: usize>(a: [i32; N], b: [i32; N]) -> (r: [i32; N])
    ensures
        r@ == maxima(a@, b@),
{
    let mut r = a;
    let mut i: usize = 0;
    while i < N
        invariant
            i <= N,
            forall|j: int| 0 <= j < i ==> r[j] == lane_max(a[j], b[j]),
        decreases N - i,
    {
        r[i] = max_lane(a[i], b[i]);
        i += 1;
    }
    assert(r@ =~= maxima(a@, b@));
    r
}

/// Picks each lane from `a` where the mask is set and from `b` where it is not.
pub fn select<T: Copy, const N: usize>(mask: [bool; N], a: [T; N], b: [T; N]) -> (r: [T; N])
    ensures
        r@ == selected(mask@, a@, b@),
{
    let mut r = b;
    let mut i: usize = 0;
    while i < N
        invariant
            i <= N,
            forall|j: int| 0 <= j < i ==> r[j] == selected(mask@, a@, b@)[j],
        decreases N - i,
    {
        r[i] = if mask[i] {
            a[i]
        } else {
            b[i]
        };
        i += 1;
    }
    assert(r@ =~= selected(mask@, a@, b@));
    r
}

/// Builds a register of `M` lanes out of the lanes of `source` that `indices` names.
/// A lane may be named more than once.
pub fn swizzle<T: Copy, const N: usize, const M: usize>(source: [T; N], indices: [usize; M]) -> (r:
    [T; M])
    requires
        N > 0,
        indices_within(indices@, N as nat),
    ensures
        r@ == gathered(source@, indices@),
{
    let mut r = [source[0];M];
    let mut i: usize = 0;
    while i < M
        invariant
            i <= M,
            indices_within(indices@, N as nat),
            forall|j: int| 0 <= j < i ==> r[j] == source[indices[j] as int],
        decreases M - i,
    {
        r[i] = source[indices[i]];
        i += 1;
    }
    assert(r@ =~= gathered(source@, indices@));
    r
}

/// Names a lane of one of the two sources of [`shuffle`].
#[derive(Clone, Copy, Debug)]
pub enum Which {
    First(usize),
    Second(usize),
}

/// Every entry names a lane of a register that is `width` lanes wide.
pub open spec fn picks_within(picks: Seq<Which>, width: nat) -> bool {
    forall|i: int|
        0 <= i < picks.len() ==> match #[trigger] picks[i] {
            Which::First(k) => k < width,
            Which::Second(k) => k < width,
        }
}

/// Lane `i` of the result is the lane of `first` or of `second` that `picks[i]` names.
pub open spec fn shuffled<T>(first: Seq<T>, second: Seq<T>, picks: Seq<Which>) -> Seq<T> {
    Seq::new(
        picks.len(),
        |i: int|
            match picks[i] {
                Which::First(k) => first[k as int],
                Which::Second(k) => second[k as int],
            },
    )
}

/// Builds a register of `M` lanes out of the lanes of two sources.
pub fn shuffle<T: Copy, const N: usize, const M: usize>(
    first: [T; N],
    second: [T; N],
    picks: [Which; M],
) -> (r: [T; M])
    requires
        N > 0,
        picks_within(picks@, N as nat),
    ensures
        r@ == shuffled(first@, second@, picks@),
{
    let mut r = [first[0];M];
    let mut i: usize = 0;
    while i < M
        invariant
            i <= M,
            picks_within(picks@, N as nat),
            forall|j: int| 0 <= j < i ==> r[j] == shuffled(first@, second@, picks@)[j],
        decreases M - i,
    {
        r[i] = match picks[i] {
            Which::First(k) => first[k],
            Which::Second(k) => second[k],
        };
        i += 1;
    }
    assert(r@ =~= shuffled(first@, second@, picks@));
    r
}

} // verus!
