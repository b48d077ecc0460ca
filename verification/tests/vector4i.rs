use gamemath::{Vector2i, Vector3i, Vector4i};
use std::borrow::{Borrow, BorrowMut};
use std::collections::HashSet;

#[test]
fn v4_constructors() {
    assert_eq!(Vector4i::new(1, 2, 3, 4).to_array(), [1, 2, 3, 4]);
    assert_eq!(Vector4i::zero().to_array(), [0, 0, 0, 0]);
    assert_eq!(Vector4i::from_scalar(-4).to_array(), [-4, -4, -4, -4]);
    assert_eq!(Vector4i::from_array([7, 8, 9, 10]).to_array(), [7, 8, 9, 10]);
    assert_eq!(Vector4i::from_v2i(Vector2i::new(1, 2), 3, 4).to_array(), [1, 2, 3, 4]);
    assert_eq!(Vector4i::from_v3i(Vector3i::new(1, 2, 3), 4).to_array(), [1, 2, 3, 4]);
    assert_eq!(Vector4i::from([4, 5, 6, 7]), Vector4i::new(4, 5, 6, 7));
    let a: [i32; 4] = Vector4i::new(4, 5, 6, 7).into();
    assert_eq!(a, [4, 5, 6, 7]);
}

#[test]
fn v4_components() {
    let mut v = Vector4i::new(11, 22, 33, 44);
    assert_eq!(v.x(), 11);
    assert_eq!(v.y(), 22);
    assert_eq!(v.z(), 33);
    assert_eq!(v.w(), 44);
    assert_eq!(v[3], 44);
    *v.x_mut() = 1;
    *v.y_mut() = 2;
    *v.z_mut() = 3;
    *v.w_mut() = 4;
    assert_eq!(v, Vector4i::new(1, 2, 3, 4));
    *v.index_mut(3) = 40;
    assert_eq!(v.to_array(), [1, 2, 3, 40]);
}

#[test]
fn v4_array_views() {
    let mut v = Vector4i::new(1, 2, 3, 4);
    assert_eq!(v.as_array(), &[1, 2, 3, 4]);
    v.as_mut_array()[3] = 40;
    assert_eq!(v.to_array(), [1, 2, 3, 40]);
    let r: &[i32; 4] = v.as_ref();
    assert_eq!(r, &[1, 2, 3, 40]);
    let m: &mut [i32; 4] = v.as_mut();
    m[0] = -7;
    let b: &[i32; 4] = v.borrow();
    assert_eq!(b, &[-7, 2, 3, 40]);
    let bm: &mut [i32; 4] = v.borrow_mut();
    bm[1] = -8;
    assert_eq!(v.to_array(), [-7, -8, 3, 40]);
}

#[test]
fn v4_operators() {
    let a = Vector4i::new(7, -7, i32::MIN, i32::MAX);
    let b = Vector4i::new(2, 2, -1, 1);
    assert_eq!((a + b).to_array(), [9, -5, i32::MAX, i32::MIN]);
    assert_eq!((a - b).to_array(), [5, -9, i32::MIN + 1, i32::MAX - 1]);
    assert_eq!((a * b).to_array(), [14, -14, i32::MIN, i32::MAX]);
    assert_eq!((a / b).to_array(), [3, -3, i32::MIN, i32::MAX]);
    assert_eq!((a % b).to_array(), [1, -1, 0, 0]);
    assert_eq!((-a).to_array(), [-7, 7, i32::MIN, -i32::MAX]);
}

#[test]
fn v4_scalar_operators() {
    let a = Vector4i::new(7, -7, 0, 100);
    assert_eq!((a + 1).to_array(), [8, -6, 1, 101]);
    assert_eq!((a - 8).to_array(), [-1, -15, -8, 92]);
    assert_eq!((a * 3).to_array(), [21, -21, 0, 300]);
    assert_eq!((a / 3).to_array(), [2, -2, 0, 33]);
    assert_eq!((a % 3).to_array(), [1, -1, 0, 1]);
}

#[test]
fn v4_assigning_operators() {
    let mut v = Vector4i::new(1, 2, 3, 4);
    v += Vector4i::new(1, 1, 1, 1);
    v -= Vector4i::new(0, 1, 2, 3);
    v *= Vector4i::new(3, 4, 5, 6);
    assert_eq!(v.to_array(), [6, 8, 10, 12]);
    v += 1;
    v -= 2;
    v *= -2;
    assert_eq!(v.to_array(), [-10, -14, -18, -22]);
    v.div_assign(Vector4i::new(3, -3, 18, 22));
    assert_eq!(v.to_array(), [-3, 4, -1, -1]);
    v.rem_assign(Vector4i::new(2, 3, 7, 1));
    assert_eq!(v.to_array(), [-1, 1, -1, 0]);
    v.div_assign_scalar(-1);
    assert_eq!(v.to_array(), [1, -1, 1, 0]);
    v.rem_assign_scalar(1);
    assert_eq!(v.to_array(), [0, 0, 0, 0]);
}

#[test]
fn v4_abs_min_max() {
    let a = Vector4i::new(-5, 5, i32::MIN, 0);
    let b = Vector4i::new(3, 9, 0, 0);
    assert_eq!(a.abs().to_array(), [5, 5, i32::MIN, 0]);
    assert_eq!(a.min(b).to_array(), [-5, 5, i32::MIN, 0]);
    assert_eq!(a.max(b).to_array(), [3, 9, 0, 0]);
}

#[test]
fn v4_equality_and_hash() {
    let a = Vector4i::new(1, 2, 3, 4);
    let b = Vector4i::from_array([1, 2, 3, 4]);
    let c = Vector4i::new(1, 2, 3, 5);
    assert_eq!(a, b);
    assert_ne!(a, c);
    let mut set = HashSet::new();
    set.insert(a);
    set.insert(b);
    set.insert(c);
    assert_eq!(set.len(), 2);
}

#[test]
fn v4_swizzles() {
    let v = Vector4i::new(10, 20, 30, 40);
    assert_eq!(v.swizzle2([3, 0]), Vector2i::new(40, 10));
    assert_eq!(v.swizzle3([3, 3, 2]), Vector3i::new(40, 40, 30));
    assert_eq!(v.swizzle3([3, 3, 3]).padding_lane(), 0);
    assert_eq!(v.swizzle4([3, 2, 1, 0]), Vector4i::new(40, 30, 20, 10));
    assert_eq!(v.swizzle4([0, 0, 0, 0]), Vector4i::from_scalar(10));
}

#[test]
fn v4_formatting() {
    let v = Vector4i::new(1, -2, 3, i32::MIN);
    assert_eq!(format!("{}", v), "(1, -2, 3, -2147483648)");
    assert_eq!(format!("{:?}", v), "Vector4i(1, -2, 3, -2147483648)");
    assert_eq!(v.to_string(), "(1, -2, 3, -2147483648)");
}

#[test]
fn v4_named_accessors() {
    let v = Vector4i::new(10, 20, 30, 40);
    assert_eq!(v.xy(), Vector2i::new(10, 20));
    assert_eq!(v.xyz(), Vector3i::new(10, 20, 30));
    assert_eq!(v.xyz().padding_lane(), 0);
    assert_eq!(v.xyzw(), v);
    assert_eq!(v.wzyx(), Vector4i::new(40, 30, 20, 10));
}
