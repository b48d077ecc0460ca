use gamemath::{Vector2i, Vector3i, Vector4i};
use std::borrow::{Borrow, BorrowMut};
use std::collections::HashSet;

#[test]
fn v2_constructors() {
    assert_eq!(Vector2i::new(1, 2).to_array(), [1, 2]);
    assert_eq!(Vector2i::zero().to_array(), [0, 0]);
    assert_eq!(Vector2i::from_scalar(-4).to_array(), [-4, -4]);
    assert_eq!(Vector2i::from_array([7, 8]).to_array(), [7, 8]);
    assert_eq!(Vector2i::from([4, 5]), Vector2i::new(4, 5));
    let a: [i32; 2] = Vector2i::new(4, 5).into();
    assert_eq!(a, [4, 5]);
}

#[test]
fn v2_components() {
    let mut v = Vector2i::new(11, 22);
    assert_eq!(v.x(), 11);
    assert_eq!(v.y(), 22);
    assert_eq!(v[0], 11);
    assert_eq!(v[1], 22);
    *v.x_mut() = 1;
    *v.y_mut() -= 2;
    assert_eq!(v, Vector2i::new(1, 20));
    *v.index_mut(0) = 3;
    assert_eq!(v.to_array(), [3, 20]);
}

#[test]
fn v2_array_views() {
    let mut v = Vector2i::new(1, 2);
    assert_eq!(v.as_array(), &[1, 2]);
    v.as_mut_array()[1] = 20;
    assert_eq!(v.to_array(), [1, 20]);
    let r: &[i32; 2] = v.as_ref();
    assert_eq!(r, &[1, 20]);
    let m: &mut [i32; 2] = v.as_mut();
    m[0] = -7;
    let b: &[i32; 2] = v.borrow();
    assert_eq!(b, &[-7, 20]);
    let bm: &mut [i32; 2] = v.borrow_mut();
    bm[1] = -8;
    assert_eq!(v.to_array(), [-7, -8]);
}

#[test]
fn v2_operators() {
    let a = Vector2i::new(7, i32::MIN);
    let b = Vector2i::new(-2, -1);
    assert_eq!((a + b).to_array(), [5, i32::MAX]);
    assert_eq!((a - b).to_array(), [9, i32::MIN + 1]);
    assert_eq!((a * b).to_array(), [-14, i32::MIN]);
    assert_eq!((a / b).to_array(), [-3, i32::MIN]);
    assert_eq!((a % b).to_array(), [1, 0]);
    assert_eq!((-a).to_array(), [-7, i32::MIN]);
}

#[test]
fn v2_scalar_operators() {
    let a = Vector2i::new(7, -7);
    assert_eq!((a + 1).to_array(), [8, -6]);
    assert_eq!((a - 8).to_array(), [-1, -15]);
    assert_eq!((a * 3).to_array(), [21, -21]);
    assert_eq!((a / 2).to_array(), [3, -3]);
    assert_eq!((a % 2).to_array(), [1, -1]);
    assert_eq!((a % -2).to_array(), [1, -1]);
}

#[test]
fn v2_assigning_operators() {
    let mut v = Vector2i::new(1, 2);
    v += Vector2i::new(1, 1);
    v -= Vector2i::new(0, 1);
    v *= Vector2i::new(3, 4);
    assert_eq!(v.to_array(), [6, 8]);
    v += 1;
    v -= 2;
    v *= -2;
    assert_eq!(v.to_array(), [-10, -14]);
    v.div_assign(Vector2i::new(3, -3));
    assert_eq!(v.to_array(), [-3, 4]);
    v.rem_assign(Vector2i::new(2, 3));
    assert_eq!(v.to_array(), [-1, 1]);
    v.div_assign_scalar(-1);
    assert_eq!(v.to_array(), [1, -1]);
    v.rem_assign_scalar(1);
    assert_eq!(v.to_array(), [0, 0]);
}

#[test]
fn v2_abs_min_max() {
    let a = Vector2i::new(-5, i32::MIN);
    let b = Vector2i::new(3, 0);
    assert_eq!(a.abs().to_array(), [5, i32::MIN]);
    assert_eq!(a.min(b).to_array(), [-5, i32::MIN]);
    assert_eq!(a.max(b).to_array(), [3, 0]);
}

#[test]
fn v2_equality_and_hash() {
    let a = Vector2i::new(1, 2);
    let b = Vector2i::from_array([1, 2]);
    let c = Vector2i::new(2, 1);
    assert_eq!(a, b);
    assert_ne!(a, c);
    let mut set = HashSet::new();
    set.insert(a);
    set.insert(b);
    set.insert(c);
    assert_eq!(set.len(), 2);
}

#[test]
fn v2_swizzles() {
    let v = Vector2i::new(10, 20);
    assert_eq!(v.swizzle2([1, 0]), Vector2i::new(20, 10));
    assert_eq!(v.swizzle2([0, 0]), Vector2i::new(10, 10));
    assert_eq!(v.swizzle3([1, 1, 0]), Vector3i::new(20, 20, 10));
    assert_eq!(v.swizzle3([1, 1, 1]).padding_lane(), 0);
    assert_eq!(v.swizzle4([0, 1, 0, 1]), Vector4i::new(10, 20, 10, 20));
}

#[test]
fn v2_formatting() {
    let v = Vector2i::new(1, -2);
    assert_eq!(format!("{}", v), "(1, -2)");
    assert_eq!(format!("{:?}", v), "Vector2i(1, -2)");
    assert_eq!(v.to_string(), "(1, -2)");
}

#[test]
fn v2_named_accessors() {
    let v = Vector2i::new(10, 20);
    assert_eq!(v.xy(), v);
    assert_eq!(v.yx(), Vector2i::new(20, 10));
}
