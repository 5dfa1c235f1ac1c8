use const_vector::scalar::cast;
use const_vector::Vector;

#[test]
fn new_is_zero() {
    let z: Vector<3, i64> = Vector::new();
    assert_eq!(z, Vector([0, 0, 0]));
    let d: Vector<2, i8> = Vector::default();
    assert_eq!(d, Vector([0, 0]));
    let e: Vector<0, i32> = Vector::new();
    assert_eq!(e, Vector([]));
}

#[test]
fn add_is_componentwise() {
    let a = Vector([7i16, -3, 12]);
    let b = Vector([-2i16, 5, 30]);
    assert_eq!(a + b, Vector([5, 2, 42]));
}

#[test]
fn sub_is_componentwise() {
    let a = Vector([7i64, -3, 12]);
    let b = Vector([-2i64, 5, 30]);
    assert_eq!(a - b, Vector([9, -8, -18]));
}

#[test]
fn double_negation_is_identity() {
    let a = Vector([3i32, -7, 0, 127]);
    assert_eq!(-a, Vector([-3, 7, 0, -127]));
    assert_eq!(-(-a), a);
}

#[test]
fn mul_is_componentwise() {
    let a = Vector([3i32, -7, 0]);
    assert_eq!(a * -2, Vector([-6, 14, 0]));
    assert_eq!(a * 0i8, Vector([0, 0, 0]));
}

#[test]
fn in_place_matches_operators() {
    let a = Vector([10i32, -4]);
    let b = Vector([3i64, 9]);

    let mut x = a;
    x += b;
    assert_eq!(x, a + b);

    let mut x = a;
    x -= b;
    assert_eq!(x, a - b);

    let mut x = a;
    x += 7i16;
    assert_eq!(x, a + 7i16);

    let mut x = a;
    x -= 7i16;
    assert_eq!(x, a - 7i16);

    let mut x = a;
    x *= -3i8;
    assert_eq!(x, a * -3i8);
    assert_eq!(x, Vector([-30, 12]));
}

#[test]
fn mixed_integer_representations_cast_right_operand() {
    let a = Vector([1i8, 0]);
    let b = Vector([100i64, -128]);
    assert_eq!(a + b, Vector([101i8, -128]));
    assert_eq!(a - Vector([-100i128, 1]), Vector([101i8, -1]));
    assert_eq!(Vector([1i64, 2]) * 3isize, Vector([3i64, 6]));
}

#[test]
fn scalar_on_the_left_adds_to_every_component() {
    let a = Vector([1i32, 0]);
    assert_eq!(5 + a, Vector([6, 5]));
    assert_eq!(5 + a, a + 5);
    assert_eq!(-3i8 + Vector([3i8, 4]), Vector([0, 1]));
}

#[test]
fn edge_values_of_a_representation() {
    let a = Vector([i8::MAX, i8::MIN]);
    assert_eq!(a + Vector([0i64, 0]), a);
    assert_eq!(Vector([126i8, -127]) + Vector([1i32, -1]), Vector([i8::MAX, i8::MIN]));
    assert_eq!(-Vector([i8::MAX]), Vector([-127i8]));
}

#[test]
fn cast_keeps_value_or_refuses() {
    assert_eq!(cast::<i8, i64>(-5), Some(-5i8));
    assert_eq!(cast::<i8, i64>(300), None);
    assert_eq!(cast::<i8, i64>(-129), None);
    assert_eq!(cast::<i16, i128>(-32768), Some(i16::MIN));
    assert_eq!(cast::<i64, i8>(-128), Some(-128i64));
    assert_eq!(cast::<isize, i32>(77), Some(77isize));
    assert_eq!(cast::<i32, i128>(i128::MAX), None);
}
