use const_vector::Vector;

#[test]
fn add_vec() {
    let a = Vector([1, 0]);
    let b = Vector([4, 2]);

    assert_eq!(a + b, Vector([5, 2]))
}

#[test]
fn sub_vec() {
    let a = Vector([1, 0]);
    let b = Vector([4, 2]);

    assert_eq!(a - b, Vector([-3, -2]))
}

#[test]
fn neg() {
    let a = Vector([1, 0]);

    assert_eq!(-a, Vector([-1, 0]))
}

#[test]
fn mul_scalar() {
    let a = Vector([1, 0]);

    assert_eq!(a * 4, Vector([4, 0]))
}

#[test]
fn add_assign_vec() {
    let mut a = Vector([1, 0]);
    let b = Vector([4, 2]);

    a += b;

    assert_eq!(a, Vector([5, 2]))
}

#[test]
fn add_assign_scalar() {
    let mut a = Vector([1, 0]);
    let b = 5;

    a += b;

    assert_eq!(a, Vector([6, 5]))
}

#[test]
fn sub_assign_vec() {
    let mut a = Vector([1, 0]);
    let b = Vector([4, 0]);

    a -= b;

    assert_eq!(a, Vector([-3, 0]))
}

#[test]
fn sub_assign_scalar() {
    let mut a = Vector([1, 0]);
    let b = -5;

    a -= b;

    assert_eq!(a, Vector([6, 5]))
}
