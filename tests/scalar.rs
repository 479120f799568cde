use quantity::{Duration, Length, Quantity, Ratio, Speed, Vector2};

fn r(n: i64) -> Ratio {
    Ratio::from_int(n)
}

fn len(n: i64) -> Length {
    Length::in_m(r(n))
}

#[test]
fn scalar_add_tests() {
    let a = len(2);
    let b = len(3);

    let expected = len(5);

    assert_eq!(expected, a + b);
    assert_eq!(expected, &a + b);
    assert_eq!(expected, a + &b);
    assert_eq!(expected, &a + &b);
}

#[test]
fn scalar_add_assign_tests() {
    let a_0 = len(2);
    let b = len(3);

    let expected = len(5);

    let mut a = a_0;
    a += b;
    assert_eq!(expected, a);

    let mut a = a_0;
    a += &b;
    assert_eq!(expected, a);
}

#[test]
fn scalar_sub_tests() {
    let a = len(2);
    let b = len(3);

    let expected = len(-1);

    assert_eq!(expected, a - b);
    assert_eq!(expected, &a - b);
    assert_eq!(expected, a - &b);
    assert_eq!(expected, &a - &b);
}

#[test]
fn scalar_sub_assign_tests() {
    let a_0 = len(2);
    let b = len(3);

    let expected = len(-1);

    let mut a = a_0;
    a -= b;
    assert_eq!(expected, a);

    let mut a = a_0;
    a -= &b;
    assert_eq!(expected, a);
}

#[test]
fn scalar_mul_test() {
    let a = len(2);
    let b = r(3);

    let expected = len(6);

    assert_eq!(expected, a * b);
    assert_eq!(expected, &a * b);
    assert_eq!(expected, a * &b);
    assert_eq!(expected, &a * &b);

    assert_eq!(expected, b * a);
    assert_eq!(expected, &b * a);
    assert_eq!(expected, b * &a);
    assert_eq!(expected, &b * &a);
}

#[test]
fn scalar_mul_assign_test() {
    let a_0 = len(2);
    let b = r(3);

    let expected = len(6);

    let mut a = a_0;
    a *= b;
    assert_eq!(expected, a);

    let mut a = a_0;
    a *= &b;
    assert_eq!(expected, a);
}

#[test]
fn scalar_div_test() {
    let a = len(2);
    let b = r(3);

    let expected = Length::in_m(Ratio::new(2, 3));

    assert_eq!(expected, a / b);
    assert_eq!(expected, &a / b);
    assert_eq!(expected, a / &b);
    assert_eq!(expected, &a / &b);
}

#[test]
fn scalar_div_assign_test() {
    let a_0 = len(6);
    let b = r(3);

    let expected = len(2);

    let mut a = a_0;
    a /= b;
    assert_eq!(expected, a);

    let mut a = a_0;
    a /= &b;
    assert_eq!(expected, a);
}

#[test]
fn scalar_div_conversion_test() {
    let num = len(6);
    let den = Duration::in_s(r(2));
    let res = Speed::in_m_per_s(r(3));

    assert_eq!(res, num / den);
    assert_eq!(res, &num / den);
    assert_eq!(res, num / &den);
    assert_eq!(res, &num / &den);
}

#[test]
fn scalar_mul_conversion_test() {
    let num = len(6);
    let den = Duration::in_s(r(2));
    let res = Speed::in_m_per_s(r(3));

    assert_eq!(num, res * den);
    assert_eq!(num, &res * den);
    assert_eq!(num, res * &den);
    assert_eq!(num, &res * &den);

    assert_eq!(num, den * res);
    assert_eq!(num, &den * res);
    assert_eq!(num, den * &res);
    assert_eq!(num, &den * &res);
}

#[test]
fn scalar_rem_test() {
    let a = len(5);
    let b = len(3);

    let rem = len(2);

    assert_eq!(rem, a % b);
    assert_eq!(rem, a % &b);
    assert_eq!(rem, &a % b);
    assert_eq!(rem, &a % &b);
}

#[test]
fn scalar_neg_test() {
    let a = len(2);

    let neg = len(-2);

    assert_eq!(neg, -&a);
    assert_eq!(neg, -a);
}

fn vec(x: i64, y: i64) -> Vector2<Length> {
    Vector2::in_m(r(x), r(y))
}

#[test]
fn vector_add_test() {
    let a = vec(2, 3);
    let b = vec(5, 7);

    let expected = vec(7, 10);

    assert_eq!(expected, a + b);
    assert_eq!(expected, &a + b);
    assert_eq!(expected, a + &b);
    assert_eq!(expected, &a + &b);
}

#[test]
fn vector_add_assign_test() {
    let a_0 = vec(2, 3);
    let b = vec(5, 7);

    let expected = vec(7, 10);

    let mut a = a_0;
    a += b;
    assert_eq!(expected, a);

    let mut a = a_0;
    a += &b;
    assert_eq!(expected, a);
}

#[test]
fn vector_sub_test() {
    let a = vec(2, 3);
    let b = vec(5, 7);

    let expected = vec(-3, -4);

    assert_eq!(expected, a - b);
    assert_eq!(expected, &a - b);
    assert_eq!(expected, a - &b);
    assert_eq!(expected, &a - &b);
}

#[test]
fn vector_sub_assign_test() {
    let a_0 = vec(2, 3);
    let b = vec(5, 7);

    let expected = vec(-3, -4);

    let mut a = a_0;
    a -= b;
    assert_eq!(expected, a);

    let mut a = a_0;
    a -= &b;
    assert_eq!(expected, a);
}

#[test]
fn vector_mul_test() {
    let a = vec(2, 3);
    let b = r(5);

    let expected = vec(10, 15);

    assert_eq!(expected, a * b);
    assert_eq!(expected, &a * b);
    assert_eq!(expected, a * &b);
    assert_eq!(expected, &a * &b);

    assert_eq!(expected, b * a);
    assert_eq!(expected, &b * a);
    assert_eq!(expected, b * &a);
    assert_eq!(expected, &b * &a);
}

#[test]
fn vector_mul_assign_test() {
    let a_0 = vec(2, 3);
    let b = r(5);

    let expected = vec(10, 15);

    let mut a = a_0;
    a *= b;
    assert_eq!(expected, a);

    let mut a = a_0;
    a *= &b;
    assert_eq!(expected, a);
}

#[test]
fn vector_div_test() {
    let a = vec(10, 15);
    let b = r(5);

    let expected = vec(2, 3);

    assert_eq!(expected, a / b);
    assert_eq!(expected, &a / b);
    assert_eq!(expected, a / &b);
    assert_eq!(expected, &a / &b);
}

#[test]
fn vector_div_assign_test() {
    let a_0 = vec(10, 15);
    let b = r(5);

    let expected = vec(2, 3);

    let mut a = a_0;
    a /= b;
    assert_eq!(expected, a);

    let mut a = a_0;
    a /= &b;
    assert_eq!(expected, a);
}

#[test]
fn vector_neg_test() {
    let a = vec(2, 3);

    let neg = vec(-2, -3);

    assert_eq!(neg, -a);
    assert_eq!(neg, -&a);
}

#[test]
fn quantities_of_one_kind_compare_by_value() {
    let half = Length::in_m(Ratio::new(1, 2));
    let also_half = Length::in_m(Ratio::new(2, 4));
    assert_eq!(half, also_half);
    assert!(half < len(1));
    assert_eq!(Quantity::zero(), len(0));
}
