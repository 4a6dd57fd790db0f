use framepipe::rat::Coord;
use framepipe::rat::Rat;

#[test]
fn comparisons_are_exact() {
    let third = Rat::new(1, 3);
    let half = Rat::new(1, 2);
    let two_quarters = Rat::new(2, 4);
    assert!(third.lt(half));
    assert!(!half.lt(third));
    assert!(third.le(half));
    assert!(half.le(two_quarters));
    assert!(two_quarters.le(half));
    assert!(half.eq_rat(two_quarters));
    assert!(!half.eq_rat(third));
}

#[test]
fn add_same_denominator() {
    let a = Rat::new(1, 10);
    let b = Rat::new(3, 10);
    let s = a.checked_add(b).unwrap();
    assert_eq!(s, Rat::new(4, 10));
}

#[test]
fn add_cross_denominator() {
    let a = Rat::new(1, 2);
    let b = Rat::new(1, 3);
    let s = a.checked_add(b).unwrap();
    assert_eq!(s, Rat::new(5, 6));
}

#[test]
fn sub_exact() {
    let a = Rat::new(1, 2);
    let b = Rat::new(1, 5);
    let d = a.checked_sub(b).unwrap();
    assert_eq!(d, Rat::new(3, 10));
}

#[test]
fn sub_of_larger_is_none() {
    let a = Rat::new(1, 2);
    let b = Rat::new(2, 3);
    assert!(a.checked_sub(b).is_none());
}

#[test]
fn mul_exact() {
    let a = Rat::new(2, 3);
    let b = Rat::new(3, 4);
    let p = a.checked_mul(b).unwrap();
    assert_eq!(p, Rat::new(6, 12));
    assert!(p.eq_rat(Rat::new(1, 2)));
}

#[test]
fn div_exact() {
    let a = Rat::new(1, 20);
    let b = Rat::new(1, 10);
    let q = a.checked_div(b).unwrap();
    assert_eq!(q, Rat::new(10, 20));
    assert!(q.eq_rat(Rat::new(1, 2)));
}

#[test]
fn div_by_zero_value_is_none() {
    let a = Rat::new(1, 2);
    let zero = Rat::new(0, 5);
    assert!(a.checked_div(zero).is_none());
}

#[test]
fn add_overflow_is_none() {
    let a = Rat::new(u64::MAX, 1);
    let b = Rat::new(1, 1);
    assert!(a.checked_add(b).is_none());
    let c = Rat::new(u64::MAX, 3);
    let d = Rat::new(1, 2);
    assert!(c.checked_add(d).is_none());
}

#[test]
fn mul_overflow_is_none() {
    let a = Rat::new(u64::MAX, 1);
    let b = Rat::new(2, 1);
    assert!(a.checked_mul(b).is_none());
}

#[test]
fn zero_and_one() {
    assert_eq!(Rat::zero(), Rat::new(0, 1));
    assert_eq!(Rat::one(), Rat::new(1, 1));
    assert!(Rat::zero().lt(Rat::one()));
    assert!(Rat::one().eq_rat(Rat::new(7, 7)));
}

#[test]
fn coord_constructors() {
    let c = Coord::new(-3, 2);
    assert_eq!(c.num, -3);
    assert_eq!(c.den, 2);
    assert_eq!(Coord::zero(), Coord::new(0, 1));
    assert_eq!(Coord::one(), Coord::new(1, 1));
}
