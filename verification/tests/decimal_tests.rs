use polymarket_rn1_bot::decimal::Dec;

fn d(m: i64, s: u32) -> Dec {
    Dec::new(m, s)
}

fn max_dec() -> Dec {
    Dec::from_i128_with_scale(79_228_162_514_264_337_593_543_950_335, 0).unwrap()
}

#[test]
fn new_keeps_mantissa_and_scale() {
    let x = d(-1234, 3);
    assert_eq!(x.mantissa(), -1234);
    assert_eq!(x.scale(), 3);
}

#[test]
fn from_i128_with_scale_bounds() {
    assert!(Dec::from_i128_with_scale(79_228_162_514_264_337_593_543_950_335, 28).is_some());
    assert!(Dec::from_i128_with_scale(79_228_162_514_264_337_593_543_950_336, 0).is_none());
    assert!(Dec::from_i128_with_scale(-79_228_162_514_264_337_593_543_950_336, 0).is_none());
    assert!(Dec::from_i128_with_scale(1, 29).is_none());
}

#[test]
fn comparisons_are_by_value() {
    let a = d(5, 1);
    let b = d(50, 2);
    assert!(a.value_eq(&b));
    assert!(!a.lt(&b));
    assert!(a.le(&b));
    assert!(a.ge(&b));
    assert!(d(49, 2).lt(&a));
    assert!(d(51, 2).gt(&a));
    assert!(d(-1, 0).lt(&Dec::zero()));
}

#[test]
fn max_min_abs() {
    let a = d(3, 1);
    let b = d(7, 1);
    assert_eq!(a.max(b), b);
    assert_eq!(a.min(b), a);
    // On a tie, max and min both give the first operand.
    let c = d(30, 2);
    assert_eq!(a.max(c), a);
    assert_eq!(a.min(c), a);
    assert_eq!(d(0, 2).max(Dec::zero()), d(0, 2));
    assert_eq!(Dec::zero().max(d(0, 2)), Dec::zero());
    let n = d(-25, 1);
    assert_eq!(n.abs(), d(25, 1));
    assert_eq!(d(25, 1).abs(), d(25, 1));
}

#[test]
fn checked_add_is_exact() {
    let r = d(1, 1).checked_add(d(2, 1)).unwrap();
    assert!(r.value_eq(&d(3, 1)));
    let r = d(15, 2).checked_add(d(-5, 1)).unwrap();
    assert!(r.value_eq(&d(-35, 2)));
    let r = Dec::zero().checked_add(d(7, 3)).unwrap();
    assert!(r.value_eq(&d(7, 3)));
}

#[test]
fn checked_add_overflow_is_none() {
    assert!(max_dec().checked_add(max_dec()).is_none());
}

#[test]
fn checked_sub_is_exact() {
    let r = Dec::one().checked_sub(d(35, 2)).unwrap();
    assert!(r.value_eq(&d(65, 2)));
    let neg = Dec::zero().checked_sub(max_dec()).unwrap();
    assert!(neg.checked_sub(max_dec()).is_none());
}

#[test]
fn checked_div_values() {
    let r = d(50, 0).checked_div(d(100, 0)).unwrap();
    assert!(r.value_eq(&d(5, 1)));
    let r = d(1, 0).checked_div(d(4, 0)).unwrap();
    assert!(r.value_eq(&d(25, 2)));
    let r = d(-9, 1).checked_div(d(3, 0)).unwrap();
    assert!(r.value_eq(&d(-3, 1)));
    assert!(d(1, 0).checked_div(Dec::zero()).is_none());
    assert!(Dec::zero().checked_div(d(3, 0)).unwrap().value_eq(&Dec::zero()));
    assert!(max_dec().checked_div(d(1, 1)).is_none());
}

#[test]
fn from_str_exact_values() {
    let x = Dec::from_str_exact("0.5").unwrap();
    assert_eq!(x.mantissa(), 5);
    assert_eq!(x.scale(), 1);
    let y = Dec::from_str_exact("1000").unwrap();
    assert!(y.value_eq(&d(1000, 0)));
    let z = Dec::from_str_exact("-12.345").unwrap();
    assert_eq!(z.mantissa(), -12345);
    assert_eq!(z.scale(), 3);
    assert!(Dec::from_str_exact("abc").is_none());
    assert!(Dec::from_str_exact("").is_none());
}

#[test]
fn sums_keep_the_larger_scale() {
    // The exact sum comes at the larger of the two scales.
    let r = d(5, 1).checked_add(d(1, 3)).unwrap();
    assert_eq!(r, d(501, 3));
    let r = d(500, 3).checked_sub(d(2, 2)).unwrap();
    assert_eq!(r, d(480, 3));
    // A zero operand hands back the other one as it is.
    assert_eq!(Dec::zero().checked_add(d(70, 3)).unwrap(), d(70, 3));
    assert_eq!(d(70, 3).checked_add(Dec::new(0, 5)).unwrap(), d(70, 3));
    assert_eq!(Dec::new(0, 5).checked_sub(d(70, 3)).unwrap(), d(-70, 3));
}

#[test]
fn exact_quotients_come_out_exactly() {
    let r = d(1, 0).checked_div(d(8, 0)).unwrap();
    assert!(r.value_eq(&d(125, 3)));
    let r = d(3, 2).checked_div(d(-4, 0)).unwrap();
    assert!(r.value_eq(&d(-75, 4)));
    let r = d(7, 0).checked_div(d(25, 2)).unwrap();
    assert!(r.value_eq(&d(28, 0)));
}
