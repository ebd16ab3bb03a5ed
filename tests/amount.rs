use transaction_action::Amount;

fn dec(mantissa: i128, scale: u32) -> Amount {
    Amount::from_parts(mantissa, scale).unwrap()
}

const MAX_MANTISSA: i128 = 79228162514264337593543950335;

#[test]
fn parse_reads_mantissa_and_scale() {
    let a = Amount::parse("101.95").unwrap();
    assert_eq!(a.mantissa(), 10195);
    assert_eq!(a.scale(), 2);
    let b = Amount::parse("2.001").unwrap();
    assert_eq!(b.mantissa(), 2001);
    assert_eq!(b.scale(), 3);
    let c = Amount::parse("7").unwrap();
    assert_eq!(c.mantissa(), 7);
    assert_eq!(c.scale(), 0);
}

#[test]
fn parse_rejects_text_that_is_no_amount() {
    assert!(Amount::parse("abc").is_none());
    assert!(Amount::parse("").is_none());
    assert!(Amount::parse("-1.5").is_none());
}

#[test]
fn to_text_writes_every_fraction_digit() {
    assert_eq!(dec(10195, 2).to_text(), "101.95");
    assert_eq!(dec(0, 2).to_text(), "0.00");
    assert_eq!(dec(121, 1).to_text(), "12.1");
    assert_eq!(dec(5, 0).to_text(), "5");
}

#[test]
fn from_parts_checks_range() {
    assert!(Amount::from_parts(-1, 0).is_none());
    assert!(Amount::from_parts(1, 29).is_none());
    assert!(Amount::from_parts(MAX_MANTISSA + 1, 0).is_none());
    assert!(Amount::from_parts(MAX_MANTISSA, 28).is_some());
    assert_eq!(Amount::zero(), dec(0, 5));
}

#[test]
fn add_is_exact_at_the_larger_scale() {
    let sum = dec(11, 1).checked_add(&dec(2, 0)).unwrap().checked_add(&dec(9, 0)).unwrap();
    assert_eq!(sum.mantissa(), 121);
    assert_eq!(sum.scale(), 1);
    assert_eq!(sum, dec(121, 1));
    let fine = dec(1, 28).checked_add(&dec(2, 0)).unwrap();
    assert_eq!(fine.mantissa(), 20000000000000000000000000001);
    assert_eq!(fine.scale(), 28);
}

#[test]
fn add_out_of_range_is_refused() {
    assert!(dec(MAX_MANTISSA, 0).checked_add(&dec(1, 0)).is_none());
    assert!(dec(MAX_MANTISSA, 0).checked_add(&dec(0, 1)).is_none());
    assert!(dec(MAX_MANTISSA - 1, 0).checked_add(&dec(1, 0)).is_some());
}

#[test]
fn sub_is_exact_at_the_larger_scale() {
    let d = dec(3622, 2).checked_sub(&dec(1001, 2)).unwrap().checked_sub(&dec(1001, 2)).unwrap();
    assert_eq!(d.mantissa(), 1620);
    assert_eq!(d.scale(), 2);
    let z = dec(10195, 2).checked_sub(&dec(10195, 2)).unwrap();
    assert_eq!(z.mantissa(), 0);
    assert_eq!(z.scale(), 2);
    assert!(dec(MAX_MANTISSA, 0).checked_sub(&dec(1, 1)).is_none());
}

#[test]
fn comparison_goes_by_quantity() {
    assert!(dec(12, 0).le(&dec(1201, 2)));
    assert!(!dec(1201, 2).le(&dec(12, 0)));
    assert!(dec(12, 0).le(&dec(1200, 2)));
    assert_eq!(dec(12, 0), dec(1200, 2));
    assert_ne!(dec(12, 0), dec(12, 1));
    assert!(dec(0, 0).le(&dec(MAX_MANTISSA, 0)));
    assert!(!dec(MAX_MANTISSA, 0).le(&dec(MAX_MANTISSA, 28)));
}
