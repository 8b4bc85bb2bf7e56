use drive_deposits::decimal::Decimal;

#[test]
fn decimal_holds_mantissa_and_scale() {
    let d = Decimal::new(10250, 2);
    assert_eq!(d.mantissa(), 10250);
    assert_eq!(d.scale(), 2);
    assert!(!d.is_zero());
    assert!(!d.is_negative());
    assert!(Decimal::new(-1, 0).is_negative());
    assert!(Decimal::zero().is_zero());
}

#[test]
fn decimal_from_parts_checks_the_limits() {
    let max = 79_228_162_514_264_337_593_543_950_335_i128;
    assert!(Decimal::from_parts(max, 28).is_some());
    assert!(Decimal::from_parts(-max, 0).is_some());
    assert!(Decimal::from_parts(max + 1, 0).is_none());
    assert!(Decimal::from_parts(-max - 1, 0).is_none());
    assert!(Decimal::from_parts(1, 29).is_none());
    assert_eq!(Decimal::from_parts(max, 0).unwrap().mantissa(), rust_decimal::Decimal::MAX.mantissa());
}

#[test]
fn decimals_compare_as_numbers() {
    assert_eq!(Decimal::new(1000, 1), Decimal::new(10000, 2));
    assert_eq!(Decimal::new(0, 5), Decimal::zero());
    assert_ne!(Decimal::new(1000, 1), Decimal::new(1000, 2));
    assert_ne!(Decimal::new(1, 0), Decimal::new(-1, 0));
}

#[test]
fn decimal_prints_with_its_scale() {
    assert_eq!(Decimal::new(10250, 2).to_text(), "102.50");
    assert_eq!(Decimal::new(10000, 1).to_text(), "1000.0");
    assert_eq!(Decimal::new(-5, 1).to_text(), "-0.5");
    assert_eq!(Decimal::new(7, 0).to_text(), "7");
}

#[test]
fn decimal_prints_padded_for_sorting() {
    let growth = Decimal::new(832, 2);
    let padded = growth.to_padded_text();
    assert_eq!(padded, format!("{:020.2}", rust_decimal::Decimal::new(832, 2)));
    assert_eq!(padded.len(), 20);
    assert_eq!(padded, "00000000000000008.32");
    assert!(Decimal::new(411, 2).to_padded_text() < Decimal::new(1050, 2).to_padded_text());
}

#[test]
fn decimal_is_read_from_text() {
    let d = Decimal::parse("102.50").expect("a number");
    assert_eq!(d.mantissa(), 10250);
    assert_eq!(d.scale(), 2);
    assert!(Decimal::parse("abc").is_none());
    assert!(Decimal::parse("").is_none());
    assert_eq!(Decimal::parse("-3.5").unwrap(), Decimal::new(-35, 1));
}

#[test]
fn decimal_that_is_not_read_has_a_reason() {
    let reason = Decimal::parse_or_reason("abc").unwrap_err();
    let expected = "abc".parse::<rust_decimal::Decimal>().unwrap_err().to_string();
    assert_eq!(reason, expected);
    assert!(Decimal::parse_or_reason("1.5").is_ok());
}
