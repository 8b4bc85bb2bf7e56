use drive_deposits::date::Date;
use drive_deposits::decimal::Decimal;
use drive_deposits::math::maturity_date::maturity_date;

fn maturity_start_date() -> Date {
    Date::from_ymd(2023, 11, 23).expect("unable to create a date from year, month, day")
}

#[test]
fn test_maturity_date_after_one_and_a_half_years() {
    let start_date = maturity_start_date();
    let years = Decimal::new(15, 1);
    let maturity = maturity_date(start_date, years);
    assert!(maturity.is_ok());
    let maturity = maturity.unwrap().to_text();
    assert_eq!(maturity, "2025-05-24");
}

#[test]
fn test_maturity_date_after_five_years() {
    let start_date = maturity_start_date();
    let years = Decimal::new(5, 0);
    let maturity = maturity_date(start_date, years);
    assert!(maturity.is_ok());
    let maturity = maturity.unwrap().to_text();
    assert_eq!(maturity, "2028-11-21");
}
