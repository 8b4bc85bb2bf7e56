use drive_deposits::cal_types::{AccountType, NewDelta, NewDeposit, PeriodUnit};
use drive_deposits::date::Date;
use drive_deposits::decimal::Decimal;
use drive_deposits::math::compound_interest::compute_interest as compute_compound_interest;
use drive_deposits::math::growth::compute as compute_growth;
use drive_deposits::math::individual_calculation_error::Error;
use drive_deposits::math::maturity_date::maturity_date;
use drive_deposits::math::outcome::{
    build_outcome_from_new_deposit, build_outcome_with_dates_from_new_deposit,
};
use drive_deposits::math::simple_interest::compute_interest as compute_simple_interest;
use drive_deposits::math::total::compute as compute_total;

fn outcome_deposit(account_type: AccountType, apy: Decimal, years: Decimal, amount: Decimal) -> NewDeposit {
    NewDeposit {
        account: "test_account".to_string(),
        account_type,
        apy,
        years,
        amount,
        start_date_in_bank_tz: Date::from_ymd(2023, 11, 23).unwrap(),
    }
}

fn one_month() -> NewDelta {
    NewDelta { period: Decimal::new(1, 0), period_unit: PeriodUnit::Month }
}

#[test]
fn total_is_principal_and_interest_to_two_places() {
    let total = compute_total(Decimal::new(10000, 1), Decimal::new(10250, 2)).unwrap();
    assert_eq!((total.mantissa(), total.scale()), (110250, 2));
    let rounded = compute_total(Decimal::new(1, 0), Decimal::new(125, 3)).unwrap();
    assert_eq!((rounded.mantissa(), rounded.scale()), (112, 2));
    let rounded_up = compute_total(Decimal::new(1, 0), Decimal::new(135, 3)).unwrap();
    assert_eq!((rounded_up.mantissa(), rounded_up.scale()), (114, 2));
    let max = Decimal::from_parts(79_228_162_514_264_337_593_543_950_335_i128, 0).unwrap();
    assert!(matches!(compute_total(max, max), Err(Error::Overflow(_))));
}

#[test]
fn compound_interest_is_at_least_simple_interest_from_one_year_on() {
    for (apy, years) in [(50, 20), (70, 50), (34, 10), (1, 300), (1200, 15)] {
        let deposit = outcome_deposit(
            AccountType::Savings,
            Decimal::new(apy, 1),
            Decimal::new(years, 1),
            Decimal::new(10000, 1),
        );
        let compound = compute_compound_interest(&deposit).unwrap();
        let simple = compute_simple_interest(&deposit).unwrap();
        let difference = rust_decimal::Decimal::from_i128_with_scale(
            compound.mantissa(),
            compound.scale(),
        ) - rust_decimal::Decimal::from_i128_with_scale(simple.mantissa(), simple.scale());
        assert!(!difference.is_sign_negative(), "apy {apy} years {years}");
        if years > 10 {
            assert!(!difference.is_zero(), "apy {apy} years {years}");
        }
    }
}

#[test]
fn compound_interest_is_below_simple_interest_within_the_first_year() {
    let deposit = outcome_deposit(
        AccountType::Savings,
        Decimal::new(100, 1),
        Decimal::new(5, 1),
        Decimal::new(10000, 1),
    );
    let compound = compute_compound_interest(&deposit).unwrap();
    let simple = compute_simple_interest(&deposit).unwrap();
    assert_eq!(simple, Decimal::new(5000, 2));
    let difference = rust_decimal::Decimal::from_i128_with_scale(simple.mantissa(), simple.scale())
        - rust_decimal::Decimal::from_i128_with_scale(compound.mantissa(), compound.scale());
    assert!(difference.is_sign_positive() && !difference.is_zero());
}

#[test]
fn zero_years_is_an_error_of_growth_whatever_the_rate_and_principal() {
    for (apy, amount) in [(0, 0), (50, 10000), (999, 1), (1, 123456789)] {
        let deposit = outcome_deposit(
            AccountType::Checking,
            Decimal::new(apy, 1),
            Decimal::new(0, 1),
            Decimal::new(amount, 1),
        );
        match compute_growth(&deposit, Decimal::new(10250, 2), &one_month()) {
            Err(Error::ZeroYears(detail)) => {
                assert_eq!(detail, "cannot calculate growth for zero years")
            }
            other => panic!("expected the error for zero years, got {other:?}"),
        }
    }
}

#[test]
fn growth_in_an_unstated_unit_counts_days() {
    let deposit = outcome_deposit(
        AccountType::BrokerageCertificateOfDeposit,
        Decimal::new(50, 1),
        Decimal::new(20, 1),
        Decimal::new(10000, 1),
    );
    let interest = Decimal::new(10000, 2);
    let days = NewDelta { period: Decimal::new(300, 1), period_unit: PeriodUnit::Day };
    let unstated = NewDelta { period: Decimal::new(300, 1), period_unit: PeriodUnit::Unspecified };
    let in_days = compute_growth(&deposit, interest, &days).unwrap();
    let in_unstated = compute_growth(&deposit, interest, &unstated).unwrap();
    assert_eq!(in_days, Decimal::new(411, 2));
    assert_eq!(in_unstated, in_days);
}

#[test]
fn error_texts() {
    assert_eq!(
        Error::ZeroYears("cannot calculate growth for zero years".to_string()).to_text(),
        "ZeroYears error Individual Calculation is incomplete: cannot calculate growth for zero years"
    );
    assert_eq!(Error::Internal.to_text(), "Internal error Individual Calculation is incomplete");
    assert_eq!(
        Error::ParseInt("number too large to fit in target type".to_string()).to_text(),
        "ParseInt error Individual Calculation is incomplete: number too large to fit in target type"
    );
    assert_eq!(
        Error::overflow().to_text(),
        "Overflow error Individual Calculation is incomplete: result is out of range"
    );
}

#[test]
fn outcome_of_a_savings_deposit() {
    let deposit = outcome_deposit(
        AccountType::Savings,
        Decimal::new(50, 1),
        Decimal::new(20, 1),
        Decimal::new(10000, 1),
    );
    let outcome = build_outcome_from_new_deposit(&deposit, &one_month()).expect("an outcome");
    assert!(outcome.errors.is_empty());
    let delta = outcome.delta.expect("a delta");
    assert_eq!(delta.period, Decimal::new(1, 0));
    assert_eq!(delta.period_unit, PeriodUnit::Month);
    assert_eq!(delta.growth.to_text(), "4.21");
    let maturity = outcome.maturity.expect("a maturity");
    assert_eq!(maturity.amount.to_text(), "1000.0");
    assert_eq!(maturity.interest.to_text(), "102.50");
    assert_eq!(maturity.total.to_text(), "1102.50");
}

#[test]
fn outcome_of_a_brokerage_certificate_uses_simple_interest() {
    let deposit = outcome_deposit(
        AccountType::BrokerageCertificateOfDeposit,
        Decimal::new(50, 1),
        Decimal::new(20, 1),
        Decimal::new(10000, 1),
    );
    let outcome = build_outcome_from_new_deposit(&deposit, &one_month()).expect("an outcome");
    assert_eq!(outcome.delta.unwrap().growth, Decimal::new(411, 2));
    let maturity = outcome.maturity.unwrap();
    assert_eq!(maturity.interest, Decimal::new(10000, 2));
    assert_eq!(maturity.total, Decimal::new(110000, 2));
}

#[test]
fn outcome_of_an_unstated_account_type_is_an_error() {
    let deposit = outcome_deposit(
        AccountType::Unspecified,
        Decimal::new(50, 1),
        Decimal::new(20, 1),
        Decimal::new(10000, 1),
    );
    let outcome = build_outcome_from_new_deposit(&deposit, &one_month()).expect("an outcome");
    assert!(outcome.delta.is_none());
    assert!(outcome.maturity.is_none());
    assert_eq!(outcome.errors.len(), 1);
    assert_eq!(
        outcome.errors[0].message,
        "Unspecified account type...Error calculating outcome for account type Unspecified deposit: \"test_account\""
    );
}

#[test]
fn outcome_of_zero_years_is_an_error_and_stops_nothing() {
    let deposit = outcome_deposit(
        AccountType::Checking,
        Decimal::new(50, 1),
        Decimal::new(0, 1),
        Decimal::new(10000, 1),
    );
    let outcome = build_outcome_from_new_deposit(&deposit, &one_month()).expect("an outcome");
    assert!(outcome.delta.is_none());
    assert!(outcome.maturity.is_none());
    assert_eq!(outcome.errors.len(), 1);
    assert_eq!(
        outcome.errors[0].message,
        "ZeroYears error Individual Calculation is incomplete: cannot calculate growth for zero years"
    );
    let dates = build_outcome_with_dates_from_new_deposit(&deposit).expect("dates");
    assert_eq!(dates.maturity_date_in_bank_tz, Some(deposit.start_date_in_bank_tz));
    assert!(dates.errors.is_empty());
}

#[test]
fn outcome_out_of_range_is_an_error() {
    let max = Decimal::from_parts(79_228_162_514_264_337_593_543_950_335_i128, 0).unwrap();
    let deposit = outcome_deposit(AccountType::BrokerageCertificateOfDeposit, max, max, max);
    let outcome = build_outcome_from_new_deposit(&deposit, &one_month()).expect("an outcome");
    assert!(outcome.delta.is_none());
    assert!(outcome.maturity.is_none());
    assert_eq!(outcome.errors.len(), 1);
    assert_eq!(
        outcome.errors[0].message,
        "Overflow error Individual Calculation is incomplete: result is out of range"
    );
}

#[test]
fn dates_of_a_deposit() {
    let deposit = outcome_deposit(
        AccountType::Savings,
        Decimal::new(50, 1),
        Decimal::new(20, 1),
        Decimal::new(10000, 1),
    );
    let dates = build_outcome_with_dates_from_new_deposit(&deposit).expect("dates");
    assert_eq!(dates.start_date_in_bank_tz.to_text(), "2023-11-23");
    assert_eq!(dates.maturity_date_in_bank_tz.unwrap().to_text(), "2025-11-22");
    assert!(dates.errors.is_empty());
}

#[test]
fn maturity_date_does_not_move_back_as_years_grow() {
    let start = Date::from_ymd(2023, 11, 23).unwrap();
    let mut last = start.days_from_ce();
    for tenths in 0..60 {
        let date = maturity_date(start, Decimal::new(tenths, 1)).unwrap();
        assert!(date.days_from_ce() >= last, "years {tenths} tenths");
        last = date.days_from_ce();
    }
    assert_eq!(maturity_date(start, Decimal::new(15, 1)).unwrap(), maturity_date(start, Decimal::new(150, 2)).unwrap());
}

#[test]
fn maturity_date_rounds_half_days_to_the_even_day() {
    let start = Date::from_ymd(2023, 11, 23).unwrap();
    // 0.5 years are 182.5 days, 1.5 years are 547.5 days
    assert_eq!(maturity_date(start, Decimal::new(5, 1)).unwrap().days_from_ce() - start.days_from_ce(), 182);
    assert_eq!(maturity_date(start, Decimal::new(15, 1)).unwrap().days_from_ce() - start.days_from_ce(), 548);
    assert_eq!(maturity_date(start, Decimal::new(-5, 1)).unwrap().days_from_ce() - start.days_from_ce(), -182);
    assert_eq!(maturity_date(start, Decimal::zero()).unwrap(), start);
}

#[test]
fn maturity_date_that_cannot_be_is_an_error() {
    let start = Date::from_ymd(2023, 11, 23).unwrap();
    let long = Decimal::from_parts(100_000_000_000_000_000_000, 0).unwrap();
    match maturity_date(start, long) {
        Err(Error::ParseInt(detail)) => assert_eq!(detail, "number too large to fit in target type"),
        other => panic!("expected a day count that is too large, got {other:?}"),
    }
    let long_ago = Decimal::from_parts(-100_000_000_000_000_000_000, 0).unwrap();
    match maturity_date(start, long_ago) {
        Err(Error::ParseInt(detail)) => assert_eq!(detail, "number too small to fit in target type"),
        other => panic!("expected a day count that is too small, got {other:?}"),
    }
    assert!(matches!(maturity_date(start, Decimal::new(300_000, 0)), Err(Error::Overflow(_))));
    let max = Decimal::from_parts(79_228_162_514_264_337_593_543_950_335_i128, 0).unwrap();
    assert!(matches!(maturity_date(start, max), Err(Error::Overflow(_))));

    let deposit = NewDeposit {
        account: "test_account".to_string(),
        account_type: AccountType::Savings,
        apy: Decimal::new(50, 1),
        years: long,
        amount: Decimal::new(10000, 1),
        start_date_in_bank_tz: start,
    };
    let dates = build_outcome_with_dates_from_new_deposit(&deposit).expect("dates");
    assert_eq!(dates.start_date_in_bank_tz, start);
    assert!(dates.maturity_date_in_bank_tz.is_none());
    assert_eq!(dates.errors.len(), 1);
    assert_eq!(dates.errors[0].message, "number too large to fit in target type");
}
