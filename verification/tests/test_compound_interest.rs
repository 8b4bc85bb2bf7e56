use drive_deposits::cal_types::{AccountType, NewDelta, NewDeposit, PeriodUnit};
use drive_deposits::date::Date;
use drive_deposits::decimal::Decimal;
use drive_deposits::math::compound_interest::compute_interest;
use drive_deposits::math::growth::compute as compute_growth;

fn compound_start_date() -> Date {
    Date::from_ymd(2023, 11, 23).expect("unable to create a date from year, month, day")
}

#[test]
fn test_compound_interest_calculation_delta_years() {
    let deposit = NewDeposit {
        account: "test_account".to_string(),
        account_type: AccountType::BrokerageCertificateOfDeposit,
        apy: Decimal::new(50, 1),
        years: Decimal::new(20, 1),
        amount: Decimal::new(10000, 1),
        start_date_in_bank_tz: compound_start_date(),
    };
    let delta = NewDelta {
        period: Decimal::new(10, 1),
        period_unit: PeriodUnit::Year,
    };
    let interest = compute_interest(&deposit).unwrap();
    let delta_interest = compute_growth(&deposit, interest, &delta).unwrap();
    assert_eq!(interest, Decimal::new(10250, 2));
    assert_eq!(delta_interest, Decimal::new(5125, 2));
}

#[test]
fn test_compound_interest_calculation_delta_several_years() {
    let deposit = NewDeposit {
        account: "test_account".to_string(),
        account_type: AccountType::BrokerageCertificateOfDeposit,
        apy: Decimal::new(70, 1),
        years: Decimal::new(50, 1),
        amount: Decimal::new(50000, 1),
        start_date_in_bank_tz: compound_start_date(),
    };
    let delta = NewDelta {
        period: Decimal::new(15, 0),
        period_unit: PeriodUnit::Day,
    };
    let interest = compute_interest(&deposit).unwrap();
    let delta_interest = compute_growth(&deposit, interest, &delta).unwrap();
    assert_eq!(interest, Decimal::new(201276, 2));
    assert_eq!(delta_interest, Decimal::new(1654, 2));
}

#[test]
fn test_compound_interest_calculation_delta_mid_level_decimal_interest() {
    let deposit = NewDeposit {
        account: "test_account".to_string(),
        account_type: AccountType::CertificateOfDeposit,
        apy: Decimal::new(34, 1),
        years: Decimal::new(50, 1),
        amount: Decimal::new(100000, 1),
        start_date_in_bank_tz: compound_start_date(),
    };
    let delta = NewDelta {
        period: Decimal::new(15, 0),
        period_unit: PeriodUnit::Day,
    };
    let interest = compute_interest(&deposit).unwrap();
    let delta_interest = compute_growth(&deposit, interest, &delta).unwrap();
    assert_eq!(interest, Decimal::new(181960, 2));
    assert_eq!(delta_interest, Decimal::new(1496, 2));
}

#[test]
fn test_compound_interest_calculation_delta_months() {
    let deposit = NewDeposit {
        account: "test_account".to_string(),
        account_type: AccountType::CertificateOfDeposit,
        apy: Decimal::new(50, 1),
        years: Decimal::new(20, 1),
        amount: Decimal::new(10000, 1),
        start_date_in_bank_tz: compound_start_date(),
    };
    let delta = NewDelta {
        period: Decimal::new(10, 1),
        period_unit: PeriodUnit::Month,
    };
    let interest = compute_interest(&deposit).unwrap();
    let delta_interest = compute_growth(&deposit, interest, &delta).unwrap();
    assert_eq!(interest, Decimal::new(10250, 2));
    assert_eq!(delta_interest, Decimal::new(421, 2));
}

#[test]
fn test_compound_interest_calculation_delta_weeks() {
    let deposit = NewDeposit {
        account: "test_account".to_string(),
        account_type: AccountType::BrokerageCertificateOfDeposit,
        apy: Decimal::new(50, 1),
        years: Decimal::new(20, 1),
        amount: Decimal::new(10000, 1),
        start_date_in_bank_tz: compound_start_date(),
    };
    let delta = NewDelta {
        period: Decimal::new(20, 1),
        period_unit: PeriodUnit::Week,
    };
    let interest = compute_interest(&deposit).unwrap();
    let delta_interest = compute_growth(&deposit, interest, &delta).unwrap();
    assert_eq!(interest, Decimal::new(10250, 2));
    assert_eq!(delta_interest, Decimal::new(197, 2));
}

#[test]
fn test_compound_interest_calculation_delta_days() {
    let deposit = NewDeposit {
        account: "test_account".to_string(),
        account_type: AccountType::BrokerageCertificateOfDeposit,
        apy: Decimal::new(50, 1),
        years: Decimal::new(20, 1),
        amount: Decimal::new(10000, 1),
        start_date_in_bank_tz: compound_start_date(),
    };
    let delta = NewDelta {
        period: Decimal::new(300, 1),
        period_unit: PeriodUnit::Day,
    };
    let interest = compute_interest(&deposit).unwrap();
    let delta_interest = compute_growth(&deposit, interest, &delta).unwrap();
    assert_eq!(interest, Decimal::new(10250, 2));
    assert_eq!(delta_interest, Decimal::new(421, 2));
}

#[test]
#[should_panic]
fn test_growth_with_compound_interest_zero_years() {
    let deposit = NewDeposit {
        account: "test_account".to_string(),
        account_type: AccountType::BrokerageCertificateOfDeposit,
        apy: Decimal::new(50, 1),
        years: Decimal::new(0, 1),
        amount: Decimal::new(10000, 1),
        start_date_in_bank_tz: compound_start_date(),
    };
    let delta = NewDelta {
        period: Decimal::new(300, 1),
        period_unit: PeriodUnit::Day,
    };
    let interest = compute_interest(&deposit).unwrap();
    compute_growth(&deposit, interest, &delta).unwrap();
}
