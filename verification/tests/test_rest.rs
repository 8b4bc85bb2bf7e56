use drive_deposits::cal_types::{AccountType, PeriodUnit};
use drive_deposits::convert::from_rest_request::{
    new_bank_from_rest, new_delta_from_rest, new_deposit_from_rest, portfolio_request_from_rest,
};
use drive_deposits::convert::json::{write_outcome, write_outcome_with_dates};
use drive_deposits::convert::to_rest_response::{
    rest_bank, rest_delta, rest_deposit, rest_maturity, rest_outcome, rest_outcome_with_dates,
    rest_portfolio_response, rest_processing_error,
};
use drive_deposits::date::Date;
use drive_deposits::decimal::Decimal;
use drive_deposits::handler_error::bad_request_errors;
use drive_deposits::math::engine::calculate_portfolio;
use drive_deposits::rest_types::{
    validate, AccountType as RestAccountType, CalculatePortfolioRequest, DeltaPeriodUnit, NewBank,
    NewDelta, NewDeposit, Outcome, OutcomeWithDates, ProcessingError,
};

fn rest_deposit_of(account: &str, account_type: &str) -> NewDeposit {
    NewDeposit {
        account: account.to_string(),
        account_type: account_type.to_string(),
        apy: "5.0".to_string(),
        years: "2.0".to_string(),
        amount: "1000.0".to_string(),
        start_date_in_bank_tz: "2023-11-23".to_string(),
    }
}

fn rest_request() -> CalculatePortfolioRequest {
    CalculatePortfolioRequest {
        new_banks: vec![
            NewBank {
                name: "VISION-BANK".to_string(),
                bank_tz: "America/New_York".to_string(),
                new_deposits: vec![
                    rest_deposit_of("1234", "Savings"),
                    rest_deposit_of("5678", "BrokerageCertificateOfDeposit"),
                ],
            },
            NewBank {
                name: "SUPER-BANK".to_string(),
                bank_tz: "America/Los_Angeles".to_string(),
                new_deposits: vec![rest_deposit_of("9012", "Checking")],
            },
        ],
        new_delta: NewDelta { period: "1".to_string(), period_unit: "Month".to_string() },
    }
}

#[test]
fn request_that_keeps_the_rules_is_accepted() {
    assert!(validate(&rest_request()).is_ok());
    let mut umlauts = rest_request();
    umlauts.new_banks[0].new_deposits[0].account = "äöüß".to_string();
    assert!(validate(&umlauts).is_ok());
    let mut unspecified = rest_request();
    unspecified.new_banks[0].new_deposits[0].account_type = "Unspecified".to_string();
    unspecified.new_delta.period_unit = "Unspecified".to_string();
    assert!(validate(&unspecified).is_ok());
    let mut zero_yield = rest_request();
    zero_yield.new_banks[0].new_deposits[0].apy = "0".to_string();
    zero_yield.new_banks[0].new_deposits[0].amount = "0.00".to_string();
    assert!(validate(&zero_yield).is_ok());
}

#[test]
fn request_with_a_wrong_zone_and_unit_is_refused() {
    let mut request = rest_request();
    request.new_banks[0].bank_tz = "America/New_Amsterdam".to_string();
    request.new_delta.period_unit = "Decade".to_string();
    let errors = validate(&request).unwrap_err().errors;
    assert_eq!(errors.len(), 2);
    assert_eq!(errors[0].field, "bank_tz");
    assert_eq!(errors[0].code, "invalid_tz");
    assert_eq!(
        errors[0].message,
        "Error: failed to parse timezone. Incorrect timezone: America/New_Amsterdam. Must be a valid timezone.\n"
    );
    assert_eq!(errors[1].field, "period_unit");
    assert_eq!(errors[1].code, "invalid_period_unit");
    assert_eq!(
        errors[1].message,
        "Incorrect period_unit: Decade. Must be Day, Week, Month, or Year.\n"
    );
}

fn codes_of(request: &CalculatePortfolioRequest) -> Vec<(String, String)> {
    match validate(request) {
        Ok(()) => vec![],
        Err(e) => e.errors.into_iter().map(|e| (e.field, e.code)).collect(),
    }
}

fn refused(field: &str, code: &str) -> Vec<(String, String)> {
    vec![(field.to_string(), code.to_string())]
}

#[test]
fn every_rule_of_a_request() {
    let mut r = rest_request();
    r.new_banks.clear();
    assert_eq!(codes_of(&r), refused("new_banks", "length"));

    let mut r = rest_request();
    r.new_banks[1].new_deposits.clear();
    assert_eq!(codes_of(&r), refused("new_deposits", "length"));

    let mut r = rest_request();
    r.new_banks[1].name = String::new();
    assert_eq!(codes_of(&r), refused("name", "length"));

    let mut r = rest_request();
    r.new_banks[0].new_deposits[1].account = "abc".to_string();
    assert_eq!(codes_of(&r), refused("account", "length"));

    let mut r = rest_request();
    r.new_banks[0].new_deposits[1].account_type = "savings".to_string();
    assert_eq!(codes_of(&r), refused("account_type", "invalid_account_type"));

    let mut r = rest_request();
    r.new_banks[0].new_deposits[0].apy = "-5.0".to_string();
    assert_eq!(codes_of(&r), refused("apy", "invalid_decimal"));

    let mut r = rest_request();
    r.new_banks[0].new_deposits[0].amount = "a lot".to_string();
    assert_eq!(codes_of(&r), refused("amount", "invalid_decimal"));

    let mut r = rest_request();
    r.new_banks[0].new_deposits[0].years = "0.0".to_string();
    assert_eq!(codes_of(&r), refused("years", "invalid_positive_decimal"));

    let mut r = rest_request();
    r.new_banks[0].new_deposits[0].years = "-1".to_string();
    assert_eq!(codes_of(&r), refused("years", "invalid_decimal"));

    let mut r = rest_request();
    r.new_banks[0].new_deposits[0].start_date_in_bank_tz = "23/11/2023".to_string();
    assert_eq!(codes_of(&r), refused("start_date_in_bank_tz", "invalid_iso8601_datetime"));

    let mut r = rest_request();
    r.new_delta.period = "0".to_string();
    assert_eq!(codes_of(&r), refused("period", "invalid_positive_decimal"));

    let mut r = rest_request();
    r.new_delta.period = String::new();
    assert_eq!(
        codes_of(&r),
        vec![
            ("period".to_string(), "length".to_string()),
            ("period".to_string(), "invalid_decimal".to_string())
        ]
    );
}

#[test]
fn names_of_units_and_account_types() {
    assert_eq!(DeltaPeriodUnit::from_name("Day"), Some(DeltaPeriodUnit::Day));
    assert_eq!(DeltaPeriodUnit::from_name("Week"), Some(DeltaPeriodUnit::Week));
    assert_eq!(DeltaPeriodUnit::from_name("Month"), Some(DeltaPeriodUnit::Month));
    assert_eq!(DeltaPeriodUnit::from_name("Year"), Some(DeltaPeriodUnit::Year));
    assert_eq!(DeltaPeriodUnit::from_name("Unspecified"), Some(DeltaPeriodUnit::Unspecified));
    assert_eq!(DeltaPeriodUnit::from_name("day"), None);
    assert_eq!(DeltaPeriodUnit::default(), DeltaPeriodUnit::Unspecified);
    assert_eq!(RestAccountType::from_name("Checking"), Some(RestAccountType::Checking));
    assert_eq!(RestAccountType::from_name("Savings"), Some(RestAccountType::Savings));
    assert_eq!(
        RestAccountType::from_name("CertificateOfDeposit"),
        Some(RestAccountType::CertificateOfDeposit)
    );
    assert_eq!(
        RestAccountType::from_name("BrokerageCertificateOfDeposit"),
        Some(RestAccountType::BrokerageCertificateOfDeposit)
    );
    assert_eq!(RestAccountType::from_name("CHECKING"), None);
    assert_eq!(RestAccountType::default(), RestAccountType::Unspecified);

    assert_eq!(AccountType::from_str_name("CERTIFICATE_OF_DEPOSIT"), Some(AccountType::CertificateOfDeposit));
    assert_eq!(AccountType::from_str_name("Checking"), None);
    assert_eq!(AccountType::BrokerageCertificateOfDeposit.as_str_name(), "BROKERAGE_CERTIFICATE_OF_DEPOSIT");
    assert_eq!(AccountType::default(), AccountType::Unspecified);
    assert_eq!(PeriodUnit::from_str_name("WEEK"), Some(PeriodUnit::Week));
    assert_eq!(PeriodUnit::from_str_name("Week"), None);
    assert_eq!(PeriodUnit::Year.as_str_name(), "YEAR");
    assert_eq!(PeriodUnit::default(), PeriodUnit::Unspecified);
}

#[test]
fn banks_of_a_request_are_counted() {
    assert!(bad_request_errors(&rest_request().new_banks).is_ok());
    let violation = bad_request_errors(&[]).unwrap_err();
    assert_eq!(violation.field, "new_banks");
    assert_eq!(violation.description, "name_banks cannot be empty");
    let bank = || NewBank { name: "B".to_string(), bank_tz: "UTC".to_string(), new_deposits: vec![] };
    let many: Vec<NewBank> = (0..501).map(|_| bank()).collect();
    let violation = bad_request_errors(&many).unwrap_err();
    assert_eq!(
        violation.description,
        "too many banks provided; must be less than upper limit of 500"
    );
    assert!(bad_request_errors(&many[..500]).is_ok());
}

#[test]
fn request_as_text_becomes_the_request_that_is_calculated() {
    let request = portfolio_request_from_rest(rest_request());
    assert_eq!(request.new_banks.len(), 2);
    assert_eq!(request.new_delta.period, Decimal::new(1, 0));
    assert_eq!(request.new_delta.period_unit, PeriodUnit::Month);
    let vision = &request.new_banks[0];
    assert_eq!(vision.name, "VISION-BANK");
    assert_eq!(vision.bank_tz.name(), "America/New_York");
    assert_eq!(vision.new_deposits.len(), 2);
    let first = &vision.new_deposits[0];
    assert_eq!(first.account, "1234");
    assert_eq!(first.account_type, AccountType::Savings);
    assert_eq!((first.apy.mantissa(), first.apy.scale()), (50, 1));
    assert_eq!((first.years.mantissa(), first.years.scale()), (20, 1));
    assert_eq!((first.amount.mantissa(), first.amount.scale()), (10000, 1));
    assert_eq!(first.start_date_in_bank_tz, Date::from_ymd(2023, 11, 23).unwrap());
    assert_eq!(
        vision.new_deposits[1].account_type,
        AccountType::BrokerageCertificateOfDeposit
    );
    assert_eq!(request.new_banks[1].new_deposits[0].account_type, AccountType::Checking);
}

#[test]
fn what_cannot_be_read_is_taken_as_its_default() {
    let deposit = new_deposit_from_rest(NewDeposit {
        account: "1234".to_string(),
        account_type: "Mattress".to_string(),
        apy: "five".to_string(),
        years: "".to_string(),
        amount: "1e".to_string(),
        start_date_in_bank_tz: "yesterday".to_string(),
    });
    assert_eq!(deposit.account_type, AccountType::Unspecified);
    assert_eq!((deposit.apy.mantissa(), deposit.apy.scale()), (0, 0));
    assert!(deposit.years.is_zero());
    assert!(deposit.amount.is_zero());
    assert_eq!(deposit.start_date_in_bank_tz.to_text(), "1970-01-01");
    let bank = new_bank_from_rest(NewBank {
        name: "B".to_string(),
        bank_tz: "Nowhere".to_string(),
        new_deposits: vec![],
    });
    assert_eq!(bank.bank_tz.name(), "UTC");
    assert!(bank.new_deposits.is_empty());
    let delta = new_delta_from_rest(NewDelta { period: "x".to_string(), period_unit: "Eon".to_string() });
    assert!(delta.period.is_zero());
    assert_eq!(delta.period_unit, PeriodUnit::Unspecified);
    let delta = new_delta_from_rest(NewDelta { period: "2.0".to_string(), period_unit: "Week".to_string() });
    assert_eq!(delta.period_unit, PeriodUnit::Week);
    let certificate = new_deposit_from_rest(rest_deposit_of("1234", "CertificateOfDeposit"));
    assert_eq!(certificate.account_type, AccountType::CertificateOfDeposit);
}

#[test]
fn response_as_text() {
    let request = portfolio_request_from_rest(rest_request());
    let response = calculate_portfolio(request, "2024-07-24T23:39:57.059295Z".to_string()).unwrap();
    let uuid = response.uuid;
    let bank_uuid = response.banks[0].uuid;
    let rest = rest_portfolio_response(response);
    assert_eq!(rest.uuid, uuid.to_text());
    assert_eq!(rest.uuid.len(), 36);
    assert_eq!(rest.created_at, "2024-07-24T23:39:57.059295Z");
    assert_eq!(rest.banks.len(), 2);
    let vision = &rest.banks[0];
    assert_eq!(vision.uuid, bank_uuid.to_text());
    assert_eq!(vision.name, "VISION-BANK");
    assert_eq!(vision.bank_tz, "America/New_York");
    assert_eq!(vision.deposits.len(), 2);
    let savings = &vision.deposits[0];
    assert_eq!(savings.account, "1234");
    assert_eq!(savings.account_type, "Savings");
    assert_eq!(savings.apy, "5.0");
    assert_eq!(savings.years, "2.0");
    let outcome = savings.outcome.clone().unwrap();
    let delta = outcome.delta.unwrap();
    assert_eq!(delta.period, "1");
    assert_eq!(delta.period_unit, "Month");
    assert_eq!(delta.growth, "4.21");
    let maturity = outcome.maturity.unwrap();
    assert_eq!(maturity.amount, "1000.0");
    assert_eq!(maturity.interest, "102.50");
    assert_eq!(maturity.total, "1102.50");
    let dates = savings.outcome_with_dates.clone().unwrap();
    assert_eq!(dates.start_date_in_bank_tz, "2023-11-23");
    assert_eq!(dates.maturity_date_in_bank_tz.unwrap(), "2025-11-22");
    assert_eq!(vision.deposits[1].account_type, "BrokerageCertificateOfDeposit");
    let of_all = rest.outcome.unwrap();
    assert_eq!(of_all.delta.unwrap().growth, "12.53");
    assert_eq!(of_all.maturity.unwrap().total, "3305.00");
}

#[test]
fn parts_of_a_response_as_text() {
    let mut request = portfolio_request_from_rest(rest_request());
    request.new_banks[0].new_deposits[0].account_type = AccountType::Unspecified;
    request.new_banks[0].new_deposits[1].years = Decimal::from_parts(100_000_000_000_000_000_000, 0).unwrap();
    let response = calculate_portfolio(request, "now".to_string()).unwrap();
    let bank = response.banks[0].clone();
    let deposit = bank.deposits[0].clone();
    let failed = deposit.outcome.clone().unwrap();
    let error = failed.errors[0].clone();
    let rest_error = rest_processing_error(error.clone());
    assert_eq!(rest_error.uuid, error.uuid.to_text());
    assert_eq!(rest_error.message, error.message);
    let rest_failed = rest_outcome(failed);
    assert!(rest_failed.delta.is_none() && rest_failed.maturity.is_none());
    assert_eq!(rest_failed.errors.len(), 1);
    assert_eq!(rest_deposit(deposit).account_type, "Unspecified");
    let no_date = rest_outcome_with_dates(bank.deposits[1].outcome_with_dates.clone().unwrap());
    assert_eq!(no_date.start_date_in_bank_tz, "2023-11-23");
    assert!(no_date.maturity_date_in_bank_tz.is_none());
    assert_eq!(no_date.errors[0].message, "number too large to fit in target type");
    let rest = rest_bank(bank);
    assert!(rest.outcome.unwrap().delta.is_none());

    let whole = response.banks[1].outcome.clone().unwrap();
    assert_eq!(rest_delta(whole.delta.clone().unwrap()).period_unit, "Month");
    assert_eq!(rest_maturity(whole.maturity.clone().unwrap()).interest, "102.50");
}

fn outcome_with(message: &str) -> Outcome {
    Outcome {
        delta: None,
        maturity: None,
        errors: vec![
            ProcessingError { uuid: "u-1".to_string(), message: message.to_string() },
            ProcessingError { uuid: "u-2".to_string(), message: "second".to_string() },
        ],
    }
}

#[test]
fn outcome_as_json() {
    let request = portfolio_request_from_rest(rest_request());
    let response = calculate_portfolio(request, "now".to_string()).unwrap();
    let rest = rest_portfolio_response(response);
    assert_eq!(
        write_outcome(&rest.outcome),
        "{\"delta\":{\"period\":\"1\",\"period_unit\":\"Month\",\"growth\":\"12.53\"},\"maturity\":{\"amount\":\"3000.0\",\"interest\":\"305.00\",\"total\":\"3305.00\"},\"errors\":[]}"
    );
    assert_eq!(write_outcome(&None), "null");
    assert_eq!(write_outcome_with_dates(&None), "null");
    assert_eq!(
        write_outcome_with_dates(&rest.banks[0].deposits[0].outcome_with_dates),
        "{\"start_date_in_bank_tz\":\"2023-11-23\",\"maturity_date_in_bank_tz\":\"2025-11-22\",\"errors\":[]}"
    );
}

#[test]
fn json_text_is_read_back_by_serde_json() {
    let message = "a \"quoted\" word,\na new line, a \\ and a tab\t";
    let text = write_outcome(&Some(outcome_with(message)));
    let value: serde_json::Value = serde_json::from_str(&text).expect("JSON");
    assert!(value["delta"].is_null());
    assert!(value["maturity"].is_null());
    let errors = value["errors"].as_array().expect("errors");
    assert_eq!(errors.len(), 2);
    assert_eq!(errors[0]["uuid"].as_str(), Some("u-1"));
    assert_eq!(errors[0]["message"].as_str(), Some(message));
    assert_eq!(errors[1]["message"].as_str(), Some("second"));

    let dates = OutcomeWithDates {
        start_date_in_bank_tz: "2023-11-23".to_string(),
        maturity_date_in_bank_tz: None,
        errors: vec![ProcessingError { uuid: "u".to_string(), message: message.to_string() }],
    };
    let text = write_outcome_with_dates(&Some(dates));
    let value: serde_json::Value = serde_json::from_str(&text).expect("JSON");
    assert_eq!(value["start_date_in_bank_tz"].as_str(), Some("2023-11-23"));
    assert!(value["maturity_date_in_bank_tz"].is_null());
    assert_eq!(value["errors"][0]["message"].as_str(), Some(message));
}
