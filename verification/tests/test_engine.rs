use drive_deposits::cal_types::{
    AccountType, Bank, NewBank, NewDelta, NewDeposit, PeriodUnit, PortfolioRequest,
    PortfolioResponse,
};
use drive_deposits::date::Date;
use drive_deposits::decimal::Decimal;
use drive_deposits::event_source::{
    env_var_bool, puts_event_failed_entry_count, should_send_events, use_localstack,
    DriveDepositsEventBridgeError, EnvironmentVariable,
};
use drive_deposits::identifier::Uuid;
use drive_deposits::math::engine::{
    build_from_new_bank, build_from_new_banks, build_from_new_deposit, build_from_new_deposits,
    build_from_portfolio_request, build_portfolio_response, calculate_portfolio, finish_bank_unit,
    finish_portfolio, join_bank_unit, judge_emission, CalculationHaltError, EventEmission,
};
use drive_deposits::timezone::Timezone;

fn engine_deposit(account: &str, account_type: AccountType, years: i64) -> NewDeposit {
    NewDeposit {
        account: account.to_string(),
        account_type,
        apy: Decimal::new(50, 1),
        years: Decimal::new(years, 1),
        amount: Decimal::new(10000, 1),
        start_date_in_bank_tz: Date::from_ymd(2023, 11, 23).unwrap(),
    }
}

fn engine_request() -> PortfolioRequest {
    PortfolioRequest {
        new_banks: vec![
            NewBank {
                name: "VISION-BANK".to_string(),
                bank_tz: Timezone::parse("America/New_York").unwrap(),
                new_deposits: vec![
                    engine_deposit("1234", AccountType::Savings, 20),
                    engine_deposit("5678", AccountType::BrokerageCertificateOfDeposit, 20),
                ],
            },
            NewBank {
                name: "SUPER-BANK".to_string(),
                bank_tz: Timezone::parse("America/Los_Angeles").unwrap(),
                new_deposits: vec![engine_deposit("9012", AccountType::Checking, 20)],
            },
        ],
        new_delta: NewDelta { period: Decimal::new(1, 0), period_unit: PeriodUnit::Month },
    }
}

fn figures_of(response: &PortfolioResponse) -> Vec<String> {
    let mut all = vec![];
    let mut outcomes = vec![response.outcome.clone()];
    for bank in &response.banks {
        all.push(bank.name.clone());
        all.push(bank.bank_tz.name().to_string());
        outcomes.push(bank.outcome.clone());
        for deposit in &bank.deposits {
            all.push(deposit.account.clone());
            outcomes.push(deposit.outcome.clone());
            let dates = deposit.outcome_with_dates.clone().unwrap();
            all.push(dates.start_date_in_bank_tz.to_text());
            all.push(dates.maturity_date_in_bank_tz.map(|d| d.to_text()).unwrap_or_default());
        }
    }
    for outcome in outcomes {
        let outcome = outcome.unwrap();
        let delta = outcome.delta.unwrap();
        let maturity = outcome.maturity.unwrap();
        all.push(delta.growth.to_text());
        all.push(maturity.amount.to_text());
        all.push(maturity.interest.to_text());
        all.push(maturity.total.to_text());
    }
    all
}

#[test]
fn portfolio_of_two_banks() {
    let response = calculate_portfolio(engine_request(), "2024-07-24T23:39:57.059295Z".to_string())
        .expect("a response");
    assert_eq!(response.created_at, "2024-07-24T23:39:57.059295Z");
    assert_eq!(response.banks.len(), 2);
    let vision = &response.banks[0];
    assert_eq!(vision.name, "VISION-BANK");
    assert_eq!(vision.bank_tz.name(), "America/New_York");
    assert_eq!(vision.deposits.len(), 2);
    assert_eq!(vision.deposits[0].account, "1234");
    assert_eq!(vision.deposits[0].account_type, AccountType::Savings);
    assert_eq!(vision.deposits[1].account, "5678");
    let savings = vision.deposits[0].outcome.clone().unwrap();
    assert_eq!(savings.maturity.unwrap().interest.to_text(), "102.50");
    assert_eq!(savings.delta.unwrap().growth.to_text(), "4.21");
    let brokerage = vision.deposits[1].outcome.clone().unwrap();
    assert_eq!(brokerage.maturity.unwrap().interest.to_text(), "100.00");
    assert_eq!(brokerage.delta.unwrap().growth.to_text(), "4.11");
    let dates = vision.deposits[0].outcome_with_dates.clone().unwrap();
    assert_eq!(dates.maturity_date_in_bank_tz.unwrap().to_text(), "2025-11-22");

    let of_vision = vision.outcome.clone().unwrap();
    assert!(of_vision.errors.is_empty());
    assert_eq!(of_vision.delta.clone().unwrap().growth.to_text(), "8.32");
    assert_eq!(of_vision.delta.unwrap().period_unit, PeriodUnit::Month);
    let maturity = of_vision.maturity.unwrap();
    assert_eq!(maturity.amount.to_text(), "2000.0");
    assert_eq!(maturity.interest.to_text(), "202.50");
    assert_eq!(maturity.total.to_text(), "2202.50");

    let superbank = &response.banks[1];
    assert_eq!(superbank.name, "SUPER-BANK");
    assert_eq!(superbank.outcome.clone().unwrap().delta.unwrap().growth.to_text(), "4.21");

    let of_all = response.outcome.clone().unwrap();
    assert!(of_all.errors.is_empty());
    assert_eq!(of_all.delta.unwrap().growth.to_text(), "12.53");
    let maturity = of_all.maturity.unwrap();
    assert_eq!(maturity.amount.to_text(), "3000.0");
    assert_eq!(maturity.interest.to_text(), "305.00");
    assert_eq!(maturity.total.to_text(), "3305.00");
}

#[test]
fn calculating_twice_gives_the_same_figures_under_other_identifiers() {
    let first = calculate_portfolio(engine_request(), "first".to_string()).unwrap();
    let second = calculate_portfolio(engine_request(), "second".to_string()).unwrap();
    assert_eq!(figures_of(&first), figures_of(&second));
    assert_ne!(first.uuid, second.uuid);
    assert_ne!(first.banks[0].uuid, second.banks[0].uuid);
    assert_ne!(first.banks[0].deposits[0].uuid, second.banks[0].deposits[0].uuid);
    assert_ne!(first.banks[0].uuid, first.banks[1].uuid);
    assert_ne!(first.created_at, second.created_at);
}

#[test]
fn failed_deposit_stops_no_other_deposit_and_ends_the_sum_of_its_bank() {
    let mut request = engine_request();
    request.new_banks[0].new_deposits.push(engine_deposit("0000", AccountType::Savings, 0));
    let response = calculate_portfolio(request, "now".to_string()).unwrap();
    let vision = &response.banks[0];
    assert_eq!(vision.deposits.len(), 3);
    assert!(vision.deposits[0].outcome.clone().unwrap().errors.is_empty());
    assert!(vision.deposits[1].outcome.clone().unwrap().delta.is_some());
    let failed = vision.deposits[2].outcome.clone().unwrap();
    assert!(failed.delta.is_none());
    assert_eq!(failed.errors.len(), 1);
    let of_vision = vision.outcome.clone().unwrap();
    assert!(of_vision.delta.is_none());
    assert!(of_vision.maturity.is_none());
    assert_eq!(of_vision.errors.len(), 1);
    assert_eq!(of_vision.errors[0].message, "Missing maturity in deposit");
    assert!(response.banks[1].outcome.clone().unwrap().delta.is_some());
    let of_all = response.outcome.unwrap();
    assert!(of_all.delta.is_none());
    assert_eq!(of_all.errors[0].message, "Missing maturity in deposit");
}

#[test]
fn parts_of_the_engine() {
    let delta = NewDelta { period: Decimal::new(1, 0), period_unit: PeriodUnit::Month };
    let deposit = build_from_new_deposit(engine_deposit("1234", AccountType::Savings, 20), &delta)
        .expect("a deposit");
    assert_eq!(deposit.account, "1234");
    assert_eq!(deposit.apy, Decimal::new(50, 1));
    assert_eq!(deposit.years, Decimal::new(20, 1));
    assert!(deposit.outcome.is_some() && deposit.outcome_with_dates.is_some());

    let deposits = build_from_new_deposits(
        vec![
            engine_deposit("a", AccountType::Savings, 20),
            engine_deposit("b", AccountType::Checking, 10),
            engine_deposit("c", AccountType::Unspecified, 20),
        ],
        &delta,
    )
    .expect("deposits");
    let accounts: Vec<&str> = deposits.iter().map(|d| d.account.as_str()).collect();
    assert_eq!(accounts, vec!["a", "b", "c"]);
    assert!(build_from_new_deposits(vec![], &delta).unwrap().is_empty());

    let mut request = engine_request();
    let bank = build_from_new_bank(request.new_banks.remove(0), &delta).expect("a bank");
    assert_eq!(bank.name, "VISION-BANK");
    assert_eq!(bank.outcome.clone().unwrap().delta.unwrap().growth.to_text(), "8.32");

    let banks = build_from_new_banks(engine_request().new_banks, &delta).expect("banks");
    let names: Vec<&str> = banks.iter().map(|b| b.name.as_str()).collect();
    assert_eq!(names, vec!["VISION-BANK", "SUPER-BANK"]);

    let uuid = Uuid::new_v4();
    let response = build_portfolio_response(uuid, banks, &delta, "then".to_string());
    assert_eq!(response.uuid, uuid);
    assert_eq!(response.created_at, "then");
    assert_eq!(response.outcome.unwrap().delta.unwrap().growth.to_text(), "12.53");

    let response = build_from_portfolio_request(engine_request(), "now".to_string()).unwrap();
    assert_eq!(response.banks.len(), 2);
}

fn built_bank() -> Bank {
    let delta = NewDelta { period: Decimal::new(1, 0), period_unit: PeriodUnit::Month };
    let mut request = engine_request();
    build_from_new_bank(request.new_banks.remove(1), &delta).unwrap()
}

#[test]
fn events_that_are_off_are_not_judged() {
    assert!(judge_emission(None, "bank-level").is_ok());
    let bank = finish_bank_unit(built_bank(), None).expect("the bank");
    assert_eq!(bank.name, "SUPER-BANK");
    let response = calculate_portfolio(engine_request(), "now".to_string()).unwrap();
    let uuid = response.uuid;
    assert_eq!(finish_portfolio(response, None).unwrap().uuid, uuid);
}

#[test]
fn event_that_was_taken_lets_the_calculation_go_on() {
    let taken = || Some(EventEmission::Answered { failed_entry_count: 0 });
    assert!(judge_emission(taken(), "bank-level").is_ok());
    assert!(finish_bank_unit(built_bank(), taken()).is_ok());
    let response = calculate_portfolio(engine_request(), "now".to_string()).unwrap();
    assert!(finish_portfolio(response, taken()).is_ok());
}

#[test]
fn event_that_came_to_grief_ends_the_calculation() {
    match finish_bank_unit(built_bank(), Some(EventEmission::Answered { failed_entry_count: 1 })) {
        Err(CalculationHaltError::DriveDepositsEventBridgeError(
            DriveDepositsEventBridgeError::FailedEntryCountError(message),
        )) => assert_eq!(message, "1 for sending events to event bridge detail type bank-level"),
        other => panic!("expected refused entries, got {other:?}"),
    }
    let response = calculate_portfolio(engine_request(), "now".to_string()).unwrap();
    match finish_portfolio(response, Some(EventEmission::Answered { failed_entry_count: 3 })) {
        Err(CalculationHaltError::DriveDepositsEventBridgeError(
            DriveDepositsEventBridgeError::FailedEntryCountError(message),
        )) => assert_eq!(message, "3 for sending events to event bridge detail type portfolio-level"),
        other => panic!("expected refused entries, got {other:?}"),
    }
    match judge_emission(Some(EventEmission::NotSerialized("key must be a string".to_string())), "x") {
        Err(CalculationHaltError::EventSourceJsonSerializationError(reason)) => {
            assert_eq!(reason, "key must be a string")
        }
        other => panic!("expected a serialization error, got {other:?}"),
    }
    match judge_emission(
        Some(EventEmission::NotSent(DriveDepositsEventBridgeError::MissingEventBridge)),
        "x",
    ) {
        Err(CalculationHaltError::DriveDepositsEventBridgeError(
            DriveDepositsEventBridgeError::MissingEventBridge,
        )) => {}
        other => panic!("expected a missing event bridge, got {other:?}"),
    }
}

#[test]
fn units_of_work_are_joined_in_the_order_in_which_they_end() {
    let mut banks = vec![];
    assert!(join_bank_unit(&mut banks, Ok(Ok(built_bank()))).is_ok());
    assert_eq!(banks.len(), 1);
    match join_bank_unit(&mut banks, Err("task 7 panicked".to_string())) {
        Err(CalculationHaltError::Join(reason)) => assert_eq!(reason, "task 7 panicked"),
        other => panic!("expected a join error, got {other:?}"),
    }
    assert_eq!(banks.len(), 1);
    match join_bank_unit(&mut banks, Ok(Err(CalculationHaltError::Internal))) {
        Err(CalculationHaltError::Internal) => {}
        other => panic!("expected the unit's error, got {other:?}"),
    }
    assert_eq!(banks.len(), 1);
    let mut second = built_bank();
    second.name = "SECOND".to_string();
    assert!(join_bank_unit(&mut banks, Ok(Ok(second))).is_ok());
    assert_eq!(banks[1].name, "SECOND");
}

#[test]
fn answer_of_the_event_bus() {
    assert!(puts_event_failed_entry_count(0, "bank-level").is_ok());
    assert!(puts_event_failed_entry_count(-1, "bank-level").is_ok());
    match puts_event_failed_entry_count(2, "portfolio-level") {
        Err(DriveDepositsEventBridgeError::FailedEntryCountError(message)) => {
            assert_eq!(message, "2 for sending events to event bridge detail type portfolio-level")
        }
        other => panic!("expected refused entries, got {other:?}"),
    }
}

fn variable(name: &str, value: &str) -> EnvironmentVariable {
    EnvironmentVariable { name: name.to_string(), value: value.to_string() }
}

#[test]
fn flags_of_the_environment() {
    let environment = vec![
        variable("PATH", "/usr/bin"),
        variable("SEND_CAL_EVENTS", "TRUE"),
        variable("USE_LOCALSTACK", "no"),
        variable("SEND_CAL_EVENTS", "false"),
    ];
    assert!(should_send_events(&environment));
    assert!(!use_localstack(&environment));
    assert!(!should_send_events(&[]));
    assert!(!use_localstack(&[]));
    assert!(use_localstack(&[variable("USE_LOCALSTACK", "true")]));
    assert!(use_localstack(&[variable("USE_LOCALSTACK", "True")]));
    assert!(!use_localstack(&[variable("USE_LOCALSTACK", "true ")]));
    assert!(!use_localstack(&[variable("USE_LOCALSTACK", "1")]));
    assert!(!use_localstack(&[variable("use_localstack", "true")]));
    assert!(env_var_bool(&environment, "SEND_CAL_EVENTS"));
    assert!(!env_var_bool(&environment, "PATH"));
    assert!(!env_var_bool(&environment, "MISSING"));
}
