//! From stored items to answers.
//!
//! A stored item is a list of named attributes. Every attribute that an item
//! needs must be there and hold a text; the first that is not ends the
//! reading with an error that names it.

use crate::db_item_types::{BankLevelItem, DepositLevelItem, PortfolioLevelItem};
use crate::query_response_types::{BankResponse, DepositResponse, PortfolioResponse};
use crate::rest_types::{Outcome, OutcomeWithDates};
use vstd::prelude::*;
use vstd::string::*;

verus! {

/// The level at which a stored item was read.
#[derive(Debug, Clone, Copy, PartialEq, Eq, Structural)]
pub enum ReaderErrorLevel {
    Bank,
    Deposit,
    Portfolio,
}

/// What is wrong with an attribute of a stored item.
#[derive(Debug, Clone)]
pub enum ItemReaderError {
    MissingAttribute(String),
    ConversionToStringError(String),
}

/// What is wrong with a stored item, and at which level it was read.
#[derive(Debug, Clone)]
pub enum LevelSpecificItemReaderError {
    Error { source: ItemReaderError, level: ReaderErrorLevel },
}

/// Why the outcome of a stored item could not be read, and at which level.
#[derive(Debug)]
pub enum LevelSpecificResponseReaderError {
    JsonError { source: String, level: ReaderErrorLevel },
}

/// What an attribute of a stored item holds: a text, or something else.
#[derive(Debug, Clone)]
pub enum AttributeValue {
    S(String),
    Other,
}

/// An attribute of a stored item.
#[derive(Debug, Clone)]
pub struct Attribute {
    pub name: String,
    pub value: AttributeValue,
}

/// The content of a reader's error.
pub enum ReaderErrorView {
    MissingAttribute(Seq<char>, ReaderErrorLevel),
    ConversionToStringError(Seq<char>, ReaderErrorLevel),
}

impl View for LevelSpecificItemReaderError {
    type V = ReaderErrorView;

    open spec fn view(&self) -> ReaderErrorView {
        match self {
            LevelSpecificItemReaderError::Error {
                source: ItemReaderError::MissingAttribute(name),
                level,
            } => ReaderErrorView::MissingAttribute(name@, *level),
            LevelSpecificItemReaderError::Error {
                source: ItemReaderError::ConversionToStringError(name),
                level,
            } => ReaderErrorView::ConversionToStringError(name@, *level),
        }
    }
}

/// The value of the first attribute of a name, if there is one.
pub open spec fn attribute_named(item: Seq<Attribute>, name: Seq<char>) -> Option<AttributeValue>
    decreases item.len(),
{
    if item.len() == 0 {
        None
    } else if item[0].name@ == name {
        Some(item[0].value)
    } else {
        attribute_named(item.drop_first(), name)
    }
}

/// The text of an attribute of a stored item, or the error for an attribute
/// that is missing or holds no text.
pub open spec fn field_value(item: Seq<Attribute>, name: Seq<char>, level: ReaderErrorLevel)
    -> Result<Seq<char>, ReaderErrorView> {
    match attribute_named(item, name) {
        None => Err(ReaderErrorView::MissingAttribute(name, level)),
        Some(AttributeValue::S(text)) => Ok(text@),
        Some(AttributeValue::Other) => Err(ReaderErrorView::ConversionToStringError(name, level)),
    }
}

/// The error of the first of the named attributes that cannot be read.
pub open spec fn first_unreadable(
    item: Seq<Attribute>,
    names: Seq<Seq<char>>,
    level: ReaderErrorLevel,
) -> Option<ReaderErrorView>
    decreases names.len(),
{
    if names.len() == 0 {
        None
    } else {
        match field_value(item, names[0], level) {
            Err(e) => Some(e),
            Ok(_) => first_unreadable(item, names.drop_first(), level),
        }
    }
}

/// Whether a result is the text of an attribute, or the error for it.
pub open spec fn is_field_value(
    r: Result<String, LevelSpecificItemReaderError>,
    item: Seq<Attribute>,
    name: Seq<char>,
    level: ReaderErrorLevel,
) -> bool {
    match r {
        Ok(text) => field_value(item, name, level) == Ok::<Seq<char>, ReaderErrorView>(text@),
        Err(e) => field_value(item, name, level) == Err::<Seq<char>, ReaderErrorView>(e@),
    }
}

/// Reads the text of an attribute of a stored item.
pub fn get_field_value_with_level(
    dynamodb_item: &[Attribute],
    field_name: &str,
    level: ReaderErrorLevel,
) -> (r: Result<String, LevelSpecificItemReaderError>)
    ensures
        is_field_value(r, dynamodb_item@, field_name@, level),
{
    let wanted = String::from_str(field_name);
    let mut i: usize = 0;
    assert(dynamodb_item@.skip(0) =~= dynamodb_item@);
    while i < dynamodb_item.len()
        invariant
            0 <= i <= dynamodb_item.len(),
            wanted@ == field_name@,
            attribute_named(dynamodb_item@, field_name@) == attribute_named(
                dynamodb_item@.skip(i as int),
                field_name@,
            ),
        decreases dynamodb_item.len() - i,
    {
        let ghost rest = dynamodb_item@.skip(i as int);
        assert(rest[0] == dynamodb_item@[i as int]);
        if dynamodb_item[i].name == wanted {
            return match &dynamodb_item[i].value {
                AttributeValue::S(text) => Ok(text.clone()),
                AttributeValue::Other => Err(
                    LevelSpecificItemReaderError::Error {
                        source: ItemReaderError::ConversionToStringError(wanted),
                        level,
                    },
                ),
            };
        }
        assert(rest.drop_first() =~= dynamodb_item@.skip(i + 1));
        i += 1;
    }
    assert(dynamodb_item@.skip(i as int).len() == 0);
    Err(LevelSpecificItemReaderError::Error { source: ItemReaderError::MissingAttribute(wanted), level })
}

/// Reads the text of an attribute of a stored portfolio.
pub fn get_field_with_portfolio_level(dynamodb_item: &[Attribute], field_name: &str) -> (r: Result<
    String,
    LevelSpecificItemReaderError,
>)
    ensures
        is_field_value(r, dynamodb_item@, field_name@, ReaderErrorLevel::Portfolio),
{
    get_field_value_with_level(dynamodb_item, field_name, ReaderErrorLevel::Portfolio)
}

/// Reads the text of an attribute of a stored bank.
pub fn get_field_with_bank_level(dynamodb_item: &[Attribute], field_name: &str) -> (r: Result<
    String,
    LevelSpecificItemReaderError,
>)
    ensures
        is_field_value(r, dynamodb_item@, field_name@, ReaderErrorLevel::Bank),
{
    get_field_value_with_level(dynamodb_item, field_name, ReaderErrorLevel::Bank)
}

/// Reads the text of an attribute of a stored deposit.
pub fn get_field_with_deposit_level(dynamodb_item: &[Attribute], field_name: &str) -> (r: Result<
    String,
    LevelSpecificItemReaderError,
>)
    ensures
        is_field_value(r, dynamodb_item@, field_name@, ReaderErrorLevel::Deposit),
{
    get_field_value_with_level(dynamodb_item, field_name, ReaderErrorLevel::Deposit)
}

/// The names of the attributes of a stored portfolio, in the order in which
/// they are read.
pub open spec fn portfolio_attributes() -> Seq<Seq<char>> {
    seq!["PK"@, "SK"@, "portfolio_uuid"@, "outcome"@, "created_at"@]
}

/// The names of the attributes of a stored bank, in the order in which they
/// are read.
pub open spec fn bank_attributes() -> Seq<Seq<char>> {
    seq![
        "PK"@,
        "SK"@,
        "bank_uuid"@,
        "bank_name"@,
        "portfolio_uuid"@,
        "bank_tz"@,
        "outcome"@,
        "created_at"@,
    ]
}

/// The names of the attributes of a stored deposit, in the order in which
/// they are read.
pub open spec fn deposit_attributes() -> Seq<Seq<char>> {
    seq![
        "PK"@,
        "SK"@,
        "deposit_delta_growth"@,
        "deposit_maturity_date_in_bank_tz"@,
        "bank_uuid"@,
        "bank_name"@,
        "portfolio_uuid"@,
        "deposit_uuid"@,
        "account"@,
        "account_type"@,
        "apy"@,
        "years"@,
        "outcome"@,
        "outcome_with_dates"@,
        "created_at"@,
    ]
}

/// Whether the field of an item holds the text of the attribute of a name.
pub open spec fn holds(field: String, item: Seq<Attribute>, name: &str, level: ReaderErrorLevel)
    -> bool {
    field_value(item, name@, level) == Ok::<Seq<char>, ReaderErrorView>(field@)
}

/// Whether a portfolio item holds the attributes of a stored item.
pub open spec fn is_stored_portfolio(item: PortfolioLevelItem, stored: Seq<Attribute>) -> bool {
    let level = ReaderErrorLevel::Portfolio;
    &&& holds(item.pk_portfolios, stored, "PK", level)
    &&& holds(item.sk_format_portfolio_delta_growth, stored, "SK", level)
    &&& holds(item.portfolio_uuid, stored, "portfolio_uuid", level)
    &&& holds(item.outcome_as_json, stored, "outcome", level)
    &&& holds(item.created_at, stored, "created_at", level)
}

/// Whether a bank item holds the attributes of a stored item.
pub open spec fn is_stored_bank(item: BankLevelItem, stored: Seq<Attribute>) -> bool {
    let level = ReaderErrorLevel::Bank;
    &&& holds(item.pk_format_portfolio_uuid, stored, "PK", level)
    &&& holds(item.sk_format_bank_delta_growth, stored, "SK", level)
    &&& holds(item.bank_uuid, stored, "bank_uuid", level)
    &&& holds(item.bank_name, stored, "bank_name", level)
    &&& holds(item.portfolio_uuid, stored, "portfolio_uuid", level)
    &&& holds(item.bank_tz, stored, "bank_tz", level)
    &&& holds(item.outcome_as_json, stored, "outcome", level)
    &&& holds(item.created_at, stored, "created_at", level)
}

/// Whether a deposit item holds the attributes of a stored item.
pub open spec fn is_stored_deposit(item: DepositLevelItem, stored: Seq<Attribute>) -> bool {
    let level = ReaderErrorLevel::Deposit;
    &&& holds(item.pk_format_portfolio_uuid, stored, "PK", level)
    &&& holds(item.sk_format_deposit_sort_criteria, stored, "SK", level)
    &&& holds(item.deposit_delta_growth, stored, "deposit_delta_growth", level)
    &&& holds(
        item.deposit_maturity_date_in_bank_tz,
        stored,
        "deposit_maturity_date_in_bank_tz",
        level,
    )
    &&& holds(item.bank_uuid, stored, "bank_uuid", level)
    &&& holds(item.bank_name, stored, "bank_name", level)
    &&& holds(item.portfolio_uuid, stored, "portfolio_uuid", level)
    &&& holds(item.deposit_uuid, stored, "deposit_uuid", level)
    &&& holds(item.account, stored, "account", level)
    &&& holds(item.account_type, stored, "account_type", level)
    &&& holds(item.apy, stored, "apy", level)
    &&& holds(item.years, stored, "years", level)
    &&& holds(item.outcome_as_json, stored, "outcome", level)
    &&& holds(item.outcome_with_dates_as_json, stored, "outcome_with_dates", level)
    &&& holds(item.created_at, stored, "created_at", level)
}

/// The portfolio item that a stored item holds.
pub fn portfolio_level_item_from_attributes(dynamodb_item: &[Attribute]) -> (r: Result<
    PortfolioLevelItem,
    LevelSpecificItemReaderError,
>)
    ensures
        match r {
            Ok(item) => is_stored_portfolio(item, dynamodb_item@),
            Err(e) => first_unreadable(
                dynamodb_item@,
                portfolio_attributes(),
                ReaderErrorLevel::Portfolio,
            ) == Some(e@),
        },
{
    proof {
        reveal_with_fuel(first_unreadable, 6);
    }
    let pk_portfolios = get_field_with_portfolio_level(dynamodb_item, "PK")?;
    let sk_response_delta_growth = get_field_with_portfolio_level(dynamodb_item, "SK")?;
    let portfolio_uuid = get_field_with_portfolio_level(dynamodb_item, "portfolio_uuid")?;
    let outcome_as_json = get_field_with_portfolio_level(dynamodb_item, "outcome")?;
    let created_at = get_field_with_portfolio_level(dynamodb_item, "created_at")?;
    Ok(
        PortfolioLevelItem {
            pk_portfolios,
            sk_format_portfolio_delta_growth: sk_response_delta_growth,
            portfolio_uuid,
            outcome_as_json,
            created_at,
        },
    )
}

/// The bank item that a stored item holds.
pub fn bank_level_item_from_attributes(dynamodb_item: &[Attribute]) -> (r: Result<
    BankLevelItem,
    LevelSpecificItemReaderError,
>)
    ensures
        match r {
            Ok(item) => is_stored_bank(item, dynamodb_item@),
            Err(e) => first_unreadable(dynamodb_item@, bank_attributes(), ReaderErrorLevel::Bank)
                == Some(e@),
        },
{
    proof {
        reveal_with_fuel(first_unreadable, 9);
    }
    let pk_portfolio_uuid = get_field_with_bank_level(dynamodb_item, "PK")?;
    let sk_bank_delta_growth = get_field_with_bank_level(dynamodb_item, "SK")?;
    let bank_uuid = get_field_with_bank_level(dynamodb_item, "bank_uuid")?;
    let bank_name = get_field_with_bank_level(dynamodb_item, "bank_name")?;
    let portfolio_uuid = get_field_with_bank_level(dynamodb_item, "portfolio_uuid")?;
    let bank_tz = get_field_with_bank_level(dynamodb_item, "bank_tz")?;
    let outcome_as_json = get_field_with_bank_level(dynamodb_item, "outcome")?;
    let created_at = get_field_with_bank_level(dynamodb_item, "created_at")?;
    Ok(
        BankLevelItem {
            pk_format_portfolio_uuid: pk_portfolio_uuid,
            sk_format_bank_delta_growth: sk_bank_delta_growth,
            bank_uuid,
            bank_name,
            portfolio_uuid,
            bank_tz,
            outcome_as_json,
            created_at,
        },
    )
}

/// The deposit item that a stored item holds.
pub fn deposit_level_item_from_attributes(dynamodb_item: &[Attribute]) -> (r: Result<
    DepositLevelItem,
    LevelSpecificItemReaderError,
>)
    ensures
        match r {
            Ok(item) => is_stored_deposit(item, dynamodb_item@),
            Err(e) => first_unreadable(
                dynamodb_item@,
                deposit_attributes(),
                ReaderErrorLevel::Deposit,
            ) == Some(e@),
        },
{
    proof {
        reveal_with_fuel(first_unreadable, 16);
    }
    let pk_portfolio_uuid = get_field_with_deposit_level(dynamodb_item, "PK")?;
    let sk_bank_deposit_delta_growth = get_field_with_deposit_level(dynamodb_item, "SK")?;
    let deposit_delta_growth = get_field_with_deposit_level(
        dynamodb_item,
        "deposit_delta_growth",
    )?;
    let deposit_maturity_date_in_bank_tz = get_field_with_deposit_level(
        dynamodb_item,
        "deposit_maturity_date_in_bank_tz",
    )?;
    let bank_uuid = get_field_with_deposit_level(dynamodb_item, "bank_uuid")?;
    let bank_name = get_field_with_deposit_level(dynamodb_item, "bank_name")?;
    let portfolio_uuid = get_field_with_deposit_level(dynamodb_item, "portfolio_uuid")?;
    let deposit_uuid = get_field_with_deposit_level(dynamodb_item, "deposit_uuid")?;
    let account = get_field_with_deposit_level(dynamodb_item, "account")?;
    let account_type = get_field_with_deposit_level(dynamodb_item, "account_type")?;
    let apy = get_field_with_deposit_level(dynamodb_item, "apy")?;
    let years = get_field_with_deposit_level(dynamodb_item, "years")?;
    let outcome_as_json = get_field_with_deposit_level(dynamodb_item, "outcome")?;
    let outcome_with_dates_as_json = get_field_with_deposit_level(
        dynamodb_item,
        "outcome_with_dates",
    )?;
    let created_at = get_field_with_deposit_level(dynamodb_item, "created_at")?;
    Ok(
        DepositLevelItem {
            pk_format_portfolio_uuid: pk_portfolio_uuid,
            sk_format_deposit_sort_criteria: sk_bank_deposit_delta_growth,
            deposit_delta_growth,
            deposit_maturity_date_in_bank_tz,
            bank_uuid,
            bank_name,
            portfolio_uuid,
            deposit_uuid,
            account,
            account_type,
            apy,
            years,
            outcome_as_json,
            outcome_with_dates_as_json,
            created_at,
        },
    )
}

/// What was read from the JSON text of an outcome: the outcome, or why the
/// text could not be read. Reading the text is the caller's business.
pub fn deserialize_with_error_level<S>(parsed: Result<S, String>, level: ReaderErrorLevel) -> (r:
    Result<S, LevelSpecificResponseReaderError>)
    ensures
        match parsed {
            Ok(value) => r == Ok::<S, LevelSpecificResponseReaderError>(value),
            Err(source) => r == Err::<S, LevelSpecificResponseReaderError>(
                LevelSpecificResponseReaderError::JsonError { source, level },
            ),
        },
{
    match parsed {
        Ok(value) => Ok(value),
        Err(source) => Err(LevelSpecificResponseReaderError::JsonError { source, level }),
    }
}

/// What was read from the JSON text of a stored portfolio.
pub fn deserialize_with_portfolio_level<T>(parsed: Result<T, String>) -> (r: Result<
    T,
    LevelSpecificResponseReaderError,
>)
    ensures
        match parsed {
            Ok(value) => r == Ok::<T, LevelSpecificResponseReaderError>(value),
            Err(source) => r == Err::<T, LevelSpecificResponseReaderError>(
                LevelSpecificResponseReaderError::JsonError {
                    source,
                    level: ReaderErrorLevel::Portfolio,
                },
            ),
        },
{
    deserialize_with_error_level(parsed, ReaderErrorLevel::Portfolio)
}

/// What was read from the JSON text of a stored bank.
pub fn deserialize_with_bank_level<T>(parsed: Result<T, String>) -> (r: Result<
    T,
    LevelSpecificResponseReaderError,
>)
    ensures
        match parsed {
            Ok(value) => r == Ok::<T, LevelSpecificResponseReaderError>(value),
            Err(source) => r == Err::<T, LevelSpecificResponseReaderError>(
                LevelSpecificResponseReaderError::JsonError {
                    source,
                    level: ReaderErrorLevel::Bank,
                },
            ),
        },
{
    deserialize_with_error_level(parsed, ReaderErrorLevel::Bank)
}

/// What was read from the JSON text of a stored deposit.
pub fn deserialize_with_deposit_level<T>(parsed: Result<T, String>) -> (r: Result<
    T,
    LevelSpecificResponseReaderError,
>)
    ensures
        match parsed {
            Ok(value) => r == Ok::<T, LevelSpecificResponseReaderError>(value),
            Err(source) => r == Err::<T, LevelSpecificResponseReaderError>(
                LevelSpecificResponseReaderError::JsonError {
                    source,
                    level: ReaderErrorLevel::Deposit,
                },
            ),
        },
{
    deserialize_with_error_level(parsed, ReaderErrorLevel::Deposit)
}

/// The answer for a stored portfolio, with the outcome that was read from
/// its JSON text.
pub fn portfolio_response(item: PortfolioLevelItem, outcome: Result<Outcome, String>) -> (r: Result<
    PortfolioResponse,
    LevelSpecificResponseReaderError,
>)
    ensures
        match outcome {
            Ok(o) => r matches Ok(response) && response.portfolio_uuid == item.portfolio_uuid
                && response.outcome == o && response.created_at == item.created_at,
            Err(source) => r == Err::<PortfolioResponse, LevelSpecificResponseReaderError>(
                LevelSpecificResponseReaderError::JsonError {
                    source,
                    level: ReaderErrorLevel::Portfolio,
                },
            ),
        },
{
    let outcome = deserialize_with_portfolio_level(outcome)?;
    Ok(
        PortfolioResponse {
            portfolio_uuid: item.portfolio_uuid,
            outcome,
            created_at: item.created_at,
        },
    )
}

/// The answer for a stored bank, with the outcome that was read from its
/// JSON text.
pub fn bank_response(item: BankLevelItem, outcome: Result<Outcome, String>) -> (r: Result<
    BankResponse,
    LevelSpecificResponseReaderError,
>)
    ensures
        match outcome {
            Ok(o) => r matches Ok(response) && response.bank_uuid == item.bank_uuid
                && response.bank_name == item.bank_name && response.portfolio_uuid
                == item.portfolio_uuid && response.bank_tz == item.bank_tz && response.outcome == o
                && response.created_at == item.created_at,
            Err(source) => r == Err::<BankResponse, LevelSpecificResponseReaderError>(
                LevelSpecificResponseReaderError::JsonError {
                    source,
                    level: ReaderErrorLevel::Bank,
                },
            ),
        },
{
    let outcome = deserialize_with_bank_level(outcome)?;
    Ok(
        BankResponse {
            bank_uuid: item.bank_uuid,
            bank_name: item.bank_name,
            portfolio_uuid: item.portfolio_uuid,
            bank_tz: item.bank_tz,
            outcome,
            created_at: item.created_at,
        },
    )
}

/// The answer for a stored deposit, with the outcome and the dates that were
/// read from their JSON texts. Where neither could be read, the error is that
/// of the outcome.
pub fn deposit_response(
    item: DepositLevelItem,
    outcome: Result<Outcome, String>,
    outcome_with_dates: Result<OutcomeWithDates, String>,
) -> (r: Result<DepositResponse, LevelSpecificResponseReaderError>)
    ensures
        match (outcome, outcome_with_dates) {
            (Ok(o), Ok(d)) => r matches Ok(response) && response.outcome == o
                && response.outcome_with_dates == d && response.deposit_uuid == item.deposit_uuid
                && response.bank_uuid == item.bank_uuid && response.bank_name == item.bank_name
                && response.portfolio_uuid == item.portfolio_uuid && response.account
                == item.account && response.account_type == item.account_type && response.apy
                == item.apy && response.years == item.years && response.deposit_delta_growth
                == item.deposit_delta_growth && response.deposit_maturity_date_in_bank_tz
                == item.deposit_maturity_date_in_bank_tz && response.created_at == item.created_at,
            (Err(source), _) => r == Err::<DepositResponse, LevelSpecificResponseReaderError>(
                LevelSpecificResponseReaderError::JsonError {
                    source,
                    level: ReaderErrorLevel::Deposit,
                },
            ),
            (Ok(_), Err(source)) => r == Err::<DepositResponse, LevelSpecificResponseReaderError>(
                LevelSpecificResponseReaderError::JsonError {
                    source,
                    level: ReaderErrorLevel::Deposit,
                },
            ),
        },
{
    let outcome = deserialize_with_deposit_level(outcome)?;
    let outcome_with_dates = deserialize_with_deposit_level(outcome_with_dates)?;
    Ok(
        DepositResponse {
            bank_uuid: item.bank_uuid,
            bank_name: item.bank_name,
            portfolio_uuid: item.portfolio_uuid,
            deposit_uuid: item.deposit_uuid,
            account: item.account,
            account_type: item.account_type,
            apy: item.apy,
            years: item.years,
            deposit_delta_growth: item.deposit_delta_growth,
            deposit_maturity_date_in_bank_tz: item.deposit_maturity_date_in_bank_tz,
            outcome,
            outcome_with_dates,
            created_at: item.created_at,
        },
    )
}

} // verus!
