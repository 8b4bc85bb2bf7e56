//! The request and the response as they travel: every number, date and name
//! as text. A request is validated before anything is calculated from it.

use crate::date::{date_parsed, date_refusal, Date};
use crate::decimal::{decimal_parsed, Decimal};
use crate::timezone::{zone_name, Timezone};
use vstd::prelude::*;
use vstd::string::*;

verus! {

// Request

/// A request to calculate a portfolio.
#[derive(Debug)]
pub struct CalculatePortfolioRequest {
    pub new_banks: Vec<NewBank>,
    pub new_delta: NewDelta,
}

/// The reporting period, as text.
#[derive(Debug)]
pub struct NewDelta {
    pub period: String,
    pub period_unit: String,
}

/// The unit of a reporting period, by its name in a request.
#[derive(Debug, Clone, Copy, PartialEq, Eq, Structural)]
pub enum DeltaPeriodUnit {
    Unspecified,
    Day,
    Week,
    Month,
    Year,
}

/// A bank of a request, as text.
#[derive(Debug)]
pub struct NewBank {
    pub name: String,
    pub bank_tz: String,
    pub new_deposits: Vec<NewDeposit>,
}

/// A deposit of a request, as text.
#[derive(Debug)]
pub struct NewDeposit {
    pub account: String,
    pub account_type: String,
    pub apy: String,
    pub years: String,
    pub amount: String,
    pub start_date_in_bank_tz: String,
}

/// The type of an account, by its name in a request.
#[derive(Debug, Clone, Copy, PartialEq, Eq, Structural)]
pub enum AccountType {
    Unspecified,
    Checking,
    Savings,
    CertificateOfDeposit,
    BrokerageCertificateOfDeposit,
}

impl Default for DeltaPeriodUnit {
    fn default() -> (u: DeltaPeriodUnit)
        ensures
            u == DeltaPeriodUnit::Unspecified,
    {
        DeltaPeriodUnit::Unspecified
    }
}

impl Default for AccountType {
    fn default() -> (t: AccountType)
        ensures
            t == AccountType::Unspecified,
    {
        AccountType::Unspecified
    }
}

pub struct NewDeltaText {
    pub period: Seq<char>,
    pub period_unit: Seq<char>,
}

pub struct NewDepositText {
    pub account: Seq<char>,
    pub account_type: Seq<char>,
    pub apy: Seq<char>,
    pub years: Seq<char>,
    pub amount: Seq<char>,
    pub start_date: Seq<char>,
}

pub struct NewBankText {
    pub name: Seq<char>,
    pub bank_tz: Seq<char>,
    pub new_deposits: Seq<NewDepositText>,
}

pub struct CalculatePortfolioRequestText {
    pub new_banks: Seq<NewBankText>,
    pub new_delta: NewDeltaText,
}

impl View for NewDelta {
    type V = NewDeltaText;

    open spec fn view(&self) -> NewDeltaText {
        NewDeltaText { period: self.period@, period_unit: self.period_unit@ }
    }
}

impl View for NewDeposit {
    type V = NewDepositText;

    open spec fn view(&self) -> NewDepositText {
        NewDepositText {
            account: self.account@,
            account_type: self.account_type@,
            apy: self.apy@,
            years: self.years@,
            amount: self.amount@,
            start_date: self.start_date_in_bank_tz@,
        }
    }
}

impl View for NewBank {
    type V = NewBankText;

    open spec fn view(&self) -> NewBankText {
        NewBankText {
            name: self.name@,
            bank_tz: self.bank_tz@,
            new_deposits: self.new_deposits@.map_values(|d: NewDeposit| d@),
        }
    }
}

impl View for CalculatePortfolioRequest {
    type V = CalculatePortfolioRequestText;

    open spec fn view(&self) -> CalculatePortfolioRequestText {
        CalculatePortfolioRequestText {
            new_banks: self.new_banks@.map_values(|b: NewBank| b@),
            new_delta: self.new_delta@,
        }
    }
}

// Response

#[derive(Debug, Clone)]
pub struct CalculatePortfolioResponse {
    pub uuid: String,
    pub banks: Vec<Bank>,
    pub outcome: Option<Outcome>,
    pub created_at: String,
}

#[derive(Debug, Clone)]
pub struct Delta {
    pub period: String,
    pub period_unit: String,
    pub growth: String,
}

#[derive(Debug, Clone)]
pub struct Maturity {
    pub amount: String,
    pub interest: String,
    pub total: String,
}

#[derive(Debug, Clone)]
pub struct Bank {
    pub uuid: String,
    pub name: String,
    pub bank_tz: String,
    pub deposits: Vec<Deposit>,
    pub outcome: Option<Outcome>,
}

#[derive(Debug, Clone)]
pub struct Deposit {
    pub uuid: String,
    pub account: String,
    pub account_type: String,
    pub apy: String,
    pub years: String,
    pub outcome: Option<Outcome>,
    pub outcome_with_dates: Option<OutcomeWithDates>,
}

#[derive(Debug, Clone)]
pub struct Outcome {
    pub delta: Option<Delta>,
    pub maturity: Option<Maturity>,
    pub errors: Vec<ProcessingError>,
}

#[derive(Debug, Clone)]
pub struct OutcomeWithDates {
    pub start_date_in_bank_tz: String,
    pub maturity_date_in_bank_tz: Option<String>,
    pub errors: Vec<ProcessingError>,
}

#[derive(Debug, Clone)]
pub struct ProcessingError {
    pub uuid: String,
    pub message: String,
}

// Validation

/// A rule that a request breaks: where, which, and in words.
#[derive(Debug, Clone)]
pub struct ValidationError {
    pub field: String,
    pub code: String,
    pub message: String,
}

/// The rules that a request breaks; at least one.
#[derive(Debug)]
pub struct ValidationErrors {
    pub errors: Vec<ValidationError>,
}

/// Whether a text names a unit of a reporting period.
pub open spec fn is_period_unit_name(name: Seq<char>) -> bool {
    name == "Unspecified"@ || name == "Day"@ || name == "Week"@ || name == "Month"@ || name
        == "Year"@
}

/// Whether a text names an account type.
pub open spec fn is_account_type_name(name: Seq<char>) -> bool {
    name == "Unspecified"@ || name == "Checking"@ || name == "Savings"@ || name
        == "CertificateOfDeposit"@ || name == "BrokerageCertificateOfDeposit"@
}

/// Whether a text is a decimal number that is not negative.
pub open spec fn is_decimal(value: Seq<char>) -> bool {
    decimal_parsed(value) matches Some(d) && d.mantissa >= 0
}

/// Whether a text is a decimal number above zero.
pub open spec fn is_positive_decimal(value: Seq<char>) -> bool {
    decimal_parsed(value) matches Some(d) && d.mantissa > 0
}

/// Whether a deposit of a request keeps the rules: an account of at least
/// four characters, a named account type, a yield and a principal that are
/// not negative, a duration above zero, and a start date `YYYY-MM-DD`.
pub open spec fn valid_deposit(deposit: NewDepositText) -> bool {
    &&& deposit.account.len() >= 4
    &&& is_account_type_name(deposit.account_type)
    &&& is_decimal(deposit.apy)
    &&& is_positive_decimal(deposit.years)
    &&& is_decimal(deposit.amount)
    &&& date_parsed(deposit.start_date) is Some
}

/// Whether a bank of a request keeps the rules: a name, a time zone that
/// exists, and at least one deposit, each of which keeps the rules.
pub open spec fn valid_bank(bank: NewBankText) -> bool {
    &&& bank.name.len() >= 1
    &&& zone_name(bank.bank_tz) is Some
    &&& bank.new_deposits.len() >= 1
    &&& forall|i: int| 0 <= i < bank.new_deposits.len() ==> valid_deposit(#[trigger] bank.new_deposits[i])
}

/// Whether the reporting period of a request keeps the rules: a period above
/// zero in a named unit.
pub open spec fn valid_delta(delta: NewDeltaText) -> bool {
    &&& delta.period.len() >= 1
    &&& is_positive_decimal(delta.period)
    &&& is_period_unit_name(delta.period_unit)
}

/// Whether a request keeps the rules: at least one bank, each of which keeps
/// the rules, and a reporting period that does.
pub open spec fn valid_request(request: CalculatePortfolioRequestText) -> bool {
    &&& request.new_banks.len() >= 1
    &&& forall|i: int| 0 <= i < request.new_banks.len() ==> valid_bank(#[trigger] request.new_banks[i])
    &&& valid_delta(request.new_delta)
}

impl DeltaPeriodUnit {
    /// The name of the unit.
    pub open spec fn name(self) -> Seq<char> {
        match self {
            DeltaPeriodUnit::Unspecified => "Unspecified"@,
            DeltaPeriodUnit::Day => "Day"@,
            DeltaPeriodUnit::Week => "Week"@,
            DeltaPeriodUnit::Month => "Month"@,
            DeltaPeriodUnit::Year => "Year"@,
        }
    }

    /// The unit that a text names, if it names one.
    pub fn from_name(name: &str) -> (unit: Option<DeltaPeriodUnit>)
        ensures
            match unit {
                Some(u) => name@ == u.name(),
                None => !is_period_unit_name(name@),
            },
    {
        let name = String::from_str(name);
        if name == String::from_str("Unspecified") {
            Some(DeltaPeriodUnit::Unspecified)
        } else if name == String::from_str("Day") {
            Some(DeltaPeriodUnit::Day)
        } else if name == String::from_str("Week") {
            Some(DeltaPeriodUnit::Week)
        } else if name == String::from_str("Month") {
            Some(DeltaPeriodUnit::Month)
        } else if name == String::from_str("Year") {
            Some(DeltaPeriodUnit::Year)
        } else {
            None
        }
    }
}

impl AccountType {
    /// The name of the account type.
    pub open spec fn name(self) -> Seq<char> {
        match self {
            AccountType::Unspecified => "Unspecified"@,
            AccountType::Checking => "Checking"@,
            AccountType::Savings => "Savings"@,
            AccountType::CertificateOfDeposit => "CertificateOfDeposit"@,
            AccountType::BrokerageCertificateOfDeposit => "BrokerageCertificateOfDeposit"@,
        }
    }

    /// The account type that a text names, if it names one.
    pub fn from_name(name: &str) -> (account_type: Option<AccountType>)
        ensures
            match account_type {
                Some(t) => name@ == t.name(),
                None => !is_account_type_name(name@),
            },
    {
        let name = String::from_str(name);
        if name == String::from_str("Unspecified") {
            Some(AccountType::Unspecified)
        } else if name == String::from_str("Checking") {
            Some(AccountType::Checking)
        } else if name == String::from_str("Savings") {
            Some(AccountType::Savings)
        } else if name == String::from_str("CertificateOfDeposit") {
            Some(AccountType::CertificateOfDeposit)
        } else if name == String::from_str("BrokerageCertificateOfDeposit") {
            Some(AccountType::BrokerageCertificateOfDeposit)
        } else {
            None
        }
    }
}

/// A broken rule.
fn broken(field: &str, code: &str, message: String) -> (e: ValidationError)
    ensures
        e.field@ == field@,
        e.code@ == code@,
        e.message == message,
{
    ValidationError { field: String::from_str(field), code: String::from_str(code), message }
}

/// A message that names the value that was refused.
fn incorrect(what: &str, value: &str, rule: &str) -> (message: String)
    ensures
        message@ == what@ + value@ + rule@,
{
    String::from_str(what).concat(value).concat(rule)
}

fn validate_period_unit(period_unit: &str) -> (r: Option<ValidationError>)
    ensures
        r is None <==> is_period_unit_name(period_unit@),
{
    match DeltaPeriodUnit::from_name(period_unit) {
        Some(_) => None,
        None => Some(
            broken(
                "period_unit",
                "invalid_period_unit",
                incorrect(
                    "Incorrect period_unit: ",
                    period_unit,
                    ". Must be Day, Week, Month, or Year.\n",
                ),
            ),
        ),
    }
}

fn validate_bank_tz(bank_tz: &str) -> (r: Option<ValidationError>)
    ensures
        r is None <==> zone_name(bank_tz@) is Some,
{
    match Timezone::parse(bank_tz) {
        Some(_) => None,
        None => Some(
            broken(
                "bank_tz",
                "invalid_tz",
                incorrect(
                    "Error: failed to parse timezone. Incorrect timezone: ",
                    bank_tz,
                    ". Must be a valid timezone.\n",
                ),
            ),
        ),
    }
}

fn validate_iso8601_date(date_str: &str) -> (r: Option<ValidationError>)
    ensures
        r is None <==> date_parsed(date_str@) is Some,
{
    match Date::parse_or_reason(date_str) {
        Ok(_) => None,
        Err(reason) => Some(
            broken(
                "start_date_in_bank_tz",
                "invalid_iso8601_datetime",
                String::from_str("Error: ").concat(reason.as_str()).concat(
                    ". Incorrect date format: ",
                ).concat(date_str).concat(". Must be in ISO 8601 format YYYY-MM-DD.\n"),
            ),
        ),
    }
}

fn validate_account_type(account_type: &str) -> (r: Option<ValidationError>)
    ensures
        r is None <==> is_account_type_name(account_type@),
{
    match AccountType::from_name(account_type) {
        Some(_) => None,
        None => Some(
            broken(
                "account_type",
                "invalid_account_type",
                incorrect(
                    "Error: Matching variant not found. Incorrect account_type: ",
                    account_type,
                    ". Must be Checking, Savings, CertificateOfDeposit, or BrokerageCertificateOfDeposit.\n",
                ),
            ),
        ),
    }
}

fn validate_decimal(field: &str, value: &str) -> (r: Option<ValidationError>)
    ensures
        r is None <==> is_decimal(value@),
{
    let v = match Decimal::parse(value) {
        Some(val) => val,
        None => {
            return Some(
                broken(
                    field,
                    "invalid_decimal",
                    incorrect("Incorrect value: ", value, ". Must be a valid decimal number.\n"),
                ),
            );
        },
    };
    if v.is_negative() {
        Some(
            broken(
                field,
                "invalid_decimal",
                incorrect("Incorrect value: ", value, ". Must not be a negative number.\n"),
            ),
        )
    } else {
        None
    }
}

fn validate_positive_decimal(field: &str, value: &str) -> (r: Option<ValidationError>)
    ensures
        r is None <==> is_positive_decimal(value@),
{
    match validate_decimal(field, value) {
        Some(e) => {
            return Some(e);
        },
        None => {},
    }
    match Decimal::parse(value) {
        Some(v) => {
            if v.is_zero() {
                return Some(
                    broken(
                        field,
                        "invalid_positive_decimal",
                        incorrect(
                            "Incorrect value: ",
                            value,
                            ". Must be a positive decimal number.\n",
                        ),
                    ),
                );
            }
        },
        None => {},
    }
    None
}

fn validate_min_length(field: &str, value: &str, min: usize) -> (r: Option<ValidationError>)
    ensures
        r is None <==> value@.len() >= min,
{
    if value.unicode_len() >= min {
        None
    } else {
        Some(broken(field, "length", String::new()))
    }
}

/// Notes a broken rule, if there is one.
fn note(errors: &mut Vec<ValidationError>, found: Option<ValidationError>)
    ensures
        final(errors)@.len() == old(errors)@.len() + (if found is Some {
            1int
        } else {
            0int
        }),
{
    match found {
        Some(e) => {
            errors.push(e);
        },
        None => {},
    }
}

fn validate_deposit(deposit: &NewDeposit, errors: &mut Vec<ValidationError>)
    ensures
        final(errors)@.len() >= old(errors)@.len(),
        final(errors)@.len() == old(errors)@.len() <==> valid_deposit(deposit@),
{
    note(errors, validate_min_length("account", deposit.account.as_str(), 4));
    note(errors, validate_account_type(deposit.account_type.as_str()));
    note(errors, validate_decimal("apy", deposit.apy.as_str()));
    note(errors, validate_positive_decimal("years", deposit.years.as_str()));
    note(errors, validate_decimal("amount", deposit.amount.as_str()));
    note(errors, validate_iso8601_date(deposit.start_date_in_bank_tz.as_str()));
}

fn validate_bank(bank: &NewBank, errors: &mut Vec<ValidationError>)
    ensures
        final(errors)@.len() >= old(errors)@.len(),
        final(errors)@.len() == old(errors)@.len() <==> valid_bank(bank@),
{
    let ghost before = errors@.len();
    note(errors, validate_min_length("name", bank.name.as_str(), 1));
    note(errors, validate_bank_tz(bank.bank_tz.as_str()));
    if bank.new_deposits.len() < 1 {
        errors.push(broken("new_deposits", "length", String::new()));
    }
    let ghost start = errors@.len();
    let mut i: usize = 0;
    while i < bank.new_deposits.len()
        invariant
            0 <= i <= bank.new_deposits.len(),
            errors@.len() >= start,
            errors@.len() == start <==> forall|j: int|
                0 <= j < i ==> valid_deposit(#[trigger] bank@.new_deposits[j]),
        decreases bank.new_deposits.len() - i,
    {
        assert(bank@.new_deposits[i as int] == bank.new_deposits@[i as int]@);
        validate_deposit(&bank.new_deposits[i], errors);
        i += 1;
    }
}

fn validate_delta(delta: &NewDelta, errors: &mut Vec<ValidationError>)
    ensures
        final(errors)@.len() >= old(errors)@.len(),
        final(errors)@.len() == old(errors)@.len() <==> valid_delta(delta@),
{
    note(errors, validate_min_length("period", delta.period.as_str(), 1));
    note(errors, validate_positive_decimal("period", delta.period.as_str()));
    note(errors, validate_period_unit(delta.period_unit.as_str()));
}

/// Validates a request: it is accepted exactly when it keeps every rule, and
/// refused with the rules that it breaks.
pub fn validate(rest: &CalculatePortfolioRequest) -> (r: Result<(), ValidationErrors>)
    ensures
        r is Ok <==> valid_request(rest@),
        r matches Err(e) ==> e.errors@.len() > 0,
{
    let mut errors: Vec<ValidationError> = Vec::new();
    if rest.new_banks.len() < 1 {
        errors.push(broken("new_banks", "length", String::new()));
    }
    let ghost start = errors@.len();
    let mut i: usize = 0;
    while i < rest.new_banks.len()
        invariant
            0 <= i <= rest.new_banks.len(),
            errors@.len() >= start,
            errors@.len() == start <==> forall|j: int|
                0 <= j < i ==> valid_bank(#[trigger] rest@.new_banks[j]),
        decreases rest.new_banks.len() - i,
    {
        assert(rest@.new_banks[i as int] == rest.new_banks@[i as int]@);
        validate_bank(&rest.new_banks[i], &mut errors);
        i += 1;
    }
    validate_delta(&rest.new_delta, &mut errors);
    if errors.len() == 0 {
        Ok(())
    } else {
        Err(ValidationErrors { errors })
    }
}

} // verus!
