//! The request that the calculator takes and the response that it builds.
//!
//! Each type has a view: its content as mathematical values. The views of the
//! computed types leave out what differs from one run to the next, the
//! identifiers and the creation time, so that a view holds exactly what a
//! request determines.

use crate::date::Date;
use crate::decimal::{Decimal, DecimalValue};
use crate::identifier::Uuid;
use crate::timezone::Timezone;
use vstd::prelude::*;
use vstd::string::*;

verus! {

/// How an account bears interest.
#[derive(Clone, Copy, Debug, PartialEq, Eq, Structural)]
pub enum AccountType {
    Unspecified,
    Checking,
    Savings,
    CertificateOfDeposit,
    BrokerageCertificateOfDeposit,
}

/// The unit in which a reporting period is counted.
#[derive(Clone, Copy, Debug, PartialEq, Eq, Structural)]
pub enum PeriodUnit {
    Unspecified,
    Day,
    Week,
    Month,
    Year,
}

impl Default for AccountType {
    fn default() -> (t: AccountType)
        ensures
            t == AccountType::Unspecified,
    {
        AccountType::Unspecified
    }
}

impl Default for PeriodUnit {
    fn default() -> (u: PeriodUnit)
        ensures
            u == PeriodUnit::Unspecified,
    {
        PeriodUnit::Unspecified
    }
}

impl AccountType {
    /// The name of the account type on the wire.
    pub open spec fn wire_name(self) -> Seq<char> {
        match self {
            AccountType::Unspecified => "UNSPECIFIED"@,
            AccountType::Checking => "CHECKING"@,
            AccountType::Savings => "SAVINGS"@,
            AccountType::CertificateOfDeposit => "CERTIFICATE_OF_DEPOSIT"@,
            AccountType::BrokerageCertificateOfDeposit => "BROKERAGE_CERTIFICATE_OF_DEPOSIT"@,
        }
    }

    /// Whether a text is the name of an account type on the wire.
    pub open spec fn is_wire_name(name: Seq<char>) -> bool {
        exists|t: AccountType| name == #[trigger] t.wire_name()
    }

    /// The name of the account type on the wire.
    pub fn as_str_name(&self) -> (name: &'static str)
        ensures
            name@ == self.wire_name(),
    {
        match self {
            AccountType::Unspecified => "UNSPECIFIED",
            AccountType::Checking => "CHECKING",
            AccountType::Savings => "SAVINGS",
            AccountType::CertificateOfDeposit => "CERTIFICATE_OF_DEPOSIT",
            AccountType::BrokerageCertificateOfDeposit => "BROKERAGE_CERTIFICATE_OF_DEPOSIT",
        }
    }

    /// The account type with a name on the wire, if the text is one.
    pub fn from_str_name(name: &str) -> (account_type: Option<AccountType>)
        ensures
            match account_type {
                Some(t) => name@ == t.wire_name(),
                None => !AccountType::is_wire_name(name@),
            },
    {
        let name = String::from_str(name);
        if name == String::from_str("UNSPECIFIED") {
            Some(AccountType::Unspecified)
        } else if name == String::from_str("CHECKING") {
            Some(AccountType::Checking)
        } else if name == String::from_str("SAVINGS") {
            Some(AccountType::Savings)
        } else if name == String::from_str("CERTIFICATE_OF_DEPOSIT") {
            Some(AccountType::CertificateOfDeposit)
        } else if name == String::from_str("BROKERAGE_CERTIFICATE_OF_DEPOSIT") {
            Some(AccountType::BrokerageCertificateOfDeposit)
        } else {
            assert forall|t: AccountType| name@ != #[trigger] t.wire_name() by {}
            None
        }
    }
}

impl PeriodUnit {
    /// The name of the unit on the wire.
    pub open spec fn wire_name(self) -> Seq<char> {
        match self {
            PeriodUnit::Unspecified => "UNSPECIFIED"@,
            PeriodUnit::Day => "DAY"@,
            PeriodUnit::Week => "WEEK"@,
            PeriodUnit::Month => "MONTH"@,
            PeriodUnit::Year => "YEAR"@,
        }
    }

    /// Whether a text is the name of a unit on the wire.
    pub open spec fn is_wire_name(name: Seq<char>) -> bool {
        exists|u: PeriodUnit| name == #[trigger] u.wire_name()
    }

    /// The name of the unit on the wire.
    pub fn as_str_name(&self) -> (name: &'static str)
        ensures
            name@ == self.wire_name(),
    {
        match self {
            PeriodUnit::Unspecified => "UNSPECIFIED",
            PeriodUnit::Day => "DAY",
            PeriodUnit::Week => "WEEK",
            PeriodUnit::Month => "MONTH",
            PeriodUnit::Year => "YEAR",
        }
    }

    /// The unit with a name on the wire, if the text is one.
    pub fn from_str_name(name: &str) -> (unit: Option<PeriodUnit>)
        ensures
            match unit {
                Some(u) => name@ == u.wire_name(),
                None => !PeriodUnit::is_wire_name(name@),
            },
    {
        let name = String::from_str(name);
        if name == String::from_str("UNSPECIFIED") {
            Some(PeriodUnit::Unspecified)
        } else if name == String::from_str("DAY") {
            Some(PeriodUnit::Day)
        } else if name == String::from_str("WEEK") {
            Some(PeriodUnit::Week)
        } else if name == String::from_str("MONTH") {
            Some(PeriodUnit::Month)
        } else if name == String::from_str("YEAR") {
            Some(PeriodUnit::Year)
        } else {
            assert forall|u: PeriodUnit| name@ != #[trigger] u.wire_name() by {}
            None
        }
    }
}

// Request

/// The reporting period for which growth is stated: `period` units of `period_unit`.
#[derive(Debug, Clone)]
pub struct NewDelta {
    pub period: Decimal,
    pub period_unit: PeriodUnit,
}

/// A deposit to be projected.
#[derive(Debug)]
pub struct NewDeposit {
    pub account: String,
    pub account_type: AccountType,
    /// Annual percentage yield, in percent.
    pub apy: Decimal,
    /// Duration in years.
    pub years: Decimal,
    /// Principal.
    pub amount: Decimal,
    pub start_date_in_bank_tz: Date,
}

/// A bank and its deposits.
#[derive(Debug)]
pub struct NewBank {
    pub name: String,
    pub bank_tz: Timezone,
    pub new_deposits: Vec<NewDeposit>,
}

/// A portfolio of banks, and the reporting period shared by all of them.
#[derive(Debug)]
pub struct PortfolioRequest {
    pub new_banks: Vec<NewBank>,
    pub new_delta: NewDelta,
}

pub struct NewDeltaView {
    pub period: DecimalValue,
    pub period_unit: PeriodUnit,
}

pub struct NewDepositView {
    pub account: Seq<char>,
    pub account_type: AccountType,
    pub apy: DecimalValue,
    pub years: DecimalValue,
    pub amount: DecimalValue,
    pub start_date: int,
}

pub struct NewBankView {
    pub name: Seq<char>,
    pub bank_tz: Seq<char>,
    pub new_deposits: Seq<NewDepositView>,
}

pub struct PortfolioRequestView {
    pub new_banks: Seq<NewBankView>,
    pub new_delta: NewDeltaView,
}

impl View for NewDelta {
    type V = NewDeltaView;

    open spec fn view(&self) -> NewDeltaView {
        NewDeltaView { period: self.period@, period_unit: self.period_unit }
    }
}

impl View for NewDeposit {
    type V = NewDepositView;

    open spec fn view(&self) -> NewDepositView {
        NewDepositView {
            account: self.account@,
            account_type: self.account_type,
            apy: self.apy@,
            years: self.years@,
            amount: self.amount@,
            start_date: self.start_date_in_bank_tz@,
        }
    }
}

impl View for NewBank {
    type V = NewBankView;

    open spec fn view(&self) -> NewBankView {
        NewBankView {
            name: self.name@,
            bank_tz: self.bank_tz@,
            new_deposits: self.new_deposits@.map_values(|d: NewDeposit| d@),
        }
    }
}

impl View for PortfolioRequest {
    type V = PortfolioRequestView;

    open spec fn view(&self) -> PortfolioRequestView {
        PortfolioRequestView {
            new_banks: self.new_banks@.map_values(|b: NewBank| b@),
            new_delta: self.new_delta@,
        }
    }
}

// Response

/// Why a figure could not be computed.
#[derive(Debug, Clone)]
pub struct ProcessingError {
    pub uuid: Uuid,
    pub message: String,
}

/// The growth within the reporting period.
#[derive(Debug, Clone)]
pub struct Delta {
    pub period: Decimal,
    pub period_unit: PeriodUnit,
    pub growth: Decimal,
}

/// The figures at maturity: the principal, the interest over the whole
/// duration, and their total.
#[derive(Debug, Clone)]
pub struct Maturity {
    pub amount: Decimal,
    pub interest: Decimal,
    pub total: Decimal,
}

/// The computed figures of a deposit, a bank or a portfolio, or the errors
/// that stood in their way.
#[derive(Debug, Clone)]
pub struct Outcome {
    pub delta: Option<Delta>,
    pub maturity: Option<Maturity>,
    pub errors: Vec<ProcessingError>,
}

/// The start date of a deposit and its computed maturity date, or the errors
/// that stood in its way.
#[derive(Debug, Clone)]
pub struct OutcomeWithDates {
    pub start_date_in_bank_tz: Date,
    pub maturity_date_in_bank_tz: Option<Date>,
    pub errors: Vec<ProcessingError>,
}

/// A projected deposit.
#[derive(Debug, Clone)]
pub struct Deposit {
    pub uuid: Uuid,
    pub account: String,
    pub account_type: AccountType,
    pub apy: Decimal,
    pub years: Decimal,
    pub outcome: Option<Outcome>,
    pub outcome_with_dates: Option<OutcomeWithDates>,
}

/// A bank with its projected deposits and the sum of their figures.
#[derive(Debug, Clone)]
pub struct Bank {
    pub uuid: Uuid,
    pub name: String,
    pub bank_tz: Timezone,
    pub deposits: Vec<Deposit>,
    pub outcome: Option<Outcome>,
}

/// A projected portfolio: its banks, the sum of their figures, and the time at
/// which it was made.
#[derive(Debug, Clone)]
pub struct PortfolioResponse {
    pub uuid: Uuid,
    pub banks: Vec<Bank>,
    pub outcome: Option<Outcome>,
    pub created_at: String,
}

pub struct DeltaView {
    pub period: DecimalValue,
    pub period_unit: PeriodUnit,
    pub growth: DecimalValue,
}

pub struct MaturityView {
    pub amount: DecimalValue,
    pub interest: DecimalValue,
    pub total: DecimalValue,
}

/// The figures of an outcome and the messages of its errors.
pub struct OutcomeView {
    pub delta: Option<DeltaView>,
    pub maturity: Option<MaturityView>,
    pub errors: Seq<Seq<char>>,
}

/// The dates of an outcome, as day numbers, and the messages of its errors.
pub struct OutcomeWithDatesView {
    pub start_date: int,
    pub maturity_date: Option<int>,
    pub errors: Seq<Seq<char>>,
}

pub struct DepositView {
    pub account: Seq<char>,
    pub account_type: AccountType,
    pub apy: DecimalValue,
    pub years: DecimalValue,
    pub outcome: Option<OutcomeView>,
    pub outcome_with_dates: Option<OutcomeWithDatesView>,
}

pub struct BankView {
    pub name: Seq<char>,
    pub bank_tz: Seq<char>,
    pub deposits: Seq<DepositView>,
    pub outcome: Option<OutcomeView>,
}

pub struct PortfolioResponseView {
    pub banks: Seq<BankView>,
    pub outcome: Option<OutcomeView>,
}

impl View for ProcessingError {
    type V = Seq<char>;

    open spec fn view(&self) -> Seq<char> {
        self.message@
    }
}

impl View for Delta {
    type V = DeltaView;

    open spec fn view(&self) -> DeltaView {
        DeltaView { period: self.period@, period_unit: self.period_unit, growth: self.growth@ }
    }
}

impl View for Maturity {
    type V = MaturityView;

    open spec fn view(&self) -> MaturityView {
        MaturityView { amount: self.amount@, interest: self.interest@, total: self.total@ }
    }
}

impl View for Outcome {
    type V = OutcomeView;

    open spec fn view(&self) -> OutcomeView {
        OutcomeView {
            delta: match self.delta {
                Some(d) => Some(d@),
                None => None,
            },
            maturity: match self.maturity {
                Some(m) => Some(m@),
                None => None,
            },
            errors: self.errors@.map_values(|e: ProcessingError| e@),
        }
    }
}

impl View for OutcomeWithDates {
    type V = OutcomeWithDatesView;

    open spec fn view(&self) -> OutcomeWithDatesView {
        OutcomeWithDatesView {
            start_date: self.start_date_in_bank_tz@,
            maturity_date: match self.maturity_date_in_bank_tz {
                Some(d) => Some(d@),
                None => None,
            },
            errors: self.errors@.map_values(|e: ProcessingError| e@),
        }
    }
}

/// The view of an optional outcome.
pub open spec fn outcome_view(outcome: Option<Outcome>) -> Option<OutcomeView> {
    match outcome {
        Some(o) => Some(o@),
        None => None,
    }
}

impl View for Deposit {
    type V = DepositView;

    open spec fn view(&self) -> DepositView {
        DepositView {
            account: self.account@,
            account_type: self.account_type,
            apy: self.apy@,
            years: self.years@,
            outcome: outcome_view(self.outcome),
            outcome_with_dates: match self.outcome_with_dates {
                Some(o) => Some(o@),
                None => None,
            },
        }
    }
}

impl View for Bank {
    type V = BankView;

    open spec fn view(&self) -> BankView {
        BankView {
            name: self.name@,
            bank_tz: self.bank_tz@,
            deposits: self.deposits@.map_values(|d: Deposit| d@),
            outcome: outcome_view(self.outcome),
        }
    }
}

impl View for PortfolioResponse {
    type V = PortfolioResponseView;

    open spec fn view(&self) -> PortfolioResponseView {
        PortfolioResponseView {
            banks: self.banks@.map_values(|b: Bank| b@),
            outcome: outcome_view(self.outcome),
        }
    }
}

impl OutcomeView {
    /// An outcome holds either both figures and no error, or no figure and at
    /// least one error.
    pub open spec fn consistent(self) -> bool {
        ||| self.delta is Some && self.maturity is Some && self.errors.len() == 0
        ||| self.delta is None && self.maturity is None && self.errors.len() > 0
    }
}

impl OutcomeWithDatesView {
    /// An outcome with dates holds either the maturity date and no error, or no
    /// maturity date and at least one error.
    pub open spec fn consistent(self) -> bool {
        ||| self.maturity_date is Some && self.errors.len() == 0
        ||| self.maturity_date is None && self.errors.len() > 0
    }
}

} // verus!
