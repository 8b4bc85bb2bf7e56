//! From a request as text to the request that is calculated.
//!
//! A request is validated before it comes here. What still cannot be read
//! is taken as its default: zero for a number, January 1, 1970 for a date,
//! Coordinated Universal Time for a zone, and the unstated type or unit.

use crate::cal_types::{
    AccountType, NewBank, NewBankView, NewDelta, NewDeltaView, NewDeposit, NewDepositView,
    PeriodUnit, PortfolioRequest, PortfolioRequestView,
};
use crate::date::{date_parsed, Date, EPOCH_DAY};
use crate::decimal::{decimal_parsed, Decimal, DecimalValue};
use crate::rest_types::{
    CalculatePortfolioRequest as RestCalculatePortfolioRequest,
    CalculatePortfolioRequestText, NewBank as RestNewBank, NewBankText, NewDelta as RestNewDelta,
    NewDeltaText, NewDeposit as RestNewDeposit, NewDepositText,
};
use crate::text::{shouty_snake_case, to_shouty_snake_case};
use crate::timezone::{zone_name, Timezone};
use vstd::prelude::*;

verus! {

/// The number that a text holds, or zero.
pub open spec fn decimal_or_zero(text: Seq<char>) -> DecimalValue {
    match decimal_parsed(text) {
        Some(d) => d,
        None => DecimalValue::zero(),
    }
}

/// The day that a text holds, or January 1, 1970.
pub open spec fn day_or_epoch(text: Seq<char>) -> int {
    match date_parsed(text) {
        Some(day) => day,
        None => EPOCH_DAY as int,
    }
}

/// The zone that a text names, or Coordinated Universal Time.
pub open spec fn zone_or_utc(text: Seq<char>) -> Seq<char> {
    match zone_name(text) {
        Some(name) => name,
        None => "UTC"@,
    }
}

/// Whether an account type is the one that a text names: the type whose name
/// on the wire the text is, written in capitals with underscores; the
/// unstated type where there is none.
pub open spec fn is_account_type_of(account_type: AccountType, text: Seq<char>) -> bool {
    if AccountType::is_wire_name(shouty_snake_case(text)) {
        account_type.wire_name() == shouty_snake_case(text)
    } else {
        account_type == AccountType::Unspecified
    }
}

/// Whether a unit is the one that a text names, as for account types.
pub open spec fn is_period_unit_of(unit: PeriodUnit, text: Seq<char>) -> bool {
    if PeriodUnit::is_wire_name(shouty_snake_case(text)) {
        unit.wire_name() == shouty_snake_case(text)
    } else {
        unit == PeriodUnit::Unspecified
    }
}

/// Whether a deposit is the one that a deposit as text stands for.
pub open spec fn is_new_deposit_of(deposit: NewDepositView, rest: NewDepositText) -> bool {
    &&& deposit.account == rest.account
    &&& is_account_type_of(deposit.account_type, rest.account_type)
    &&& deposit.apy == decimal_or_zero(rest.apy)
    &&& deposit.years == decimal_or_zero(rest.years)
    &&& deposit.amount == decimal_or_zero(rest.amount)
    &&& deposit.start_date == day_or_epoch(rest.start_date)
}

/// Whether a bank is the one that a bank as text stands for.
pub open spec fn is_new_bank_of(bank: NewBankView, rest: NewBankText) -> bool {
    &&& bank.name == rest.name
    &&& bank.bank_tz == zone_or_utc(rest.bank_tz)
    &&& bank.new_deposits.len() == rest.new_deposits.len()
    &&& forall|i: int|
        0 <= i < rest.new_deposits.len() ==> is_new_deposit_of(
            #[trigger] bank.new_deposits[i],
            rest.new_deposits[i],
        )
}

/// Whether a reporting period is the one that a period as text stands for.
pub open spec fn is_new_delta_of(delta: NewDeltaView, rest: NewDeltaText) -> bool {
    &&& delta.period == decimal_or_zero(rest.period)
    &&& is_period_unit_of(delta.period_unit, rest.period_unit)
}

/// Whether a request is the one that a request as text stands for.
pub open spec fn is_request_of(request: PortfolioRequestView, rest: CalculatePortfolioRequestText)
    -> bool {
    &&& request.new_banks.len() == rest.new_banks.len()
    &&& forall|i: int|
        0 <= i < rest.new_banks.len() ==> is_new_bank_of(
            #[trigger] request.new_banks[i],
            rest.new_banks[i],
        )
    &&& is_new_delta_of(request.new_delta, rest.new_delta)
}

fn decimal_from(text: &str) -> (d: Decimal)
    ensures
        d@ == decimal_or_zero(text@),
{
    match Decimal::parse(text) {
        Some(d) => d,
        None => Decimal::zero(),
    }
}

fn account_type_from(text: &str) -> (account_type: AccountType)
    ensures
        is_account_type_of(account_type, text@),
{
    match AccountType::from_str_name(to_shouty_snake_case(text).as_str()) {
        Some(t) => t,
        None => AccountType::Unspecified,
    }
}

fn period_unit_from(text: &str) -> (unit: PeriodUnit)
    ensures
        is_period_unit_of(unit, text@),
{
    match PeriodUnit::from_str_name(to_shouty_snake_case(text).as_str()) {
        Some(u) => u,
        None => PeriodUnit::Unspecified,
    }
}

/// The deposit that a deposit as text stands for.
pub fn new_deposit_from_rest(rest: RestNewDeposit) -> (deposit: NewDeposit)
    ensures
        is_new_deposit_of(deposit@, rest@),
{
    NewDeposit {
        account_type: account_type_from(rest.account_type.as_str()),
        apy: decimal_from(rest.apy.as_str()),
        years: decimal_from(rest.years.as_str()),
        amount: decimal_from(rest.amount.as_str()),
        start_date_in_bank_tz: match Date::parse(rest.start_date_in_bank_tz.as_str()) {
            Some(date) => date,
            None => Date::epoch(),
        },
        account: rest.account,
    }
}

/// The bank that a bank as text stands for, with its deposits in their order.
pub fn new_bank_from_rest(rest: RestNewBank) -> (bank: NewBank)
    ensures
        is_new_bank_of(bank@, rest@),
{
    let bank_tz = match Timezone::parse(rest.bank_tz.as_str()) {
        Some(zone) => zone,
        None => Timezone::utc(),
    };
    let ghost wanted = rest@.new_deposits;
    let mut new_deposits: Vec<NewDeposit> = Vec::new();
    for deposit in iter: rest.new_deposits
        invariant
            wanted == iter.seq().map_values(|d: RestNewDeposit| d@),
            new_deposits@.len() == iter.index(),
            forall|j: int|
                0 <= j < new_deposits@.len() ==> is_new_deposit_of(
                    (#[trigger] new_deposits@[j])@,
                    wanted[j],
                ),
    {
        new_deposits.push(new_deposit_from_rest(deposit));
    }
    let bank = NewBank { name: rest.name, bank_tz, new_deposits };
    assert forall|i: int| 0 <= i < wanted.len() implies is_new_deposit_of(
        #[trigger] bank@.new_deposits[i],
        wanted[i],
    ) by {
        assert(bank@.new_deposits[i] == new_deposits@[i]@);
    }
    bank
}

/// The reporting period that a period as text stands for.
pub fn new_delta_from_rest(rest: RestNewDelta) -> (delta: NewDelta)
    ensures
        is_new_delta_of(delta@, rest@),
{
    NewDelta {
        period: decimal_from(rest.period.as_str()),
        period_unit: period_unit_from(rest.period_unit.as_str()),
    }
}

/// The request that a request as text stands for, with its banks in their
/// order.
pub fn portfolio_request_from_rest(rest: RestCalculatePortfolioRequest) -> (request:
    PortfolioRequest)
    ensures
        is_request_of(request@, rest@),
{
    let ghost wanted = rest@.new_banks;
    let mut new_banks: Vec<NewBank> = Vec::new();
    for bank in iter: rest.new_banks
        invariant
            wanted == iter.seq().map_values(|b: RestNewBank| b@),
            new_banks@.len() == iter.index(),
            forall|j: int|
                0 <= j < new_banks@.len() ==> is_new_bank_of(
                    (#[trigger] new_banks@[j])@,
                    wanted[j],
                ),
    {
        new_banks.push(new_bank_from_rest(bank));
    }
    let request = PortfolioRequest { new_banks, new_delta: new_delta_from_rest(rest.new_delta) };
    assert forall|i: int| 0 <= i < wanted.len() implies is_new_bank_of(
        #[trigger] request@.new_banks[i],
        wanted[i],
    ) by {
        assert(request@.new_banks[i] == new_banks@[i]@);
    }
    request
}

} // verus!
