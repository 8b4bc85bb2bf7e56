//! The calculation engine: from a request to the tree of a response.
//!
//! Deposits are computed in the order of the request, then each bank's
//! figures are summed over its deposits and the portfolio's over its banks.
//! What goes wrong for a single deposit is recorded in its outcome and stops
//! nothing else.

use crate::cal_types::{
    Bank, BankView, DeltaView, Deposit, DepositView, MaturityView, NewBank, NewBankView, NewDelta,
    NewDeltaView, NewDeposit, NewDepositView, OutcomeView, PortfolioRequest, PortfolioRequestView,
    PortfolioResponse, PortfolioResponseView,
};
use crate::decimal::DecimalValue;
use crate::event_source::{
    failed_entry_message, puts_event_failed_entry_count, DriveDepositsEventBridgeError,
};
use crate::identifier::Uuid;
use crate::math::accumulator::{accumulate, bank_outcomes, deposit_outcomes};
use crate::math::outcome::{
    build_outcome_from_banks, build_outcome_from_deposits, build_outcome_from_new_deposit,
    build_outcome_with_dates_from_new_deposit, dates_outcome, deposit_outcome, sum_outcome,
};
use vstd::prelude::*;

verus! {

/// The figures of a deposit: what the request says of it, its outcome for the
/// reporting period and its dates.
pub open spec fn deposit_figures(deposit: NewDepositView, delta: NewDeltaView) -> DepositView {
    DepositView {
        account: deposit.account,
        account_type: deposit.account_type,
        apy: deposit.apy,
        years: deposit.years,
        outcome: Some(deposit_outcome(deposit, delta)),
        outcome_with_dates: Some(dates_outcome(deposit)),
    }
}

/// The figures of the deposits of a bank, in the order of the request.
pub open spec fn deposits_figures(deposits: Seq<NewDepositView>, delta: NewDeltaView) -> Seq<
    DepositView,
> {
    deposits.map_values(|d: NewDepositView| deposit_figures(d, delta))
}

/// The figures of a bank: its deposits and the sums over them.
pub open spec fn bank_figures(bank: NewBankView, delta: NewDeltaView) -> BankView {
    let deposits = deposits_figures(bank.new_deposits, delta);
    BankView {
        name: bank.name,
        bank_tz: bank.bank_tz,
        deposits,
        outcome: Some(
            sum_outcome(accumulate(deposits.map_values(|d: DepositView| d.outcome)), delta),
        ),
    }
}

/// The figures of the banks of a portfolio, in the order of the request.
pub open spec fn banks_figures(banks: Seq<NewBankView>, delta: NewDeltaView) -> Seq<BankView> {
    banks.map_values(|b: NewBankView| bank_figures(b, delta))
}

/// The figures of a portfolio: its banks and the sums over them.
pub open spec fn portfolio_figures(request: PortfolioRequestView) -> PortfolioResponseView {
    let banks = banks_figures(request.new_banks, request.new_delta);
    PortfolioResponseView {
        banks,
        outcome: Some(
            sum_outcome(
                accumulate(banks.map_values(|b: BankView| b.outcome)),
                request.new_delta,
            ),
        ),
    }
}

/// The views of a sequence of deposits.
pub open spec fn deposit_views(deposits: Seq<Deposit>) -> Seq<DepositView> {
    deposits.map_values(|d: Deposit| d@)
}

/// The views of a sequence of banks.
pub open spec fn bank_views(banks: Seq<Bank>) -> Seq<BankView> {
    banks.map_values(|b: Bank| b@)
}

/// Calculating is idempotent: two responses to one request hold the same
/// figures for every deposit, every bank and the portfolio. They differ in
/// their identifiers and creation times, which are no part of a view.
pub proof fn lemma_calculation_is_idempotent(
    request: PortfolioRequestView,
    first: PortfolioResponse,
    second: PortfolioResponse,
)
    requires
        first@ == portfolio_figures(request),
        second@ == portfolio_figures(request),
    ensures
        first@ == second@,
        first@.outcome == second@.outcome,
        first@.banks == second@.banks,
{
}

/// A portfolio without banks is calculated as any other: its response holds
/// no banks, and an outcome with the sums of nothing, which are zero, and
/// without errors.
pub proof fn lemma_empty_portfolio(request: PortfolioRequestView)
    requires
        request.new_banks.len() == 0,
    ensures
        portfolio_figures(request) == (PortfolioResponseView {
            banks: Seq::empty(),
            outcome: Some(
                OutcomeView {
                    delta: Some(
                        DeltaView {
                            period: request.new_delta.period,
                            period_unit: request.new_delta.period_unit,
                            growth: DecimalValue::zero(),
                        },
                    ),
                    maturity: Some(
                        MaturityView {
                            amount: DecimalValue::zero(),
                            interest: DecimalValue::zero(),
                            total: DecimalValue::zero(),
                        },
                    ),
                    errors: Seq::empty(),
                },
            ),
        }),
{
    let banks = banks_figures(request.new_banks, request.new_delta);
    assert(banks =~= Seq::<BankView>::empty());
    assert(banks.map_values(|b: BankView| b.outcome) =~= Seq::<Option<OutcomeView>>::empty());
    assert(portfolio_figures(request).outcome->0.errors =~= Seq::<Seq<char>>::empty());
}

/// Why a calculation as a whole was given up.
#[derive(Debug)]
pub enum CalculationHaltError {
    Internal,
    /// A unit of work for a bank did not run to its end.
    Join(String),
    /// An event was asked for and could not be sent.
    DriveDepositsEventBridgeError(DriveDepositsEventBridgeError),
    /// An event was asked for and could not be written as text.
    EventSourceJsonSerializationError(String),
}

/// What came of an event that was to be sent.
#[derive(Debug)]
pub enum EventEmission {
    /// The event could not be written as text.
    NotSerialized(String),
    /// The event could not be handed to the event bus.
    NotSent(DriveDepositsEventBridgeError),
    /// The event bus answered, and refused so many entries.
    Answered { failed_entry_count: i32 },
}

/// Whether the fate of an event ends the calculation: it does unless the
/// event bus answered and refused nothing.
pub open spec fn emission_halts(emission: EventEmission) -> bool {
    match emission {
        EventEmission::NotSerialized(_) => true,
        EventEmission::NotSent(_) => true,
        EventEmission::Answered { failed_entry_count } => failed_entry_count > 0,
    }
}

/// Whether an error is the one that reports the fate of an event of a level.
pub open spec fn is_halt_for(error: CalculationHaltError, emission: EventEmission, level: Seq<char>)
    -> bool {
    match emission {
        EventEmission::NotSerialized(reason) => error matches
            CalculationHaltError::EventSourceJsonSerializationError(text) && text == reason,
        EventEmission::NotSent(cause) => error
            == CalculationHaltError::DriveDepositsEventBridgeError(cause),
        EventEmission::Answered { failed_entry_count } => error matches
            CalculationHaltError::DriveDepositsEventBridgeError(
            DriveDepositsEventBridgeError::FailedEntryCountError(message),
        ) && message@ == failed_entry_message(failed_entry_count as int, level),
    }
}

/// Whether a result lets a calculation go on after an event, and with what
/// error it ends otherwise. No event is asked for where events are off.
pub open spec fn is_judgement(
    r: Result<(), CalculationHaltError>,
    emission: Option<EventEmission>,
    level: Seq<char>,
) -> bool {
    match r {
        Ok(_) => emission matches Some(e) ==> !emission_halts(e),
        Err(error) => emission matches Some(e) && emission_halts(e) && is_halt_for(
            error,
            e,
            level,
        ),
    }
}

/// Builds a deposit of the response: the deposit of the request under a fresh
/// identifier, with its outcome and its dates.
pub fn build_from_new_deposit(new_deposit: NewDeposit, new_delta: &NewDelta) -> (r: Result<
    Deposit,
    CalculationHaltError,
>)
    ensures
        r matches Ok(deposit) && deposit@ == deposit_figures(new_deposit@, new_delta@),
{
    let outcome_with_dates = build_outcome_with_dates_from_new_deposit(&new_deposit);
    let outcome = build_outcome_from_new_deposit(&new_deposit, new_delta);
    let deposit = Deposit {
        uuid: Uuid::new_v4(),
        account: new_deposit.account,
        account_type: new_deposit.account_type,
        apy: new_deposit.apy,
        years: new_deposit.years,
        outcome_with_dates,
        outcome,
    };
    Ok(deposit)
}

/// Builds the deposits of a bank, in the order of the request.
pub fn build_from_new_deposits(new_deposits: Vec<NewDeposit>, new_delta: &NewDelta) -> (r: Result<
    Vec<Deposit>,
    CalculationHaltError,
>)
    ensures
        r matches Ok(deposits) && deposit_views(deposits@) == deposits_figures(
            new_deposits@.map_values(|d: NewDeposit| d@),
            new_delta@,
        ),
{
    let ghost wanted = deposits_figures(new_deposits@.map_values(|d: NewDeposit| d@), new_delta@);
    let mut deposits: Vec<Deposit> = Vec::new();
    for new_deposit in iter: new_deposits
        invariant
            wanted == deposits_figures(iter.seq().map_values(|d: NewDeposit| d@), new_delta@),
            deposits@.len() == iter.index(),
            forall|j: int| 0 <= j < deposits@.len() ==> (#[trigger] deposits@[j])@ == wanted[j],
    {
        let deposit = build_from_new_deposit(new_deposit, new_delta)?;
        deposits.push(deposit);
    }
    assert(deposit_views(deposits@) =~= wanted);
    Ok(deposits)
}

/// Builds a bank of the response: its deposits, computed one after the other,
/// and the sums over them, under a fresh identifier.
pub fn build_from_new_bank(new_bank: NewBank, new_delta: &NewDelta) -> (r: Result<
    Bank,
    CalculationHaltError,
>)
    ensures
        r matches Ok(bank) && bank@ == bank_figures(new_bank@, new_delta@),
{
    let deposits = build_from_new_deposits(new_bank.new_deposits, new_delta)?;
    let outcome = build_outcome_from_deposits(deposits.as_slice(), new_delta);
    proof {
        assert(deposit_outcomes(deposits@) =~= deposit_views(deposits@).map_values(
            |d: DepositView| d.outcome,
        ));
    }
    let bank = Bank {
        uuid: Uuid::new_v4(),
        name: new_bank.name,
        bank_tz: new_bank.bank_tz,
        deposits,
        outcome,
    };
    Ok(bank)
}

/// Builds the banks of a portfolio, one after the other in the order of the
/// request.
pub fn build_from_new_banks(new_banks: Vec<NewBank>, new_delta: &NewDelta) -> (r: Result<
    Vec<Bank>,
    CalculationHaltError,
>)
    ensures
        r matches Ok(banks) && bank_views(banks@) == banks_figures(
            new_banks@.map_values(|b: NewBank| b@),
            new_delta@,
        ),
{
    let ghost wanted = banks_figures(new_banks@.map_values(|b: NewBank| b@), new_delta@);
    let mut banks: Vec<Bank> = Vec::new();
    for new_bank in iter: new_banks
        invariant
            wanted == banks_figures(iter.seq().map_values(|b: NewBank| b@), new_delta@),
            banks@.len() == iter.index(),
            forall|j: int| 0 <= j < banks@.len() ==> (#[trigger] banks@[j])@ == wanted[j],
    {
        let bank = build_from_new_bank(new_bank, new_delta)?;
        banks.push(bank);
    }
    assert(bank_views(banks@) =~= wanted);
    Ok(banks)
}

/// Judges the fate of an event of a level. Once events are on, an event that
/// cannot be written, cannot be sent or is refused ends the calculation.
pub fn judge_emission(emission: Option<EventEmission>, level: &str) -> (r: Result<
    (),
    CalculationHaltError,
>)
    ensures
        is_judgement(r, emission, level@),
{
    match emission {
        None => Ok(()),
        Some(EventEmission::NotSerialized(reason)) => Err(
            CalculationHaltError::EventSourceJsonSerializationError(reason),
        ),
        Some(EventEmission::NotSent(cause)) => Err(
            CalculationHaltError::DriveDepositsEventBridgeError(cause),
        ),
        Some(EventEmission::Answered { failed_entry_count }) => {
            match puts_event_failed_entry_count(failed_entry_count, level) {
                Ok(_) => Ok(()),
                Err(e) => Err(CalculationHaltError::DriveDepositsEventBridgeError(e)),
            }
        },
    }
}

/// Ends the unit of work for a bank: the bank that was built is its result,
/// unless events are on and the bank's event came to grief.
pub fn finish_bank_unit(bank: Bank, emission: Option<EventEmission>) -> (r: Result<
    Bank,
    CalculationHaltError,
>)
    ensures
        match r {
            Ok(b) => b == bank && is_judgement(Ok(()), emission, "bank-level"@),
            Err(error) => is_judgement(Err(error), emission, "bank-level"@),
        },
{
    match judge_emission(emission, "bank-level") {
        Ok(_) => Ok(bank),
        Err(e) => Err(e),
    }
}

/// Takes in the result of one unit of work: a bank that was built joins the
/// banks collected so far, in the order in which the results are taken in. A
/// unit that did not run to its end, or that ended with an error, ends the
/// calculation: the banks stay as they are.
pub fn join_bank_unit(
    banks: &mut Vec<Bank>,
    joined: Result<Result<Bank, CalculationHaltError>, String>,
) -> (r: Result<(), CalculationHaltError>)
    ensures
        match joined {
            Ok(Ok(bank)) => r is Ok && final(banks)@ == old(banks)@.push(bank),
            Ok(Err(error)) => r == Err::<(), CalculationHaltError>(error) && final(banks)@ == old(
                banks,
            )@,
            Err(reason) => r == Err::<(), CalculationHaltError>(
                CalculationHaltError::Join(reason),
            ) && final(banks)@ == old(banks)@,
        },
{
    match joined {
        Ok(Ok(bank)) => {
            banks.push(bank);
            Ok(())
        },
        Ok(Err(error)) => Err(error),
        Err(reason) => Err(CalculationHaltError::Join(reason)),
    }
}

/// Ends the calculation of a portfolio: the response that was built is its
/// result, unless events are on and the portfolio's event came to grief.
pub fn finish_portfolio(response: PortfolioResponse, emission: Option<EventEmission>) -> (r: Result<
    PortfolioResponse,
    CalculationHaltError,
>)
    ensures
        match r {
            Ok(p) => p == response && is_judgement(Ok(()), emission, "portfolio-level"@),
            Err(error) => is_judgement(Err(error), emission, "portfolio-level"@),
        },
{
    match judge_emission(emission, "portfolio-level") {
        Ok(_) => Ok(response),
        Err(e) => Err(e),
    }
}

/// Puts a response together from the banks that were built: the sums over
/// the banks for the reporting period, under the given identifier and
/// creation time.
pub fn build_portfolio_response(
    uuid: Uuid,
    banks: Vec<Bank>,
    new_delta: &NewDelta,
    created_at: String,
) -> (response: PortfolioResponse)
    ensures
        response.uuid == uuid,
        response.created_at == created_at,
        response.banks == banks,
        response@.outcome == Some(sum_outcome(accumulate(bank_outcomes(banks@)), new_delta@)),
        response@.outcome->0.consistent(),
{
    let outcome = build_outcome_from_banks(banks.as_slice(), new_delta);
    PortfolioResponse { uuid, banks, outcome, created_at }
}

/// Builds the response to a request, given the time of its creation: every
/// bank with its deposits, then the sums over the banks.
pub fn build_from_portfolio_request(portfolio_req: PortfolioRequest, created_at: String) -> (r:
    Result<PortfolioResponse, CalculationHaltError>)
    ensures
        r matches Ok(response) && response@ == portfolio_figures(portfolio_req@)
            && response.created_at == created_at,
{
    let uuid = Uuid::new_v4();
    let new_delta = portfolio_req.new_delta;
    let banks = build_from_new_banks(portfolio_req.new_banks, &new_delta)?;
    proof {
        assert(bank_outcomes(banks@) =~= bank_views(banks@).map_values(|b: BankView| b.outcome));
    }
    Ok(build_portfolio_response(uuid, banks, &new_delta, created_at))
}

/// Calculates a portfolio: the response to a request, with the figures of
/// every deposit, every bank and the portfolio as a whole. The calculation
/// itself never fails; a request without banks gives a response without banks
/// whose sums are zero.
pub fn calculate_portfolio(portfolio_req: PortfolioRequest, created_at: String) -> (r: Result<
    PortfolioResponse,
    CalculationHaltError,
>)
    ensures
        r matches Ok(response) && response@ == portfolio_figures(portfolio_req@)
            && response.created_at == created_at,
{
    build_from_portfolio_request(portfolio_req, created_at)
}

} // verus!
