//! From a calculated portfolio to the items that are stored.
//!
//! The sort key of an item holds what the item is sorted by, as text that
//! sorts as the values compare: a growth is written in a field of fixed width,
//! filled with zeros.

use crate::convert::json::{
    outcome_option_json, outcome_with_dates_option_json, write_outcome, write_outcome_with_dates,
};
use crate::db_item_types::{
    BankLevelItem, BankLevelItemsWrapper, CalculatePortfolioRestWrapper, DepositLevelItem,
    DepositLevelItemsWrapper, DepositSortCriteria, PortfolioLevelItem,
};
use crate::decimal::{decimal_padded_text, decimal_parsed, decimal_refusal, Decimal};
use crate::rest_types::{Bank, CalculatePortfolioResponse, Delta, Deposit, Outcome};
use vstd::prelude::*;
use vstd::string::*;

verus! {

/// The level at which an item was to be written.
#[derive(Debug, Clone, Copy, PartialEq, Eq, Structural)]
pub enum WriterErrorLevel {
    Bank,
    Deposit,
    Portfolio,
}

/// What a calculated portfolio lacks for an item.
#[derive(Debug)]
pub enum ItemWriterError {
    MissingDataField(String),
}

/// Why an item could not be written, and at which level.
#[derive(Debug)]
pub enum LevelSpecificItemWriterError {
    Error(ItemWriterError, WriterErrorLevel),
    /// A growth is no decimal number; the text says why.
    DecimalError(String, WriterErrorLevel),
    /// An outcome could not be written as JSON; the text says why.
    JsonError(String, WriterErrorLevel),
}

/// The content of a writer's error.
pub enum WriterErrorView {
    MissingDataField(Seq<char>, WriterErrorLevel),
    DecimalError(Seq<char>, WriterErrorLevel),
    JsonError(Seq<char>, WriterErrorLevel),
}

impl View for LevelSpecificItemWriterError {
    type V = WriterErrorView;

    open spec fn view(&self) -> WriterErrorView {
        match self {
            LevelSpecificItemWriterError::Error(ItemWriterError::MissingDataField(field), level) =>
                WriterErrorView::MissingDataField(field@, *level),
            LevelSpecificItemWriterError::DecimalError(reason, level) =>
                WriterErrorView::DecimalError(reason@, *level),
            LevelSpecificItemWriterError::JsonError(reason, level) => WriterErrorView::JsonError(
                reason@,
                *level,
            ),
        }
    }
}

/// The error for something that is missing at a level.
pub fn error_with_level(err: ItemWriterError, level: WriterErrorLevel) -> (e:
    LevelSpecificItemWriterError)
    ensures
        e == LevelSpecificItemWriterError::Error(err, level),
{
    LevelSpecificItemWriterError::Error(err, level)
}

/// The error for something that is missing in a portfolio.
pub fn error_with_portfolio_level(err: ItemWriterError) -> (e: LevelSpecificItemWriterError)
    ensures
        e == LevelSpecificItemWriterError::Error(err, WriterErrorLevel::Portfolio),
{
    error_with_level(err, WriterErrorLevel::Portfolio)
}

/// The error for something that is missing in a bank.
pub fn error_with_bank_level(err: ItemWriterError) -> (e: LevelSpecificItemWriterError)
    ensures
        e == LevelSpecificItemWriterError::Error(err, WriterErrorLevel::Bank),
{
    error_with_level(err, WriterErrorLevel::Bank)
}

/// The error for something that is missing in a deposit.
pub fn error_with_deposit_level(err: ItemWriterError) -> (e: LevelSpecificItemWriterError)
    ensures
        e == LevelSpecificItemWriterError::Error(err, WriterErrorLevel::Deposit),
{
    error_with_level(err, WriterErrorLevel::Deposit)
}

/// The partition key of what belongs to a portfolio.
pub open spec fn portfolio_partition(uuid: Seq<char>) -> Seq<char> {
    "PORTFOLIO#UUID#"@ + uuid
}

/// The growth of a delta in a field of fixed width, or why there is none.
pub open spec fn padded_growth(delta: Delta) -> Result<Seq<char>, Seq<char>> {
    match decimal_parsed(delta.growth@) {
        Some(growth) => Ok(decimal_padded_text(growth)),
        None => Err(decimal_refusal(delta.growth@)),
    }
}

/// The part of a sort key that orders by growth within a reporting period.
pub open spec fn growth_key(delta: Delta, growth: Seq<char>, created_at: Seq<char>) -> Seq<char> {
    "#PERIOD#"@ + delta.period@ + "#PERIOD_UNIT#"@ + delta.period_unit@ + "#GROWTH#"@ + growth
        + "#PORTFOLIO_CREATED_AT#"@ + created_at
}

/// What the delta of an outcome gives for a sort key at a level: the delta
/// and its growth in a field of fixed width, or the error for what is missing.
pub open spec fn sorted_by(outcome: Option<Outcome>, level: WriterErrorLevel) -> Result<
    (Delta, Seq<char>),
    WriterErrorView,
> {
    if outcome is None {
        Err(WriterErrorView::MissingDataField("outcome"@, level))
    } else if outcome->0.delta is None {
        Err(WriterErrorView::MissingDataField("delta"@, level))
    } else {
        match padded_growth(outcome->0.delta->0) {
            Ok(growth) => Ok((outcome->0.delta->0, growth)),
            Err(reason) => Err(WriterErrorView::DecimalError(reason, level)),
        }
    }
}

/// Reads from an outcome what a sort key by growth needs.
fn sort_by_growth(outcome: &Option<Outcome>, level: WriterErrorLevel) -> (r: Result<
    (&Delta, String),
    LevelSpecificItemWriterError,
>)
    ensures
        match r {
            Ok((delta, growth)) => sorted_by(*outcome, level) == Ok::<
                (Delta, Seq<char>),
                WriterErrorView,
            >((*delta, growth@)),
            Err(e) => sorted_by(*outcome, level) == Err::<(Delta, Seq<char>), WriterErrorView>(e@),
        },
{
    let outcome = match outcome {
        Some(outcome) => outcome,
        None => {
            return Err(
                error_with_level(
                    ItemWriterError::MissingDataField(String::from_str("outcome")),
                    level,
                ),
            );
        },
    };
    let delta = match &outcome.delta {
        Some(delta) => delta,
        None => {
            return Err(
                error_with_level(
                    ItemWriterError::MissingDataField(String::from_str("delta")),
                    level,
                ),
            );
        },
    };
    match Decimal::parse_or_reason(delta.growth.as_str()) {
        Ok(growth) => Ok((delta, growth.to_padded_text())),
        Err(reason) => Err(LevelSpecificItemWriterError::DecimalError(reason, level)),
    }
}

/// Writes the part of a sort key that orders by growth.
fn write_growth_key(prefix: &str, delta: &Delta, growth: &str, created_at: &str) -> (key: String)
    ensures
        key@ == prefix@ + growth_key(*delta, growth@, created_at@),
{
    let key = String::from_str(prefix).concat("#PERIOD#").concat(delta.period.as_str()).concat(
        "#PERIOD_UNIT#",
    ).concat(delta.period_unit.as_str()).concat("#GROWTH#").concat(growth).concat(
        "#PORTFOLIO_CREATED_AT#",
    ).concat(created_at);
    assert(key@ =~= prefix@ + growth_key(*delta, growth@, created_at@));
    key
}

/// Whether an item is the one under which a portfolio is stored.
pub open spec fn is_portfolio_item(
    item: PortfolioLevelItem,
    rest: CalculatePortfolioResponse,
    delta: Delta,
    growth: Seq<char>,
) -> bool {
    &&& item.pk_portfolios@ == "PORTFOLIOS"@
    &&& item.sk_format_portfolio_delta_growth@ == "PORTFOLIO"@ + growth_key(
        delta,
        growth,
        rest.created_at@,
    )
    &&& item.portfolio_uuid@ == rest.uuid@
    &&& item.outcome_as_json@ == outcome_option_json(rest.outcome)
    &&& item.created_at@ == rest.created_at@
}

/// The item under which a portfolio is stored: in the partition of all
/// portfolios, sorted by its growth. A portfolio without an outcome, without
/// a delta, or with a growth that is no number has no item.
pub fn portfolio_level_item(rest: &CalculatePortfolioResponse) -> (r: Result<
    PortfolioLevelItem,
    LevelSpecificItemWriterError,
>)
    ensures
        match r {
            Ok(item) => sorted_by(rest.outcome, WriterErrorLevel::Portfolio) matches Ok(by)
                && is_portfolio_item(item, *rest, by.0, by.1),
            Err(e) => sorted_by(rest.outcome, WriterErrorLevel::Portfolio) == Err::<
                (Delta, Seq<char>),
                WriterErrorView,
            >(e@),
        },
{
    let outcome_as_json = write_outcome(&rest.outcome);
    let (delta, growth_padded) = sort_by_growth(&rest.outcome, WriterErrorLevel::Portfolio)?;
    let sk_format_portfolio_delta_growth = write_growth_key(
        "PORTFOLIO",
        delta,
        growth_padded.as_str(),
        rest.created_at.as_str(),
    );
    Ok(
        PortfolioLevelItem {
            pk_portfolios: String::from_str("PORTFOLIOS"),
            sk_format_portfolio_delta_growth,
            portfolio_uuid: rest.uuid.clone(),
            outcome_as_json,
            created_at: rest.created_at.clone(),
        },
    )
}

/// Whether an item is the one under which a bank of a portfolio is stored.
pub open spec fn is_bank_item(
    item: BankLevelItem,
    rest: CalculatePortfolioResponse,
    bank: Bank,
    delta: Delta,
    growth: Seq<char>,
) -> bool {
    &&& item.pk_format_portfolio_uuid@ == portfolio_partition(rest.uuid@)
    &&& item.sk_format_bank_delta_growth@ == "BANK"@ + growth_key(delta, growth, rest.created_at@)
        + "BANK_UUID#"@ + bank.uuid@
    &&& item.bank_uuid@ == bank.uuid@
    &&& item.bank_name@ == bank.name@
    &&& item.portfolio_uuid@ == rest.uuid@
    &&& item.bank_tz@ == bank.bank_tz@
    &&& item.outcome_as_json@ == outcome_option_json(bank.outcome)
    &&& item.created_at@ == rest.created_at@
}

/// What a bank of a portfolio is stored as: its item, or the error for what
/// it lacks.
pub open spec fn is_bank_item_result(
    r: Result<BankLevelItem, LevelSpecificItemWriterError>,
    rest: CalculatePortfolioResponse,
    bank: Bank,
) -> bool {
    match r {
        Ok(item) => sorted_by(bank.outcome, WriterErrorLevel::Bank) matches Ok(by) && is_bank_item(
            item,
            rest,
            bank,
            by.0,
            by.1,
        ),
        Err(e) => sorted_by(bank.outcome, WriterErrorLevel::Bank) == Err::<
            (Delta, Seq<char>),
            WriterErrorView,
        >(e@),
    }
}

/// The item under which a bank of a portfolio is stored: in the partition of
/// its portfolio, sorted by its growth.
pub fn bank_level_item(rest: &CalculatePortfolioResponse, bank: &Bank) -> (r: Result<
    BankLevelItem,
    LevelSpecificItemWriterError,
>)
    ensures
        is_bank_item_result(r, *rest, *bank),
{
    let pk_format_portfolio_uuid = String::from_str("PORTFOLIO#UUID#").concat(rest.uuid.as_str());
    let (delta, growth_padded) = sort_by_growth(&bank.outcome, WriterErrorLevel::Bank)?;
    let sk_format_bank_delta_growth = write_growth_key(
        "BANK",
        delta,
        growth_padded.as_str(),
        rest.created_at.as_str(),
    ).concat("BANK_UUID#").concat(bank.uuid.as_str());
    Ok(
        BankLevelItem {
            pk_format_portfolio_uuid,
            sk_format_bank_delta_growth,
            bank_uuid: bank.uuid.clone(),
            bank_name: bank.name.clone(),
            portfolio_uuid: rest.uuid.clone(),
            bank_tz: bank.bank_tz.clone(),
            outcome_as_json: write_outcome(&bank.outcome),
            created_at: rest.created_at.clone(),
        },
    )
}

/// The items under which the banks of a portfolio are stored, in the order of
/// the banks. The first bank that has no item ends the conversion with its
/// error.
pub fn bank_level_items(rest: &CalculatePortfolioResponse) -> (r: Result<
    BankLevelItemsWrapper,
    LevelSpecificItemWriterError,
>)
    ensures
        match r {
            Ok(wrapper) => wrapper.items@.len() == rest.banks@.len() && forall|i: int|
                0 <= i < rest.banks@.len() ==> is_bank_item_result(
                    Ok(#[trigger] wrapper.items@[i]),
                    *rest,
                    rest.banks@[i],
                ),
            Err(e) => exists|i: int|
                0 <= i < rest.banks@.len() && is_bank_item_result(
                    Err(e),
                    *rest,
                    #[trigger] rest.banks@[i],
                ) && forall|j: int|
                    0 <= j < i ==> sorted_by(
                        (#[trigger] rest.banks@[j]).outcome,
                        WriterErrorLevel::Bank,
                    ) is Ok,
        },
{
    let mut items: Vec<BankLevelItem> = Vec::new();
    let mut i: usize = 0;
    while i < rest.banks.len()
        invariant
            0 <= i <= rest.banks.len(),
            items@.len() == i,
            forall|j: int|
                0 <= j < i ==> is_bank_item_result(Ok(#[trigger] items@[j]), *rest, rest.banks@[j]),
        decreases rest.banks.len() - i,
    {
        match bank_level_item(rest, &rest.banks[i]) {
            Ok(item) => {
                items.push(item);
            },
            Err(e) => {
                proof {
                    assert forall|j: int| 0 <= j < i implies sorted_by(
                        (#[trigger] rest.banks@[j]).outcome,
                        WriterErrorLevel::Bank,
                    ) is Ok by {
                        assert(is_bank_item_result(Ok(items@[j]), *rest, rest.banks@[j]));
                    }
                    assert(is_bank_item_result(Err(e), *rest, rest.banks@[i as int]));
                }
                return Err(e);
            },
        }
        i += 1;
    }
    Ok(BankLevelItemsWrapper { items })
}

/// What the dates of a deposit give for an item: the maturity date, or the
/// error for what is missing.
pub open spec fn matures_on(deposit: Deposit) -> Result<Seq<char>, WriterErrorView> {
    if deposit.outcome_with_dates is None {
        Err(WriterErrorView::MissingDataField("outcome_with_dates"@, WriterErrorLevel::Deposit))
    } else if deposit.outcome_with_dates->0.maturity_date_in_bank_tz is None {
        Err(
            WriterErrorView::MissingDataField(
                "maturity_date_in_bank_tz"@,
                WriterErrorLevel::Deposit,
            ),
        )
    } else {
        Ok(deposit.outcome_with_dates->0.maturity_date_in_bank_tz->0@)
    }
}

/// The sort key of a deposit: by growth within the reporting period, or by
/// maturity date.
pub open spec fn deposit_sort_key(
    criteria: DepositSortCriteria,
    delta: Delta,
    growth: Seq<char>,
    maturity_date: Seq<char>,
    created_at: Seq<char>,
    deposit_uuid: Seq<char>,
) -> Seq<char> {
    match criteria {
        DepositSortCriteria::DeltaPeriodGrowth => "DEPOSIT"@ + growth_key(
            delta,
            growth,
            created_at,
        ) + "#DEPOSIT_UUID#"@ + deposit_uuid,
        DepositSortCriteria::MaturityDate => "DEPOSIT#MATURITY_DATE#"@ + maturity_date
            + "#PORTFOLIO_CREATED_AT#"@ + created_at + "#DEPOSIT_UUID#"@ + deposit_uuid,
    }
}

/// Whether an item is the one under which a deposit of a bank of a portfolio
/// is stored.
pub open spec fn is_deposit_item(
    item: DepositLevelItem,
    wrapper: CalculatePortfolioRestWrapper,
    bank: Bank,
    deposit: Deposit,
    delta: Delta,
    growth: Seq<char>,
    maturity_date: Seq<char>,
) -> bool {
    let rest = wrapper.calculate_portfolio_response;
    &&& item.pk_format_portfolio_uuid@ == portfolio_partition(rest.uuid@)
    &&& item.sk_format_deposit_sort_criteria@ == deposit_sort_key(
        wrapper.deposit_sort_criteria,
        delta,
        growth,
        maturity_date,
        rest.created_at@,
        deposit.uuid@,
    )
    &&& item.deposit_delta_growth@ == delta.growth@
    &&& item.deposit_maturity_date_in_bank_tz@ == maturity_date
    &&& item.created_at@ == rest.created_at@
    &&& item.bank_uuid@ == bank.uuid@
    &&& item.bank_name@ == bank.name@
    &&& item.portfolio_uuid@ == rest.uuid@
    &&& item.deposit_uuid@ == deposit.uuid@
    &&& item.account@ == deposit.account@
    &&& item.account_type@ == deposit.account_type@
    &&& item.apy@ == deposit.apy@
    &&& item.years@ == deposit.years@
    &&& item.outcome_as_json@ == outcome_option_json(deposit.outcome)
    &&& item.outcome_with_dates_as_json@ == outcome_with_dates_option_json(
        deposit.outcome_with_dates,
    )
}

/// What a deposit lacks for an item, if anything: first what its growth
/// needs, then what its maturity date needs.
pub open spec fn deposit_item_error(deposit: Deposit) -> Option<WriterErrorView> {
    match sorted_by(deposit.outcome, WriterErrorLevel::Deposit) {
        Err(e) => Some(e),
        Ok(_) => match matures_on(deposit) {
            Err(e) => Some(e),
            Ok(_) => None,
        },
    }
}

/// What a deposit of a bank of a portfolio is stored as: its item, or the
/// error for what it lacks.
pub open spec fn is_deposit_item_result(
    r: Result<DepositLevelItem, LevelSpecificItemWriterError>,
    wrapper: CalculatePortfolioRestWrapper,
    bank: Bank,
    deposit: Deposit,
) -> bool {
    match r {
        Ok(item) => deposit_item_error(deposit) is None && is_deposit_item(
            item,
            wrapper,
            bank,
            deposit,
            sorted_by(deposit.outcome, WriterErrorLevel::Deposit)->Ok_0.0,
            sorted_by(deposit.outcome, WriterErrorLevel::Deposit)->Ok_0.1,
            matures_on(deposit)->Ok_0,
        ),
        Err(e) => deposit_item_error(deposit) == Some(e@),
    }
}

/// Reads the maturity date of a deposit.
fn maturity_date_of(deposit: &Deposit) -> (r: Result<&String, LevelSpecificItemWriterError>)
    ensures
        match r {
            Ok(date) => matures_on(*deposit) == Ok::<Seq<char>, WriterErrorView>(date@),
            Err(e) => matures_on(*deposit) == Err::<Seq<char>, WriterErrorView>(e@),
        },
{
    let outcome_with_dates = match &deposit.outcome_with_dates {
        Some(dates) => dates,
        None => {
            return Err(
                error_with_deposit_level(
                    ItemWriterError::MissingDataField(String::from_str("outcome_with_dates")),
                ),
            );
        },
    };
    match &outcome_with_dates.maturity_date_in_bank_tz {
        Some(date) => Ok(date),
        None => Err(
            error_with_deposit_level(
                ItemWriterError::MissingDataField(String::from_str("maturity_date_in_bank_tz")),
            ),
        ),
    }
}

/// The item under which a deposit of a bank of a portfolio is stored: in the
/// partition of its portfolio, sorted by its growth or by its maturity date.
pub fn deposit_level_item(
    rest_wrapper: &CalculatePortfolioRestWrapper,
    bank: &Bank,
    deposit: &Deposit,
) -> (r: Result<DepositLevelItem, LevelSpecificItemWriterError>)
    ensures
        is_deposit_item_result(r, *rest_wrapper, *bank, *deposit),
{
    let rest = &rest_wrapper.calculate_portfolio_response;
    let pk_format_portfolio_uuid = String::from_str("PORTFOLIO#UUID#").concat(rest.uuid.as_str());
    let (delta, growth_padded) = sort_by_growth(&deposit.outcome, WriterErrorLevel::Deposit)?;
    let deposit_maturity_date_in_bank_tz = maturity_date_of(deposit)?.clone();
    let sk_format_deposit_sort_criteria = match rest_wrapper.deposit_sort_criteria {
        DepositSortCriteria::DeltaPeriodGrowth => write_growth_key(
            "DEPOSIT",
            delta,
            growth_padded.as_str(),
            rest.created_at.as_str(),
        ).concat("#DEPOSIT_UUID#").concat(deposit.uuid.as_str()),
        DepositSortCriteria::MaturityDate => String::from_str("DEPOSIT#MATURITY_DATE#").concat(
            deposit_maturity_date_in_bank_tz.as_str(),
        ).concat("#PORTFOLIO_CREATED_AT#").concat(rest.created_at.as_str()).concat(
            "#DEPOSIT_UUID#",
        ).concat(deposit.uuid.as_str()),
    };
    Ok(
        DepositLevelItem {
            pk_format_portfolio_uuid,
            sk_format_deposit_sort_criteria,
            deposit_delta_growth: delta.growth.clone(),
            deposit_maturity_date_in_bank_tz,
            bank_uuid: bank.uuid.clone(),
            bank_name: bank.name.clone(),
            portfolio_uuid: rest.uuid.clone(),
            deposit_uuid: deposit.uuid.clone(),
            account: deposit.account.clone(),
            account_type: deposit.account_type.clone(),
            apy: deposit.apy.clone(),
            years: deposit.years.clone(),
            outcome_as_json: write_outcome(&deposit.outcome),
            outcome_with_dates_as_json: write_outcome_with_dates(&deposit.outcome_with_dates),
            created_at: rest.created_at.clone(),
        },
    )
}

/// Where the deposits of banks stand when they are listed bank after bank:
/// for each the number of its bank and its number within the bank.
pub open spec fn deposit_positions(banks: Seq<Bank>) -> Seq<(int, int)>
    decreases banks.len(),
{
    if banks.len() == 0 {
        Seq::empty()
    } else {
        deposit_positions(banks.drop_last()) + Seq::new(
            banks.last().deposits@.len(),
            |j: int| (banks.len() - 1, j),
        )
    }
}

/// Whether items are those of the deposits at the given positions, in their
/// order.
pub open spec fn are_deposit_items(
    items: Seq<DepositLevelItem>,
    wrapper: CalculatePortfolioRestWrapper,
    positions: Seq<(int, int)>,
) -> bool {
    let banks = wrapper.calculate_portfolio_response.banks@;
    items.len() == positions.len() && forall|k: int|
        0 <= k < positions.len() ==> is_deposit_item_result(
            Ok(#[trigger] items[k]),
            wrapper,
            banks[positions[k].0],
            banks[positions[k].0].deposits@[positions[k].1],
        )
}

/// The items under which the deposits of a portfolio are stored: those of
/// the first bank in their order, then those of the second, and so on. The
/// first deposit that has no item ends the conversion with its error.
pub fn deposit_level_items(rest_wrapper: &CalculatePortfolioRestWrapper) -> (r: Result<
    DepositLevelItemsWrapper,
    LevelSpecificItemWriterError,
>)
    ensures
        match r {
            Ok(wrapper) => are_deposit_items(
                wrapper.deposit_level_items@,
                *rest_wrapper,
                deposit_positions(rest_wrapper.calculate_portfolio_response.banks@),
            ),
            Err(e) => exists|b: int, d: int|
                0 <= b < rest_wrapper.calculate_portfolio_response.banks@.len() && 0 <= d
                    < rest_wrapper.calculate_portfolio_response.banks@[b].deposits@.len()
                    && #[trigger] is_deposit_item_result(
                    Err(e),
                    *rest_wrapper,
                    rest_wrapper.calculate_portfolio_response.banks@[b],
                    rest_wrapper.calculate_portfolio_response.banks@[b].deposits@[d],
                ),
        },
{
    let rest = &rest_wrapper.calculate_portfolio_response;
    let ghost banks = rest.banks@;
    let mut items: Vec<DepositLevelItem> = Vec::new();
    let mut b: usize = 0;
    assert(banks.take(0) =~= Seq::empty());
    while b < rest.banks.len()
        invariant
            0 <= b <= rest.banks.len(),
            banks == rest_wrapper.calculate_portfolio_response.banks@,
            rest == &rest_wrapper.calculate_portfolio_response,
            are_deposit_items(items@, *rest_wrapper, deposit_positions(banks.take(b as int))),
        decreases rest.banks.len() - b,
    {
        let bank = &rest.banks[b];
        let ghost before = deposit_positions(banks.take(b as int));
        let ghost upto = banks.take(b + 1);
        assert(upto.drop_last() =~= banks.take(b as int));
        assert(upto.last() == banks[b as int]);
        let ghost here = Seq::new(bank.deposits@.len(), |j: int| (b as int, j));
        assert(deposit_positions(upto) == before + here);
        let mut d: usize = 0;
        assert(here.take(0) =~= Seq::empty());
        assert(before + here.take(0) =~= before);
        while d < bank.deposits.len()
            invariant
                0 <= d <= bank.deposits.len(),
                0 <= b < rest.banks.len(),
                banks == rest_wrapper.calculate_portfolio_response.banks@,
                rest == &rest_wrapper.calculate_portfolio_response,
                bank == &rest.banks[b as int],
                here == Seq::new(bank.deposits@.len(), |j: int| (b as int, j)),
                before == deposit_positions(banks.take(b as int)),
                are_deposit_items(items@, *rest_wrapper, before + here.take(d as int)),
            decreases bank.deposits.len() - d,
        {
            let ghost old_items = items@;
            let ghost old_positions = before + here.take(d as int);
            match deposit_level_item(rest_wrapper, bank, &bank.deposits[d]) {
                Ok(item) => {
                    items.push(item);
                    proof {
                        let new_positions = before + here.take(d + 1);
                        assert(new_positions =~= old_positions.push((b as int, d as int)));
                        assert forall|k: int|
                            0 <= k < new_positions.len() implies is_deposit_item_result(
                            Ok(#[trigger] items@[k]),
                            *rest_wrapper,
                            banks[new_positions[k].0],
                            banks[new_positions[k].0].deposits@[new_positions[k].1],
                        ) by {
                            if k < old_positions.len() {
                                assert(items@[k] == old_items[k]);
                                assert(new_positions[k] == old_positions[k]);
                            }
                        }
                    }
                },
                Err(e) => {
                    proof {
                        assert(is_deposit_item_result(
                            Err(e),
                            *rest_wrapper,
                            banks[b as int],
                            banks[b as int].deposits@[d as int],
                        ));
                    }
                    return Err(e);
                },
            }
            d += 1;
        }
        assert(here.take(d as int) =~= here);
        b += 1;
    }
    assert(banks.take(b as int) =~= banks);
    Ok(DepositLevelItemsWrapper { deposit_level_items: items })
}

} // verus!
