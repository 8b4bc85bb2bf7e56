//! The items under which a calculated portfolio is stored in a single table.
//!
//! The ways in which the table is read decide the keys: all portfolios share
//! one partition and are sorted by growth; the banks and deposits of a
//! portfolio share the portfolio's partition and are sorted by growth or by
//! maturity date.

use crate::rest_types::CalculatePortfolioResponse;
use vstd::prelude::*;

verus! {

/// The item of a portfolio, in the partition of all portfolios.
#[derive(Debug)]
pub struct PortfolioLevelItem {
    pub pk_portfolios: String,
    pub sk_format_portfolio_delta_growth: String,
    pub portfolio_uuid: String,
    pub outcome_as_json: String,
    pub created_at: String,
}

/// The items of the banks of a portfolio.
#[derive(Debug)]
pub struct BankLevelItemsWrapper {
    pub items: Vec<BankLevelItem>,
}

/// The item of a bank, in the partition of its portfolio.
#[derive(Debug)]
pub struct BankLevelItem {
    pub pk_format_portfolio_uuid: String,
    pub sk_format_bank_delta_growth: String,
    pub bank_uuid: String,
    pub bank_name: String,
    pub portfolio_uuid: String,
    pub bank_tz: String,
    pub outcome_as_json: String,
    pub created_at: String,
}

/// The items of the deposits of a portfolio, over all its banks.
#[derive(Debug)]
pub struct DepositLevelItemsWrapper {
    pub deposit_level_items: Vec<DepositLevelItem>,
}

/// By what the deposits of a portfolio are sorted.
#[derive(Debug, Clone, Copy, PartialEq, Eq, Structural)]
pub enum DepositSortCriteria {
    DeltaPeriodGrowth,
    MaturityDate,
}

impl Default for DepositSortCriteria {
    fn default() -> (c: DepositSortCriteria)
        ensures
            c == DepositSortCriteria::DeltaPeriodGrowth,
    {
        DepositSortCriteria::DeltaPeriodGrowth
    }
}

/// A calculated portfolio and the order in which its deposits are to be stored.
#[derive(Debug)]
pub struct CalculatePortfolioRestWrapper {
    pub calculate_portfolio_response: CalculatePortfolioResponse,
    pub deposit_sort_criteria: DepositSortCriteria,
}

/// The item of a deposit, in the partition of its portfolio.
#[derive(Debug)]
pub struct DepositLevelItem {
    pub pk_format_portfolio_uuid: String,
    pub sk_format_deposit_sort_criteria: String,
    pub deposit_delta_growth: String,
    pub deposit_maturity_date_in_bank_tz: String,
    pub created_at: String,
    pub bank_uuid: String,
    pub bank_name: String,
    pub portfolio_uuid: String,
    pub deposit_uuid: String,
    pub account: String,
    pub account_type: String,
    pub apy: String,
    pub years: String,
    pub outcome_as_json: String,
    pub outcome_with_dates_as_json: String,
}

} // verus!
