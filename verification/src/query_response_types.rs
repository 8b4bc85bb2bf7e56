//! What a reader of the table asks for and what it is answered.

use crate::rest_types::{Outcome, OutcomeWithDates};
use vstd::prelude::*;

verus! {

/// The number of items that are returned where the reader names none.
pub const DEFAULT_TOP_K: usize = 2;

/// What a reader may choose: the order, and how many items from the top.
#[derive(Debug)]
pub struct ItemParamsRequest {
    pub order: Option<Order>,
    pub top_k: Option<usize>,
}

/// The order in which items are returned.
#[derive(Debug, Clone, Copy, PartialEq, Eq, Structural)]
pub enum Order {
    Descending,
    Ascending,
}

impl Default for Order {
    fn default() -> (o: Order)
        ensures
            o == Order::Descending,
    {
        Order::Descending
    }
}

impl Order {
    /// Whether the table is to be read forward: so it is for the ascending order.
    pub fn scan_forward(&self) -> (forward: bool)
        ensures
            forward == (*self == Order::Ascending),
    {
        match self {
            Order::Ascending => true,
            Order::Descending => false,
        }
    }
}

/// How an answer was chosen.
#[derive(Debug)]
pub struct Metadata {
    pub order: Order,
    pub top_k: usize,
    pub sort_criteria_description: String,
}

/// Portfolios sorted by growth within the reporting period.
#[derive(Debug)]
pub struct ByLevelForPortfolios {
    pub data: PortfolioData,
    pub metadata: Metadata,
}

#[derive(Debug)]
pub struct PortfolioData {
    pub responses: Vec<PortfolioResponse>,
    pub count_responses: usize,
}

#[derive(Debug)]
pub struct PortfolioResponse {
    pub portfolio_uuid: String,
    pub outcome: Outcome,
    pub created_at: String,
}

/// The banks of a portfolio sorted by growth within the reporting period.
#[derive(Debug)]
pub struct ByLevelForBanks {
    pub data: BankData,
    pub metadata: Metadata,
}

#[derive(Debug)]
pub struct BankData {
    pub responses: Vec<BankResponse>,
    pub count_responses: usize,
}

#[derive(Debug)]
pub struct BankResponse {
    pub bank_uuid: String,
    pub bank_name: String,
    pub portfolio_uuid: String,
    pub bank_tz: String,
    pub outcome: Outcome,
    pub created_at: String,
}

/// The deposits of a portfolio, over all its banks, sorted by growth within
/// the reporting period or by maturity date.
#[derive(Debug)]
pub struct ByLevelForDeposits {
    pub data: DepositData,
    pub metadata: Metadata,
}

#[derive(Debug)]
pub struct DepositData {
    pub responses: Vec<DepositResponse>,
    pub count_responses: usize,
}

#[derive(Debug)]
pub struct DepositResponse {
    pub deposit_uuid: String,
    pub bank_uuid: String,
    pub bank_name: String,
    pub portfolio_uuid: String,
    pub account: String,
    pub account_type: String,
    pub apy: String,
    pub years: String,
    pub deposit_delta_growth: String,
    pub deposit_maturity_date_in_bank_tz: String,
    pub outcome: Outcome,
    pub outcome_with_dates: OutcomeWithDates,
    pub created_at: String,
}

} // verus!
