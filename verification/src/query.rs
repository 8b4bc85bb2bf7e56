//! Reading stored items by level: what is asked of the table, and what is
//! made of its answer.
//!
//! The table is asked by the caller. The library says what to ask for, takes
//! the items from the top of the answer and turns them into answers of its
//! own.

use crate::convert::reader::{
    bank_level_item_from_attributes, deposit_level_item_from_attributes, first_unreadable,
    is_stored_bank, is_stored_deposit, is_stored_portfolio, bank_attributes, deposit_attributes,
    portfolio_attributes, portfolio_level_item_from_attributes, Attribute,
    LevelSpecificItemReaderError, LevelSpecificResponseReaderError, ReaderErrorLevel,
};
use crate::db_item_types::{
    BankLevelItem, DepositLevelItem, DepositSortCriteria, PortfolioLevelItem,
};
use crate::query_response_types::{
    BankData, BankResponse, ByLevelForBanks, ByLevelForDeposits, ByLevelForPortfolios,
    DepositData, DepositResponse, ItemParamsRequest, Metadata, Order, PortfolioData,
    PortfolioResponse, DEFAULT_TOP_K,
};
use vstd::prelude::*;
use vstd::string::*;

verus! {

/// Why a query failed.
#[derive(Debug)]
pub enum QueryItemError {
    /// The table could not be asked; the text says why.
    DynamoDbSdkError(String),
    /// The table counted items and returned none.
    QueryNoItemFound(String),
    LevelSpecificItemReaderError(LevelSpecificItemReaderError),
    LevelSpecificResponseReaderError(LevelSpecificResponseReaderError),
}

/// What is asked of the table: the items of a partition whose sort key
/// begins with a prefix, read forward or backward.
#[derive(Debug)]
pub struct QueryParams {
    pub table: String,
    pub pk: String,
    pub sk: String,
    pub partition_key_value: String,
    pub sort_key_value: String,
    pub forward: bool,
}

/// The order that a reader chose: descending where none is named.
pub open spec fn order_of(params: ItemParamsRequest) -> Order {
    match params.order {
        Some(order) => order,
        None => Order::Descending,
    }
}

/// The number of items that a reader chose: two where none is named.
pub open spec fn top_k_of(params: ItemParamsRequest) -> usize {
    match params.top_k {
        Some(k) => k,
        None => DEFAULT_TOP_K,
    }
}

/// The prefix of the sort keys of the deposits sorted by a criterion.
pub open spec fn deposit_prefix(criteria: DepositSortCriteria) -> Seq<char> {
    match criteria {
        DepositSortCriteria::DeltaPeriodGrowth => "DEPOSIT#PERIOD#"@,
        DepositSortCriteria::MaturityDate => "DEPOSIT#MATURITY_DATE#"@,
    }
}

/// Whether a query asks for the items of a portfolio whose sort key begins
/// with a prefix, in the order that the reader chose.
pub open spec fn is_query_for(
    query: QueryParams,
    table: Seq<char>,
    params: ItemParamsRequest,
    pk_portfolio_uuid: Seq<char>,
    prefix: Seq<char>,
) -> bool {
    &&& query.table@ == table
    &&& query.pk@ == "PK"@
    &&& query.sk@ == "SK"@
    &&& query.partition_key_value@ == "PORTFOLIO#UUID#"@ + pk_portfolio_uuid
    &&& query.sort_key_value@ == prefix
    &&& query.forward == (order_of(params) == Order::Ascending)
}

/// Whether a metadata says how an answer was chosen.
pub open spec fn is_metadata_for(
    metadata: Metadata,
    params: ItemParamsRequest,
    description: Seq<char>,
) -> bool {
    &&& metadata.order == order_of(params)
    &&& metadata.top_k == top_k_of(params)
    &&& metadata.sort_criteria_description@ == description
}

/// How the portfolios are described that an answer holds.
pub open spec fn portfolios_description() -> Seq<char> {
    "Calculation results sorted by delta period growth for the overall calculation at the portfolios level"@
}

/// How the banks are described that an answer holds.
pub open spec fn banks_description(pk_portfolio_uuid: Seq<char>) -> Seq<char> {
    "Calculation results sorted by delta period growth at the banks level for portfolio "@
        + pk_portfolio_uuid
}

/// How the deposits are described that an answer holds.
pub open spec fn deposits_description(criteria: DepositSortCriteria, pk_portfolio_uuid: Seq<char>)
    -> Seq<char> {
    match criteria {
        DepositSortCriteria::DeltaPeriodGrowth =>
            "Calculation results sorted by delta period growth at the deposits level for portfolio "@
                + pk_portfolio_uuid,
        DepositSortCriteria::MaturityDate =>
            "Calculation results sorted by maturity date at the deposits level for portfolio "@
                + pk_portfolio_uuid,
    }
}

fn chosen_order(params: &ItemParamsRequest) -> (order: Order)
    ensures
        order == order_of(*params),
{
    match params.order {
        Some(order) => order,
        None => Order::default(),
    }
}

fn chosen_top_k(params: &ItemParamsRequest) -> (k: usize)
    ensures
        k == top_k_of(*params),
{
    match params.top_k {
        Some(k) => k,
        None => DEFAULT_TOP_K,
    }
}

fn begins_with_query(table: &str, forward: bool, pk_portfolio_uuid: &str, prefix: &str) -> (query:
    QueryParams)
    ensures
        query.table@ == table@,
        query.pk@ == "PK"@,
        query.sk@ == "SK"@,
        query.partition_key_value@ == "PORTFOLIO#UUID#"@ + pk_portfolio_uuid@,
        query.sort_key_value@ == prefix@,
        query.forward == forward,
{
    QueryParams {
        table: String::from_str(table),
        pk: String::from_str("PK"),
        sk: String::from_str("SK"),
        partition_key_value: String::from_str("PORTFOLIO#UUID#").concat(pk_portfolio_uuid),
        sort_key_value: String::from_str(prefix),
        forward,
    }
}

/// How an answer with portfolios is chosen. The portfolios all stand in the
/// partition `PORTFOLIOS`; whether it is read forward is the second result.
pub fn query_portfolios(query_item_params: &ItemParamsRequest) -> (r: (Metadata, bool))
    ensures
        is_metadata_for(r.0, *query_item_params, portfolios_description()),
        r.1 == (order_of(*query_item_params) == Order::Ascending),
{
    let order = chosen_order(query_item_params);
    let top_k = chosen_top_k(query_item_params);
    let forward = order.scan_forward();
    let sort_criteria_description = String::from_str(
        "Calculation results sorted by delta period growth for the overall calculation at the portfolios level",
    );
    (Metadata { order, top_k, sort_criteria_description }, forward)
}

/// What is asked of the table for the banks of a portfolio, and how the
/// answer is chosen.
pub fn query_banks(table: &str, query_item_params: &ItemParamsRequest, pk_portfolio_uuid: &str)
    -> (r: (QueryParams, Metadata))
    ensures
        is_query_for(r.0, table@, *query_item_params, pk_portfolio_uuid@, "BANK#PERIOD#"@),
        is_metadata_for(r.1, *query_item_params, banks_description(pk_portfolio_uuid@)),
{
    let order = chosen_order(query_item_params);
    let top_k = chosen_top_k(query_item_params);
    let query = begins_with_query(table, order.scan_forward(), pk_portfolio_uuid, "BANK#PERIOD#");
    let sort_criteria_description = String::from_str(
        "Calculation results sorted by delta period growth at the banks level for portfolio ",
    ).concat(pk_portfolio_uuid);
    (query, Metadata { order, top_k, sort_criteria_description })
}

/// What is asked of the table for the deposits of a portfolio, sorted by
/// growth or by maturity date, and how the answer is chosen.
pub fn query_deposits(
    table: &str,
    query_item_params: &ItemParamsRequest,
    pk_portfolio_uuid: &str,
    sort_criteria: DepositSortCriteria,
) -> (r: (QueryParams, Metadata))
    ensures
        is_query_for(
            r.0,
            table@,
            *query_item_params,
            pk_portfolio_uuid@,
            deposit_prefix(sort_criteria),
        ),
        is_metadata_for(
            r.1,
            *query_item_params,
            deposits_description(sort_criteria, pk_portfolio_uuid@),
        ),
{
    let order = chosen_order(query_item_params);
    let top_k = chosen_top_k(query_item_params);
    let (sort_key_value, sort_criteria_description) = match sort_criteria {
        DepositSortCriteria::DeltaPeriodGrowth => (
            "DEPOSIT#PERIOD#",
            String::from_str(
                "Calculation results sorted by delta period growth at the deposits level for portfolio ",
            ).concat(pk_portfolio_uuid),
        ),
        DepositSortCriteria::MaturityDate => (
            "DEPOSIT#MATURITY_DATE#",
            String::from_str(
                "Calculation results sorted by maturity date at the deposits level for portfolio ",
            ).concat(pk_portfolio_uuid),
        ),
    };
    let query = begins_with_query(table, order.scan_forward(), pk_portfolio_uuid, sort_key_value);
    (query, Metadata { order, top_k, sort_criteria_description })
}

/// How many items of an answer are taken: the first `top_k`, or all where
/// there are fewer.
pub open spec fn taken(available: int, top_k: int) -> int {
    if available <= top_k {
        available
    } else {
        top_k
    }
}

/// What the answer of the table holds for a reader: nothing where the table
/// counted no items, else its items, which must then be there.
pub open spec fn answered(count: i32, items: Option<Vec<Vec<Attribute>>>) -> Option<
    Seq<Vec<Attribute>>,
> {
    if count == 0 {
        Some(Seq::empty())
    } else {
        match items {
            Some(items) => Some(items@),
            None => None,
        }
    }
}

/// Whether an error says that the table counted items and returned none.
pub open spec fn is_no_item_found(error: QueryItemError, place: Seq<char>) -> bool {
    error matches QueryItemError::QueryNoItemFound(text) && text@ == place
}

/// Whether an error is that of the first of the items at the top that cannot
/// be read: the attributes of the items before it can all be read.
pub open spec fn is_first_unreadable(
    error: QueryItemError,
    items: Seq<Vec<Attribute>>,
    top_k: int,
    names: Seq<Seq<char>>,
    level: ReaderErrorLevel,
) -> bool {
    error matches QueryItemError::LevelSpecificItemReaderError(e) && exists|i: int|
        0 <= i < taken(items.len() as int, top_k) && #[trigger] first_unreadable(
            items[i]@,
            names,
            level,
        ) == Some(e@) && forall|j: int|
            0 <= j < i ==> (#[trigger] first_unreadable(items[j]@, names, level)) is None
}

/// The portfolio items at the top of the answer of the table, in its order.
pub fn portfolio_level_items(count: i32, items: Option<Vec<Vec<Attribute>>>, top_k: usize) -> (r:
    Result<Vec<PortfolioLevelItem>, QueryItemError>)
    ensures
        match r {
            Ok(read) => answered(count, items) matches Some(stored) && read@.len() == taken(
                stored.len() as int,
                top_k as int,
            ) && forall|i: int|
                0 <= i < read@.len() ==> is_stored_portfolio(#[trigger] read@[i], stored[i]@),
            Err(e) => match answered(count, items) {
                None => is_no_item_found(e, "In query_portfolios_level_item"@),
                Some(stored) => is_first_unreadable(
                    e,
                    stored,
                    top_k as int,
                    portfolio_attributes(),
                    ReaderErrorLevel::Portfolio,
                ),
            },
        },
{
    let mut read: Vec<PortfolioLevelItem> = Vec::new();
    if count == 0 {
        return Ok(read);
    }
    let db_items = match items {
        Some(db_items) => db_items,
        None => {
            return Err(
                QueryItemError::QueryNoItemFound(
                    String::from_str("In query_portfolios_level_item"),
                ),
            );
        },
    };
    let mut i: usize = 0;
    while i < db_items.len() && i < top_k
        invariant
            0 <= i <= db_items.len(),
            i <= top_k,
            read@.len() == i,
            answered(count, items) == Some(db_items@),
            forall|j: int| 0 <= j < i ==> is_stored_portfolio(#[trigger] read@[j], db_items@[j]@),
        decreases db_items.len() - i,
    {
        match portfolio_level_item_from_attributes(db_items[i].as_slice()) {
            Ok(item) => {
                read.push(item);
            },
            Err(e) => {
                let error = QueryItemError::LevelSpecificItemReaderError(e);
                proof {
                    lemma_readable_portfolios(read@, db_items@, i as int);
                    assert(first_unreadable(db_items@[i as int]@, portfolio_attributes(), ReaderErrorLevel::Portfolio) == Some(e@));
                    assert(0 <= i < taken(db_items@.len() as int, top_k as int));
                    assert(is_first_unreadable(error, db_items@, top_k as int, portfolio_attributes(), ReaderErrorLevel::Portfolio));
                }
                return Err(error);
            },
        }
        i += 1;
    }
    Ok(read)
}

/// The bank items at the top of the answer of the table, in its order.
pub fn bank_level_items(count: i32, items: Option<Vec<Vec<Attribute>>>, top_k: usize) -> (r:
    Result<Vec<BankLevelItem>, QueryItemError>)
    ensures
        match r {
            Ok(read) => answered(count, items) matches Some(stored) && read@.len() == taken(
                stored.len() as int,
                top_k as int,
            ) && forall|i: int|
                0 <= i < read@.len() ==> is_stored_bank(#[trigger] read@[i], stored[i]@),
            Err(e) => match answered(count, items) {
                None => is_no_item_found(e, "In query_banks_level_item"@),
                Some(stored) => is_first_unreadable(
                    e,
                    stored,
                    top_k as int,
                    bank_attributes(),
                    ReaderErrorLevel::Bank,
                ),
            },
        },
{
    let mut read: Vec<BankLevelItem> = Vec::new();
    if count == 0 {
        return Ok(read);
    }
    let db_items = match items {
        Some(db_items) => db_items,
        None => {
            return Err(
                QueryItemError::QueryNoItemFound(String::from_str("In query_banks_level_item")),
            );
        },
    };
    let mut i: usize = 0;
    while i < db_items.len() && i < top_k
        invariant
            0 <= i <= db_items.len(),
            i <= top_k,
            read@.len() == i,
            answered(count, items) == Some(db_items@),
            forall|j: int| 0 <= j < i ==> is_stored_bank(#[trigger] read@[j], db_items@[j]@),
        decreases db_items.len() - i,
    {
        match bank_level_item_from_attributes(db_items[i].as_slice()) {
            Ok(item) => {
                read.push(item);
            },
            Err(e) => {
                let error = QueryItemError::LevelSpecificItemReaderError(e);
                proof {
                    lemma_readable_banks(read@, db_items@, i as int);
                    assert(first_unreadable(db_items@[i as int]@, bank_attributes(), ReaderErrorLevel::Bank) == Some(e@));
                    assert(0 <= i < taken(db_items@.len() as int, top_k as int));
                    assert(is_first_unreadable(error, db_items@, top_k as int, bank_attributes(), ReaderErrorLevel::Bank));
                }
                return Err(error);
            },
        }
        i += 1;
    }
    Ok(read)
}

/// The deposit items at the top of the answer of the table, in its order.
pub fn deposit_level_items(count: i32, items: Option<Vec<Vec<Attribute>>>, top_k: usize) -> (r:
    Result<Vec<DepositLevelItem>, QueryItemError>)
    ensures
        match r {
            Ok(read) => answered(count, items) matches Some(stored) && read@.len() == taken(
                stored.len() as int,
                top_k as int,
            ) && forall|i: int|
                0 <= i < read@.len() ==> is_stored_deposit(#[trigger] read@[i], stored[i]@),
            Err(e) => match answered(count, items) {
                None => is_no_item_found(e, "In query_bank_deposits_level_item"@),
                Some(stored) => is_first_unreadable(
                    e,
                    stored,
                    top_k as int,
                    deposit_attributes(),
                    ReaderErrorLevel::Deposit,
                ),
            },
        },
{
    let mut read: Vec<DepositLevelItem> = Vec::new();
    if count == 0 {
        return Ok(read);
    }
    let db_items = match items {
        Some(db_items) => db_items,
        None => {
            return Err(
                QueryItemError::QueryNoItemFound(
                    String::from_str("In query_bank_deposits_level_item"),
                ),
            );
        },
    };
    let mut i: usize = 0;
    while i < db_items.len() && i < top_k
        invariant
            0 <= i <= db_items.len(),
            i <= top_k,
            read@.len() == i,
            answered(count, items) == Some(db_items@),
            forall|j: int| 0 <= j < i ==> is_stored_deposit(#[trigger] read@[j], db_items@[j]@),
        decreases db_items.len() - i,
    {
        match deposit_level_item_from_attributes(db_items[i].as_slice()) {
            Ok(item) => {
                read.push(item);
            },
            Err(e) => {
                let error = QueryItemError::LevelSpecificItemReaderError(e);
                proof {
                    lemma_readable_deposits(read@, db_items@, i as int);
                    assert(first_unreadable(db_items@[i as int]@, deposit_attributes(), ReaderErrorLevel::Deposit) == Some(e@));
                    assert(0 <= i < taken(db_items@.len() as int, top_k as int));
                    assert(is_first_unreadable(error, db_items@, top_k as int, deposit_attributes(), ReaderErrorLevel::Deposit));
                }
                return Err(error);
            },
        }
        i += 1;
    }
    Ok(read)
}

/// Items that were read have attributes that can all be read.
proof fn lemma_readable_portfolios(
    read: Seq<PortfolioLevelItem>,
    stored: Seq<Vec<Attribute>>,
    n: int,
)
    requires
        0 <= n <= read.len(),
        n <= stored.len(),
        forall|j: int| 0 <= j < n ==> is_stored_portfolio(#[trigger] read[j], stored[j]@),
    ensures
        forall|j: int|
            0 <= j < n ==> (#[trigger] first_unreadable(
                stored[j]@,
                portfolio_attributes(),
                ReaderErrorLevel::Portfolio,
            )) is None,
{
    reveal_with_fuel(first_unreadable, 6);
    assert forall|j: int| 0 <= j < n implies (#[trigger] first_unreadable(
        stored[j]@,
        portfolio_attributes(),
        ReaderErrorLevel::Portfolio,
    )) is None by {
        assert(is_stored_portfolio(read[j], stored[j]@));
    }
}

/// Items that were read have attributes that can all be read.
proof fn lemma_readable_banks(read: Seq<BankLevelItem>, stored: Seq<Vec<Attribute>>, n: int)
    requires
        0 <= n <= read.len(),
        n <= stored.len(),
        forall|j: int| 0 <= j < n ==> is_stored_bank(#[trigger] read[j], stored[j]@),
    ensures
        forall|j: int|
            0 <= j < n ==> (#[trigger] first_unreadable(
                stored[j]@,
                bank_attributes(),
                ReaderErrorLevel::Bank,
            )) is None,
{
    reveal_with_fuel(first_unreadable, 9);
    assert forall|j: int| 0 <= j < n implies (#[trigger] first_unreadable(
        stored[j]@,
        bank_attributes(),
        ReaderErrorLevel::Bank,
    )) is None by {
        assert(is_stored_bank(read[j], stored[j]@));
    }
}

/// Items that were read have attributes that can all be read.
proof fn lemma_readable_deposits(read: Seq<DepositLevelItem>, stored: Seq<Vec<Attribute>>, n: int)
    requires
        0 <= n <= read.len(),
        n <= stored.len(),
        forall|j: int| 0 <= j < n ==> is_stored_deposit(#[trigger] read[j], stored[j]@),
    ensures
        forall|j: int|
            0 <= j < n ==> (#[trigger] first_unreadable(
                stored[j]@,
                deposit_attributes(),
                ReaderErrorLevel::Deposit,
            )) is None,
{
    reveal_with_fuel(first_unreadable, 16);
    assert forall|j: int| 0 <= j < n implies (#[trigger] first_unreadable(
        stored[j]@,
        deposit_attributes(),
        ReaderErrorLevel::Deposit,
    )) is None by {
        assert(is_stored_deposit(read[j], stored[j]@));
    }
}

/// The answer with the portfolios that were read, in their order, and their
/// number.
pub fn by_level_for_portfolios(responses: Vec<PortfolioResponse>, metadata: Metadata) -> (r:
    ByLevelForPortfolios)
    ensures
        r.data.responses == responses,
        r.data.count_responses == responses@.len(),
        r.metadata == metadata,
{
    let count_responses = responses.len();
    ByLevelForPortfolios { data: PortfolioData { responses, count_responses }, metadata }
}

/// The answer with the banks that were read, in their order, and their number.
pub fn by_level_for_banks(responses: Vec<BankResponse>, metadata: Metadata) -> (r: ByLevelForBanks)
    ensures
        r.data.responses == responses,
        r.data.count_responses == responses@.len(),
        r.metadata == metadata,
{
    let count_responses = responses.len();
    ByLevelForBanks { data: BankData { responses, count_responses }, metadata }
}

/// The answer with the deposits that were read, in their order, and their
/// number.
pub fn by_level_for_deposits(responses: Vec<DepositResponse>, metadata: Metadata) -> (r:
    ByLevelForDeposits)
    ensures
        r.data.responses == responses,
        r.data.count_responses == responses@.len(),
        r.metadata == metadata,
{
    let count_responses = responses.len();
    ByLevelForDeposits { data: DepositData { responses, count_responses }, metadata }
}

} // verus!
