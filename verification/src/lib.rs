//! Interest-growth projections for a portfolio of bank deposits.
//!
//! A request names banks, each with its deposits, and one reporting period.
//! For every deposit the library computes the interest over the deposit's
//! duration, the growth within the reporting period and the maturity date; it
//! then sums the figures per bank and over the whole portfolio.

pub mod cal_types;
pub mod convert;
pub mod date;
pub mod db_item_types;
pub mod decimal;
pub mod decimal_laws;
pub mod event_source;
pub mod handler_error;
pub mod identifier;
pub mod math;
pub mod query;
pub mod query_response_types;
pub mod rest_types;
pub mod text;
pub mod timezone;
