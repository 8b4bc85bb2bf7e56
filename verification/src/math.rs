//! The calculators: interest, growth, maturity date, the sums over deposits
//! and banks, and the engine that builds a response from a request.

pub mod accumulator;
pub mod compound_interest;
pub mod engine;
pub mod growth;
pub mod individual_calculation_error;
pub mod maturity_date;
pub mod outcome;
pub mod simple_interest;
pub mod total;
