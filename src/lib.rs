//! Locating transaction records by address (and optionally by amount) in a
//! columnar table of `from_address`, `to_address`, `value` rows.
pub mod amount;
pub mod bigquery_transactions;
pub mod config;
pub mod contract_runner;
pub mod errors;
pub mod lemmas;
pub mod opt;
