use vstd::prelude::*;

pub mod bridge;
pub mod catalog;
pub mod cells;
pub mod config;
pub mod connection;
pub mod decimal;
pub mod detect;
pub mod documents;
pub mod credentials;
pub mod export;
pub mod export_run;
pub mod jobs;
pub mod ledger;
pub mod ledger_xlsx;
pub mod ledger_sql;
pub mod report_laws;
pub mod schema;
pub mod rows;
pub mod sage1000_sql;
pub mod session;
pub mod settings;
pub mod sql;
pub mod streaming;
pub mod text;
pub mod tiers_sql;
pub mod xlsx;
pub mod zip;

verus! {
} // verus!
