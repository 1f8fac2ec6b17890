//! A ledger of one player's game statistics, kept by a contract instance:
//! the best score and the counts of games played, won and lost. Operations
//! and messages each report one finished game; queries read the record.

pub mod ledger;
pub mod stats;
pub mod text;
