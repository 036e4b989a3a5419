//! A poll ledger: polls with a voting window, candidates registered to a
//! poll, and votes counted once per voter.

pub mod error;
pub mod laws;
pub mod ledger;
pub mod records;
