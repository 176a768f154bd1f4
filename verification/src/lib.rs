//! Match-result oracle: the ledger model and the rules of the oracle contract.

pub mod errors;
pub mod types;
pub mod host;
pub mod oracle;
pub mod laws;
pub mod escrow;
pub mod behaviour;
