//! A two-phase verifiable-randomness handshake between a user-owned ledger
//! account and a randomness oracle: a request that names its callback, and the
//! callback that authenticates the oracle and commits the delivered value.

pub mod derivation;
pub mod errors;
pub mod identity;
pub mod instructions;
pub mod oracle;
pub mod state;
