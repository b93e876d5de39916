//! Conditional custody of fungible value: a sender locks an amount under a
//! claim condition keyed to a hashed recipient identifier; the recipient
//! claims it before expiry, or the sender takes it back afterwards.
pub mod custody;
pub mod escrow;
pub mod laws;
pub mod ledger;
pub mod program;
pub mod store;
