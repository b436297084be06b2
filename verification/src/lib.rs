//! An escrow-backed English auction for a uniquely owned asset, as a state
//! machine over plain values. Each operation validates its preconditions,
//! updates the auction record and returns the ledger transfers and the
//! notification that the host is to carry out atomically.

pub mod address;
pub mod auction;
pub mod fee;
pub mod laws;
pub mod ledger;
pub mod registry;
