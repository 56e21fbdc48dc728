//! A trustless two-party asset-exchange protocol: one party deposits an asset
//! into an escrow custodied by a derived, keyless authority and publishes the
//! terms; a second party later settles the trade atomically through the same
//! authority, or nothing happens at all.

pub mod accounts;
pub mod error;
pub mod instruction;
pub mod ledger;
pub mod processor;
pub mod state;
pub mod wire;
