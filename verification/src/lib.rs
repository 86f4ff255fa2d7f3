//! A Stellar ledger sandbox for Soroban contract testing: accounts, ledger
//! entries with time to live, transaction validation and bookkeeping.

pub mod bytes;
pub mod crypto;
pub mod executor;
pub mod laws;
pub mod ledger_info;
pub mod memory;
pub mod model;
pub mod network_config;
pub mod sandbox;
pub mod transaction;
pub mod tx_storage;
pub mod utils;
pub mod validation;
pub mod xdr;
