//! A ledger of client accounts driven by a stream of transaction records.
pub mod amount;
pub mod clients;
pub mod dtos;
pub mod engine;
pub mod errors;
pub mod laws;
pub mod transactions;

pub use amount::Amount;
pub use clients::{Client, Clients};
pub use dtos::{TransactionRecord, TransactionType};
pub use engine::Engine;
pub use errors::Error;
pub use transactions::{Kind, Transaction, Transactions};

use vstd::prelude::*;

verus! {

/// Identifies a client and its account.
pub type ClientID = u16;

/// Identifies a transaction, across all clients.
pub type TransactionID = u32;

} // verus!
