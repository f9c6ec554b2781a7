//! The custody and settlement core of a bitcoin wallet service: the UTXO table and its state
//! machine, batch construction for payout queues, and the double-entry ledger postings that
//! mirror every on-chain event.
use vstd::prelude::*;

pub mod address;
pub mod batch;
pub mod cli;
pub mod entity;
pub mod job;
pub mod ledger;
pub mod payout;
pub mod primitives;
pub mod profile;
pub mod sync;
pub mod utxo;
pub mod wallet;
pub mod xpub;

verus! {

} // verus!
