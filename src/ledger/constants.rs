use vstd::prelude::*;

verus! {

// Transaction template codes and ids.
pub const UTXO_DETECTED_CODE: &'static str = "UTXO_DETECTED";
pub const UTXO_DETECTED_ID: u128 = 1;
pub const CONFIRMED_UTXO_CODE: &'static str = "CONFIRMED_UTXO";
pub const CONFIRMED_UTXO_ID: u128 = 2;
pub const QUEUED_PAYOUT_CODE: &'static str = "QUEUED_PAYOUT";
pub const QUEUED_PAYOUT_ID: u128 = 3;
pub const CREATE_BATCH_CODE: &'static str = "CREATE_BATCH";
pub const CREATE_BATCH_ID: u128 = 4;
pub const SPEND_DETECTED_CODE: &'static str = "SPEND_DETECTED";
pub const SPEND_DETECTED_ID: u128 = 5;
pub const SPEND_SETTLED_CODE: &'static str = "SPEND_SETTLED";
pub const SPEND_SETTLED_ID: u128 = 6;
pub const PAYOUT_CANCELLED_CODE: &'static str = "PAYOUT_CANCELLED";
pub const PAYOUT_CANCELLED_ID: u128 = 7;

// Omnibus ledger accounts, mirroring each wallet's own.
pub const ONCHAIN_UTXO_INCOMING_ID: u128 = 1;
pub const ONCHAIN_UTXO_AT_REST_ID: u128 = 2;
pub const ONCHAIN_FEE_ID: u128 = 3;
pub const ONCHAIN_UTXO_OUTGOING_ID: u128 = 4;
pub const EFFECTIVE_OUTGOING_ID: u128 = 5;

} // verus!
