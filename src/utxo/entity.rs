use vstd::prelude::*;

use crate::primitives::{AccountId, BatchId, FeeRate, KeychainId, KeychainKind, LedgerTransactionId, OutPoint, Satoshis, WalletId};

verus! {

/// An address handed out by a keychain.
pub struct AddressInfo {
    pub index: u32,
    pub address: String,
    pub keychain: KeychainKind,
}

/// The output a transaction pays to; the locking script is given in lower-case hex.
pub struct TxOut {
    pub value: u64,
    pub script_hex: String,
}

/// An unspent output as the wallet engine reports it.
pub struct LocalUtxo {
    pub outpoint: OutPoint,
    pub txout: TxOut,
    pub keychain: KeychainKind,
    pub is_spent: bool,
}

/// One row of the UTXO table.
///
/// The first block of fields never changes after insertion; the optional ledger transaction
/// ids and the spending fields record the state transitions the UTXO went through.
pub struct WalletUtxo {
    pub account_id: AccountId,
    pub wallet_id: WalletId,
    pub keychain_id: KeychainId,
    pub outpoint: OutPoint,
    pub kind: KeychainKind,
    pub address_idx: u32,
    pub address: String,
    pub script_hex: String,
    pub value: Satoshis,
    pub sats_per_vbyte_when_created: u64,
    pub self_pay: bool,
    pub bdk_spent: bool,
    pub utxo_detected_ledger_tx_id: LedgerTransactionId,
    pub utxo_settled_ledger_tx_id: Option<LedgerTransactionId>,
    pub block_height: Option<u32>,
    pub spending_batch_id: Option<BatchId>,
    pub spending_ledger_tx_id: Option<LedgerTransactionId>,
    pub spending_fee_rate: Option<FeeRate>,
    pub spend_detected_ledger_tx_id: Option<LedgerTransactionId>,
    pub spend_settled_ledger_tx_id: Option<LedgerTransactionId>,
}

/// What a confirmation returns of the settled row.
pub struct SettledUtxo {
    pub keychain_id: KeychainId,
    pub outpoint: OutPoint,
    pub address_idx: u32,
    pub address: String,
    pub value: Satoshis,
    pub block_height: u32,
    pub utxo_detected_ledger_tx_id: LedgerTransactionId,
    pub utxo_settled_ledger_tx_id: LedgerTransactionId,
    pub spend_detected_ledger_tx_id: Option<LedgerTransactionId>,
    pub spending_batch_id: Option<BatchId>,
}

/// The rows of one keychain.
pub struct KeychainUtxos {
    pub keychain_id: KeychainId,
    pub utxos: Vec<KeychainUtxo>,
}

/// An unspent output as listed for its keychain: the row, and the address it is shown with.
/// Only an output paid to a receiving (External) address is shown with one; change has none.
pub struct KeychainUtxo {
    pub utxo: WalletUtxo,
    pub address: Option<String>,
}

/// Why a change to the UTXO table was refused.
#[derive(PartialEq, Eq, Structural, Clone, Copy, Debug)]
pub enum UtxoError {
    UtxoDoesNotExist,
    UtxoAlreadySettled,
    UtxoAlreadyReserved,
    UtxoAlreadySpent,
    AmountOverflow,
    /// No unused ledger transaction id could be found: the table already uses the largest one.
    LedgerTxIdsExhausted,
}

impl WalletUtxo {
    pub open spec fn key(&self) -> (KeychainId, OutPoint) {
        (self.keychain_id, self.outpoint)
    }

    /// The state invariants of a single row.
    pub open spec fn wf(&self) -> bool {
        &&& self.utxo_settled_ledger_tx_id.is_some() <==> self.block_height.is_some()
        &&& self.spending_batch_id.is_some() <==> self.spending_ledger_tx_id.is_some()
        &&& self.spending_batch_id.is_some() <==> self.spending_fee_rate.is_some()
        &&& self.spend_settled_ledger_tx_id.is_some() ==> self.spend_detected_ledger_tx_id.is_some()
    }

    /// Not to be handed to coin selection: already in a batch, or an incoming payment that
    /// has not been settled yet.
    pub open spec fn blocked_for_selection(&self) -> bool {
        self.spending_batch_id.is_some() || (self.kind == KeychainKind::External
            && self.utxo_settled_ledger_tx_id.is_none())
    }

    /// `new` keeps everything that `self` has set: identity and value unchanged, and each
    /// state field that was set holds the same value.
    pub open spec fn extended_by(&self, new: WalletUtxo) -> bool {
        &&& new.account_id == self.account_id
        &&& new.wallet_id == self.wallet_id
        &&& new.keychain_id == self.keychain_id
        &&& new.outpoint == self.outpoint
        &&& new.kind == self.kind
        &&& new.address_idx == self.address_idx
        &&& new.address@ == self.address@
        &&& new.script_hex@ == self.script_hex@
        &&& new.value == self.value
        &&& new.sats_per_vbyte_when_created == self.sats_per_vbyte_when_created
        &&& new.self_pay == self.self_pay
        &&& new.utxo_detected_ledger_tx_id == self.utxo_detected_ledger_tx_id
        &&& (self.utxo_settled_ledger_tx_id.is_some() ==> new.utxo_settled_ledger_tx_id
            == self.utxo_settled_ledger_tx_id)
        &&& (self.block_height.is_some() ==> new.block_height == self.block_height)
        &&& (self.spending_batch_id.is_some() ==> new.spending_batch_id == self.spending_batch_id)
        &&& (self.spending_ledger_tx_id.is_some() ==> new.spending_ledger_tx_id
            == self.spending_ledger_tx_id)
        &&& (self.spending_fee_rate.is_some() ==> new.spending_fee_rate == self.spending_fee_rate)
        &&& (self.spend_detected_ledger_tx_id.is_some() ==> new.spend_detected_ledger_tx_id
            == self.spend_detected_ledger_tx_id)
        &&& (self.spend_settled_ledger_tx_id.is_some() ==> new.spend_settled_ledger_tx_id
            == self.spend_settled_ledger_tx_id)
    }

    /// Whether the row is not to be handed to coin selection.
    pub fn is_blocked_for_selection(&self) -> (r: bool)
        ensures
            r == self.blocked_for_selection(),
    {
        self.spending_batch_id.is_some() || (self.kind == KeychainKind::External
            && self.utxo_settled_ledger_tx_id.is_none())
    }

    /// A copy of the row.
    pub fn duplicate(&self) -> (r: WalletUtxo)
        ensures
            r == *self,
    {
        WalletUtxo {
            account_id: self.account_id,
            wallet_id: self.wallet_id,
            keychain_id: self.keychain_id,
            outpoint: self.outpoint,
            kind: self.kind,
            address_idx: self.address_idx,
            address: self.address.clone(),
            script_hex: self.script_hex.clone(),
            value: self.value,
            sats_per_vbyte_when_created: self.sats_per_vbyte_when_created,
            self_pay: self.self_pay,
            bdk_spent: self.bdk_spent,
            utxo_detected_ledger_tx_id: self.utxo_detected_ledger_tx_id,
            utxo_settled_ledger_tx_id: self.utxo_settled_ledger_tx_id,
            block_height: self.block_height,
            spending_batch_id: self.spending_batch_id,
            spending_ledger_tx_id: self.spending_ledger_tx_id,
            spending_fee_rate: self.spending_fee_rate,
            spend_detected_ledger_tx_id: self.spend_detected_ledger_tx_id,
            spend_settled_ledger_tx_id: self.spend_settled_ledger_tx_id,
        }
    }
}

} // verus!
