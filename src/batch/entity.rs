use vstd::prelude::*;

use crate::primitives::{
    AccountId, BatchId, KeychainId, LedgerTransactionId, OutPoint, PayoutQueueId, Satoshis, Txid, WalletId,
};

verus! {

/// What one wallet contributes to and gets back from a batch.
pub struct WalletSummary {
    pub wallet_id: WalletId,
    pub current_keychain_id: KeychainId,
    pub signing_keychains: Vec<KeychainId>,
    pub total_in_sats: Satoshis,
    pub total_spent_sats: Satoshis,
    pub fee_sats: Satoshis,
    pub change_sats: Satoshis,
    pub change_address: Option<String>,
    pub change_outpoint: Option<OutPoint>,
    pub batch_created_ledger_tx_id: Option<LedgerTransactionId>,
    pub batch_broadcast_ledger_tx_id: Option<LedgerTransactionId>,
}

/// No two summaries are for the same wallet.
pub open spec fn summaries_unique(s: Seq<WalletSummary>) -> bool {
    forall|i: int, j: int|
        0 <= i < s.len() && 0 <= j < s.len() && i != j ==> (#[trigger] s[i]).wallet_id != (#[trigger] s[j]).wallet_id
}

/// Every wallet of the batch has had its batch-created ledger transaction posted.
pub open spec fn spec_accounting_complete(s: Seq<WalletSummary>) -> bool {
    forall|i: int| 0 <= i < s.len() ==> (#[trigger] s[i]).batch_created_ledger_tx_id.is_some()
}

/// A persisted batch: one transaction paying out a queue's payouts, with a summary per
/// participating wallet. The transactions are held in their serialized form.
pub struct Batch {
    pub id: BatchId,
    pub account_id: AccountId,
    pub payout_queue_id: PayoutQueueId,
    pub bitcoin_tx_id: Txid,
    pub wallet_summaries: Vec<WalletSummary>,
    pub unsigned_psbt: Vec<u8>,
    pub signed_tx: Option<Vec<u8>>,
}

impl Batch {
    /// Whether every wallet summary has its batch-created ledger transaction.
    pub fn accounting_complete(&self) -> (r: bool)
        ensures
            r == spec_accounting_complete(self.wallet_summaries@),
    {
        let mut i: usize = 0;
        while i < self.wallet_summaries.len()
            invariant
                i <= self.wallet_summaries@.len(),
                forall|k: int| 0 <= k < i ==> (#[trigger] self.wallet_summaries@[k]).batch_created_ledger_tx_id.is_some(),
            decreases self.wallet_summaries.len() - i,
        {
            if self.wallet_summaries[i].batch_created_ledger_tx_id.is_none() {
                return false;
            }
            i += 1;
        }
        true
    }

    /// Whether the batch has a summary for `wallet_id`.
    pub fn has_wallet(&self, wallet_id: WalletId) -> (r: bool)
        ensures
            r == exists|i: int| 0 <= i < self.wallet_summaries@.len() && (#[trigger] self.wallet_summaries@[i]).wallet_id == wallet_id,
    {
        let mut i: usize = 0;
        while i < self.wallet_summaries.len()
            invariant
                i <= self.wallet_summaries@.len(),
                forall|k: int| 0 <= k < i ==> (#[trigger] self.wallet_summaries@[k]).wallet_id != wallet_id,
            decreases self.wallet_summaries.len() - i,
        {
            if self.wallet_summaries[i].wallet_id == wallet_id {
                return true;
            }
            i += 1;
        }
        false
    }
}

/// A batch about to be persisted.
pub struct NewBatch {
    pub id: BatchId,
    pub account_id: AccountId,
    pub payout_queue_id: PayoutQueueId,
    pub tx_id: Txid,
    pub total_fee_sats: Satoshis,
    pub unsigned_psbt: Vec<u8>,
    pub wallet_summaries: Vec<WalletSummary>,
}

/// Why a `NewBatch` could not be built: the field that was not set.
#[derive(PartialEq, Eq, Structural, Clone, Copy, Debug)]
pub enum NewBatchBuilderError {
    MissingId,
    MissingAccountId,
    MissingPayoutQueueId,
    MissingTxId,
    MissingTotalFeeSats,
    MissingUnsignedPsbt,
    MissingWalletSummaries,
    /// Two summaries are for the same wallet.
    DuplicateWalletSummary,
    /// A summary whose inputs are not exactly its payouts, fee and change.
    UnbalancedWalletSummary,
}

/// A summary's inputs are exactly its payouts, fee and change.
pub open spec fn summary_balanced(s: WalletSummary) -> bool {
    s.total_in_sats.0 == s.total_spent_sats.0 + s.fee_sats.0 + s.change_sats.0
}

/// Whether `summaries` has one summary per wallet, each balanced.
pub fn check_summaries(summaries: &Vec<WalletSummary>) -> (r: Result<(), NewBatchBuilderError>)
    ensures
        r.is_ok() <==> summaries_unique(summaries@) && forall|i: int|
            0 <= i < summaries@.len() ==> summary_balanced(#[trigger] summaries@[i]),
        !summaries_unique(summaries@) ==> r == Err::<(), NewBatchBuilderError>(NewBatchBuilderError::DuplicateWalletSummary),
        summaries_unique(summaries@) && r.is_err() ==> r == Err::<(), NewBatchBuilderError>(
            NewBatchBuilderError::UnbalancedWalletSummary,
        ),
{
    let n = summaries.len();
    let mut i: usize = 0;
    while i < n
        invariant
            n == summaries@.len(),
            i <= n,
            forall|a: int, b: int|
                0 <= a < i && 0 <= b < n && a != b ==> (#[trigger] summaries@[a]).wallet_id
                    != (#[trigger] summaries@[b]).wallet_id,
        decreases n - i,
    {
        let mut j: usize = 0;
        while j < n
            invariant
                n == summaries@.len(),
                i < n,
                j <= n,
                forall|a: int, b: int|
                    0 <= a < i && 0 <= b < n && a != b ==> (#[trigger] summaries@[a]).wallet_id
                        != (#[trigger] summaries@[b]).wallet_id,
                forall|b: int| 0 <= b < j && b != i ==> summaries@[i as int].wallet_id != (#[trigger] summaries@[b]).wallet_id,
            decreases n - j,
        {
            if j != i && summaries[i].wallet_id == summaries[j].wallet_id {
                assert(!summaries_unique(summaries@)) by {
                    assert(summaries@[i as int].wallet_id == summaries@[j as int].wallet_id);
                }
                return Err(NewBatchBuilderError::DuplicateWalletSummary);
            }
            j += 1;
        }
        i += 1;
    }
    let mut k: usize = 0;
    while k < n
        invariant
            n == summaries@.len(),
            k <= n,
            summaries_unique(summaries@),
            forall|a: int| 0 <= a < k ==> summary_balanced(#[trigger] summaries@[a]),
        decreases n - k,
    {
        let s = &summaries[k];
        if s.total_spent_sats.0 as u128 + s.fee_sats.0 as u128 + s.change_sats.0 as u128 != s.total_in_sats.0 as u128 {
            return Err(NewBatchBuilderError::UnbalancedWalletSummary);
        }
        k += 1;
    }
    Ok(())
}

/// Collects the fields of a `NewBatch`.
pub struct NewBatchBuilder {
    pub id: Option<BatchId>,
    pub account_id: Option<AccountId>,
    pub payout_queue_id: Option<PayoutQueueId>,
    pub tx_id: Option<Txid>,
    pub total_fee_sats: Option<Satoshis>,
    pub unsigned_psbt: Option<Vec<u8>>,
    pub wallet_summaries: Option<Vec<WalletSummary>>,
}

impl NewBatch {
    pub fn builder() -> (r: NewBatchBuilder)
        ensures
            r.id.is_none() && r.account_id.is_none() && r.payout_queue_id.is_none() && r.tx_id.is_none()
                && r.total_fee_sats.is_none() && r.unsigned_psbt.is_none() && r.wallet_summaries.is_none(),
    {
        NewBatchBuilder {
            id: None,
            account_id: None,
            payout_queue_id: None,
            tx_id: None,
            total_fee_sats: None,
            unsigned_psbt: None,
            wallet_summaries: None,
        }
    }
}

impl NewBatchBuilder {
    /// The batch, or the first field not set.
    pub fn build(self) -> (r: Result<NewBatch, NewBatchBuilderError>)
        ensures
            self.id.is_none() ==> r == Err::<NewBatch, NewBatchBuilderError>(NewBatchBuilderError::MissingId),
            r matches Ok(b) ==> {
                &&& Some(b.id) == self.id
                &&& Some(b.account_id) == self.account_id
                &&& Some(b.payout_queue_id) == self.payout_queue_id
                &&& Some(b.tx_id) == self.tx_id
                &&& Some(b.total_fee_sats) == self.total_fee_sats
                &&& Some(b.unsigned_psbt) == self.unsigned_psbt
                &&& Some(b.wallet_summaries) == self.wallet_summaries
            },
            (self.id.is_some() && self.account_id.is_some() && self.payout_queue_id.is_some() && self.tx_id.is_some()
                && self.total_fee_sats.is_some() && self.unsigned_psbt.is_some() && self.wallet_summaries.is_some()
                && summaries_unique(self.wallet_summaries.unwrap()@) && forall|i: int|
                0 <= i < self.wallet_summaries.unwrap()@.len() ==> summary_balanced(
                #[trigger] self.wallet_summaries.unwrap()@[i],
            )) == r.is_ok(),
    {
        let id = match self.id {
            Some(v) => v,
            None => return Err(NewBatchBuilderError::MissingId),
        };
        let account_id = match self.account_id {
            Some(v) => v,
            None => return Err(NewBatchBuilderError::MissingAccountId),
        };
        let payout_queue_id = match self.payout_queue_id {
            Some(v) => v,
            None => return Err(NewBatchBuilderError::MissingPayoutQueueId),
        };
        let tx_id = match self.tx_id {
            Some(v) => v,
            None => return Err(NewBatchBuilderError::MissingTxId),
        };
        let total_fee_sats = match self.total_fee_sats {
            Some(v) => v,
            None => return Err(NewBatchBuilderError::MissingTotalFeeSats),
        };
        let unsigned_psbt = match self.unsigned_psbt {
            Some(v) => v,
            None => return Err(NewBatchBuilderError::MissingUnsignedPsbt),
        };
        let wallet_summaries = match self.wallet_summaries {
            Some(v) => v,
            None => return Err(NewBatchBuilderError::MissingWalletSummaries),
        };
        match check_summaries(&wallet_summaries) {
            Ok(()) => {},
            Err(e) => return Err(e),
        }
        Ok(NewBatch { id, account_id, payout_queue_id, tx_id, total_fee_sats, unsigned_psbt, wallet_summaries })
    }
}

} // verus!
