use vstd::prelude::*;

pub mod builder;
pub mod entity;
pub mod fees;

use crate::primitives::{BatchId, FeeRate, KeychainId, LedgerTransactionId, OutPoint, WalletId};
use crate::utxo::entity::WalletUtxo;
use crate::utxo::{has_key, key_index, reserve_rows};
use entity::{Batch, WalletSummary};

verus! {

/// Some summary is for `wallet_id`.
pub open spec fn has_summary(s: Seq<WalletSummary>, wallet_id: WalletId) -> bool {
    exists|i: int| 0 <= i < s.len() && (#[trigger] s[i]).wallet_id == wallet_id
}

/// A batch with id `batch_id` is stored and has a summary for `wallet_id`.
pub open spec fn batch_covers(batches: Seq<Batch>, batch_id: BatchId, wallet_id: WalletId) -> bool {
    exists|j: int|
        0 <= j < batches.len() && (#[trigger] batches[j]).id == batch_id && has_summary(batches[j].wallet_summaries@, wallet_id)
}

/// Every output reserved for a batch points at a stored batch that has a summary for the
/// wallet owning the output.
pub open spec fn reservations_linked(rows: Seq<WalletUtxo>, batches: Seq<Batch>) -> bool {
    forall|i: int|
        0 <= i < rows.len() && (#[trigger] rows[i]).spending_batch_id.is_some() ==> batch_covers(
            batches,
            rows[i].spending_batch_id.unwrap(),
            rows[i].wallet_id,
        )
}

/// Every output among `keys` has a row, owned by a wallet the batch has a summary for.
pub open spec fn keys_owned_by(rows: Seq<WalletUtxo>, keys: Seq<(KeychainId, OutPoint)>, batch: Batch) -> bool {
    forall|k: int|
        0 <= k < keys.len() ==> has_key(rows, (#[trigger] keys[k]).0, keys[k].1) && has_summary(
            batch.wallet_summaries@,
            rows[key_index(rows, keys[k].0, keys[k].1)].wallet_id,
        )
}

/// Storing a batch and reserving for it outputs of the wallets it has summaries for keeps
/// every reservation linked to a stored batch covering the output's wallet.
pub proof fn lemma_reservation_stays_linked(
    rows: Seq<WalletUtxo>,
    batches: Seq<Batch>,
    batch: Batch,
    keys: Seq<(KeychainId, OutPoint)>,
    tx_id: LedgerTransactionId,
    fee_rate: FeeRate,
)
    requires
        crate::utxo::rows_wf(rows),
        reservations_linked(rows, batches),
        keys_owned_by(rows, keys, batch),
    ensures
        reservations_linked(reserve_rows(rows, keys, batch.id, tx_id, fee_rate), batches.push(batch)),
{
    let new_rows = reserve_rows(rows, keys, batch.id, tx_id, fee_rate);
    let new_batches = batches.push(batch);
    assert forall|i: int|
        0 <= i < new_rows.len() && (#[trigger] new_rows[i]).spending_batch_id.is_some() implies batch_covers(
        new_batches,
        new_rows[i].spending_batch_id.unwrap(),
        new_rows[i].wallet_id,
    ) by {
        if keys.contains(rows[i].key()) {
            let k = choose|k: int| 0 <= k < keys.len() && keys[k] == rows[i].key();
            assert(has_key(rows, keys[k].0, keys[k].1));
            let ix = key_index(rows, keys[k].0, keys[k].1);
            assert(rows[ix].key() == rows[i].key());
            assert(ix == i);
            assert(new_batches[batches.len() as int] == batch);
        } else {
            let b = rows[i].spending_batch_id.unwrap();
            let j = choose|j: int|
                0 <= j < batches.len() && (#[trigger] batches[j]).id == b && has_summary(batches[j].wallet_summaries@, rows[i].wallet_id);
            assert(new_batches[j] == batches[j]);
        }
    }
}

/// The persisted batches, in the order they were made.
pub struct Batches {
    batches: Vec<Batch>,
}

impl View for Batches {
    type V = Seq<Batch>;

    closed spec fn view(&self) -> Seq<Batch> {
        self.batches@
    }
}

impl Batches {
    pub fn new() -> (r: Batches)
        ensures
            r@ == Seq::<Batch>::empty(),
    {
        Batches { batches: Vec::new() }
    }

    pub fn len(&self) -> (r: usize)
        ensures
            r == self@.len(),
    {
        self.batches.len()
    }

    pub fn get(&self, i: usize) -> (r: &Batch)
        requires
            i < self@.len(),
        ensures
            *r == self@[i as int],
    {
        &self.batches[i]
    }

    pub fn push(&mut self, batch: Batch)
        ensures
            final(self)@ == old(self)@.push(batch),
    {
        self.batches.push(batch);
    }

    /// Records the batch-created ledger transaction of a wallet's summary in batch `i`.
    pub fn set_batch_created(&mut self, i: usize, wallet_id: WalletId, tx_id: LedgerTransactionId) -> (r: bool)
        requires
            i < old(self)@.len(),
        ensures
            final(self)@.len() == old(self)@.len(),
            forall|j: int| 0 <= j < old(self)@.len() && j != i ==> final(self)@[j] == old(self)@[j],
            final(self)@[i as int].id == old(self)@[i as int].id,
            final(self)@[i as int].account_id == old(self)@[i as int].account_id,
            final(self)@[i as int].payout_queue_id == old(self)@[i as int].payout_queue_id,
            final(self)@[i as int].bitcoin_tx_id == old(self)@[i as int].bitcoin_tx_id,
            final(self)@[i as int].signed_tx == old(self)@[i as int].signed_tx,
            final(self)@[i as int].wallet_summaries@.len() == old(self)@[i as int].wallet_summaries@.len(),
            forall|k: int|
                0 <= k < old(self)@[i as int].wallet_summaries@.len() ==> #[trigger] final(self)@[i as int].wallet_summaries@[k]
                    == if old(self)@[i as int].wallet_summaries@[k].wallet_id == wallet_id {
                    WalletSummary {
                        batch_created_ledger_tx_id: Some(tx_id),
                        ..old(self)@[i as int].wallet_summaries@[k]
                    }
                } else {
                    old(self)@[i as int].wallet_summaries@[k]
                },
            r == has_summary(old(self)@[i as int].wallet_summaries@, wallet_id),
    {
        let ghost before = self@;
        let mut found = false;
        let mut k: usize = 0;
        let n = self.batches[i].wallet_summaries.len();
        while k < n
            invariant
                i < self@.len() == before.len(),
                n == before[i as int].wallet_summaries@.len(),
                k <= n,
                forall|j: int| 0 <= j < before.len() && j != i ==> self@[j] == before[j],
                self@[i as int].id == before[i as int].id,
                self@[i as int].account_id == before[i as int].account_id,
                self@[i as int].payout_queue_id == before[i as int].payout_queue_id,
                self@[i as int].bitcoin_tx_id == before[i as int].bitcoin_tx_id,
                self@[i as int].signed_tx == before[i as int].signed_tx,
                self@[i as int].wallet_summaries@.len() == n,
                forall|m: int|
                    0 <= m < k ==> #[trigger] self@[i as int].wallet_summaries@[m] == if before[i as int].wallet_summaries@[m].wallet_id
                        == wallet_id {
                        WalletSummary { batch_created_ledger_tx_id: Some(tx_id), ..before[i as int].wallet_summaries@[m] }
                    } else {
                        before[i as int].wallet_summaries@[m]
                    },
                forall|m: int| k <= m < n ==> #[trigger] self@[i as int].wallet_summaries@[m] == before[i as int].wallet_summaries@[m],
                found == exists|m: int| 0 <= m < k && (#[trigger] before[i as int].wallet_summaries@[m]).wallet_id == wallet_id,
            decreases n - k,
        {
            if self.batches[i].wallet_summaries[k].wallet_id == wallet_id {
                self.batches[i].wallet_summaries[k].batch_created_ledger_tx_id = Some(tx_id);
                found = true;
            }
            k += 1;
        }
        found
    }
}

} // verus!
