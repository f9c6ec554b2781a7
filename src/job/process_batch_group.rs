use vstd::prelude::*;

use crate::batch::builder::{
    candidates, cover_len, keys_of, lemma_cover_exists, select_inputs, selectable, selection, summarize_wallet, value_sum, BuilderError,
};
use crate::batch::entity::{spec_accounting_complete, Batch, WalletSummary};
use crate::batch::fees::{attribute_fees, fee_share, lemma_sum_prefix, sum_u64};
use crate::batch::{batch_covers, has_summary, keys_owned_by, lemma_reservation_stays_linked, reservations_linked, Batches};
use crate::primitives::{
    AccountId, BatchGroupId, BatchId, FeeRate, KeychainId, LedgerDate, LedgerTransactionId, OutPoint, PayoutQueueId, Satoshis, TxPriority, Txid,
    WalletId,
};
use crate::ledger::constants::CREATE_BATCH_ID;
use crate::ledger::templates::create_batch::CreateBatchParams;
use crate::ledger::{lemma_posted_with, postable, posted_with, template_for, Ledger, LedgerError};
use crate::payout::{spec_unbatched, Payout, Payouts};
use crate::utxo::entity::{UtxoError, WalletUtxo};
use crate::utxo::{all_present, any_reserved, has_key, key_index, reserve_rows, ids_exhausted, rows_extended, rows_wf, Utxos};
use crate::wallet::Wallet;

verus! {

/// The payload of a batch job: the queue to process, and the id the batch will get.
#[derive(PartialEq, Eq, Structural, Clone, Copy, Debug)]
pub struct ProcessBatchGroupData {
    pub batch_group_id: BatchGroupId,
    pub account_id: AccountId,
    pub batch_id: BatchId,
}

impl ProcessBatchGroupData {
    pub fn new(batch_group_id: BatchGroupId, account_id: AccountId) -> (r: Self)
        ensures
            r.batch_group_id == batch_group_id,
            r.account_id == account_id,
    {
        ProcessBatchGroupData { batch_group_id, account_id, batch_id: BatchId::new() }
    }
}

/// What makes a payout queue build a batch.
#[derive(PartialEq, Eq, Structural, Clone, Copy, Debug)]
pub enum PayoutQueueTrigger {
    Manual,
    Immediate,
    IntervalSecs { secs: u32 },
}

#[derive(PartialEq, Eq, Structural, Clone, Copy, Debug)]
pub struct PayoutQueueConfig {
    pub tx_priority: TxPriority,
    pub consolidate_deprecated_keychains: bool,
    pub trigger: PayoutQueueTrigger,
}

/// One wallet's part in a batch: what its queued payouts add up to, the virtual bytes its
/// inputs and outputs add to the transaction, and where its change would go.
pub struct WalletBatchRequest {
    pub wallet: Wallet,
    pub total_spent: Satoshis,
    pub vbytes: u64,
    pub change_address: String,
    pub change_outpoint: OutPoint,
}

#[derive(PartialEq, Eq, Structural, Clone, Copy, Debug)]
pub enum BatchJobError {
    Builder(BuilderError),
    Utxo(UtxoError),
    Ledger(LedgerError),
    /// The batch has no summary for the wallet.
    WalletNotInBatch,
}

/// `k` is the first summary for `wallet_id`.
pub open spec fn is_first_summary(s: Seq<WalletSummary>, wallet_id: WalletId, k: int) -> bool {
    0 <= k < s.len() && s[k].wallet_id == wallet_id && forall|m: int| 0 <= m < k ==> (#[trigger] s[m]).wallet_id != wallet_id
}

/// The position of the first summary for `wallet_id`.
pub open spec fn first_summary(s: Seq<WalletSummary>, wallet_id: WalletId) -> int {
    choose|k: int| is_first_summary(s, wallet_id, k)
}

/// The keychains a wallet's inputs may come from (see `Wallet::spendable_keychains`).
pub open spec fn spendable_keychains(w: Wallet, consolidate: bool) -> Seq<KeychainId> {
    if consolidate {
        w.keychains@
    } else {
        seq![w.keychains@[0]]
    }
}

pub open spec fn request_ids(reqs: Seq<WalletBatchRequest>) -> Seq<WalletId> {
    reqs.map_values(|q: WalletBatchRequest| q.wallet.id)
}

pub open spec fn request_vbytes(reqs: Seq<WalletBatchRequest>) -> Seq<u64> {
    reqs.map_values(|q: WalletBatchRequest| q.vbytes)
}

/// The fee of the whole transaction: the rate times every wallet's bytes.
pub open spec fn batch_fee(reqs: Seq<WalletBatchRequest>, fee_rate: FeeRate) -> int {
    fee_rate.sats_per_vbyte as int * sum_u64(request_vbytes(reqs))
}

/// Whether the fee can be set up, and the error where not.
pub open spec fn fee_setup(reqs: Seq<WalletBatchRequest>, fee_rate: FeeRate) -> Result<(), BuilderError> {
    if fee_rate.sats_per_vbyte == 0 {
        Err(BuilderError::FeeBelowMinimum { sats_per_vbyte: 0 })
    } else if sum_u64(request_vbytes(reqs)) > u64::MAX || batch_fee(reqs, fee_rate) > u64::MAX {
        Err(BuilderError::AmountOverflow)
    } else if sum_u64(request_vbytes(reqs)) == 0 {
        Err(BuilderError::FeeBelowMinimum { sats_per_vbyte: fee_rate.sats_per_vbyte })
    } else {
        Ok(())
    }
}

/// Wallet `i`'s share of the fee (see `fee_share`).
pub open spec fn wallet_fee(reqs: Seq<WalletBatchRequest>, fee_rate: FeeRate, i: int) -> int {
    fee_share(request_ids(reqs), request_vbytes(reqs), batch_fee(reqs, fee_rate) as u64, i)
}

pub open spec fn wallet_candidates(rows: Seq<WalletUtxo>, reqs: Seq<WalletBatchRequest>, consolidate: bool, i: int) -> Seq<
    WalletUtxo,
> {
    candidates(rows, reqs[i].wallet.id, spendable_keychains(reqs[i].wallet, consolidate))
}

/// Coin selection for wallet `i`: its payouts and its fee share must be covered.
pub open spec fn wallet_selection(
    rows: Seq<WalletUtxo>,
    reqs: Seq<WalletBatchRequest>,
    fee_rate: FeeRate,
    consolidate: bool,
    i: int,
) -> Result<int, BuilderError> {
    let need = reqs[i].total_spent.0 + wallet_fee(reqs, fee_rate, i);
    if need > u64::MAX {
        Err(BuilderError::AmountOverflow)
    } else {
        selection(rows, reqs[i].wallet.id, spendable_keychains(reqs[i].wallet, consolidate), need as u64)
    }
}

/// The inputs selected for wallet `i`.
pub open spec fn wallet_inputs(
    rows: Seq<WalletUtxo>,
    reqs: Seq<WalletBatchRequest>,
    fee_rate: FeeRate,
    consolidate: bool,
    i: int,
) -> Seq<WalletUtxo> {
    match wallet_selection(rows, reqs, fee_rate, consolidate, i) {
        Ok(n) => wallet_candidates(rows, reqs, consolidate, i).take(n),
        Err(_) => Seq::empty(),
    }
}

/// Selection succeeds for the first `k` wallets.
pub open spec fn selections_ok(
    rows: Seq<WalletUtxo>,
    reqs: Seq<WalletBatchRequest>,
    fee_rate: FeeRate,
    consolidate: bool,
    k: int,
) -> bool {
    forall|j: int| 0 <= j < k ==> (#[trigger] wallet_selection(rows, reqs, fee_rate, consolidate, j)) is Ok
}

/// The keys of the inputs selected for the first `k` wallets, wallet after wallet.
pub open spec fn selected_keys(
    rows: Seq<WalletUtxo>,
    reqs: Seq<WalletBatchRequest>,
    fee_rate: FeeRate,
    consolidate: bool,
    k: int,
) -> Seq<(KeychainId, OutPoint)>
    decreases k,
{
    if k <= 0 {
        Seq::empty()
    } else {
        selected_keys(rows, reqs, fee_rate, consolidate, k - 1) + keys_of(
            wallet_inputs(rows, reqs, fee_rate, consolidate, k - 1),
        )
    }
}

/// The summary of wallet `i` is the one its selection gives: inputs worth their value, the
/// payouts, its fee share, and change, with change below `dust_limit` added to the fee.
pub open spec fn summary_as_planned(
    s: WalletSummary,
    rows: Seq<WalletUtxo>,
    reqs: Seq<WalletBatchRequest>,
    fee_rate: FeeRate,
    consolidate: bool,
    dust_limit: u64,
    i: int,
) -> bool {
    let total_in = value_sum(wallet_inputs(rows, reqs, fee_rate, consolidate, i));
    let fee = wallet_fee(reqs, fee_rate, i);
    let change = total_in - reqs[i].total_spent.0 - fee;
    &&& s.wallet_id == reqs[i].wallet.id
    &&& s.total_in_sats.0 == total_in
    &&& s.total_spent_sats == reqs[i].total_spent
    &&& s.total_in_sats.0 == s.total_spent_sats.0 + s.fee_sats.0 + s.change_sats.0
    &&& change < dust_limit ==> s.change_sats.0 == 0 && s.fee_sats.0 == fee + change
    &&& change >= dust_limit ==> s.change_sats.0 == change && s.fee_sats.0 == fee
    &&& s.batch_created_ledger_tx_id.is_none()
}

/// What the batch job returns for the table `rows` and the wallets `reqs`: nothing for no
/// wallet, the fee setup's error, the error of the first wallet whose selection fails, and the
/// batch where every selection succeeds, unless no fresh ledger transaction id is left.
pub open spec fn job_outcome_rules(
    rows: Seq<WalletUtxo>,
    reqs: Seq<WalletBatchRequest>,
    fee_rate: FeeRate,
    cons: bool,
    batch_id: BatchId,
    r: Result<Option<BatchId>, BatchJobError>,
) -> bool {
    &&& reqs.len() == 0 ==> r == Ok::<Option<BatchId>, BatchJobError>(None)
    &&& reqs.len() > 0 ==> (fee_setup(reqs, fee_rate) matches Err(e) ==> r == Err::<Option<BatchId>, BatchJobError>(
        BatchJobError::Builder(e),
    ))
    &&& reqs.len() > 0 && fee_setup(reqs, fee_rate) is Ok ==> {
        &&& forall|i: int|
            0 <= i < reqs.len() && selections_ok(rows, reqs, fee_rate, cons, i) ==> (#[trigger] wallet_selection(
                rows,
                reqs,
                fee_rate,
                cons,
                i,
            ) matches Err(e) ==> r == Err::<Option<BatchId>, BatchJobError>(BatchJobError::Builder(e)))
        &&& selections_ok(rows, reqs, fee_rate, cons, reqs.len() as int) && !ids_exhausted(rows) ==> r == Ok::<
            Option<BatchId>,
            BatchJobError,
        >(Some(batch_id))
        &&& selections_ok(rows, reqs, fee_rate, cons, reqs.len() as int) && r.is_err() ==> r == Err::<
            Option<BatchId>,
            BatchJobError,
        >(BatchJobError::Utxo(UtxoError::LedgerTxIdsExhausted)) && ids_exhausted(rows)
    }
}

/// The outcome of the batch job (see `job_outcome_rules`).
#[verifier::opaque]
pub open spec fn job_outcome(
    rows: Seq<WalletUtxo>,
    reqs: Seq<WalletBatchRequest>,
    fee_rate: FeeRate,
    cons: bool,
    batch_id: BatchId,
    r: Result<Option<BatchId>, BatchJobError>,
) -> bool {
    job_outcome_rules(rows, reqs, fee_rate, cons, batch_id, r)
}

proof fn lemma_candidate_is_row(rows: Seq<WalletUtxo>, wallet_id: WalletId, ks: Seq<KeychainId>, k: int)
    requires
        0 <= k < candidates(rows, wallet_id, ks).len(),
    ensures
        exists|j: int|
            0 <= j < rows.len() && rows[j] == candidates(rows, wallet_id, ks)[k] && selectable(rows[j], wallet_id, ks),
    decreases rows.len(),
{
    let c = candidates(rows.drop_last(), wallet_id, ks);
    if k < c.len() {
        lemma_candidate_is_row(rows.drop_last(), wallet_id, ks, k);
        let j = choose|j: int|
            0 <= j < rows.drop_last().len() && rows.drop_last()[j] == c[k] && selectable(rows.drop_last()[j], wallet_id, ks);
        assert(rows[j] == rows.drop_last()[j]);
    } else {
        assert(rows[rows.len() - 1] == rows.last());
    }
}

/// Every selected key has a row, not reserved, owned by one of the first `k` wallets.
proof fn lemma_selected_keys(
    rows: Seq<WalletUtxo>,
    reqs: Seq<WalletBatchRequest>,
    fee_rate: FeeRate,
    consolidate: bool,
    k: int,
)
    requires
        rows_wf(rows),
        0 <= k <= reqs.len(),
        selections_ok(rows, reqs, fee_rate, consolidate, k),
        forall|j: int| 0 <= j < reqs.len() ==> 0 <= #[trigger] wallet_fee(reqs, fee_rate, j),
    ensures
        forall|q: int|
            0 <= q < selected_keys(rows, reqs, fee_rate, consolidate, k).len() ==> {
                let key = #[trigger] selected_keys(rows, reqs, fee_rate, consolidate, k)[q];
                let u = rows[key_index(rows, key.0, key.1)];
                &&& has_key(rows, key.0, key.1)
                &&& u.spending_batch_id.is_none()
                &&& exists|j: int| 0 <= j < k && u.wallet_id == (#[trigger] reqs[j]).wallet.id
            },
    decreases k,
{
    if k > 0 {
        lemma_selected_keys(rows, reqs, fee_rate, consolidate, k - 1);
        let prev = selected_keys(rows, reqs, fee_rate, consolidate, k - 1);
        let cands = wallet_candidates(rows, reqs, consolidate, k - 1);
        let inputs = wallet_inputs(rows, reqs, fee_rate, consolidate, k - 1);
        let all = selected_keys(rows, reqs, fee_rate, consolidate, k);
        assert(wallet_selection(rows, reqs, fee_rate, consolidate, k - 1) is Ok);
        let need = reqs[k - 1].total_spent.0 + wallet_fee(reqs, fee_rate, k - 1);
        assert(need <= u64::MAX);
        assert((need as u64) as int == need);
        lemma_cover_exists(cands, need);
        let n = cover_len(cands, need);
        assert(inputs == cands.take(n));
        assert forall|q: int| 0 <= q < all.len() implies {
            let key = #[trigger] all[q];
            let u = rows[key_index(rows, key.0, key.1)];
            &&& has_key(rows, key.0, key.1)
            &&& u.spending_batch_id.is_none()
            &&& exists|j: int| 0 <= j < k && u.wallet_id == (#[trigger] reqs[j]).wallet.id
        } by {
            if q < prev.len() {
                assert(all[q] == prev[q]);
            } else {
                let p = q - prev.len();
                assert(all[q] == keys_of(inputs)[p]);
                assert(inputs[p] == cands[p]);
                let wid = reqs[k - 1].wallet.id;
                let ks = spendable_keychains(reqs[k - 1].wallet, consolidate);
                lemma_candidate_is_row(rows, wid, ks, p);
                let j = choose|j: int| 0 <= j < rows.len() && rows[j] == cands[p] && selectable(rows[j], wid, ks);
                assert(rows[j].key() == all[q]);
                let x = key_index(rows, all[q].0, all[q].1);
                assert(rows[x].key() == rows[j].key());
                assert(x == j);
                assert(rows[j].wallet_id == reqs[k - 1].wallet.id);
            }
        }
    }
}

/// Builds the batch of a payout queue, all or nothing. The transaction's fee is the rate times
/// every wallet's bytes, split among the wallets by `attribute_fees`; each wallet gets inputs
/// selected for its payouts and fee share (see `selection`) and a summary (see
/// `summarize_wallet`); the inputs are reserved for the batch and the batch is stored. With no
/// wallet to pay from the job does nothing. The first wallet whose selection fails gives the
/// error.
pub fn assemble_batch(
    utxos: &mut Utxos,
    batches: &mut Batches,
    data: &ProcessBatchGroupData,
    payout_queue_id: PayoutQueueId,
    config: &PayoutQueueConfig,
    fee_rate: FeeRate,
    requests: &Vec<WalletBatchRequest>,
    dust_limit: u64,
    bitcoin_tx_id: Txid,
    unsigned_psbt: Vec<u8>,
) -> (r: Result<Option<BatchId>, BatchJobError>)
    requires
        old(utxos).wf(),
        reservations_linked(old(utxos)@, old(batches)@),
        forall|i: int| 0 <= i < requests@.len() ==> (#[trigger] requests@[i]).wallet.wf(),
    ensures
        final(utxos).wf(),
        reservations_linked(final(utxos)@, final(batches)@),
        ({
            let rows = old(utxos)@;
            let reqs = requests@;
            let cons = config.consolidate_deprecated_keychains;
            &&& job_outcome(rows, reqs, fee_rate, cons, data.batch_id, r)
            &&& !(r matches Ok(Some(_))) ==> final(utxos)@ == rows && final(batches)@ == old(batches)@
            &&& r matches Ok(Some(b)) ==> b == data.batch_id
            &&& r matches Ok(Some(_)) ==> {
                let batch = final(batches)@.last();
                &&& final(batches)@.len() == old(batches)@.len() + 1
                &&& final(batches)@.drop_last() == old(batches)@
                &&& batch.id == data.batch_id
                &&& batch.account_id == data.account_id
                &&& batch.payout_queue_id == payout_queue_id
                &&& batch.bitcoin_tx_id == bitcoin_tx_id
                &&& batch.signed_tx.is_none()
                &&& batch.wallet_summaries@.len() == reqs.len()
                &&& forall|i: int|
                    0 <= i < reqs.len() ==> summary_as_planned(
                        #[trigger] batch.wallet_summaries@[i],
                        rows,
                        reqs,
                        fee_rate,
                        cons,
                        dust_limit,
                        i,
                    )
                &&& rows_extended(rows, final(utxos)@)
                &&& exists|t: crate::primitives::LedgerTransactionId|
                    final(utxos)@ == reserve_rows(
                        rows,
                        selected_keys(rows, reqs, fee_rate, cons, reqs.len() as int),
                        data.batch_id,
                        t,
                        fee_rate,
                    )
            }
        }),
{
    let r = build_batch(
        utxos,
        batches,
        data,
        payout_queue_id,
        config,
        fee_rate,
        requests,
        dust_limit,
        bitcoin_tx_id,
        unsigned_psbt,
    );
    proof {
        reveal(job_outcome);
    }
    r
}

fn build_batch(
    utxos: &mut Utxos,
    batches: &mut Batches,
    data: &ProcessBatchGroupData,
    payout_queue_id: PayoutQueueId,
    config: &PayoutQueueConfig,
    fee_rate: FeeRate,
    requests: &Vec<WalletBatchRequest>,
    dust_limit: u64,
    bitcoin_tx_id: Txid,
    unsigned_psbt: Vec<u8>,
) -> (r: Result<Option<BatchId>, BatchJobError>)
    requires
        old(utxos).wf(),
        reservations_linked(old(utxos)@, old(batches)@),
        forall|i: int| 0 <= i < requests@.len() ==> (#[trigger] requests@[i]).wallet.wf(),
    ensures
        final(utxos).wf(),
        reservations_linked(final(utxos)@, final(batches)@),
        ({
            let rows = old(utxos)@;
            let reqs = requests@;
            let cons = config.consolidate_deprecated_keychains;
            &&& job_outcome_rules(rows, reqs, fee_rate, cons, data.batch_id, r)
            &&& !(r matches Ok(Some(_))) ==> final(utxos)@ == rows && final(batches)@ == old(batches)@
            &&& r matches Ok(Some(b)) ==> b == data.batch_id
            &&& r matches Ok(Some(_)) ==> {
                let batch = final(batches)@.last();
                &&& final(batches)@.len() == old(batches)@.len() + 1
                &&& final(batches)@.drop_last() == old(batches)@
                &&& batch.id == data.batch_id
                &&& batch.account_id == data.account_id
                &&& batch.payout_queue_id == payout_queue_id
                &&& batch.bitcoin_tx_id == bitcoin_tx_id
                &&& batch.signed_tx.is_none()
                &&& batch.wallet_summaries@.len() == reqs.len()
                &&& forall|i: int|
                    0 <= i < reqs.len() ==> summary_as_planned(
                        #[trigger] batch.wallet_summaries@[i],
                        rows,
                        reqs,
                        fee_rate,
                        cons,
                        dust_limit,
                        i,
                    )
                &&& rows_extended(rows, final(utxos)@)
                &&& exists|t: crate::primitives::LedgerTransactionId|
                    final(utxos)@ == reserve_rows(
                        rows,
                        selected_keys(rows, reqs, fee_rate, cons, reqs.len() as int),
                        data.batch_id,
                        t,
                        fee_rate,
                    )
            }
        }),
{
    let ghost rows = utxos@;
    let ghost reqs = requests@;
    let ghost cons = config.consolidate_deprecated_keychains;
    let n = requests.len();
    if n == 0 {
        return Ok(None);
    }
    if fee_rate.sats_per_vbyte == 0 {
        return Err(BatchJobError::Builder(BuilderError::FeeBelowMinimum { sats_per_vbyte: 0 }));
    }
    let mut ids: Vec<WalletId> = Vec::new();
    let mut vbytes: Vec<u64> = Vec::new();
    let mut total_vbytes: u64 = 0;
    let mut i: usize = 0;
    while i < n
        invariant
            n == reqs.len(),
            reqs == requests@,
            i <= n,
            ids@ == request_ids(reqs).take(i as int),
            vbytes@ == request_vbytes(reqs).take(i as int),
            total_vbytes == sum_u64(vbytes@),
            utxos.wf(),
            fee_rate.sats_per_vbyte > 0,
            reservations_linked(utxos@, batches@),
            utxos@ == old(utxos)@,
            batches@ == old(batches)@,
        decreases n - i,
    {
        proof {
            assert(request_vbytes(reqs).take(i as int + 1) =~= vbytes@.push(requests@[i as int].vbytes));
            assert(request_ids(reqs).take(i as int + 1) =~= ids@.push(requests@[i as int].wallet.id));
            assert(vbytes@.push(requests@[i as int].vbytes).drop_last() =~= vbytes@);
        }
        ids.push(requests[i].wallet.id);
        vbytes.push(requests[i].vbytes);
        total_vbytes = match total_vbytes.checked_add(requests[i].vbytes) {
            Some(v) => v,
            None => {
                proof {
                    lemma_sum_prefix(request_vbytes(reqs), i as int + 1);
                }
                return Err(BatchJobError::Builder(BuilderError::AmountOverflow));
            },
        };
        i += 1;
    }
    proof {
        assert(request_vbytes(reqs).take(n as int) =~= request_vbytes(reqs));
        assert(request_ids(reqs).take(n as int) =~= request_ids(reqs));
    }
    let total_fee = match fee_rate.sats_per_vbyte.checked_mul(total_vbytes) {
        Some(f) => f,
        None => return Err(BatchJobError::Builder(BuilderError::AmountOverflow)),
    };
    if total_fee == 0 {
        proof {
            let r = fee_rate.sats_per_vbyte as int;
            let t = total_vbytes as int;
            assert(t == 0) by (nonlinear_arith)
                requires r * t == 0, r > 0;
        }
        return Err(BatchJobError::Builder(BuilderError::FeeBelowMinimum { sats_per_vbyte: fee_rate.sats_per_vbyte }));
    }
    proof {
        let r = fee_rate.sats_per_vbyte as int;
        let t = total_vbytes as int;
        assert(t > 0) by (nonlinear_arith)
            requires r * t != 0, t >= 0;
    }
    let fees = match attribute_fees(&ids, &vbytes, total_fee) {
        Some(f) => f,
        None => return Err(BatchJobError::Builder(BuilderError::AmountOverflow)),
    };
    let mut keys: Vec<(KeychainId, OutPoint)> = Vec::new();
    let mut summaries: Vec<WalletSummary> = Vec::new();
    i = 0;
    while i < n
        invariant
            n == reqs.len(),
            reqs == requests@,
            cons == config.consolidate_deprecated_keychains,
            fees@.len() == n,
            forall|j: int| 0 <= j < n ==> #[trigger] fees@[j] == wallet_fee(reqs, fee_rate, j),
            i <= n,
            summaries@.len() == i,
            utxos.wf(),
            fee_rate.sats_per_vbyte > 0,
            fee_setup(reqs, fee_rate) is Ok,
            reservations_linked(utxos@, batches@),
            utxos@ == old(utxos)@,
            rows == utxos@,
            batches@ == old(batches)@,
            forall|j: int| 0 <= j < reqs.len() ==> (#[trigger] reqs[j]).wallet.wf(),
            selections_ok(rows, reqs, fee_rate, cons, i as int),
            keys@ == selected_keys(rows, reqs, fee_rate, cons, i as int),
            forall|j: int|
                0 <= j < i ==> summary_as_planned(#[trigger] summaries@[j], rows, reqs, fee_rate, cons, dust_limit, j),
        decreases n - i,
    {
        let request = &requests[i];
        let wallet = &request.wallet;
        let keychains = wallet.spendable_keychains(config.consolidate_deprecated_keychains);
        proof {
            assert(keychains@ == spendable_keychains(reqs[i as int].wallet, cons));
        }
        let required = match request.total_spent.0.checked_add(fees[i]) {
            Some(v) => v,
            None => {
                assert(wallet_selection(rows, reqs, fee_rate, cons, i as int) == Err::<int, BuilderError>(
                    BuilderError::AmountOverflow,
                ));
                return Err(BatchJobError::Builder(BuilderError::AmountOverflow));
            },
        };
        let (selected, total_in) = match select_inputs(utxos, wallet.id, &keychains, required) {
            Ok(s) => s,
            Err(e) => {
                assert(wallet_selection(rows, reqs, fee_rate, cons, i as int) == Err::<int, BuilderError>(e));
                return Err(BatchJobError::Builder(e));
            },
        };
        let ghost cands = wallet_candidates(rows, reqs, cons, i as int);
        proof {
            assert(wallet_selection(rows, reqs, fee_rate, cons, i as int) is Ok);
            lemma_cover_exists(cands, required as int);
        }
        let summary = match summarize_wallet(
            wallet.id,
            wallet.current_keychain_id(),
            keychains,
            total_in,
            request.total_spent,
            Satoshis(fees[i]),
            dust_limit,
            request.change_address.clone(),
            request.change_outpoint,
        ) {
            Ok(s) => s,
            Err(e) => return Err(BatchJobError::Builder(e)),
        };
        let ghost before = keys@;
        let mut k: usize = 0;
        while k < selected.len()
            invariant
                k <= selected@.len(),
                keys@ == before + selected@.take(k as int),
            decreases selected.len() - k,
        {
            keys.push(selected[k]);
            proof {
                assert(keys@ =~= before + selected@.take(k as int + 1));
            }
            k += 1;
        }
        proof {
            assert(selected@.take(k as int) =~= selected@);
            assert(selected_keys(rows, reqs, fee_rate, cons, i as int + 1) == before + selected@);
            assert forall|j: int| 0 <= j < i + 1 implies (#[trigger] wallet_selection(rows, reqs, fee_rate, cons, j)) is Ok by {
                if j < i {
                    assert(selections_ok(rows, reqs, fee_rate, cons, i as int));
                }
            }
        }
        summaries.push(summary);
        i += 1;
    }
    let batch = Batch {
        id: data.batch_id,
        account_id: data.account_id,
        payout_queue_id,
        bitcoin_tx_id,
        wallet_summaries: summaries,
        unsigned_psbt,
        signed_tx: None,
    };
    proof {
        assert forall|j: int| 0 <= j < reqs.len() implies 0 <= #[trigger] wallet_fee(reqs, fee_rate, j) by {
            assert(fees@[j] == wallet_fee(reqs, fee_rate, j));
        }
        lemma_selected_keys(rows, reqs, fee_rate, cons, n as int);
        let sk = keys@;
        assert forall|q: int| 0 <= q < sk.len() implies has_key(rows, (#[trigger] sk[q]).0, sk[q].1) && has_summary(
            batch.wallet_summaries@,
            rows[key_index(rows, sk[q].0, sk[q].1)].wallet_id,
        ) by {
            let u = rows[key_index(rows, sk[q].0, sk[q].1)];
            let j = choose|j: int| 0 <= j < n && u.wallet_id == (#[trigger] reqs[j]).wallet.id;
            assert(batch.wallet_summaries@[j].wallet_id == reqs[j].wallet.id);
        }
        assert(keys_owned_by(rows, sk, batch));
        assert(all_present(rows, sk));
        if any_reserved(rows, sk) {
            let x = choose|x: int| 0 <= x < rows.len() && sk.contains(#[trigger] rows[x].key()) && rows[x].spending_batch_id.is_some();
            let q = choose|q: int| 0 <= q < sk.len() && sk[q] == rows[x].key();
            let y = key_index(rows, sk[q].0, sk[q].1);
            assert(rows[y].key() == rows[x].key());
            assert(x == y);
        }
    }
    let t = match utxos.reserve_utxos_in_batch(data.batch_id, fee_rate, &keys) {
        Ok(t) => t,
        Err(e) => return Err(BatchJobError::Utxo(e)),
    };
    proof {
        lemma_reservation_stays_linked(rows, batches@, batch, keys@, t, fee_rate);
    }
    batches.push(batch);
    Ok(Some(data.batch_id))
}

/// Posts the batch-created ledger transaction of `wallet` in batch `i` (CREATE_BATCH, with the
/// wallet's payouts and fee from its summary) and records its id in the wallet's summary. Fails,
/// changing nothing, where the batch has no summary for the wallet or the template cannot be
/// posted.
pub fn post_batch_created(
    ledger: &mut Ledger,
    batches: &mut Batches,
    i: usize,
    wallet: &Wallet,
    effective: LedgerDate,
    meta_json: String,
) -> (r: Result<LedgerTransactionId, BatchJobError>)
    requires
        old(ledger).wf(),
        i < old(batches)@.len(),
    ensures
        final(ledger).wf(),
        !has_summary(old(batches)@[i as int].wallet_summaries@, wallet.id) ==> r == Err::<
            LedgerTransactionId,
            BatchJobError,
        >(BatchJobError::WalletNotInBatch),
        has_summary(old(batches)@[i as int].wallet_summaries@, wallet.id) ==> (r.is_ok() <==> postable(
            old(ledger).templates(),
            CREATE_BATCH_ID,
            2,
            2,
        )),
        final(ledger).templates() == old(ledger).templates(),
        r.is_err() ==> final(ledger).transactions() == old(ledger).transactions() && final(batches)@ == old(batches)@,
        r matches Ok(t) ==> {
            let b = old(batches)@[i as int];
            let k = first_summary(b.wallet_summaries@, wallet.id);
            let s = b.wallet_summaries@[k];
            let tx = final(ledger).transactions().last();
            &&& final(batches)@[i as int].id == b.id
            &&& final(ledger).transactions().len() == old(ledger).transactions().len() + 1
            &&& final(ledger).transactions().drop_last() == old(ledger).transactions()
            &&& tx.id == t
            &&& tx.template_id == CREATE_BATCH_ID
            &&& tx.journal_id == wallet.journal_id
            &&& tx.metadata == meta_json
            &&& tx.entries@ == posted_with(
                template_for(old(ledger).templates(), CREATE_BATCH_ID),
                seq![wallet.ledger_account_ids.effective_outgoing_id, wallet.ledger_account_ids.fee_id],
                seq![s.total_spent_sats.0, s.fee_sats.0],
            )
            &&& final(batches)@.len() == old(batches)@.len()
            &&& forall|j: int| 0 <= j < old(batches)@.len() && j != i ==> final(batches)@[j] == old(batches)@[j]
            &&& final(batches)@[i as int].wallet_summaries@.len() == b.wallet_summaries@.len()
            &&& forall|m: int|
                0 <= m < b.wallet_summaries@.len() ==> #[trigger] final(batches)@[i as int].wallet_summaries@[m] == if b.wallet_summaries@[m].wallet_id
                    == wallet.id {
                    WalletSummary { batch_created_ledger_tx_id: Some(t), ..b.wallet_summaries@[m] }
                } else {
                    b.wallet_summaries@[m]
                }
        },
{
    let batch = batches.get(i);
    let mut k: usize = 0;
    let n = batch.wallet_summaries.len();
    while k < n
        invariant
            n == batch.wallet_summaries@.len(),
            k <= n,
            forall|m: int| 0 <= m < k ==> (#[trigger] batch.wallet_summaries@[m]).wallet_id != wallet.id,
        ensures
            k <= n,
            forall|m: int| 0 <= m < k ==> (#[trigger] batch.wallet_summaries@[m]).wallet_id != wallet.id,
            k < n ==> batch.wallet_summaries@[k as int].wallet_id == wallet.id,
        decreases n - k,
    {
        if batch.wallet_summaries[k].wallet_id == wallet.id {
            break;
        }
        k += 1;
    }
    if k == n {
        return Err(BatchJobError::WalletNotInBatch);
    }
    proof {
        assert(first_summary(batch.wallet_summaries@, wallet.id) == k as int) by {
            let f = first_summary(batch.wallet_summaries@, wallet.id);
            assert(is_first_summary(batch.wallet_summaries@, wallet.id, k as int));
            if f < k {
                assert(batch.wallet_summaries@[f].wallet_id != wallet.id);
            } else if f > k {
                assert(batch.wallet_summaries@[k as int].wallet_id == wallet.id);
            }
        }
    }
    let params = CreateBatchParams {
        journal_id: wallet.journal_id,
        ledger_account_ids: wallet.ledger_account_ids,
        total_spent: batch.wallet_summaries[k].total_spent_sats,
        fee: batch.wallet_summaries[k].fee_sats,
        effective,
    }.to_tx_params(meta_json);
    match ledger.check_postable(CREATE_BATCH_ID, &params) {
        Ok(()) => {},
        Err(e) => return Err(BatchJobError::Ledger(e)),
    }
    let tx_id = LedgerTransactionId::new();
    proof {
        lemma_posted_with(template_for(ledger.templates(), CREATE_BATCH_ID), params);
    }
    match ledger.post_transaction(tx_id, CREATE_BATCH_ID, &params) {
        Ok(()) => {},
        Err(e) => return Err(BatchJobError::Ledger(e)),
    }
    batches.set_batch_created(i, wallet.id, tx_id);
    Ok(tx_id)
}

/// Changing only the batch-created ids of summaries keeps every reservation linked.
proof fn lemma_links_kept(rows: Seq<WalletUtxo>, before: Seq<Batch>, after: Seq<Batch>)
    requires
        reservations_linked(rows, before),
        after.len() == before.len(),
        forall|j: int|
            0 <= j < before.len() ==> (#[trigger] after[j]).id == before[j].id && after[j].wallet_summaries@.len()
                == before[j].wallet_summaries@.len() && forall|m: int|
                0 <= m < before[j].wallet_summaries@.len() ==> (#[trigger] after[j].wallet_summaries@[m]).wallet_id
                    == before[j].wallet_summaries@[m].wallet_id,
    ensures
        reservations_linked(rows, after),
{
    assert forall|i: int|
        0 <= i < rows.len() && (#[trigger] rows[i]).spending_batch_id.is_some() implies batch_covers(
        after,
        rows[i].spending_batch_id.unwrap(),
        rows[i].wallet_id,
    ) by {
        let b = rows[i].spending_batch_id.unwrap();
        let j = choose|j: int|
            0 <= j < before.len() && (#[trigger] before[j]).id == b && has_summary(before[j].wallet_summaries@, rows[i].wallet_id);
        let m = choose|m: int|
            0 <= m < before[j].wallet_summaries@.len() && (#[trigger] before[j].wallet_summaries@[m]).wallet_id == rows[i].wallet_id;
        assert(after[j].wallet_summaries@[m].wallet_id == rows[i].wallet_id);
    }
}

/// Posts the batch-created ledger transaction of every requested wallet in batch `idx`, whose
/// summaries are those wallets' in order.
fn post_created_for_all(
    ledger: &mut Ledger,
    batches: &mut Batches,
    idx: usize,
    requests: &Vec<WalletBatchRequest>,
    effective: LedgerDate,
    meta_json: String,
)
    requires
        old(ledger).wf(),
        postable(old(ledger).templates(), CREATE_BATCH_ID, 2, 2),
        idx < old(batches)@.len(),
        old(batches)@[idx as int].wallet_summaries@.len() == requests@.len(),
        forall|m: int|
            0 <= m < requests@.len() ==> (#[trigger] old(batches)@[idx as int].wallet_summaries@[m]).wallet_id
                == requests@[m].wallet.id,
    ensures
        final(ledger).wf(),
        final(ledger).transactions().len() == old(ledger).transactions().len() + requests@.len(),
        final(ledger).transactions().take(old(ledger).transactions().len() as int) == old(ledger).transactions(),
        forall|q: int|
            old(ledger).transactions().len() <= q < final(ledger).transactions().len() ==> (#[trigger] final(ledger).transactions()[q]).template_id
                == CREATE_BATCH_ID,
        final(batches)@.len() == old(batches)@.len(),
        forall|j: int| 0 <= j < old(batches)@.len() && j != idx ==> final(batches)@[j] == old(batches)@[j],
        final(batches)@[idx as int].id == old(batches)@[idx as int].id,
        final(batches)@[idx as int].wallet_summaries@.len() == requests@.len(),
        forall|m: int|
            0 <= m < requests@.len() ==> (#[trigger] final(batches)@[idx as int].wallet_summaries@[m]).wallet_id
                == requests@[m].wallet.id,
        spec_accounting_complete(final(batches)@[idx as int].wallet_summaries@),
{
    let ghost templates = ledger.templates();
    let ghost txs = ledger.transactions();
    let ghost assembled = batches@;
    let n = requests.len();
    let mut i: usize = 0;
    while i < n
        invariant
            n == requests@.len(),
            i <= n,
            idx < assembled.len(),
            ledger.wf(),
            ledger.templates() == templates,
            postable(templates, CREATE_BATCH_ID, 2, 2),
            ledger.transactions().len() == txs.len() + i,
            ledger.transactions().take(txs.len() as int) == txs,
            forall|q: int|
                txs.len() <= q < ledger.transactions().len() ==> (#[trigger] ledger.transactions()[q]).template_id == CREATE_BATCH_ID,
            batches@.len() == assembled.len(),
            forall|j: int| 0 <= j < assembled.len() && j != idx ==> batches@[j] == assembled[j],
            batches@[idx as int].id == assembled[idx as int].id,
            batches@[idx as int].wallet_summaries@.len() == n,
            forall|m: int|
                0 <= m < n ==> (#[trigger] batches@[idx as int].wallet_summaries@[m]).wallet_id == requests@[m].wallet.id,
            forall|m: int|
                0 <= m < i ==> (#[trigger] batches@[idx as int].wallet_summaries@[m]).batch_created_ledger_tx_id.is_some(),
        decreases n - i,
    {
        proof {
            assert(has_summary(batches@[idx as int].wallet_summaries@, requests@[i as int].wallet.id)) by {
                assert(batches@[idx as int].wallet_summaries@[i as int].wallet_id == requests@[i as int].wallet.id);
            }
        }
        let ghost before = batches@;
        let ghost before_txs = ledger.transactions();
        let posted = post_batch_created(ledger, batches, idx, &requests[i].wallet, effective, meta_json.clone());
        proof {
            assert(posted.is_ok());
            assert(ledger.transactions().take(txs.len() as int) =~= before_txs.take(txs.len() as int));
            assert forall|m: int| 0 <= m < i + 1 implies (#[trigger] batches@[idx as int].wallet_summaries@[m]).batch_created_ledger_tx_id.is_some() by {
                if before[idx as int].wallet_summaries@[m].wallet_id == requests@[i as int].wallet.id {
                } else {
                    assert(m < i);
                }
            }
            assert forall|q: int|
                txs.len() <= q < ledger.transactions().len() implies (#[trigger] ledger.transactions()[q]).template_id == CREATE_BATCH_ID by {
                if q < ledger.transactions().len() - 1 {
                    assert(ledger.transactions()[q] == before_txs[q]);
                }
            }
        }
        i += 1;
    }
}

/// The batch job of a payout queue: builds and stores the batch (see `assemble_batch`), posts
/// its batch-created ledger transaction for every wallet (see `post_batch_created`), so the
/// batch's accounting is complete, and puts the queue's waiting payouts into it. Nothing
/// changes where the batch-created template cannot be posted, or where no batch is built.
#[verifier::rlimit(100)]
pub fn process_batch(
    utxos: &mut Utxos,
    batches: &mut Batches,
    payouts: &mut Payouts,
    ledger: &mut Ledger,
    data: &ProcessBatchGroupData,
    payout_queue_id: PayoutQueueId,
    config: &PayoutQueueConfig,
    fee_rate: FeeRate,
    requests: &Vec<WalletBatchRequest>,
    dust_limit: u64,
    bitcoin_tx_id: Txid,
    unsigned_psbt: Vec<u8>,
    effective: LedgerDate,
    meta_json: String,
) -> (r: Result<Option<BatchId>, BatchJobError>)
    requires
        old(utxos).wf(),
        old(ledger).wf(),
        reservations_linked(old(utxos)@, old(batches)@),
        forall|i: int| 0 <= i < requests@.len() ==> (#[trigger] requests@[i]).wallet.wf(),
    ensures
        final(utxos).wf(),
        final(ledger).wf(),
        reservations_linked(final(utxos)@, final(batches)@),
        !postable(old(ledger).templates(), CREATE_BATCH_ID, 2, 2) ==> r is Err,
        postable(old(ledger).templates(), CREATE_BATCH_ID, 2, 2) ==> job_outcome(
            old(utxos)@,
            requests@,
            fee_rate,
            config.consolidate_deprecated_keychains,
            data.batch_id,
            r,
        ),
        !(r matches Ok(Some(_))) ==> final(utxos)@ == old(utxos)@ && final(batches)@ == old(batches)@
            && final(payouts)@ == old(payouts)@ && final(ledger).transactions() == old(ledger).transactions(),
        r matches Ok(Some(id)) ==> {
            let rows = old(utxos)@;
            let reqs = requests@;
            let cons = config.consolidate_deprecated_keychains;
            let batch = final(batches)@.last();
            &&& id == data.batch_id
            &&& final(batches)@.drop_last() == old(batches)@
            &&& batch.id == data.batch_id
            &&& batch.wallet_summaries@.len() == reqs.len()
            &&& forall|i: int|
                0 <= i < reqs.len() ==> (#[trigger] batch.wallet_summaries@[i]).wallet_id == reqs[i].wallet.id
            &&& spec_accounting_complete(batch.wallet_summaries@)
            &&& rows_extended(rows, final(utxos)@)
            &&& exists|t: LedgerTransactionId|
                final(utxos)@ == reserve_rows(rows, selected_keys(rows, reqs, fee_rate, cons, reqs.len() as int), id, t, fee_rate)
            &&& final(ledger).transactions().len() == old(ledger).transactions().len() + reqs.len()
            &&& final(ledger).transactions().take(old(ledger).transactions().len() as int) == old(ledger).transactions()
            &&& forall|q: int|
                old(ledger).transactions().len() <= q < final(ledger).transactions().len() ==> (#[trigger] final(ledger).transactions()[q]).template_id == CREATE_BATCH_ID
            &&& final(payouts)@.len() == old(payouts)@.len()
            &&& forall|i: int|
                0 <= i < old(payouts)@.len() ==> #[trigger] final(payouts)@[i] == if spec_unbatched(old(payouts)@[i], payout_queue_id) {
                    Payout { batch_id: Some(id), ..old(payouts)@[i] }
                } else {
                    old(payouts)@[i]
                }
        },
{
    let probe = CreateBatchParams {
        journal_id: crate::primitives::JournalId(0),
        ledger_account_ids: crate::ledger::WalletLedgerAccountIds {
            onchain_incoming_id: crate::primitives::LedgerAccountId(0),
            onchain_at_rest_id: crate::primitives::LedgerAccountId(0),
            onchain_outgoing_id: crate::primitives::LedgerAccountId(0),
            effective_outgoing_id: crate::primitives::LedgerAccountId(0),
            fee_id: crate::primitives::LedgerAccountId(0),
        },
        total_spent: Satoshis(0),
        fee: Satoshis(0),
        effective,
    }.to_tx_params(String::new());
    match ledger.check_postable(CREATE_BATCH_ID, &probe) {
        Ok(()) => {},
        Err(e) => return Err(BatchJobError::Ledger(e)),
    }
    let id = match assemble_batch(
        utxos,
        batches,
        data,
        payout_queue_id,
        config,
        fee_rate,
        requests,
        dust_limit,
        bitcoin_tx_id,
        unsigned_psbt,
    ) {
        Ok(Some(id)) => id,
        Ok(None) => return Ok(None),
        Err(e) => return Err(e),
    };
    let ghost assembled = batches@;
    let idx = batches.len() - 1;
    proof {
        assert forall|m: int| 0 <= m < requests@.len() implies (#[trigger] assembled[idx as int].wallet_summaries@[m]).wallet_id
            == requests@[m].wallet.id by {
            assert(summary_as_planned(
                assembled[idx as int].wallet_summaries@[m],
                old(utxos)@,
                requests@,
                fee_rate,
                config.consolidate_deprecated_keychains,
                dust_limit,
                m,
            ));
        }
    }
    post_created_for_all(ledger, batches, idx, requests, effective, meta_json);
    proof {
        lemma_links_kept(utxos@, assembled, batches@);
        assert(batches@.drop_last() =~= assembled.drop_last());
    }
    payouts.mark_batched(payout_queue_id, id);
    Ok(Some(id))
}

} // verus!
