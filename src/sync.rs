use vstd::prelude::*;

use crate::ledger::constants::{CONFIRMED_UTXO_ID, SPEND_SETTLED_ID, UTXO_DETECTED_ID};
use crate::ledger::templates::spend_settled::{change_sum, SpendSettledMeta, SpendSettledParams, WalletTransactionSummary};
use crate::ledger::templates::confirmed_utxo::ConfirmedUtxoParams;
use crate::ledger::templates::utxo_detected::UtxoDetectedParams;
use crate::ledger::{lemma_posted_with, postable, posted_with, template_for, Ledger, LedgerError};
use crate::primitives::{BlockTime, KeychainId, LedgerTransactionId, KeychainKind, LedgerDate, OutPoint, Satoshis, MAX_BLOCK_TIMESTAMP};
use crate::utxo::entity::{AddressInfo, LocalUtxo, SettledUtxo, UtxoError, WalletUtxo};
use crate::utxo::{
    any_settleable, detected_row, has_key, id_used, ids_exhausted, key_index, rows_extended, rows_spend_settled,
    settleable_from, settled_row, Utxos,
};
use crate::wallet::Wallet;

verus! {

/// An output mined at `block_height` has the confirmations a wallet asks for when the chain
/// is at `current_height`: `block_height <= current_height - n_confs + 1`.
pub open spec fn spec_is_confirmed(block_height: u32, current_height: u32, n_confs: u32) -> bool {
    block_height as int + n_confs as int <= current_height as int + 1
}

/// Whether an output mined at `block_height` counts as settled at `current_height`.
pub fn is_confirmed(block_height: u32, current_height: u32, n_confs: u32) -> (r: bool)
    ensures
        r == spec_is_confirmed(block_height, current_height, n_confs),
{
    (block_height as u64) + (n_confs as u64) <= (current_height as u64) + 1
}

/// What a sync does with an output of a transaction it finds: change comes back with the
/// spend that made it; anything else is an incoming payment.
#[derive(PartialEq, Eq, Structural, Clone, Copy, Debug)]
pub enum OutputAction {
    CollectAsChange,
    RecordIncome,
}

pub fn classify_output(kind: KeychainKind) -> (r: OutputAction)
    ensures
        kind == KeychainKind::Internal <==> r == OutputAction::CollectAsChange,
{
    match kind {
        KeychainKind::Internal => OutputAction::CollectAsChange,
        KeychainKind::External => OutputAction::RecordIncome,
    }
}

/// What spending an output will cost: the fee rate times the weight that satisfying it adds.
/// `None` where it does not fit in 64 bits.
pub fn spending_fee(sats_per_vbyte: u64, weight: u64) -> (r: Option<Satoshis>)
    ensures
        r.is_some() == (sats_per_vbyte * weight <= u64::MAX),
        r matches Some(f) ==> f.0 == sats_per_vbyte * weight,
{
    match sats_per_vbyte.checked_mul(weight) {
        Some(f) => Some(Satoshis(f)),
        None => None,
    }
}

#[derive(PartialEq, Eq, Structural, Clone, Copy, Debug)]
pub enum SyncError {
    Utxo(UtxoError),
    Ledger(LedgerError),
}

/// Records an incoming output found by a sync and posts its detection to the ledger, with
/// `meta_json` as metadata. An output already recorded is left alone: nothing is posted and
/// `Ok(false)` comes back.
pub fn record_incoming_utxo(
    utxos: &mut Utxos,
    ledger: &mut Ledger,
    wallet: &Wallet,
    keychain_id: KeychainId,
    address: &AddressInfo,
    utxo: &LocalUtxo,
    sats_per_vbyte: u64,
    effective: LedgerDate,
    meta_json: String,
) -> (r: Result<bool, SyncError>)
    requires
        old(utxos).wf(),
        old(ledger).wf(),
    ensures
        final(utxos).wf(),
        final(ledger).wf(),
        !postable(old(ledger).templates(), UTXO_DETECTED_ID, 1, 1) ==> r.is_err(),
        postable(old(ledger).templates(), UTXO_DETECTED_ID, 1, 1) ==> {
            &&& has_key(old(utxos)@, keychain_id, utxo.outpoint) ==> r == Ok::<bool, SyncError>(false)
            &&& !has_key(old(utxos)@, keychain_id, utxo.outpoint) && !ids_exhausted(old(utxos)@) ==> r == Ok::<
                bool,
                SyncError,
            >(true)
            &&& r.is_err() ==> r == Err::<bool, SyncError>(SyncError::Utxo(UtxoError::LedgerTxIdsExhausted))
        },
        r != Ok::<bool, SyncError>(true) ==> final(utxos)@ == old(utxos)@ && final(ledger).transactions()
            == old(ledger).transactions(),
        r == Ok::<bool, SyncError>(true) ==> {
            let row = final(utxos)@.last();
            let tx = final(ledger).transactions().last();
            &&& final(utxos)@ == old(utxos)@.push(
                detected_row(
                    wallet.account_id,
                    wallet.id,
                    keychain_id,
                    *address,
                    *utxo,
                    sats_per_vbyte,
                    false,
                    row.utxo_detected_ledger_tx_id,
                ),
            )
            &&& !id_used(old(utxos)@, row.utxo_detected_ledger_tx_id)
            &&& final(ledger).transactions().drop_last() == old(ledger).transactions()
            &&& tx.id == row.utxo_detected_ledger_tx_id
            &&& tx.template_id == UTXO_DETECTED_ID
            &&& tx.journal_id == wallet.journal_id
            &&& tx.effective == effective
            &&& tx.metadata == meta_json
            &&& tx.entries@ == posted_with(
                template_for(old(ledger).templates(), UTXO_DETECTED_ID),
                seq![wallet.ledger_account_ids.onchain_incoming_id],
                seq![utxo.txout.value],
            )
        },
{
    let params = UtxoDetectedParams {
        journal_id: wallet.journal_id,
        onchain_incoming_account_id: wallet.ledger_account_ids.onchain_incoming_id,
        satoshis: Satoshis(utxo.txout.value),
        effective,
    }.to_tx_params(meta_json);
    match ledger.check_postable(UTXO_DETECTED_ID, &params) {
        Ok(()) => {},
        Err(e) => return Err(SyncError::Ledger(e)),
    }
    let tx_id = match utxos.new_utxo_detected(
        wallet.account_id,
        wallet.id,
        keychain_id,
        address,
        utxo,
        sats_per_vbyte,
        false,
    ) {
        Ok(Some(id)) => id,
        Ok(None) => return Ok(false),
        Err(e) => return Err(SyncError::Utxo(e)),
    };
    proof {
        lemma_posted_with(template_for(ledger.templates(), UTXO_DETECTED_ID), params);
    }
    match ledger.post_transaction(tx_id, UTXO_DETECTED_ID, &params) {
        Ok(()) => {},
        Err(e) => return Err(SyncError::Ledger(e)),
    }
    Ok(true)
}

/// Settles an incoming output once it has the confirmations the wallet asks for, and posts
/// the confirmation to the ledger. `Ok(None)`, with nothing changed, while the block at
/// `confirmation_time` is not deep enough below `current_height`.
pub fn settle_confirmed_utxo(
    utxos: &mut Utxos,
    ledger: &mut Ledger,
    wallet: &Wallet,
    keychain_id: KeychainId,
    outpoint: OutPoint,
    bdk_spent: bool,
    confirmation_time: BlockTime,
    current_height: u32,
    meta_json: String,
) -> (r: Result<Option<SettledUtxo>, SyncError>)
    requires
        old(utxos).wf(),
        old(ledger).wf(),
        confirmation_time.timestamp <= MAX_BLOCK_TIMESTAMP,
    ensures
        final(utxos).wf(),
        final(ledger).wf(),
        !spec_is_confirmed(confirmation_time.height, current_height, wallet.config.mark_settled_after_n_confs)
            ==> r == Ok::<Option<SettledUtxo>, SyncError>(None),
        spec_is_confirmed(confirmation_time.height, current_height, wallet.config.mark_settled_after_n_confs)
            && !postable(old(ledger).templates(), CONFIRMED_UTXO_ID, 2, 1) ==> r.is_err(),
        spec_is_confirmed(confirmation_time.height, current_height, wallet.config.mark_settled_after_n_confs)
            && postable(old(ledger).templates(), CONFIRMED_UTXO_ID, 2, 1) ==> ({
            let i = key_index(old(utxos)@, keychain_id, outpoint);
            &&& !has_key(old(utxos)@, keychain_id, outpoint) ==> r == Err::<Option<SettledUtxo>, SyncError>(
                SyncError::Utxo(UtxoError::UtxoDoesNotExist),
            )
            &&& has_key(old(utxos)@, keychain_id, outpoint) && old(utxos)@[i].utxo_settled_ledger_tx_id.is_some()
                ==> r == Err::<Option<SettledUtxo>, SyncError>(SyncError::Utxo(UtxoError::UtxoAlreadySettled))
            &&& has_key(old(utxos)@, keychain_id, outpoint) && old(utxos)@[i].utxo_settled_ledger_tx_id.is_none()
                && !ids_exhausted(old(utxos)@) ==> (r matches Ok(Some(_)))
            &&& r.is_err() && has_key(old(utxos)@, keychain_id, outpoint) && old(utxos)@[i].utxo_settled_ledger_tx_id.is_none()
                ==> r == Err::<Option<SettledUtxo>, SyncError>(SyncError::Utxo(UtxoError::LedgerTxIdsExhausted))
        }),
        !(r matches Ok(Some(_))) ==> final(utxos)@ == old(utxos)@ && final(ledger).transactions()
            == old(ledger).transactions(),
        r matches Ok(Some(s)) ==> {
            let i = key_index(old(utxos)@, keychain_id, outpoint);
            let tx = final(ledger).transactions().last();
            &&& final(utxos)@ == old(utxos)@.update(
                i,
                crate::utxo::settled_row(old(utxos)@[i], bdk_spent, confirmation_time.height, s.utxo_settled_ledger_tx_id),
            )
            &&& s.value == old(utxos)@[i].value
            &&& final(ledger).transactions().drop_last() == old(ledger).transactions()
            &&& tx.id == s.utxo_settled_ledger_tx_id
            &&& tx.template_id == CONFIRMED_UTXO_ID
            &&& !id_used(old(utxos)@, s.utxo_settled_ledger_tx_id)
            &&& tx.correlation_id == Some(old(utxos)@[i].utxo_detected_ledger_tx_id)
            &&& tx.journal_id == wallet.journal_id
            &&& tx.metadata == meta_json
            &&& tx.effective.days_from_ce == confirmation_time.timestamp / 86400 + crate::primitives::UNIX_EPOCH_DAY
            &&& tx.entries@ == posted_with(
                template_for(old(ledger).templates(), CONFIRMED_UTXO_ID),
                seq![wallet.ledger_account_ids.onchain_incoming_id, wallet.ledger_account_ids.onchain_at_rest_id],
                seq![old(utxos)@[i].value.0],
            )
        },
{
    if !is_confirmed(confirmation_time.height, current_height, wallet.config.mark_settled_after_n_confs) {
        return Ok(None);
    }
    let probe = ConfirmedUtxoParams {
        journal_id: wallet.journal_id,
        ledger_account_ids: wallet.ledger_account_ids,
        pending_id: crate::primitives::LedgerTransactionId(0),
        satoshis: Satoshis(0),
        confirmation_time,
    }.to_tx_params(String::new());
    match ledger.check_postable(CONFIRMED_UTXO_ID, &probe) {
        Ok(()) => {},
        Err(e) => return Err(SyncError::Ledger(e)),
    }
    let settled = match utxos.settle_utxo(keychain_id, outpoint, bdk_spent, confirmation_time.height) {
        Ok(s) => s,
        Err(e) => return Err(SyncError::Utxo(e)),
    };
    let params = ConfirmedUtxoParams {
        journal_id: wallet.journal_id,
        ledger_account_ids: wallet.ledger_account_ids,
        pending_id: settled.utxo_detected_ledger_tx_id,
        satoshis: settled.value,
        confirmation_time,
    }.to_tx_params(meta_json);
    proof {
        lemma_posted_with(template_for(ledger.templates(), CONFIRMED_UTXO_ID), params);
    }
    match ledger.post_transaction(settled.utxo_settled_ledger_tx_id, CONFIRMED_UTXO_ID, &params) {
        Ok(()) => {},
        Err(e) => return Err(SyncError::Ledger(e)),
    }
    Ok(Some(settled))
}

/// Records that a spend of the keychain's outputs is confirmed (see `Utxos::spend_settled`) and
/// posts its settlement (SPEND_SETTLED) as the settlement's ledger transaction, correlated with
/// the posting of the spend. `summary` is what the wallet put into the transaction and got
/// back. Nothing changes where the template cannot be posted or the change does not fit in 64
/// bits; nothing is posted where no input was left to settle.
pub fn settle_spend_and_post(
    utxos: &mut Utxos,
    ledger: &mut Ledger,
    wallet: &Wallet,
    keychain_id: KeychainId,
    inputs: &Vec<OutPoint>,
    change_utxo: Option<LocalUtxo>,
    summary: WalletTransactionSummary,
    confirmation_time: BlockTime,
    meta_json: String,
) -> (r: Result<Option<(LedgerTransactionId, LedgerTransactionId, bool)>, SyncError>)
    requires
        old(utxos).wf(),
        old(ledger).wf(),
        confirmation_time.timestamp <= MAX_BLOCK_TIMESTAMP,
    ensures
        final(utxos).wf(),
        final(ledger).wf(),
        !postable(old(ledger).templates(), SPEND_SETTLED_ID, 5, 4) ==> r.is_err(),
        change_sum(summary.change_utxos@) > u64::MAX ==> r.is_err(),
        postable(old(ledger).templates(), SPEND_SETTLED_ID, 5, 4) && change_sum(summary.change_utxos@) <= u64::MAX
            && change_utxo.is_none() && !ids_exhausted(old(utxos)@) ==> r.is_ok(),
        r.is_err() ==> final(ledger).transactions() == old(ledger).transactions(),
        r.is_ok() ==> rows_extended(old(utxos)@, final(utxos)@),
        r.is_ok() ==> exists|mid: Seq<WalletUtxo>, t: LedgerTransactionId| {
            &&& !id_used(old(utxos)@, t)
            &&& final(utxos)@ == rows_spend_settled(mid, keychain_id, inputs@, t)
            &&& match change_utxo {
                None => mid == old(utxos)@,
                Some(c) => {
                    let i = key_index(old(utxos)@, keychain_id, c.outpoint);
                    mid == old(utxos)@.update(i, settled_row(old(utxos)@[i], c.is_spent, confirmation_time.height, t))
                },
            }
            &&& r.unwrap().is_some() == any_settleable(mid, keychain_id, inputs@)
            &&& r.unwrap() matches Some(x) ==> x.1 == t && settleable_from(mid, keychain_id, inputs@, x.0)
        },
        r matches Ok(None) ==> final(ledger).transactions() == old(ledger).transactions(),
        r matches Ok(Some(x)) ==> {
            let tx = final(ledger).transactions().last();
            let ids = wallet.ledger_account_ids;
            let change = change_sum(summary.change_utxos@) as u64;
            &&& final(ledger).transactions().drop_last() == old(ledger).transactions()
            &&& tx.id == x.1
            &&& tx.template_id == SPEND_SETTLED_ID
            &&& tx.correlation_id == Some(x.0)
            &&& tx.journal_id == wallet.journal_id
            &&& tx.metadata == meta_json
            &&& tx.entries@ == posted_with(
                template_for(old(ledger).templates(), SPEND_SETTLED_ID),
                seq![
                    ids.effective_outgoing_id,
                    ids.fee_id,
                    ids.onchain_outgoing_id,
                    ids.onchain_at_rest_id,
                    ids.onchain_incoming_id,
                ],
                seq![summary.fee_sats.0, summary.total_utxo_in_sats.0, change, if x.2 { change } else { 0 }],
            )
        },
{
    let mut p = SpendSettledParams {
        journal_id: wallet.journal_id,
        ledger_account_ids: wallet.ledger_account_ids,
        spend_detected_tx_id: LedgerTransactionId(0),
        change_spent: false,
        meta: SpendSettledMeta { tx_summary: summary, confirmation_time },
    };
    let probe = match p.to_tx_params(String::new()) {
        Some(t) => t,
        None => return Err(SyncError::Utxo(UtxoError::AmountOverflow)),
    };
    match ledger.check_postable(SPEND_SETTLED_ID, &probe) {
        Ok(()) => {},
        Err(e) => return Err(SyncError::Ledger(e)),
    }
    let (pending_id, settled_id, change_spent) = match utxos.spend_settled(
        keychain_id,
        inputs,
        change_utxo,
        confirmation_time.height,
    ) {
        Ok(Some(x)) => x,
        Ok(None) => return Ok(None),
        Err(e) => return Err(SyncError::Utxo(e)),
    };
    p.spend_detected_tx_id = pending_id;
    p.change_spent = change_spent;
    let params = match p.to_tx_params(meta_json) {
        Some(t) => t,
        None => return Err(SyncError::Utxo(UtxoError::AmountOverflow)),
    };
    proof {
        lemma_posted_with(template_for(ledger.templates(), SPEND_SETTLED_ID), params);
    }
    match ledger.post_transaction(settled_id, SPEND_SETTLED_ID, &params) {
        Ok(()) => {},
        Err(e) => return Err(SyncError::Ledger(e)),
    }
    Ok(Some((pending_id, settled_id, change_spent)))
}

} // verus!
