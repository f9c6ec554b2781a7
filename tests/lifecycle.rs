use bria::batch::builder::BuilderError;
use bria::batch::Batches;
use bria::job::process_batch_group::{
    assemble_batch, post_batch_created, PayoutQueueConfig, PayoutQueueTrigger, ProcessBatchGroupData, WalletBatchRequest,
};
use bria::ledger::constants::{
    CONFIRMED_UTXO_ID, CREATE_BATCH_ID, EFFECTIVE_OUTGOING_ID, ONCHAIN_UTXO_INCOMING_ID, PAYOUT_CANCELLED_ID, QUEUED_PAYOUT_ID,
    SPEND_SETTLED_ID, UTXO_DETECTED_ID,
};
use bria::ledger::templates::init_templates;
use bria::ledger::templates::payout_cancelled::{PayoutCancelledMeta, PayoutCancelledParams};
use bria::ledger::templates::queued_payout::{QueuedPayoutMeta, QueuedPayoutParams};
use bria::ledger::templates::spend_settled::{
    ChangeOutput, SpendSettledMeta, SpendSettledParams, WalletTransactionSummary,
};
use bria::ledger::{Direction, Layer, Ledger, LedgerTransaction, WalletLedgerAccountIds};
use bria::payout::Payouts;
use bria::primitives::{
    AccountId, BatchGroupId, BlockTime, FeeRate, JournalId, KeychainId, KeychainKind, LedgerAccountId, LedgerDate,
    OutPoint, PayoutDestination, PayoutQueueId, ProfileId, Satoshis, TxPriority, Txid, WalletId,
};
use bria::sync::{record_incoming_utxo, settle_confirmed_utxo};
use bria::utxo::entity::{AddressInfo, LocalUtxo, TxOut, UtxoError};
use bria::utxo::Utxos;
use bria::wallet::{Wallet, WalletConfig};

fn accounts() -> WalletLedgerAccountIds {
    WalletLedgerAccountIds {
        onchain_incoming_id: LedgerAccountId(101),
        onchain_at_rest_id: LedgerAccountId(102),
        onchain_outgoing_id: LedgerAccountId(103),
        effective_outgoing_id: LedgerAccountId(104),
        fee_id: LedgerAccountId(105),
    }
}

fn wallet() -> Wallet {
    Wallet {
        id: WalletId(1),
        account_id: AccountId(7),
        journal_id: JournalId(9),
        ledger_account_ids: accounts(),
        config: WalletConfig { mark_settled_after_n_confs: 2 },
        keychains: vec![KeychainId(11)],
    }
}

fn tx_a() -> OutPoint {
    OutPoint { txid: Txid { hi: 0xa, lo: 0xa }, vout: 0 }
}

fn change_point() -> OutPoint {
    OutPoint { txid: Txid { hi: 0xb, lo: 0xb }, vout: 1 }
}

fn external_address(index: u32) -> AddressInfo {
    AddressInfo { index, address: format!("bc1q-external-{}", index), keychain: KeychainKind::External }
}

fn local(outpoint: OutPoint, value: u64, keychain: KeychainKind) -> LocalUtxo {
    LocalUtxo { outpoint, txout: TxOut { value, script_hex: "0014ab".to_string() }, keychain, is_spent: false }
}

fn ledger() -> Ledger {
    let mut ledger = Ledger::new();
    assert!(init_templates(&mut ledger).is_ok());
    ledger
}

fn units_on(tx: &LedgerTransaction, account: LedgerAccountId, layer: Layer, direction: Direction) -> i128 {
    tx.entries
        .iter()
        .filter(|e| e.account_id == account && e.layer == layer && e.direction == direction)
        .map(|e| e.units)
        .sum()
}

fn assert_balanced(tx: &LedgerTransaction) {
    for layer in [Layer::Settled, Layer::Pending, Layer::Encumbered] {
        let debit: i128 = tx.entries.iter().filter(|e| e.layer == layer && e.direction == Direction::Debit).map(|e| e.units).sum();
        let credit: i128 =
            tx.entries.iter().filter(|e| e.layer == layer && e.direction == Direction::Credit).map(|e| e.units).sum();
        assert_eq!(debit, credit);
    }
}

/// Detects txA:0 for 100_000 sats.
fn detect(utxos: &mut Utxos, ledger: &mut Ledger) {
    let r = record_incoming_utxo(
        utxos,
        ledger,
        &wallet(),
        KeychainId(11),
        &external_address(3),
        &local(tx_a(), 100_000, KeychainKind::External),
        1,
        LedgerDate { days_from_ce: 738_000 },
        "{}".to_string(),
    );
    assert_eq!(r, Ok(true));
}

fn confirm(utxos: &mut Utxos, ledger: &mut Ledger) {
    let r = settle_confirmed_utxo(
        utxos,
        ledger,
        &wallet(),
        KeychainId(11),
        tx_a(),
        false,
        BlockTime { height: 800_000, timestamp: 1_690_000_000 },
        800_002,
        "{}".to_string(),
    );
    assert!(matches!(r, Ok(Some(_))));
}

fn post_queued(ledger: &mut Ledger, payout_id: bria::primitives::PayoutId, queue: PayoutQueueId) {
    let params = QueuedPayoutParams {
        journal_id: JournalId(9),
        effective_outgoing_account_id: accounts().effective_outgoing_id,
        external_id: "payout-1".to_string(),
        meta: QueuedPayoutMeta {
            account_id: AccountId(7),
            payout_id,
            wallet_id: WalletId(1),
            payout_queue_id: queue,
            profile_id: ProfileId(3),
            satoshis: Satoshis(60_000),
            destination: PayoutDestination::OnchainAddress { value: "bc1q-x".to_string() },
        },
    };
    let tx_id = bria::primitives::LedgerTransactionId(550);
    assert!(ledger
        .post_transaction(tx_id, QUEUED_PAYOUT_ID, &params.to_tx_params("{}".to_string(), LedgerDate { days_from_ce: 738_001 }))
        .is_ok());
}

fn encumbered_on(ledger: &Ledger, account: LedgerAccountId) -> i128 {
    (0..ledger.len())
        .map(|i| {
            let tx = ledger.transaction(i);
            units_on(tx, account, Layer::Encumbered, Direction::Credit)
                - units_on(tx, account, Layer::Encumbered, Direction::Debit)
        })
        .sum()
}

fn queue_config() -> PayoutQueueConfig {
    PayoutQueueConfig {
        tx_priority: TxPriority::NextBlock,
        consolidate_deprecated_keychains: false,
        trigger: PayoutQueueTrigger::Manual,
    }
}

fn batch_request(total_spent: u64) -> WalletBatchRequest {
    WalletBatchRequest {
        wallet: wallet(),
        total_spent: Satoshis(total_spent),
        vbytes: 140,
        change_address: "bc1q-change".to_string(),
        change_outpoint: change_point(),
    }
}

#[test]
fn incoming_utxo_is_recorded_and_posted() {
    let mut utxos = Utxos::new();
    let mut ledger = ledger();
    detect(&mut utxos, &mut ledger);
    assert_eq!(utxos.len(), 1);
    let row = utxos.get(0);
    assert_eq!(row.outpoint, tx_a());
    assert_eq!(row.address_idx, 3);
    assert_eq!(row.value, Satoshis(100_000));
    assert!(row.utxo_settled_ledger_tx_id.is_none());
    assert_eq!(ledger.len(), 1);
    let tx = ledger.transaction(0);
    assert_eq!(tx.template_id, UTXO_DETECTED_ID);
    assert_eq!(tx.id, row.utxo_detected_ledger_tx_id);
    assert_eq!(units_on(tx, accounts().onchain_incoming_id, Layer::Pending, Direction::Credit), 100_000);
    assert_eq!(units_on(tx, LedgerAccountId(ONCHAIN_UTXO_INCOMING_ID), Layer::Pending, Direction::Debit), 100_000);
    assert_balanced(tx);
}

#[test]
fn detecting_twice_posts_once() {
    let mut utxos = Utxos::new();
    let mut ledger = ledger();
    detect(&mut utxos, &mut ledger);
    let again = record_incoming_utxo(
        &mut utxos,
        &mut ledger,
        &wallet(),
        KeychainId(11),
        &external_address(3),
        &local(tx_a(), 100_000, KeychainKind::External),
        1,
        LedgerDate { days_from_ce: 738_000 },
        "{}".to_string(),
    );
    assert_eq!(again, Ok(false));
    assert_eq!(utxos.len(), 1);
    assert_eq!(ledger.len(), 1);
}

#[test]
fn confirmation_moves_pending_to_settled() {
    let mut utxos = Utxos::new();
    let mut ledger = ledger();
    detect(&mut utxos, &mut ledger);
    confirm(&mut utxos, &mut ledger);
    let row = utxos.get(0);
    assert!(row.utxo_settled_ledger_tx_id.is_some());
    assert_eq!(row.block_height, Some(800_000));
    assert_eq!(ledger.len(), 2);
    let tx = ledger.transaction(1);
    assert_eq!(tx.template_id, CONFIRMED_UTXO_ID);
    assert_eq!(tx.correlation_id, Some(row.utxo_detected_ledger_tx_id));
    assert_eq!(units_on(tx, accounts().onchain_incoming_id, Layer::Pending, Direction::Debit), 100_000);
    assert_eq!(units_on(tx, accounts().onchain_at_rest_id, Layer::Settled, Direction::Credit), 100_000);
    assert_balanced(tx);
}

#[test]
fn confirmation_waits_for_enough_blocks() {
    let mut utxos = Utxos::new();
    let mut ledger = ledger();
    detect(&mut utxos, &mut ledger);
    let r = settle_confirmed_utxo(
        &mut utxos,
        &mut ledger,
        &wallet(),
        KeychainId(11),
        tx_a(),
        false,
        BlockTime { height: 800_001, timestamp: 1_690_000_000 },
        800_001,
        "{}".to_string(),
    );
    assert!(matches!(r, Ok(None)));
    assert!(utxos.get(0).utxo_settled_ledger_tx_id.is_none());
    assert_eq!(ledger.len(), 1);
}

#[test]
fn queued_payout_is_batched() {
    let mut utxos = Utxos::new();
    let mut ledger = ledger();
    detect(&mut utxos, &mut ledger);
    confirm(&mut utxos, &mut ledger);
    let mut payouts = Payouts::new();
    let queue = PayoutQueueId(21);
    let payout_id = payouts.queue_payout(
        AccountId(7),
        WalletId(1),
        queue,
        PayoutDestination::OnchainAddress { value: "bc1q-x".to_string() },
        Satoshis(60_000),
    );
    post_queued(&mut ledger, payout_id, queue);
    assert_eq!(ledger.transaction(ledger.len() - 1).template_id, QUEUED_PAYOUT_ID);
    assert_eq!(encumbered_on(&ledger, accounts().effective_outgoing_id), 60_000);
    let waiting = payouts.list_unbatched(queue);
    assert_eq!(waiting.len(), 1);
    assert_eq!(waiting[0].1, WalletId(1));
    let mut batches = Batches::new();
    let data = ProcessBatchGroupData::new(BatchGroupId(21), AccountId(7));
    let r = assemble_batch(
        &mut utxos,
        &mut batches,
        &data,
        queue,
        &queue_config(),
        FeeRate { sats_per_vbyte: 10 },
        &vec![batch_request(waiting[0].2 .0)],
        546,
        Txid { hi: 0xb, lo: 0xb },
        vec![1, 2, 3],
    );
    assert_eq!(r, Ok(Some(data.batch_id)));
    payouts.mark_batched(queue, data.batch_id);
    assert!(payouts.list_unbatched(queue).is_empty());
    assert_eq!(batches.len(), 1);
    let batch = batches.get(0);
    assert_eq!(batch.wallet_summaries.len(), 1);
    let s = &batch.wallet_summaries[0];
    assert_eq!(s.total_in_sats, Satoshis(100_000));
    assert_eq!(s.total_spent_sats, Satoshis(60_000));
    assert_eq!(s.fee_sats, Satoshis(1_400));
    assert_eq!(s.change_sats, Satoshis(38_600));
    assert_eq!(s.change_outpoint, Some(change_point()));
    assert!(!batch.accounting_complete());
    assert_eq!(utxos.get(0).spending_batch_id, Some(data.batch_id));
}

#[test]
fn spend_is_detected_then_settled() {
    let mut utxos = Utxos::new();
    let mut ledger = ledger();
    detect(&mut utxos, &mut ledger);
    confirm(&mut utxos, &mut ledger);
    let mut batches = Batches::new();
    let data = ProcessBatchGroupData::new(BatchGroupId(21), AccountId(7));
    let built = assemble_batch(
        &mut utxos,
        &mut batches,
        &data,
        PayoutQueueId(21),
        &queue_config(),
        FeeRate { sats_per_vbyte: 10 },
        &vec![batch_request(60_000)],
        546,
        Txid { hi: 0xb, lo: 0xb },
        vec![],
    );
    assert!(built.is_ok());

    let spend_id = bria::primitives::LedgerTransactionId(500);
    let change = local(change_point(), 38_600, KeychainKind::Internal);
    let change_address = AddressInfo { index: 0, address: "bc1q-change".to_string(), keychain: KeychainKind::Internal };
    let detected = utxos.spend_detected(
        AccountId(7),
        WalletId(1),
        KeychainId(11),
        spend_id,
        &vec![tx_a()],
        &vec![(change, change_address)],
        10,
    );
    let (settled_in, allocations) = detected.unwrap().unwrap();
    assert_eq!(settled_in, Satoshis(100_000));
    assert!(allocations.is_empty());
    assert_eq!(utxos.len(), 2);
    assert_eq!(utxos.get(0).spend_detected_ledger_tx_id, Some(spend_id));
    let change_row = utxos.get(1);
    assert!(change_row.self_pay);
    assert_eq!(change_row.utxo_detected_ledger_tx_id, spend_id);

    let settled = utxos.spend_settled(
        KeychainId(11),
        &vec![tx_a()],
        Some(local(change_point(), 38_600, KeychainKind::Internal)),
        800_010,
    );
    let (pending_id, settled_id, change_spent) = settled.unwrap().unwrap();
    assert_eq!(pending_id, spend_id);
    assert!(!change_spent);
    assert_eq!(utxos.get(0).spend_settled_ledger_tx_id, Some(settled_id));
    assert_eq!(utxos.get(1).utxo_settled_ledger_tx_id, Some(settled_id));

    let params = SpendSettledParams {
        journal_id: JournalId(9),
        ledger_account_ids: accounts(),
        spend_detected_tx_id: pending_id,
        change_spent,
        meta: SpendSettledMeta {
            tx_summary: WalletTransactionSummary {
                wallet_id: WalletId(1),
                total_utxo_in_sats: Satoshis(100_000),
                change_utxos: vec![ChangeOutput {
                    outpoint: change_point(),
                    satoshis: Satoshis(38_600),
                    address: "bc1q-change".to_string(),
                }],
                fee_sats: Satoshis(1_400),
            },
            confirmation_time: BlockTime { height: 800_010, timestamp: 1_690_000_000 },
        },
    };
    let tx_params = params.to_tx_params("{\"spend\":1}".to_string()).unwrap();
    assert_eq!(tx_params.meta, "{\"spend\":1}");
    assert_eq!(tx_params.amounts, vec![1_400, 100_000, 38_600, 0]);
    assert!(ledger.post_transaction(settled_id, SPEND_SETTLED_ID, &tx_params).is_ok());
    let tx = ledger.transaction(ledger.len() - 1);
    assert_eq!(tx.correlation_id, Some(pending_id));
    assert_eq!(units_on(tx, accounts().effective_outgoing_id, Layer::Pending, Direction::Debit), 60_000);
    assert_eq!(units_on(tx, accounts().effective_outgoing_id, Layer::Settled, Direction::Credit), 60_000);
    assert_eq!(units_on(tx, accounts().fee_id, Layer::Settled, Direction::Debit), 1_400);
    assert_eq!(units_on(tx, accounts().onchain_outgoing_id, Layer::Pending, Direction::Debit), 98_600);
    assert_eq!(units_on(tx, accounts().onchain_at_rest_id, Layer::Settled, Direction::Credit), 38_600);
    assert_eq!(units_on(tx, accounts().onchain_at_rest_id, Layer::Settled, Direction::Debit), 0);
    assert_balanced(tx);
}

#[test]
fn cancelled_payout_leaves_nothing_to_batch() {
    let mut utxos = Utxos::new();
    let mut ledger = ledger();
    detect(&mut utxos, &mut ledger);
    confirm(&mut utxos, &mut ledger);
    let mut payouts = Payouts::new();
    let queue = PayoutQueueId(21);
    let id = payouts.queue_payout(
        AccountId(7),
        WalletId(1),
        queue,
        PayoutDestination::OnchainAddress { value: "bc1q-x".to_string() },
        Satoshis(60_000),
    );
    post_queued(&mut ledger, id, queue);
    let amount = payouts.cancel_payout(id).unwrap();
    assert_eq!(amount, Satoshis(60_000));
    let params = PayoutCancelledParams {
        journal_id: JournalId(9),
        effective_outgoing_account_id: accounts().effective_outgoing_id,
        external_id: "payout-1".to_string(),
        meta: PayoutCancelledMeta {
            account_id: AccountId(7),
            payout_id: id,
            wallet_id: WalletId(1),
            payout_queue_id: queue,
            profile_id: ProfileId(3),
            satoshis: amount,
            destination: PayoutDestination::OnchainAddress { value: "bc1q-x".to_string() },
        },
    };
    let tx_id = bria::primitives::LedgerTransactionId(600);
    let before = ledger.len();
    assert!(ledger
        .post_transaction(tx_id, PAYOUT_CANCELLED_ID, &params.to_tx_params("{}".to_string(), LedgerDate { days_from_ce: 738_001 }))
        .is_ok());
    let tx = ledger.transaction(before);
    assert_eq!(tx.metadata, "{}");
    assert_eq!(tx.external_id, Some("payout-1".to_string()));
    assert_eq!(units_on(tx, accounts().effective_outgoing_id, Layer::Encumbered, Direction::Debit), 60_000);
    assert_eq!(units_on(tx, LedgerAccountId(EFFECTIVE_OUTGOING_ID), Layer::Encumbered, Direction::Credit), 60_000);
    assert_eq!(encumbered_on(&ledger, accounts().effective_outgoing_id), 0);
    assert!(payouts.list_unbatched(queue).is_empty());

    let mut batches = Batches::new();
    let data = ProcessBatchGroupData::new(BatchGroupId(21), AccountId(7));
    let r = assemble_batch(
        &mut utxos,
        &mut batches,
        &data,
        queue,
        &queue_config(),
        FeeRate { sats_per_vbyte: 10 },
        &vec![],
        546,
        Txid { hi: 0xb, lo: 0xb },
        vec![],
    );
    assert_eq!(r, Ok(None));
    assert_eq!(batches.len(), 0);
    assert!(utxos.get(0).spending_batch_id.is_none());
    assert_eq!(payouts.cancel_payout(id), Err(bria::payout::PayoutError::PayoutAlreadyCancelled));
}

#[test]
fn unsettled_income_is_not_selected() {
    let mut utxos = Utxos::new();
    let mut ledger = ledger();
    detect(&mut utxos, &mut ledger);
    let blocked = utxos.outpoints_bdk_should_not_select(&vec![KeychainId(11)]);
    assert_eq!(blocked, vec![(KeychainId(11), tx_a())]);
    let mut batches = Batches::new();
    let data = ProcessBatchGroupData::new(BatchGroupId(21), AccountId(7));
    let r = assemble_batch(
        &mut utxos,
        &mut batches,
        &data,
        PayoutQueueId(21),
        &queue_config(),
        FeeRate { sats_per_vbyte: 10 },
        &vec![batch_request(60_000)],
        546,
        Txid { hi: 0xb, lo: 0xb },
        vec![],
    );
    assert_eq!(
        r,
        Err(bria::job::process_batch_group::BatchJobError::Builder(BuilderError::NoUsableInputs { wallet_id: WalletId(1) }))
    );
    confirm(&mut utxos, &mut ledger);
    assert!(utxos.outpoints_bdk_should_not_select(&vec![KeychainId(11)]).is_empty());
}

#[test]
fn a_reserved_output_is_refused_to_a_second_batch() {
    let mut utxos = Utxos::new();
    let mut ledger = ledger();
    detect(&mut utxos, &mut ledger);
    confirm(&mut utxos, &mut ledger);
    let keys = vec![(KeychainId(11), tx_a())];
    let first = utxos.reserve_utxos_in_batch(bria::primitives::BatchId(1), FeeRate { sats_per_vbyte: 5 }, &keys);
    assert!(first.is_ok());
    let second = utxos.reserve_utxos_in_batch(bria::primitives::BatchId(2), FeeRate { sats_per_vbyte: 5 }, &keys);
    assert_eq!(second, Err(UtxoError::UtxoAlreadyReserved));
    assert_eq!(utxos.get(0).spending_batch_id, Some(bria::primitives::BatchId(1)));
    let missing = vec![(KeychainId(11), change_point())];
    assert_eq!(
        utxos.reserve_utxos_in_batch(bria::primitives::BatchId(3), FeeRate { sats_per_vbyte: 5 }, &missing),
        Err(UtxoError::UtxoDoesNotExist)
    );
    assert_eq!(
        utxos.outpoints_bdk_should_not_select(&vec![KeychainId(11)]),
        vec![(KeychainId(11), tx_a())]
    );
}

#[test]
fn state_fields_are_never_rewritten() {
    let mut utxos = Utxos::new();
    let mut ledger = ledger();
    detect(&mut utxos, &mut ledger);
    confirm(&mut utxos, &mut ledger);
    let settled = utxos.get(0).utxo_settled_ledger_tx_id;
    assert_eq!(utxos.settle_utxo(KeychainId(11), tx_a(), true, 900_000).err(), Some(UtxoError::UtxoAlreadySettled));
    assert_eq!(utxos.get(0).utxo_settled_ledger_tx_id, settled);
    assert_eq!(utxos.get(0).block_height, Some(800_000));
    assert_eq!(utxos.settle_utxo(KeychainId(12), tx_a(), true, 900_000).err(), Some(UtxoError::UtxoDoesNotExist));
    assert_eq!(utxos.delete_utxo(tx_a(), KeychainId(11)), Err(UtxoError::UtxoAlreadySettled));
}

#[test]
fn batch_reservations_point_at_stored_batches() {
    let mut utxos = Utxos::new();
    let mut ledger = ledger();
    detect(&mut utxos, &mut ledger);
    confirm(&mut utxos, &mut ledger);
    let mut batches = Batches::new();
    let data = ProcessBatchGroupData::new(BatchGroupId(21), AccountId(7));
    assemble_batch(
        &mut utxos,
        &mut batches,
        &data,
        PayoutQueueId(21),
        &queue_config(),
        FeeRate { sats_per_vbyte: 10 },
        &vec![batch_request(60_000)],
        546,
        Txid { hi: 0xb, lo: 0xb },
        vec![],
    )
    .unwrap();
    let row = utxos.get(0);
    let batch_id = row.spending_batch_id.unwrap();
    let batch = (0..batches.len()).map(|i| batches.get(i)).find(|b| b.id == batch_id).unwrap();
    assert!(batch.has_wallet(row.wallet_id));
    let (by_tx, total) = utxos.accounting_info_for_batch(batch_id, WalletId(1)).unwrap();
    assert_eq!(by_tx, vec![(row.utxo_detected_ledger_tx_id, tx_a())]);
    assert_eq!(total, Satoshis(100_000));
}

#[test]
fn accounting_completes_when_every_wallet_is_posted() {
    let mut utxos = Utxos::new();
    let mut ledger = ledger();
    detect(&mut utxos, &mut ledger);
    confirm(&mut utxos, &mut ledger);
    let mut batches = Batches::new();
    let data = ProcessBatchGroupData::new(BatchGroupId(21), AccountId(7));
    assemble_batch(
        &mut utxos,
        &mut batches,
        &data,
        PayoutQueueId(21),
        &queue_config(),
        FeeRate { sats_per_vbyte: 10 },
        &vec![batch_request(60_000)],
        546,
        Txid { hi: 0xb, lo: 0xb },
        vec![],
    )
    .unwrap();
    assert!(!batches.get(0).accounting_complete());
    assert!(!batches.set_batch_created(0, WalletId(2), bria::primitives::LedgerTransactionId(77)));
    assert!(!batches.get(0).accounting_complete());
    let mut other = wallet();
    other.id = WalletId(2);
    assert_eq!(
        post_batch_created(&mut ledger, &mut batches, 0, &other, LedgerDate { days_from_ce: 738_002 }, "{}".to_string()),
        Err(bria::job::process_batch_group::BatchJobError::WalletNotInBatch)
    );
    let before = ledger.len();
    let created = post_batch_created(&mut ledger, &mut batches, 0, &wallet(), LedgerDate { days_from_ce: 738_002 }, "{}".to_string())
        .unwrap();
    assert!(batches.get(0).accounting_complete());
    assert_eq!(batches.get(0).wallet_summaries[0].batch_created_ledger_tx_id, Some(created));
    assert_eq!(ledger.len(), before + 1);
    let tx = ledger.transaction(before);
    assert_eq!(tx.template_id, CREATE_BATCH_ID);
    assert_eq!(units_on(tx, accounts().effective_outgoing_id, Layer::Encumbered, Direction::Debit), 60_000);
    assert_eq!(units_on(tx, accounts().effective_outgoing_id, Layer::Pending, Direction::Credit), 60_000);
    assert_eq!(units_on(tx, accounts().fee_id, Layer::Pending, Direction::Debit), 1_400);
    assert_balanced(tx);
}

#[test]
fn dust_change_is_folded_into_the_fee() {
    let mut utxos = Utxos::new();
    let mut ledger = ledger();
    detect(&mut utxos, &mut ledger);
    confirm(&mut utxos, &mut ledger);
    let mut batches = Batches::new();
    let data = ProcessBatchGroupData::new(BatchGroupId(21), AccountId(7));
    assemble_batch(
        &mut utxos,
        &mut batches,
        &data,
        PayoutQueueId(21),
        &queue_config(),
        FeeRate { sats_per_vbyte: 10 },
        &vec![batch_request(98_300)],
        546,
        Txid { hi: 0xb, lo: 0xb },
        vec![],
    )
    .unwrap();
    let s = &batches.get(0).wallet_summaries[0];
    assert_eq!(s.change_sats, Satoshis(0));
    assert_eq!(s.fee_sats, Satoshis(1_700));
    assert!(s.change_address.is_none());
    assert!(s.change_outpoint.is_none());
}

#[test]
fn batch_fails_when_funds_fall_short() {
    let mut utxos = Utxos::new();
    let mut ledger = ledger();
    detect(&mut utxos, &mut ledger);
    confirm(&mut utxos, &mut ledger);
    let mut batches = Batches::new();
    let data = ProcessBatchGroupData::new(BatchGroupId(21), AccountId(7));
    let r = assemble_batch(
        &mut utxos,
        &mut batches,
        &data,
        PayoutQueueId(21),
        &queue_config(),
        FeeRate { sats_per_vbyte: 10 },
        &vec![batch_request(99_000)],
        546,
        Txid { hi: 0xb, lo: 0xb },
        vec![],
    );
    assert_eq!(
        r,
        Err(bria::job::process_batch_group::BatchJobError::Builder(BuilderError::InsufficientFunds {
            wallet_id: WalletId(1),
            required: 100_400,
            available: 100_000,
        }))
    );
    assert!(utxos.get(0).spending_batch_id.is_none());
    assert_eq!(batches.len(), 0);
    let zero_fee = assemble_batch(
        &mut utxos,
        &mut batches,
        &data,
        PayoutQueueId(21),
        &queue_config(),
        FeeRate { sats_per_vbyte: 0 },
        &vec![batch_request(1_000)],
        546,
        Txid { hi: 0xb, lo: 0xb },
        vec![],
    );
    assert_eq!(
        zero_fee,
        Err(bria::job::process_batch_group::BatchJobError::Builder(BuilderError::FeeBelowMinimum { sats_per_vbyte: 0 }))
    );
}

#[test]
fn spend_with_a_known_change_output_is_ignored() {
    let mut utxos = Utxos::new();
    let mut ledger = ledger();
    detect(&mut utxos, &mut ledger);
    let change_address = AddressInfo { index: 0, address: "bc1q-change".to_string(), keychain: KeychainKind::Internal };
    let taken = (local(tx_a(), 100_000, KeychainKind::Internal), change_address);
    let r = utxos.spend_detected(
        AccountId(7),
        WalletId(1),
        KeychainId(11),
        bria::primitives::LedgerTransactionId(500),
        &vec![tx_a()],
        &vec![taken],
        10,
    );
    assert!(matches!(r, Ok(None)));
    assert!(utxos.get(0).spend_detected_ledger_tx_id.is_none());
    let none_spent = utxos.spend_detected(
        AccountId(7),
        WalletId(1),
        KeychainId(11),
        bria::primitives::LedgerTransactionId(501),
        &vec![change_point()],
        &vec![],
        10,
    );
    assert!(matches!(none_spent, Ok(None)));
    assert_eq!(utxos.len(), 1);
}

#[test]
fn unspent_outputs_are_listed_by_keychain_and_outpoint() {
    let mut utxos = Utxos::new();
    let mut ledger = ledger();
    detect(&mut utxos, &mut ledger);
    let second = record_incoming_utxo(
        &mut utxos,
        &mut ledger,
        &wallet(),
        KeychainId(11),
        &external_address(4),
        &local(change_point(), 5_000, KeychainKind::External),
        1,
        LedgerDate { days_from_ce: 738_000 },
        "{}".to_string(),
    );
    assert_eq!(second, Ok(true));
    let found = utxos.find_keychain_utxos(&vec![KeychainId(11), KeychainId(12), KeychainId(11)]);
    assert_eq!(found.len(), 1);
    assert_eq!(found[0].keychain_id, KeychainId(11));
    assert_eq!(found[0].utxos.len(), 2);
    assert_eq!(found[0].utxos[0].utxo.outpoint, change_point());
    assert_eq!(found[0].utxos[1].utxo.outpoint, tx_a());
    assert_eq!(found[0].utxos[1].address, Some("bc1q-external-3".to_string()));
    assert_ne!(found[0].utxos[0].utxo.utxo_detected_ledger_tx_id, found[0].utxos[1].utxo.utxo_detected_ledger_tx_id);
    let listed = utxos.list_utxos_by_outpoint(&vec![(KeychainId(11), tx_a()), (KeychainId(12), change_point())]);
    assert_eq!(listed.len(), 1);
    assert_eq!(listed[0].value, Satoshis(100_000));
}

#[test]
fn a_dropped_unconfirmed_output_can_be_deleted() {
    let mut utxos = Utxos::new();
    let mut ledger = ledger();
    detect(&mut utxos, &mut ledger);
    let detected = utxos.get(0).utxo_detected_ledger_tx_id;
    assert_eq!(utxos.delete_utxo(tx_a(), KeychainId(11)), Ok(detected));
    assert_eq!(utxos.len(), 0);
    assert_eq!(utxos.delete_utxo(tx_a(), KeychainId(11)), Err(UtxoError::UtxoDoesNotExist));
}

#[test]
fn cancellation_is_posted_with_the_payout() {
    let mut ledger = ledger();
    let mut payouts = Payouts::new();
    let queue = PayoutQueueId(21);
    let id = payouts.queue_payout(
        AccountId(7),
        WalletId(1),
        queue,
        PayoutDestination::OnchainAddress { value: "bc1q-x".to_string() },
        Satoshis(60_000),
    );
    post_queued(&mut ledger, id, queue);
    let tx_id = bria::primitives::LedgerTransactionId(610);
    let r = bria::payout::cancel_payout_and_post(
        &mut payouts,
        &mut ledger,
        id,
        tx_id,
        JournalId(9),
        accounts().effective_outgoing_id,
        "payout-1".to_string(),
        LedgerDate { days_from_ce: 738_001 },
        "{}".to_string(),
    );
    assert_eq!(r, Ok(Satoshis(60_000)));
    let tx = ledger.transaction(ledger.len() - 1);
    assert_eq!(tx.id, tx_id);
    assert_eq!(tx.template_id, PAYOUT_CANCELLED_ID);
    assert_eq!(units_on(tx, accounts().effective_outgoing_id, Layer::Encumbered, Direction::Debit), 60_000);
    assert_eq!(encumbered_on(&ledger, accounts().effective_outgoing_id), 0);
    let again = bria::payout::cancel_payout_and_post(
        &mut payouts,
        &mut ledger,
        id,
        tx_id,
        JournalId(9),
        accounts().effective_outgoing_id,
        "payout-1".to_string(),
        LedgerDate { days_from_ce: 738_001 },
        "{}".to_string(),
    );
    assert_eq!(again, Err(bria::payout::CancelError::Payout(bria::payout::PayoutError::PayoutAlreadyCancelled)));
    assert!(payouts.list_unbatched(queue).is_empty());
}

#[test]
fn listing_follows_the_wallet_engine_and_hides_change_addresses() {
    let mut utxos = Utxos::new();
    let mut ledger = ledger();
    detect(&mut utxos, &mut ledger);
    let spent_by_engine = LocalUtxo {
        outpoint: OutPoint { txid: Txid { hi: 0xc, lo: 0xc }, vout: 0 },
        txout: TxOut { value: 7_000, script_hex: "0014cd".to_string() },
        keychain: KeychainKind::External,
        is_spent: true,
    };
    assert_eq!(
        record_incoming_utxo(&mut utxos, &mut ledger, &wallet(), KeychainId(11), &external_address(5), &spent_by_engine, 1,
            LedgerDate { days_from_ce: 738_000 }, "{}".to_string()),
        Ok(true)
    );
    let change = local(change_point(), 38_600, KeychainKind::Internal);
    let change_address = AddressInfo { index: 0, address: "bc1q-change".to_string(), keychain: KeychainKind::Internal };
    assert!(utxos
        .spend_detected(AccountId(7), WalletId(1), KeychainId(11), bria::primitives::LedgerTransactionId(500), &vec![tx_a()],
            &vec![(change, change_address)], 10)
        .unwrap()
        .is_some());
    let found = utxos.find_keychain_utxos(&vec![KeychainId(11)]);
    assert_eq!(found.len(), 1);
    let listed: Vec<OutPoint> = found[0].utxos.iter().map(|u| u.utxo.outpoint).collect();
    assert_eq!(listed, vec![change_point(), tx_a()]);
    assert_eq!(found[0].utxos[0].address, None);
    assert!(found[0].utxos[1].address.is_some());
}

#[test]
fn queueing_posts_the_encumbrance() {
    let mut ledger = ledger();
    let mut payouts = Payouts::new();
    let id = bria::payout::queue_payout_and_post(
        &mut payouts,
        &mut ledger,
        AccountId(7),
        WalletId(1),
        PayoutQueueId(21),
        PayoutDestination::OnchainAddress { value: "bc1q-x".to_string() },
        Satoshis(60_000),
        bria::primitives::LedgerTransactionId(700),
        JournalId(9),
        accounts().effective_outgoing_id,
        "payout-1".to_string(),
        LedgerDate { days_from_ce: 738_001 },
        "{}".to_string(),
    )
    .unwrap();
    assert_eq!(payouts.list_unbatched(PayoutQueueId(21)), vec![(id, WalletId(1), Satoshis(60_000))]);
    let tx = ledger.transaction(ledger.len() - 1);
    assert_eq!(tx.template_id, QUEUED_PAYOUT_ID);
    assert_eq!(encumbered_on(&ledger, accounts().effective_outgoing_id), 60_000);
    let mut empty = Ledger::new();
    let mut none = Payouts::new();
    assert!(bria::payout::queue_payout_and_post(
        &mut none,
        &mut empty,
        AccountId(7),
        WalletId(1),
        PayoutQueueId(21),
        PayoutDestination::OnchainAddress { value: "bc1q-x".to_string() },
        Satoshis(60_000),
        bria::primitives::LedgerTransactionId(700),
        JournalId(9),
        accounts().effective_outgoing_id,
        "payout-1".to_string(),
        LedgerDate { days_from_ce: 738_001 },
        "{}".to_string(),
    )
    .is_err());
    assert!(none.list_unbatched(PayoutQueueId(21)).is_empty());
}

#[test]
fn batch_job_builds_posts_and_marks_payouts() {
    let mut utxos = Utxos::new();
    let mut ledger = ledger();
    detect(&mut utxos, &mut ledger);
    confirm(&mut utxos, &mut ledger);
    let mut payouts = Payouts::new();
    let queue = PayoutQueueId(21);
    let payout = bria::payout::queue_payout_and_post(
        &mut payouts,
        &mut ledger,
        AccountId(7),
        WalletId(1),
        queue,
        PayoutDestination::OnchainAddress { value: "bc1q-x".to_string() },
        Satoshis(60_000),
        bria::primitives::LedgerTransactionId(700),
        JournalId(9),
        accounts().effective_outgoing_id,
        "payout-1".to_string(),
        LedgerDate { days_from_ce: 738_001 },
        "{}".to_string(),
    )
    .unwrap();
    let mut batches = Batches::new();
    let data = ProcessBatchGroupData::new(BatchGroupId(21), AccountId(7));
    let before = ledger.len();
    let r = bria::job::process_batch_group::process_batch(
        &mut utxos,
        &mut batches,
        &mut payouts,
        &mut ledger,
        &data,
        queue,
        &queue_config(),
        FeeRate { sats_per_vbyte: 10 },
        &vec![batch_request(60_000)],
        546,
        Txid { hi: 0xb, lo: 0xb },
        vec![],
        LedgerDate { days_from_ce: 738_002 },
        "{}".to_string(),
    );
    assert_eq!(r, Ok(Some(data.batch_id)));
    assert!(batches.get(0).accounting_complete());
    assert_eq!(ledger.len(), before + 1);
    assert_eq!(ledger.transaction(before).template_id, CREATE_BATCH_ID);
    assert_eq!(encumbered_on(&ledger, accounts().effective_outgoing_id), 0);
    assert!(payouts.list_unbatched(queue).is_empty());
    assert_eq!(utxos.get(0).spending_batch_id, Some(data.batch_id));
    assert_eq!(payouts.cancel_payout(payout), Err(bria::payout::PayoutError::PayoutAlreadyBatched));
}

#[test]
fn spend_settlement_is_posted() {
    let mut utxos = Utxos::new();
    let mut ledger = ledger();
    detect(&mut utxos, &mut ledger);
    confirm(&mut utxos, &mut ledger);
    let spend_id = bria::primitives::LedgerTransactionId(500);
    let change = local(change_point(), 38_600, KeychainKind::Internal);
    let change_address = AddressInfo { index: 0, address: "bc1q-change".to_string(), keychain: KeychainKind::Internal };
    utxos
        .spend_detected(AccountId(7), WalletId(1), KeychainId(11), spend_id, &vec![tx_a()], &vec![(change, change_address)], 10)
        .unwrap()
        .unwrap();
    let summary = WalletTransactionSummary {
        wallet_id: WalletId(1),
        total_utxo_in_sats: Satoshis(100_000),
        change_utxos: vec![ChangeOutput { outpoint: change_point(), satoshis: Satoshis(38_600), address: "bc1q-change".to_string() }],
        fee_sats: Satoshis(1_400),
    };
    let before = ledger.len();
    let r = bria::sync::settle_spend_and_post(
        &mut utxos,
        &mut ledger,
        &wallet(),
        KeychainId(11),
        &vec![tx_a()],
        Some(local(change_point(), 38_600, KeychainKind::Internal)),
        summary,
        BlockTime { height: 800_010, timestamp: 1_690_000_000 },
        "{}".to_string(),
    );
    let (pending, settled, change_spent) = r.unwrap().unwrap();
    assert_eq!(pending, spend_id);
    assert!(!change_spent);
    assert_eq!(ledger.len(), before + 1);
    let tx = ledger.transaction(before);
    assert_eq!(tx.id, settled);
    assert_eq!(tx.template_id, SPEND_SETTLED_ID);
    assert_eq!(tx.correlation_id, Some(spend_id));
    assert_eq!(units_on(tx, accounts().effective_outgoing_id, Layer::Settled, Direction::Credit), 60_000);
    assert_eq!(units_on(tx, accounts().fee_id, Layer::Settled, Direction::Debit), 1_400);
    assert_eq!(utxos.get(0).spend_settled_ledger_tx_id, Some(settled));
}
