use bria::batch::entity::{NewBatch, NewBatchBuilderError, WalletSummary};
use bria::address::{AddressEvent, NewAddress};
use bria::batch::fees::attribute_fees;
use bria::cli::{configured_api_key, trigger_from_flags};
use bria::job::process_batch_group::PayoutQueueTrigger;
use bria::job::sync_wallet::SyncWalletData;
use bria::entity::{EntityError, EntityEvents};
use bria::ledger::templates::spend_settled::SpendSettled;
use bria::ledger::templates::{minus, plus};
use bria::ledger::{
    post, AccountRef, Currency, Direction, EntrySpec, Layer, Ledger, LedgerError, TemplateRegistry, Term, TxParams,
    TxTemplate,
};
use bria::primitives::{
    AccountId, BlockTime, JournalId, KeychainId, KeychainKind, LedgerAccountId, LedgerDate, LedgerTransactionId,
    OutPoint, Satoshis, Txid, WalletId, XPubId,
};
use bria::sync::{classify_output, is_confirmed, spending_fee, OutputAction};
use bria::utxo::effective_allocation::{withdraw_from_effective_when_settled, SpentUtxo};
use bria::xpub::{AccountXPub, NewXPub, NewXPubBuilderError, XPub, XPubError, XPubEvent, XPubRef, XPubs};

fn spent(vout: u32, value: u64, settled: bool) -> SpentUtxo {
    SpentUtxo {
        outpoint: OutPoint { txid: Txid { hi: 1, lo: 2 }, vout },
        value: Satoshis(value),
        settled,
        detected_ledger_tx_id: LedgerTransactionId(vout as u128 + 100),
    }
}

fn entry(direction: Direction, layer: Layer, units: Vec<Term>) -> EntrySpec {
    EntrySpec {
        entry_type: "T".to_string(),
        currency: Currency::Btc,
        account: AccountRef::Param(0),
        direction,
        layer,
        units,
    }
}

fn template(id: u128, entries: Vec<EntrySpec>) -> TxTemplate {
    TxTemplate { id, code: "T".to_string(), description: String::new(), params: vec![], entries }
}

fn params(amounts: Vec<u64>) -> TxParams {
    TxParams {
        journal_id: JournalId(1),
        accounts: vec![LedgerAccountId(5)],
        amounts,
        correlation_id: None,
        external_id: None,
        effective: LedgerDate { days_from_ce: 1 },
        meta: String::new(),
    }
}

#[test]
fn fee_shares_add_up_to_the_total() {
    let ids = vec![WalletId(3), WalletId(2), WalletId(1)];
    let fees = attribute_fees(&ids, &vec![100, 200, 300], 1000).unwrap();
    assert_eq!(fees, vec![167, 333, 500]);
    assert_eq!(fees.iter().sum::<u64>(), 1000);
}

#[test]
fn fee_remainder_tie_goes_to_lowest_wallet_id() {
    let ids = vec![WalletId(9), WalletId(4)];
    let fees = attribute_fees(&ids, &vec![1, 1], 3).unwrap();
    assert_eq!(fees, vec![1, 2]);
}

#[test]
fn single_wallet_pays_the_whole_fee() {
    assert_eq!(attribute_fees(&vec![WalletId(1)], &vec![140], 1_400), Some(vec![1_400]));
}

#[test]
fn no_bytes_no_fee_attribution() {
    assert_eq!(attribute_fees(&vec![WalletId(1)], &vec![0], 1_400), None);
    assert_eq!(attribute_fees(&vec![], &vec![], 1_400), None);
}

#[test]
fn change_covers_unsettled_inputs_first() {
    let inputs = vec![spent(0, 50_000, true), spent(1, 30_000, false), spent(2, 20_000, false)];
    let (settled, allocations) = withdraw_from_effective_when_settled(&inputs, Satoshis(40_000)).unwrap();
    assert_eq!(settled, Satoshis(50_000));
    assert_eq!(
        allocations,
        vec![(LedgerTransactionId(101), Satoshis(0)), (LedgerTransactionId(102), Satoshis(10_000))]
    );
}

#[test]
fn settled_total_overflow_is_reported() {
    let inputs = vec![spent(0, u64::MAX, true), spent(1, 1, true)];
    assert_eq!(withdraw_from_effective_when_settled(&inputs, Satoshis(0)), None);
}

#[test]
fn confirmation_depth() {
    assert!(is_confirmed(800_000, 800_002, 2));
    assert!(is_confirmed(800_001, 800_002, 2));
    assert!(!is_confirmed(800_002, 800_002, 2));
    assert!(is_confirmed(5, 5, 1));
    assert!(!is_confirmed(5, 5, 2));
}

#[test]
fn change_outputs_are_collected() {
    assert_eq!(classify_output(KeychainKind::Internal), OutputAction::CollectAsChange);
    assert_eq!(classify_output(KeychainKind::External), OutputAction::RecordIncome);
    assert_eq!(spending_fee(10, 272), Some(Satoshis(2_720)));
    assert_eq!(spending_fee(u64::MAX, 2), None);
}

#[test]
fn unbalanced_template_is_refused() {
    let mut registry = TemplateRegistry::new();
    let lopsided = template(
        42,
        vec![entry(Direction::Debit, Layer::Pending, vec![plus(0)]), entry(Direction::Credit, Layer::Settled, vec![plus(0)])],
    );
    assert_eq!(registry.create(lopsided), Err(LedgerError::UnbalancedTemplate));
    let same_side = template(
        43,
        vec![entry(Direction::Debit, Layer::Pending, vec![plus(0)]), entry(Direction::Debit, Layer::Pending, vec![plus(0)])],
    );
    assert_eq!(registry.create(same_side), Err(LedgerError::UnbalancedTemplate));
    let odd = template(44, vec![entry(Direction::Debit, Layer::Pending, vec![plus(0)])]);
    assert_eq!(registry.create(odd), Err(LedgerError::UnbalancedTemplate));
    let too_many_terms = template(
        45,
        vec![
            entry(Direction::Debit, Layer::Pending, vec![plus(0); 9]),
            entry(Direction::Credit, Layer::Pending, vec![plus(0); 9]),
        ],
    );
    assert_eq!(registry.create(too_many_terms), Err(LedgerError::TemplateTooLarge));
}

#[test]
fn template_creation_is_idempotent() {
    let mut registry = TemplateRegistry::new();
    assert_eq!(registry.create(SpendSettled::template()), Ok(()));
    assert_eq!(registry.create(SpendSettled::template()), Err(LedgerError::DuplicateKey));
    assert_eq!(registry.create_if_absent(SpendSettled::template()), Ok(()));
    let mut ledger = Ledger::new();
    assert_eq!(SpendSettled::init(&mut ledger), Ok(()));
    assert_eq!(SpendSettled::init(&mut ledger), Ok(()));
}

#[test]
fn posting_evaluates_units_and_balances() {
    let t = template(
        46,
        vec![
            entry(Direction::Debit, Layer::Pending, vec![plus(1), minus(0)]),
            entry(Direction::Credit, Layer::Pending, vec![plus(1), minus(0)]),
        ],
    );
    let tx = post(&t, &params(vec![1_400, 100_000]), LedgerTransactionId(8)).unwrap();
    assert_eq!(tx.entries.len(), 2);
    assert_eq!(tx.entries[0].units, 98_600);
    assert_eq!(tx.entries[1].units, 98_600);
    assert_eq!(tx.entries[0].account_id, LedgerAccountId(5));
    assert_eq!(post(&t, &params(vec![1_400]), LedgerTransactionId(8)).err(), Some(LedgerError::MissingParam));
}

#[test]
fn unbalanced_post_is_refused() {
    let t = template(
        47,
        vec![entry(Direction::Debit, Layer::Pending, vec![plus(0)]), entry(Direction::Credit, Layer::Pending, vec![plus(1)])],
    );
    assert_eq!(post(&t, &params(vec![1, 2]), LedgerTransactionId(8)).err(), Some(LedgerError::Unbalanced));
    assert!(post(&t, &params(vec![2, 2]), LedgerTransactionId(8)).is_ok());
}

#[test]
fn unknown_template_is_not_posted() {
    let mut ledger = Ledger::new();
    assert_eq!(
        ledger.post_transaction(LedgerTransactionId(1), 999, &params(vec![1])),
        Err(LedgerError::TemplateNotFound)
    );
    assert_eq!(ledger.len(), 0);
}

#[test]
fn events_load_in_sequence() {
    let mut events: EntityEvents<u32> = EntityEvents::new();
    assert_eq!(events.load_event(1, 10), Ok(()));
    assert_eq!(events.load_event(3, 30), Err(EntityError::OutOfSequence { expected: 2, got: 3 }));
    assert_eq!(events.load_event(2, 20), Ok(()));
    assert!(!events.is_dirty());
    events.push(40);
    assert!(events.is_dirty());
    assert_eq!(events.first_new_sequence(), 3);
    assert_eq!(events.load_event(4, 50), Err(EntityError::AlreadyDirty));
    events.mark_persisted();
    assert!(!events.is_dirty());
    assert_eq!(events.len(), 3);
    assert_eq!(*events.get(2), 40);
}

#[test]
fn new_address_starts_its_history() {
    let mut builder = NewAddress::builder();
    assert_eq!(builder.external_id, builder.id.to_text());
    assert_eq!(builder.external_id.len(), 36);
    builder.address = Some("bc1q-a".to_string());
    builder.address_idx = Some(4);
    builder.account_id = Some(AccountId(1));
    builder.wallet_id = Some(WalletId(2));
    builder.keychain_id = Some(KeychainId(3));
    builder.kind = Some(KeychainKind::External);
    builder.metadata = Some("{\"k\":1}".to_string());
    let address = builder.build().ok().unwrap();
    let external_id = address.external_id.clone();
    let events = address.initial_events();
    assert_eq!(events.len(), 3);
    assert!(matches!(events.get(0), AddressEvent::AddressInitialized));
    assert!(matches!(events.get(1), AddressEvent::AddressExternalIdUpdated { external_id: e } if *e == external_id));
    assert!(matches!(events.get(2), AddressEvent::AddressMetadataUpdated { metadata: m } if m == "{\"k\":1}"));
}

#[test]
fn address_id_text_is_hyphenated() {
    let id = bria::primitives::AddressId(0x0123_4567_89ab_cdef_0123_4567_89ab_cdef);
    assert_eq!(id.to_text(), "01234567-89ab-cdef-0123-456789abcdef");
}

#[test]
fn xpub_builder_needs_every_field() {
    assert_eq!(NewXPub::builder().build().err(), Some(NewXPubBuilderError::MissingAccountId));
    let xpub = NewXPub::builder()
        .account_id(AccountId(1))
        .key_name("cold".to_string())
        .value(XPub { text: "xpub6C".to_string(), fingerprint: 0xdead_beef })
        .build()
        .ok()
        .unwrap();
    assert_eq!(xpub.id(), XPubId(0xdead_beef));
    assert_eq!(xpub.key_name, "cold");
}

#[test]
fn block_time_gives_the_utc_day() {
    let t = BlockTime { height: 1, timestamp: 86_400 * 2 + 5 };
    assert_eq!(t.effective_date(), LedgerDate { days_from_ce: 719_165 });
    let genesis = BlockTime { height: 0, timestamp: 1_231_006_505 };
    assert_eq!(genesis.effective_date().days_from_ce, 719_163 + 14_247);
}

#[test]
fn satoshi_arithmetic_is_checked() {
    assert_eq!(Satoshis(5).checked_sub(Satoshis(7)), None);
    assert_eq!(Satoshis(7).checked_sub(Satoshis(5)), Some(Satoshis(2)));
    assert_eq!(Satoshis(u64::MAX).checked_add(Satoshis(1)), None);
}

#[test]
fn trigger_flags_pick_one_trigger() {
    assert_eq!(trigger_from_flags(true, true, Some(60)), Some(PayoutQueueTrigger::Manual));
    assert_eq!(trigger_from_flags(false, true, Some(60)), Some(PayoutQueueTrigger::Immediate));
    assert_eq!(trigger_from_flags(false, false, Some(60)), Some(PayoutQueueTrigger::IntervalSecs { secs: 60 }));
    assert_eq!(trigger_from_flags(false, false, None), None);
}

#[test]
fn empty_api_key_falls_back_to_the_saved_one() {
    assert_eq!(configured_api_key(&String::new()), None);
    assert_eq!(configured_api_key(&"k1".to_string()), Some("k1".to_string()));
}

#[test]
fn job_payloads_carry_their_ids() {
    assert_eq!(SyncWalletData::new(WalletId(4)).wallet_id, WalletId(4));
    let a = bria::job::process_batch_group::ProcessBatchGroupData::new(bria::primitives::BatchGroupId(1), AccountId(2));
    let b = bria::job::process_batch_group::ProcessBatchGroupData::new(bria::primitives::BatchGroupId(1), AccountId(2));
    assert_eq!(a.account_id, AccountId(2));
    assert_ne!(a.batch_id, b.batch_id);
}

fn new_xpub(account: u128, name: &str, fingerprint: u32) -> NewXPub {
    NewXPub::builder()
        .account_id(AccountId(account))
        .key_name(name.to_string())
        .value(XPub { text: format!("xpub-{}", fingerprint), fingerprint })
        .build()
        .ok()
        .unwrap()
}

#[test]
fn xpubs_are_found_by_id_or_name() {
    let mut xpubs = XPubs::new();
    assert_eq!(xpubs.persist(new_xpub(1, "cold", 7)), Ok(XPubId(7)));
    assert_eq!(xpubs.persist(new_xpub(1, "hot", 8)), Ok(XPubId(8)));
    assert_eq!(xpubs.persist(new_xpub(2, "cold", 7)), Ok(XPubId(7)));
    assert_eq!(xpubs.persist(new_xpub(1, "cold", 9)), Err(XPubError::Conflict));
    assert_eq!(xpubs.persist(new_xpub(1, "warm", 8)), Err(XPubError::Conflict));
    let by_name = xpubs.find_from_ref(AccountId(1), &XPubRef::Name("hot".to_string())).ok().unwrap();
    assert_eq!(by_name.value.fingerprint, 8);
    let by_id = xpubs.find_from_ref(AccountId(2), &XPubRef::Id(XPubId(7))).ok().unwrap();
    assert_eq!(by_id.account_id, AccountId(2));
    assert!(xpubs.find_from_ref(AccountId(2), &XPubRef::Name("hot".to_string())).is_err());
    let listed = xpubs.list_xpubs(AccountId(1));
    assert_eq!(listed.len(), 2);
    assert_eq!(listed[0].key_name, "cold");
    assert_eq!(listed[1].key_name, "hot");
}

#[test]
fn spend_settled_declares_its_parameters() {
    let defs = bria::ledger::templates::spend_settled::SpendSettledParams::defs();
    let names: Vec<&str> = defs.iter().map(|d| d.name.as_str()).collect();
    assert_eq!(
        names,
        vec![
            "journal_id",
            "effective_outgoing_account_id",
            "onchain_fee_account_id",
            "onchain_outgoing_account_id",
            "onchain_at_rest_account_id",
            "onchain_income_account_id",
            "fees",
            "total_utxo_in",
            "change",
            "spent_change",
            "correlation_id",
            "meta",
            "effective",
        ]
    );
    assert_eq!(defs[6].data_type, bria::ledger::ParamDataType::Decimal);
    assert_eq!(defs[11].data_type, bria::ledger::ParamDataType::Json);
}

#[test]
fn new_batch_refuses_two_summaries_for_one_wallet() {
    let summary = |wallet: u128, total_in: u64| WalletSummary {
        wallet_id: WalletId(wallet),
        current_keychain_id: KeychainId(1),
        signing_keychains: vec![KeychainId(1)],
        total_in_sats: Satoshis(total_in),
        total_spent_sats: Satoshis(600),
        fee_sats: Satoshis(100),
        change_sats: Satoshis(300),
        change_address: None,
        change_outpoint: None,
        batch_created_ledger_tx_id: None,
        batch_broadcast_ledger_tx_id: None,
    };
    let build = |summaries: Vec<WalletSummary>| {
        let mut b = NewBatch::builder();
        b.id = Some(bria::primitives::BatchId(1));
        b.account_id = Some(AccountId(1));
        b.payout_queue_id = Some(bria::primitives::PayoutQueueId(1));
        b.tx_id = Some(Txid { hi: 0, lo: 1 });
        b.total_fee_sats = Some(Satoshis(100));
        b.unsigned_psbt = Some(vec![]);
        b.wallet_summaries = Some(summaries);
        b.build()
    };
    assert!(build(vec![summary(1, 1_000), summary(2, 1_000)]).is_ok());
    assert_eq!(build(vec![summary(1, 1_000), summary(1, 1_000)]).err(), Some(NewBatchBuilderError::DuplicateWalletSummary));
    assert_eq!(build(vec![summary(1, 999)]).err(), Some(NewBatchBuilderError::UnbalancedWalletSummary));
}

#[test]
fn xpub_history_rebuilds_the_xpub() {
    let mut xpubs = XPubs::new();
    assert_eq!(xpubs.persist(new_xpub(1, "cold", 7)), Ok(XPubId(7)));
    assert_eq!(xpubs.persist(new_xpub(1, "hot", 8)), Ok(XPubId(8)));
    assert_eq!(
        xpubs.update_name(AccountId(1), &XPubRef::Id(XPubId(7)), "hot".to_string()),
        Err(XPubError::Conflict)
    );
    assert_eq!(xpubs.update_name(AccountId(1), &XPubRef::Id(XPubId(7)), "vault".to_string()), Ok(()));
    assert_eq!(
        xpubs.update_name(AccountId(3), &XPubRef::Id(XPubId(7)), "x".to_string()),
        Err(XPubError::NotFound)
    );
    let log = xpubs.log(0);
    assert_eq!(log.len(), 3);
    assert!(log.is_dirty());
    assert!(matches!(log.get(0), XPubEvent::XPubInitialized { fingerprint: 7, .. }));
    assert!(matches!(log.get(2), XPubEvent::XPubNameUpdated { key_name } if key_name == "vault"));
    let rebuilt = AccountXPub::from_events(AccountId(1), log).unwrap();
    assert_eq!(rebuilt.key_name, "vault");
    assert_eq!(rebuilt.value.fingerprint, 7);
    let found = xpubs.find_from_ref(AccountId(1), &XPubRef::Name("vault".to_string())).ok().unwrap();
    assert_eq!(found.value.fingerprint, 7);
    let empty: EntityEvents<XPubEvent> = EntityEvents::new();
    assert!(AccountXPub::from_events(AccountId(1), &empty).is_none());
}
