use vstd::prelude::*;

pub mod effective_allocation;
pub mod entity;

use crate::primitives::{
    AccountId, BatchId, FeeRate, KeychainId, KeychainKind, LedgerTransactionId, OutPoint, Satoshis, WalletId,
};
use effective_allocation::{allocation_state, withdraw_from_effective_when_settled, SpentUtxo};
use entity::{AddressInfo, KeychainUtxo, KeychainUtxos, LocalUtxo, SettledUtxo, UtxoError, WalletUtxo};

verus! {

/// Whether some row has the key `(keychain_id, outpoint)`.
pub open spec fn has_key(rows: Seq<WalletUtxo>, keychain_id: KeychainId, outpoint: OutPoint) -> bool {
    exists|i: int| 0 <= i < rows.len() && #[trigger] rows[i].key() == (keychain_id, outpoint)
}

/// The position of the row with key `(keychain_id, outpoint)`, where there is one.
pub open spec fn key_index(rows: Seq<WalletUtxo>, keychain_id: KeychainId, outpoint: OutPoint) -> int {
    choose|i: int| 0 <= i < rows.len() && #[trigger] rows[i].key() == (keychain_id, outpoint)
}

/// No two rows share a key, and every row meets the state invariants.
pub open spec fn rows_wf(rows: Seq<WalletUtxo>) -> bool {
    &&& forall|i: int| 0 <= i < rows.len() ==> (#[trigger] rows[i]).wf()
    &&& forall|i: int, j: int|
        0 <= i < rows.len() && 0 <= j < rows.len() && i != j ==> (#[trigger] rows[i]).key()
            != (#[trigger] rows[j]).key()
}

/// Row by row, `new` keeps everything `old` had set; rows are only ever added at the end.
pub open spec fn rows_extended(old: Seq<WalletUtxo>, new: Seq<WalletUtxo>) -> bool {
    &&& old.len() <= new.len()
    &&& forall|i: int| 0 <= i < old.len() ==> (#[trigger] old[i]).extended_by(new[i])
}

/// The row inserted when an output is first seen.
pub open spec fn detected_row(
    account_id: AccountId,
    wallet_id: WalletId,
    keychain_id: KeychainId,
    address: AddressInfo,
    utxo: LocalUtxo,
    sats_per_vbyte_when_created: u64,
    self_pay: bool,
    tx_id: LedgerTransactionId,
) -> WalletUtxo {
    WalletUtxo {
        account_id,
        wallet_id,
        keychain_id,
        outpoint: utxo.outpoint,
        kind: address.keychain,
        address_idx: address.index,
        address: address.address,
        script_hex: utxo.txout.script_hex,
        value: Satoshis(utxo.txout.value),
        sats_per_vbyte_when_created,
        self_pay,
        bdk_spent: utxo.is_spent,
        utxo_detected_ledger_tx_id: tx_id,
        utxo_settled_ledger_tx_id: None,
        block_height: None,
        spending_batch_id: None,
        spending_ledger_tx_id: None,
        spending_fee_rate: None,
        spend_detected_ledger_tx_id: None,
        spend_settled_ledger_tx_id: None,
    }
}

/// `u` once its output is confirmed at `block_height`.
pub open spec fn settled_row(u: WalletUtxo, bdk_spent: bool, block_height: u32, tx_id: LedgerTransactionId) -> WalletUtxo {
    WalletUtxo {
        bdk_spent,
        block_height: Some(block_height),
        utxo_settled_ledger_tx_id: Some(tx_id),
        ..u
    }
}

/// The outpoints of the given keychains that coin selection must leave alone, in table order.
pub open spec fn blocked_outpoints(rows: Seq<WalletUtxo>, keychain_ids: Seq<KeychainId>) -> Seq<(KeychainId, OutPoint)>
    decreases rows.len(),
{
    if rows.len() == 0 {
        Seq::empty()
    } else {
        let u = rows.last();
        let rest = blocked_outpoints(rows.drop_last(), keychain_ids);
        if keychain_ids.contains(u.keychain_id) && u.blocked_for_selection() {
            rest.push(u.key())
        } else {
            rest
        }
    }
}

/// Every key of `keys` has a row.
pub open spec fn all_present(rows: Seq<WalletUtxo>, keys: Seq<(KeychainId, OutPoint)>) -> bool {
    forall|j: int| 0 <= j < keys.len() ==> has_key(rows, (#[trigger] keys[j]).0, keys[j].1)
}

/// Some key of `keys` has a row that is already in a batch.
pub open spec fn any_reserved(rows: Seq<WalletUtxo>, keys: Seq<(KeychainId, OutPoint)>) -> bool {
    exists|i: int|
        0 <= i < rows.len() && keys.contains(#[trigger] rows[i].key()) && rows[i].spending_batch_id.is_some()
}

/// `u` once it is reserved for `batch_id`.
pub open spec fn reserved_row(u: WalletUtxo, batch_id: BatchId, tx_id: LedgerTransactionId, fee_rate: FeeRate) -> WalletUtxo {
    WalletUtxo {
        spending_batch_id: Some(batch_id),
        spending_ledger_tx_id: Some(tx_id),
        spending_fee_rate: Some(fee_rate),
        ..u
    }
}

/// Whether `ids` holds `id`.
pub fn contains_keychain(ids: &Vec<KeychainId>, id: KeychainId) -> (r: bool)
    ensures
        r == ids@.contains(id),
{
    let mut j: usize = 0;
    while j < ids.len()
        invariant
            j <= ids.len(),
            forall|b: int| 0 <= b < j ==> ids@[b] != id,
        decreases ids.len() - j,
    {
        if ids[j] == id {
            assert(ids@[j as int] == id);
            return true;
        }
        j += 1;
    }
    false
}

/// Whether `keys` holds `key`.
pub fn contains_key(keys: &Vec<(KeychainId, OutPoint)>, key: (KeychainId, OutPoint)) -> (r: bool)
    ensures
        r == keys@.contains(key),
{
    let mut j: usize = 0;
    while j < keys.len()
        invariant
            j <= keys.len(),
            forall|b: int| 0 <= b < j ==> keys@[b] != key,
        decreases keys.len() - j,
    {
        if keys[j].0 == key.0 && keys[j].1 == key.1 {
            assert(keys@[j as int] == key);
            return true;
        }
        j += 1;
    }
    false
}

/// An input of the spend being recorded: one of the keychain's outputs that is among
/// `inputs` and not yet seen spent.
pub open spec fn spend_markable(u: WalletUtxo, keychain_id: KeychainId, inputs: Seq<OutPoint>) -> bool {
    &&& u.keychain_id == keychain_id
    &&& inputs.contains(u.outpoint)
    &&& u.spend_detected_ledger_tx_id.is_none()
}

/// `u` once a transaction spending it has been seen.
pub open spec fn spend_detected_row(u: WalletUtxo, tx_id: LedgerTransactionId) -> WalletUtxo {
    WalletUtxo { spend_detected_ledger_tx_id: Some(tx_id), ..u }
}

pub open spec fn spent_of(u: WalletUtxo) -> SpentUtxo {
    SpentUtxo {
        outpoint: u.outpoint,
        value: u.value,
        settled: u.utxo_settled_ledger_tx_id.is_some(),
        detected_ledger_tx_id: u.utxo_detected_ledger_tx_id,
    }
}

/// The inputs of the spend, in table order.
pub open spec fn spent_inputs(rows: Seq<WalletUtxo>, keychain_id: KeychainId, inputs: Seq<OutPoint>) -> Seq<SpentUtxo>
    decreases rows.len(),
{
    if rows.len() == 0 {
        Seq::empty()
    } else {
        let rest = spent_inputs(rows.drop_last(), keychain_id, inputs);
        if spend_markable(rows.last(), keychain_id, inputs) {
            rest.push(spent_of(rows.last()))
        } else {
            rest
        }
    }
}

/// The change outputs can all be added: none is recorded for the keychain yet, and no two
/// share an outpoint.
pub open spec fn change_insertable(rows: Seq<WalletUtxo>, keychain_id: KeychainId, change: Seq<(LocalUtxo, AddressInfo)>) -> bool {
    &&& forall|j: int| 0 <= j < change.len() ==> !has_key(rows, keychain_id, (#[trigger] change[j]).0.outpoint)
    &&& forall|a: int, b: int|
        0 <= a < change.len() && 0 <= b < change.len() && a != b ==> (#[trigger] change[a]).0.outpoint
            != (#[trigger] change[b]).0.outpoint
}

/// The total value of the change outputs.
pub open spec fn change_total(change: Seq<(LocalUtxo, AddressInfo)>) -> int
    decreases change.len(),
{
    if change.len() == 0 {
        0
    } else {
        change_total(change.drop_last()) + change.last().0.txout.value
    }
}

/// The rows the change outputs become: our own payments, posted with the spend.
pub open spec fn change_rows(
    account_id: AccountId,
    wallet_id: WalletId,
    keychain_id: KeychainId,
    change: Seq<(LocalUtxo, AddressInfo)>,
    sats_per_vbyte: u64,
    tx_id: LedgerTransactionId,
) -> Seq<WalletUtxo> {
    change.map_values(
        |c: (LocalUtxo, AddressInfo)|
            detected_row(account_id, wallet_id, keychain_id, c.1, c.0, sats_per_vbyte, true, tx_id),
    )
}

/// `rows` with every input of the spend marked as seen spent by `tx_id`.
pub open spec fn rows_spend_detected(
    rows: Seq<WalletUtxo>,
    keychain_id: KeychainId,
    inputs: Seq<OutPoint>,
    tx_id: LedgerTransactionId,
) -> Seq<WalletUtxo> {
    rows.map_values(
        |u: WalletUtxo|
            if spend_markable(u, keychain_id, inputs) {
                spend_detected_row(u, tx_id)
            } else {
                u
            },
    )
}

/// An input whose spend is now confirmed: one of the keychain's outputs among `inputs`, seen
/// spent and not yet settled as spent.
pub open spec fn spend_settleable(u: WalletUtxo, keychain_id: KeychainId, inputs: Seq<OutPoint>) -> bool {
    &&& u.keychain_id == keychain_id
    &&& inputs.contains(u.outpoint)
    &&& u.spend_detected_ledger_tx_id.is_some()
    &&& u.spend_settled_ledger_tx_id.is_none()
}

/// Some input is left to settle.
pub open spec fn any_settleable(rows: Seq<WalletUtxo>, keychain_id: KeychainId, inputs: Seq<OutPoint>) -> bool {
    exists|i: int| 0 <= i < rows.len() && spend_settleable(#[trigger] rows[i], keychain_id, inputs)
}

/// Some input left to settle was seen spent by `tx_id`.
pub open spec fn settleable_from(
    rows: Seq<WalletUtxo>,
    keychain_id: KeychainId,
    inputs: Seq<OutPoint>,
    tx_id: LedgerTransactionId,
) -> bool {
    exists|i: int|
        0 <= i < rows.len() && spend_settleable(#[trigger] rows[i], keychain_id, inputs)
            && rows[i].spend_detected_ledger_tx_id == Some(tx_id)
}

/// `rows` with every settleable input marked as settled by `tx_id`.
pub open spec fn rows_spend_settled(
    rows: Seq<WalletUtxo>,
    keychain_id: KeychainId,
    inputs: Seq<OutPoint>,
    tx_id: LedgerTransactionId,
) -> Seq<WalletUtxo> {
    rows.map_values(
        |u: WalletUtxo|
            if spend_settleable(u, keychain_id, inputs) {
                WalletUtxo { spend_settled_ledger_tx_id: Some(tx_id), ..u }
            } else {
                u
            },
    )
}

/// Whether `outpoints` holds `o`.
pub fn contains_outpoint(outpoints: &Vec<OutPoint>, o: OutPoint) -> (r: bool)
    ensures
        r == outpoints@.contains(o),
{
    let mut j: usize = 0;
    while j < outpoints.len()
        invariant
            j <= outpoints.len(),
            forall|b: int| 0 <= b < j ==> outpoints@[b] != o,
        decreases outpoints.len() - j,
    {
        if outpoints[j] == o {
            assert(outpoints@[j as int] == o);
            return true;
        }
        j += 1;
    }
    false
}

/// The total value of the change outputs, or `None` where it does not fit in 64 bits.
pub fn sum_change(change: &Vec<(LocalUtxo, AddressInfo)>) -> (r: Option<Satoshis>)
    ensures
        r.is_some() == (change_total(change@) <= u64::MAX),
        r.is_some() ==> r.unwrap().0 == change_total(change@),
{
    let mut total: u64 = 0;
    let mut i: usize = 0;
    while i < change.len()
        invariant
            i <= change.len(),
            total == change_total(change@.take(i as int)),
        decreases change.len() - i,
    {
        proof {
            assert(change@.take(i as int + 1).drop_last() =~= change@.take(i as int));
        }
        match total.checked_add(change[i].0.txout.value) {
            Some(t) => {
                total = t;
            },
            None => {
                proof {
                    lemma_change_total_grows(change@, i as int + 1);
                }
                return None;
            },
        }
        i += 1;
    }
    proof {
        assert(change@.take(i as int) =~= change@);
    }
    Some(Satoshis(total))
}

pub proof fn lemma_change_total_grows(change: Seq<(LocalUtxo, AddressInfo)>, i: int)
    requires
        0 <= i <= change.len(),
    ensures
        change_total(change.take(i)) <= change_total(change),
    decreases change.len(),
{
    if i < change.len() {
        assert(change.drop_last().take(i) =~= change.take(i));
        lemma_change_total_grows(change.drop_last(), i);
    } else {
        assert(change.take(i) =~= change);
    }
}

/// `rows` with every row whose key is among `keys` reserved for `batch_id`.
pub open spec fn reserve_rows(
    rows: Seq<WalletUtxo>,
    keys: Seq<(KeychainId, OutPoint)>,
    batch_id: BatchId,
    tx_id: LedgerTransactionId,
    fee_rate: FeeRate,
) -> Seq<WalletUtxo> {
    rows.map_values(
        |u: WalletUtxo|
            if keys.contains(u.key()) {
                reserved_row(u, batch_id, tx_id, fee_rate)
            } else {
                u
            },
    )
}

proof fn lemma_append_extends(rows: Seq<WalletUtxo>, added: Seq<WalletUtxo>)
    ensures
        rows_extended(rows, rows + added),
{
    assert forall|i: int| 0 <= i < rows.len() implies (#[trigger] rows[i]).extended_by((rows + added)[i]) by {}
}

proof fn lemma_settle_extends(rows: Seq<WalletUtxo>, i: int, bdk_spent: bool, block_height: u32, tx_id: LedgerTransactionId)
    requires
        rows_wf(rows),
        0 <= i < rows.len(),
        rows[i].utxo_settled_ledger_tx_id.is_none(),
    ensures
        rows_extended(rows, rows.update(i, settled_row(rows[i], bdk_spent, block_height, tx_id))),
{
    assert(rows[i].wf());
}

proof fn lemma_reserve_extends(
    rows: Seq<WalletUtxo>,
    keys: Seq<(KeychainId, OutPoint)>,
    batch_id: BatchId,
    tx_id: LedgerTransactionId,
    fee_rate: FeeRate,
)
    requires
        rows_wf(rows),
        !any_reserved(rows, keys),
    ensures
        rows_extended(rows, reserve_rows(rows, keys, batch_id, tx_id, fee_rate)),
{
    let new = reserve_rows(rows, keys, batch_id, tx_id, fee_rate);
    assert forall|i: int| 0 <= i < rows.len() implies (#[trigger] rows[i]).extended_by(new[i]) by {
        if keys.contains(rows[i].key()) {
            assert(rows[i].spending_batch_id.is_none());
            assert(rows[i].wf());
        }
    }
}

proof fn lemma_spend_marks_extend(rows: Seq<WalletUtxo>, keychain_id: KeychainId, inputs: Seq<OutPoint>, tx_id: LedgerTransactionId)
    ensures
        rows_extended(rows, rows_spend_detected(rows, keychain_id, inputs, tx_id)),
        rows_extended(rows, rows_spend_settled(rows, keychain_id, inputs, tx_id)),
{
}

/// Every transition of a UTXO only adds to it: a state field, once set, is never cleared or
/// rewritten, and no row is dropped or moved. This holds of recording new outputs, of
/// settling one, of reserving outputs for a batch, and of marking spends seen and settled.
pub proof fn lemma_state_fields_monotonic(
    rows: Seq<WalletUtxo>,
    keychain_id: KeychainId,
    outpoint: OutPoint,
    bdk_spent: bool,
    block_height: u32,
    inputs: Seq<OutPoint>,
    keys: Seq<(KeychainId, OutPoint)>,
    batch_id: BatchId,
    fee_rate: FeeRate,
    tx_id: LedgerTransactionId,
    added: Seq<WalletUtxo>,
)
    requires
        rows_wf(rows),
    ensures
        rows_extended(rows, rows + added),
        has_key(rows, keychain_id, outpoint) && rows[key_index(rows, keychain_id, outpoint)].utxo_settled_ledger_tx_id.is_none()
            ==> rows_extended(rows, rows.update(
            key_index(rows, keychain_id, outpoint),
            settled_row(rows[key_index(rows, keychain_id, outpoint)], bdk_spent, block_height, tx_id),
        )),
        !any_reserved(rows, keys) ==> rows_extended(rows, reserve_rows(rows, keys, batch_id, tx_id, fee_rate)),
        rows_extended(rows, rows_spend_detected(rows, keychain_id, inputs, tx_id)),
        rows_extended(rows, rows_spend_settled(rows, keychain_id, inputs, tx_id)),
{
    lemma_append_extends(rows, added);
    lemma_spend_marks_extend(rows, keychain_id, inputs, tx_id);
    if has_key(rows, keychain_id, outpoint) {
        let k = key_index(rows, keychain_id, outpoint);
        if rows[k].utxo_settled_ledger_tx_id.is_none() {
            lemma_settle_extends(rows, k, bdk_spent, block_height, tx_id);
        }
    }
    if !any_reserved(rows, keys) {
        lemma_reserve_extends(rows, keys, batch_id, tx_id, fee_rate);
    }
}

/// Extending is transitive.
pub proof fn lemma_rows_extended_trans(a: Seq<WalletUtxo>, b: Seq<WalletUtxo>, c: Seq<WalletUtxo>)
    requires
        rows_extended(a, b),
        rows_extended(b, c),
    ensures
        rows_extended(a, c),
{
    assert forall|i: int| 0 <= i < a.len() implies (#[trigger] a[i]).extended_by(c[i]) by {
        assert(a[i].extended_by(b[i]));
        assert(b[i].extended_by(c[i]));
    }
}

/// Two reservations that both succeed, one after the other, never share an output: an
/// output reserved for one batch is refused to any other.
pub proof fn lemma_no_outpoint_in_two_batches(
    rows: Seq<WalletUtxo>,
    first: Seq<(KeychainId, OutPoint)>,
    first_batch: BatchId,
    first_tx_id: LedgerTransactionId,
    first_fee_rate: FeeRate,
    second: Seq<(KeychainId, OutPoint)>,
)
    requires
        rows_wf(rows),
        all_present(rows, first),
        !any_reserved(rows, first),
        !any_reserved(reserve_rows(rows, first, first_batch, first_tx_id, first_fee_rate), second),
    ensures
        forall|k: (KeychainId, OutPoint)| first.contains(k) ==> !second.contains(k),
{
    let after = reserve_rows(rows, first, first_batch, first_tx_id, first_fee_rate);
    assert forall|k: (KeychainId, OutPoint)| first.contains(k) implies !second.contains(k) by {
        let j = choose|j: int| 0 <= j < first.len() && first[j] == k;
        assert(has_key(rows, first[j].0, first[j].1));
        let i = choose|i: int| 0 <= i < rows.len() && #[trigger] rows[i].key() == (k.0, k.1);
        assert(after[i].key() == k);
        assert(after[i].spending_batch_id == Some(first_batch));
    }
}

/// How a row is listed: with its address where it was paid to a receiving address.
pub open spec fn listed(u: WalletUtxo) -> KeychainUtxo {
    KeychainUtxo {
        utxo: u,
        address: if u.kind == KeychainKind::External {
            Some(u.address)
        } else {
            None
        },
    }
}

/// The rows of the keychain that the wallet engine reports unspent, from position `i` on,
/// newest (latest recorded) first.
pub open spec fn keychain_rows_from(rows: Seq<WalletUtxo>, keychain_id: KeychainId, i: int) -> Seq<KeychainUtxo>
    decreases rows.len() - i,
{
    if i < 0 || i >= rows.len() {
        Seq::empty()
    } else {
        let rest = keychain_rows_from(rows, keychain_id, i + 1);
        let u = rows[i];
        if u.keychain_id == keychain_id && !u.bdk_spent {
            rest.push(listed(u))
        } else {
            rest
        }
    }
}

/// The rows of the keychain the wallet engine reports unspent, newest first.
pub open spec fn keychain_rows(rows: Seq<WalletUtxo>, keychain_id: KeychainId) -> Seq<KeychainUtxo> {
    keychain_rows_from(rows, keychain_id, 0)
}

/// The rows whose key is among `keys`, in table order.
pub open spec fn rows_with_keys(rows: Seq<WalletUtxo>, keys: Seq<(KeychainId, OutPoint)>) -> Seq<WalletUtxo>
    decreases rows.len(),
{
    if rows.len() == 0 {
        Seq::empty()
    } else {
        let rest = rows_with_keys(rows.drop_last(), keys);
        if keys.contains(rows.last().key()) {
            rest.push(rows.last())
        } else {
            rest
        }
    }
}

/// The rows of the wallet reserved for the batch, in table order.
pub open spec fn batch_rows(rows: Seq<WalletUtxo>, batch_id: BatchId, wallet_id: WalletId) -> Seq<WalletUtxo>
    decreases rows.len(),
{
    if rows.len() == 0 {
        Seq::empty()
    } else {
        let rest = batch_rows(rows.drop_last(), batch_id, wallet_id);
        let u = rows.last();
        if u.spending_batch_id == Some(batch_id) && u.wallet_id == wallet_id {
            rest.push(u)
        } else {
            rest
        }
    }
}

/// The row records `id` as one of its ledger transactions.
pub open spec fn row_uses_id(u: WalletUtxo, id: LedgerTransactionId) -> bool {
    ||| u.utxo_detected_ledger_tx_id == id
    ||| u.utxo_settled_ledger_tx_id == Some(id)
    ||| u.spending_ledger_tx_id == Some(id)
    ||| u.spend_detected_ledger_tx_id == Some(id)
    ||| u.spend_settled_ledger_tx_id == Some(id)
}

/// Some row records `id`.
pub open spec fn id_used(rows: Seq<WalletUtxo>, id: LedgerTransactionId) -> bool {
    exists|i: int| 0 <= i < rows.len() && row_uses_id(#[trigger] rows[i], id)
}

/// The table records the largest id there is, so a fresh one cannot always be found.
pub open spec fn ids_exhausted(rows: Seq<WalletUtxo>) -> bool {
    id_used(rows, LedgerTransactionId(u128::MAX))
}

/// The UTXO table: every output the wallets own or owned, with its state.
pub struct Utxos {
    rows: Vec<WalletUtxo>,
}

impl View for Utxos {
    type V = Seq<WalletUtxo>;

    closed spec fn view(&self) -> Seq<WalletUtxo> {
        self.rows@
    }
}

impl Utxos {
    pub open spec fn wf(&self) -> bool {
        rows_wf(self@)
    }

    /// An empty table.
    pub fn new() -> (r: Utxos)
        ensures
            r@ == Seq::<WalletUtxo>::empty(),
            r.wf(),
    {
        Utxos { rows: Vec::new() }
    }

    /// The number of rows.
    pub fn len(&self) -> (r: usize)
        ensures
            r == self@.len(),
    {
        self.rows.len()
    }

    /// A copy of the row at `i`.
    pub fn get(&self, i: usize) -> (r: WalletUtxo)
        requires
            i < self@.len(),
        ensures
            r == self@[i as int],
    {
        self.rows[i].duplicate()
    }

    fn find_index(&self, keychain_id: KeychainId, outpoint: OutPoint) -> (r: Option<usize>)
        ensures
            match r {
                Some(i) => i < self@.len() && self@[i as int].key() == (keychain_id, outpoint),
                None => !has_key(self@, keychain_id, outpoint),
            },
    {
        let mut i: usize = 0;
        while i < self.rows.len()
            invariant
                i <= self.rows.len(),
                forall|j: int| 0 <= j < i ==> (#[trigger] self.rows@[j]).key() != (keychain_id, outpoint),
            decreases self.rows.len() - i,
        {
            if self.rows[i].keychain_id == keychain_id && self.rows[i].outpoint == outpoint {
                return Some(i);
            }
            i += 1;
        }
        None
    }

    fn uses_id(&self, id: LedgerTransactionId) -> (r: bool)
        ensures
            r == id_used(self@, id),
    {
        let mut i: usize = 0;
        while i < self.rows.len()
            invariant
                i <= self.rows.len(),
                forall|k: int| 0 <= k < i ==> !row_uses_id(#[trigger] self@[k], id),
            decreases self.rows.len() - i,
        {
            let u = &self.rows[i];
            if u.utxo_detected_ledger_tx_id == id || u.utxo_settled_ledger_tx_id == Some(id)
                || u.spending_ledger_tx_id == Some(id) || u.spend_detected_ledger_tx_id == Some(id)
                || u.spend_settled_ledger_tx_id == Some(id) {
                assert(row_uses_id(self@[i as int], id));
                return true;
            }
            i += 1;
        }
        false
    }

    fn max_id_used(&self) -> (r: u128)
        ensures
            forall|id: LedgerTransactionId| id_used(self@, id) ==> id.0 <= r,
            r == u128::MAX ==> ids_exhausted(self@),
    {
        let mut m: u128 = 0;
        let mut i: usize = 0;
        while i < self.rows.len()
            invariant
                i <= self.rows.len(),
                forall|k: int, id: LedgerTransactionId| #![trigger row_uses_id(self@[k], id)] 0 <= k < i && row_uses_id(self@[k], id) ==> id.0 <= m,
                m == u128::MAX ==> ids_exhausted(self@),
            decreases self.rows.len() - i,
        {
            let u = &self.rows[i];
            let ghost before = m;
            if u.utxo_detected_ledger_tx_id.0 > m {
                m = u.utxo_detected_ledger_tx_id.0;
            }
            if let Some(t) = u.utxo_settled_ledger_tx_id {
                if t.0 > m {
                    m = t.0;
                }
            }
            if let Some(t) = u.spending_ledger_tx_id {
                if t.0 > m {
                    m = t.0;
                }
            }
            if let Some(t) = u.spend_detected_ledger_tx_id {
                if t.0 > m {
                    m = t.0;
                }
            }
            if let Some(t) = u.spend_settled_ledger_tx_id {
                if t.0 > m {
                    m = t.0;
                }
            }
            proof {
                if m == u128::MAX && before != u128::MAX {
                    assert(row_uses_id(self@[i as int], LedgerTransactionId(u128::MAX)));
                }
            }
            i += 1;
        }
        m
    }

    /// A ledger transaction id no row records: a random one, or else one past the largest in
    /// use. `None` only where the table records the largest id there is.
    fn fresh_ledger_tx_id(&self) -> (r: Option<LedgerTransactionId>)
        ensures
            r matches Some(id) ==> !id_used(self@, id),
            r.is_none() ==> ids_exhausted(self@),
            !ids_exhausted(self@) ==> r.is_some(),
    {
        let id = LedgerTransactionId::new();
        if !self.uses_id(id) {
            return Some(id);
        }
        let m = self.max_id_used();
        if m < u128::MAX {
            Some(LedgerTransactionId(m + 1))
        } else {
            None
        }
    }

    /// The row of `(keychain_id, outpoint)`, if there is one.
    pub fn find(&self, keychain_id: KeychainId, outpoint: OutPoint) -> (r: Option<WalletUtxo>)
        requires
            self.wf(),
        ensures
            r.is_some() == has_key(self@, keychain_id, outpoint),
            r.is_some() ==> r.unwrap() == self@[key_index(self@, keychain_id, outpoint)],
    {
        match self.find_index(keychain_id, outpoint) {
            Some(i) => {
                proof {
                    let k = key_index(self@, keychain_id, outpoint);
                    assert(self@[i as int].key() == (keychain_id, outpoint));
                    assert(k == i as int);
                }
                Some(self.rows[i].duplicate())
            },
            None => None,
        }
    }

    /// Records an output seen for the first time and returns the id of the ledger transaction
    /// that is to post it. An output already recorded for the keychain leaves the table as it
    /// is and gives `None`.
    pub fn new_utxo_detected(
        &mut self,
        account_id: AccountId,
        wallet_id: WalletId,
        keychain_id: KeychainId,
        address: &AddressInfo,
        utxo: &LocalUtxo,
        sats_per_vbyte_when_created: u64,
        self_pay: bool,
    ) -> (r: Result<Option<LedgerTransactionId>, UtxoError>)
        requires
            old(self).wf(),
        ensures
            final(self).wf(),
            rows_extended(old(self)@, final(self)@),
            has_key(old(self)@, keychain_id, utxo.outpoint) ==> r == Ok::<Option<LedgerTransactionId>, UtxoError>(None),
            !has_key(old(self)@, keychain_id, utxo.outpoint) && !ids_exhausted(old(self)@) ==> r matches Ok(Some(_)),
            r.is_err() ==> r == Err::<Option<LedgerTransactionId>, UtxoError>(UtxoError::LedgerTxIdsExhausted)
                && ids_exhausted(old(self)@),
            !(r matches Ok(Some(_))) ==> final(self)@ == old(self)@,
            r matches Ok(Some(id)) ==> !id_used(old(self)@, id) && final(self)@ == old(self)@.push(
                detected_row(
                    account_id,
                    wallet_id,
                    keychain_id,
                    *address,
                    *utxo,
                    sats_per_vbyte_when_created,
                    self_pay,
                    id,
                ),
            ),
    {
        proof {
            assert(forall|i: int| 0 <= i < self@.len() ==> (#[trigger] self@[i]).extended_by(self@[i]));
        }
        if self.find_index(keychain_id, utxo.outpoint).is_some() {
            return Ok(None);
        }
        let tx_id = match self.fresh_ledger_tx_id() {
            Some(id) => id,
            None => return Err(UtxoError::LedgerTxIdsExhausted),
        };
        self.insert_detected(
            account_id,
            wallet_id,
            keychain_id,
            address,
            utxo,
            sats_per_vbyte_when_created,
            self_pay,
            tx_id,
        );
        proof {
            let added = seq![self@.last()];
            assert(self@ =~= old(self)@ + added);
            lemma_append_extends(old(self)@, added);
        }
        Ok(Some(tx_id))
    }

    fn insert_detected(
        &mut self,
        account_id: AccountId,
        wallet_id: WalletId,
        keychain_id: KeychainId,
        address: &AddressInfo,
        utxo: &LocalUtxo,
        sats_per_vbyte_when_created: u64,
        self_pay: bool,
        tx_id: LedgerTransactionId,
    )
        requires
            old(self).wf(),
            !has_key(old(self)@, keychain_id, utxo.outpoint),
        ensures
            final(self).wf(),
            final(self)@ == old(self)@.push(
                detected_row(
                    account_id,
                    wallet_id,
                    keychain_id,
                    *address,
                    *utxo,
                    sats_per_vbyte_when_created,
                    self_pay,
                    tx_id,
                ),
            ),
    {
        let row = WalletUtxo {
            account_id,
            wallet_id,
            keychain_id,
            outpoint: utxo.outpoint,
            kind: address.keychain,
            address_idx: address.index,
            address: address.address.clone(),
            script_hex: utxo.txout.script_hex.clone(),
            value: Satoshis(utxo.txout.value),
            sats_per_vbyte_when_created,
            self_pay,
            bdk_spent: utxo.is_spent,
            utxo_detected_ledger_tx_id: tx_id,
            utxo_settled_ledger_tx_id: None,
            block_height: None,
            spending_batch_id: None,
            spending_ledger_tx_id: None,
            spending_fee_rate: None,
            spend_detected_ledger_tx_id: None,
            spend_settled_ledger_tx_id: None,
        };
        let ghost old_rows = self@;
        self.rows.push(row);
        proof {
            let rows = self@;
            assert forall|i: int, j: int|
                0 <= i < rows.len() && 0 <= j < rows.len() && i != j implies (#[trigger] rows[i]).key()
                != (#[trigger] rows[j]).key() by {
                if i == old_rows.len() as int {
                    assert(old_rows[j] == rows[j]);
                } else if j == old_rows.len() as int {
                    assert(old_rows[i] == rows[i]);
                }
            }
        }
    }

    /// Marks the output as confirmed at `block_height` and allocates the ledger transaction
    /// that posts the confirmation.
    pub fn settle_utxo(
        &mut self,
        keychain_id: KeychainId,
        outpoint: OutPoint,
        bdk_spent: bool,
        block_height: u32,
    ) -> (r: Result<SettledUtxo, UtxoError>)
        requires
            old(self).wf(),
        ensures
            final(self).wf(),
            !has_key(old(self)@, keychain_id, outpoint) ==> r == Err::<SettledUtxo, UtxoError>(
                UtxoError::UtxoDoesNotExist,
            ),
            has_key(old(self)@, keychain_id, outpoint) && old(self)@[key_index(
                old(self)@,
                keychain_id,
                outpoint,
            )].utxo_settled_ledger_tx_id.is_some() ==> r == Err::<SettledUtxo, UtxoError>(
                UtxoError::UtxoAlreadySettled,
            ),
            has_key(old(self)@, keychain_id, outpoint) && old(self)@[key_index(
                old(self)@,
                keychain_id,
                outpoint,
            )].utxo_settled_ledger_tx_id.is_none() && !ids_exhausted(old(self)@) ==> r.is_ok(),
            r == Err::<SettledUtxo, UtxoError>(UtxoError::LedgerTxIdsExhausted) ==> ids_exhausted(old(self)@),
            has_key(old(self)@, keychain_id, outpoint) && old(self)@[key_index(
                old(self)@,
                keychain_id,
                outpoint,
            )].utxo_settled_ledger_tx_id.is_none() && r.is_err() ==> r == Err::<SettledUtxo, UtxoError>(
                UtxoError::LedgerTxIdsExhausted,
            ),
            r.is_err() ==> final(self)@ == old(self)@,
            r.is_ok() ==> rows_extended(old(self)@, final(self)@),
            r matches Ok(s) ==> !id_used(old(self)@, s.utxo_settled_ledger_tx_id),
            r.is_ok() ==> {
                let i = key_index(old(self)@, keychain_id, outpoint);
                let u = old(self)@[i];
                let s = r.unwrap();
                &&& u.utxo_settled_ledger_tx_id.is_none()
                &&& final(self)@ == old(self)@.update(
                    i,
                    settled_row(u, bdk_spent, block_height, s.utxo_settled_ledger_tx_id),
                )
                &&& s.keychain_id == keychain_id
                &&& s.outpoint == outpoint
                &&& s.value == u.value
                &&& s.address_idx == u.address_idx
                &&& s.address == u.address
                &&& s.block_height == block_height
                &&& s.utxo_detected_ledger_tx_id == u.utxo_detected_ledger_tx_id
                &&& s.spend_detected_ledger_tx_id == u.spend_detected_ledger_tx_id
                &&& s.spending_batch_id == u.spending_batch_id
            },
    {
        let i = match self.find_index(keychain_id, outpoint) {
            Some(i) => i,
            None => return Err(UtxoError::UtxoDoesNotExist),
        };
        proof {
            assert(key_index(self@, keychain_id, outpoint) == i as int);
        }
        if self.rows[i].utxo_settled_ledger_tx_id.is_some() {
            return Err(UtxoError::UtxoAlreadySettled);
        }
        let tx_id = match self.fresh_ledger_tx_id() {
            Some(id) => id,
            None => return Err(UtxoError::LedgerTxIdsExhausted),
        };
        let ghost old_rows = self@;
        let mut row = self.rows[i].duplicate();
        row.bdk_spent = bdk_spent;
        row.block_height = Some(block_height);
        row.utxo_settled_ledger_tx_id = Some(tx_id);
        let settled = SettledUtxo {
            keychain_id,
            outpoint,
            address_idx: row.address_idx,
            address: row.address.clone(),
            value: row.value,
            block_height,
            utxo_detected_ledger_tx_id: row.utxo_detected_ledger_tx_id,
            utxo_settled_ledger_tx_id: tx_id,
            spend_detected_ledger_tx_id: row.spend_detected_ledger_tx_id,
            spending_batch_id: row.spending_batch_id,
        };
        self.rows.set(i, row);
        proof {
            let rows = self@;
            assert(rows =~= old_rows.update(i as int, settled_row(old_rows[i as int], bdk_spent, block_height, tx_id)));
            assert forall|a: int, b: int|
                0 <= a < rows.len() && 0 <= b < rows.len() && a != b implies (#[trigger] rows[a]).key()
                != (#[trigger] rows[b]).key() by {
                assert(rows[a].key() == old_rows[a].key());
                assert(rows[b].key() == old_rows[b].key());
            }
            assert forall|a: int| 0 <= a < rows.len() implies (#[trigger] rows[a]).wf() by {
                assert(old_rows[a].wf());
            }
            lemma_settle_extends(old_rows, i as int, bdk_spent, block_height, tx_id);
        }
        Ok(settled)
    }

    /// The outpoints of the given keychains that coin selection must not use: those already
    /// in a batch, and incoming ones not settled yet.
    pub fn outpoints_bdk_should_not_select(&self, keychain_ids: &Vec<KeychainId>) -> (r: Vec<
        (KeychainId, OutPoint),
    >)
        ensures
            r@ == blocked_outpoints(self@, keychain_ids@),
    {
        let mut r: Vec<(KeychainId, OutPoint)> = Vec::new();
        let mut i: usize = 0;
        while i < self.rows.len()
            invariant
                i <= self.rows.len(),
                r@ == blocked_outpoints(self@.take(i as int), keychain_ids@),
            decreases self.rows.len() - i,
        {
            let ghost before = r@;
            let u = &self.rows[i];
            let listed = contains_keychain(keychain_ids, u.keychain_id);
            proof {
                assert(self@.take(i as int + 1).drop_last() =~= self@.take(i as int));
                assert(self@.take(i as int + 1).last() == self@[i as int]);
            }
            if listed && u.is_blocked_for_selection() {
                r.push((u.keychain_id, u.outpoint));
            }
            i += 1;
        }
        proof {
            assert(self@.take(i as int) =~= self@);
        }
        r
    }

    fn has_reserved(&self, keys: &Vec<(KeychainId, OutPoint)>) -> (r: bool)
        ensures
            r == any_reserved(self@, keys@),
    {
        let mut i: usize = 0;
        while i < self.rows.len()
            invariant
                i <= self.rows.len(),
                forall|a: int|
                    0 <= a < i ==> !(keys@.contains(#[trigger] self@[a].key()) && self@[a].spending_batch_id.is_some()),
            decreases self.rows.len() - i,
        {
            if self.rows[i].spending_batch_id.is_some() && contains_key(
                keys,
                (self.rows[i].keychain_id, self.rows[i].outpoint),
            ) {
                assert(self@[i as int].key() == (self.rows[i as int].keychain_id, self.rows[i as int].outpoint));
                assert(keys@.contains(self@[i as int].key()) && self@[i as int].spending_batch_id.is_some());
                return true;
            }
            i += 1;
        }
        false
    }

    fn has_all(&self, keys: &Vec<(KeychainId, OutPoint)>) -> (r: bool)
        ensures
            r == all_present(self@, keys@),
    {
        let mut j: usize = 0;
        while j < keys.len()
            invariant
                j <= keys.len(),
                forall|b: int| 0 <= b < j ==> has_key(self@, (#[trigger] keys@[b]).0, keys@[b].1),
            decreases keys.len() - j,
        {
            if self.find_index(keys[j].0, keys[j].1).is_none() {
                return false;
            }
            j += 1;
        }
        true
    }

    /// Reserves the given outputs for a batch, all or none, and returns the id of the ledger
    /// transaction that records the reservation. It fails where an output has no row, or
    /// where one is already in a batch.
    pub fn reserve_utxos_in_batch(
        &mut self,
        batch_id: BatchId,
        fee_rate: FeeRate,
        utxos: &Vec<(KeychainId, OutPoint)>,
    ) -> (r: Result<LedgerTransactionId, UtxoError>)
        requires
            old(self).wf(),
        ensures
            final(self).wf(),
            !all_present(old(self)@, utxos@) ==> r == Err::<LedgerTransactionId, UtxoError>(
                UtxoError::UtxoDoesNotExist,
            ),
            all_present(old(self)@, utxos@) && any_reserved(old(self)@, utxos@) ==> r == Err::<
                LedgerTransactionId,
                UtxoError,
            >(UtxoError::UtxoAlreadyReserved),
            all_present(old(self)@, utxos@) && !any_reserved(old(self)@, utxos@) && !ids_exhausted(old(self)@) ==> r.is_ok(),
            r == Err::<LedgerTransactionId, UtxoError>(UtxoError::LedgerTxIdsExhausted) ==> ids_exhausted(old(self)@),
            all_present(old(self)@, utxos@) && !any_reserved(old(self)@, utxos@) && r.is_err() ==> r == Err::<
                LedgerTransactionId,
                UtxoError,
            >(UtxoError::LedgerTxIdsExhausted),
            r matches Ok(t) ==> !id_used(old(self)@, t),
            r.is_err() ==> final(self)@ == old(self)@,
            r.is_ok() ==> final(self)@ == reserve_rows(old(self)@, utxos@, batch_id, r.unwrap(), fee_rate),
            r.is_ok() ==> rows_extended(old(self)@, final(self)@),
    {
        if !self.has_all(utxos) {
            return Err(UtxoError::UtxoDoesNotExist);
        }
        if self.has_reserved(utxos) {
            return Err(UtxoError::UtxoAlreadyReserved);
        }
        let tx_id = match self.fresh_ledger_tx_id() {
            Some(id) => id,
            None => return Err(UtxoError::LedgerTxIdsExhausted),
        };
        let ghost old_rows = self@;
        let mut i: usize = 0;
        while i < self.rows.len()
            invariant
                i <= self.rows.len(),
                self@.len() == old_rows.len(),
                rows_wf(old_rows),
                !any_reserved(old_rows, utxos@),
                forall|a: int| 0 <= a < self@.len() ==> (#[trigger] self@[a]).key() == old_rows[a].key(),
                forall|a: int| 0 <= a < self@.len() ==> (#[trigger] self@[a]).wf(),
                forall|a: int|
                    0 <= a < i ==> #[trigger] self@[a] == if utxos@.contains(old_rows[a].key()) {
                        reserved_row(old_rows[a], batch_id, tx_id, fee_rate)
                    } else {
                        old_rows[a]
                    },
                forall|a: int| i <= a < self@.len() ==> #[trigger] self@[a] == old_rows[a],
            decreases self.rows.len() - i,
        {
            let key = (self.rows[i].keychain_id, self.rows[i].outpoint);
            let listed = contains_key(utxos, key);
            assert(key == self@[i as int].key());
            if listed {
                let mut row = self.rows[i].duplicate();
                row.spending_batch_id = Some(batch_id);
                row.spending_ledger_tx_id = Some(tx_id);
                row.spending_fee_rate = Some(fee_rate);
                self.rows.set(i, row);
            }
            i += 1;
        }
        proof {
            let rows = self@;
            assert(rows =~= reserve_rows(old_rows, utxos@, batch_id, tx_id, fee_rate));
            lemma_reserve_extends(old_rows, utxos@, batch_id, tx_id, fee_rate);
            assert forall|a: int, b: int|
                0 <= a < rows.len() && 0 <= b < rows.len() && a != b implies (#[trigger] rows[a]).key()
                != (#[trigger] rows[b]).key() by {
                assert(rows[a].key() == old_rows[a].key());
                assert(rows[b].key() == old_rows[b].key());
            }
        }
        Ok(tx_id)
    }

    fn collect_spent_inputs(&self, keychain_id: KeychainId, inputs: &Vec<OutPoint>) -> (r: Vec<SpentUtxo>)
        ensures
            r@ == spent_inputs(self@, keychain_id, inputs@),
    {
        let mut r: Vec<SpentUtxo> = Vec::new();
        let mut i: usize = 0;
        while i < self.rows.len()
            invariant
                i <= self.rows.len(),
                r@ == spent_inputs(self@.take(i as int), keychain_id, inputs@),
            decreases self.rows.len() - i,
        {
            let u = &self.rows[i];
            proof {
                assert(self@.take(i as int + 1).drop_last() =~= self@.take(i as int));
                assert(self@.take(i as int + 1).last() == self@[i as int]);
            }
            if u.keychain_id == keychain_id && u.spend_detected_ledger_tx_id.is_none()
                && contains_outpoint(inputs, u.outpoint) {
                r.push(
                    SpentUtxo {
                        outpoint: u.outpoint,
                        value: u.value,
                        settled: u.utxo_settled_ledger_tx_id.is_some(),
                        detected_ledger_tx_id: u.utxo_detected_ledger_tx_id,
                    },
                );
            }
            i += 1;
        }
        proof {
            assert(self@.take(i as int) =~= self@);
        }
        r
    }

    fn can_insert_change(&self, keychain_id: KeychainId, change: &Vec<(LocalUtxo, AddressInfo)>) -> (r: bool)
        ensures
            r == change_insertable(self@, keychain_id, change@),
    {
        let mut j: usize = 0;
        while j < change.len()
            invariant
                j <= change.len(),
                forall|a: int| 0 <= a < j ==> !has_key(self@, keychain_id, (#[trigger] change@[a]).0.outpoint),
                forall|a: int, b: int|
                    0 <= a < j && 0 <= b < j && a != b ==> (#[trigger] change@[a]).0.outpoint
                        != (#[trigger] change@[b]).0.outpoint,
            decreases change.len() - j,
        {
            if self.find_index(keychain_id, change[j].0.outpoint).is_some() {
                return false;
            }
            let mut a: usize = 0;
            while a < j
                invariant
                    a <= j < change.len(),
                    forall|b: int| 0 <= b < a ==> change@[b].0.outpoint != change@[j as int].0.outpoint,
                decreases j - a,
            {
                if change[a].0.outpoint == change[j].0.outpoint {
                    return false;
                }
                a += 1;
            }
            j += 1;
        }
        true
    }

    fn mark_spend_detected(&mut self, keychain_id: KeychainId, inputs: &Vec<OutPoint>, tx_id: LedgerTransactionId)
        requires
            old(self).wf(),
        ensures
            final(self).wf(),
            final(self)@ == rows_spend_detected(old(self)@, keychain_id, inputs@, tx_id),
    {
        let ghost old_rows = self@;
        let mut i: usize = 0;
        while i < self.rows.len()
            invariant
                i <= self.rows.len(),
                self@.len() == old_rows.len(),
                rows_wf(old_rows),
                forall|a: int| 0 <= a < self@.len() ==> (#[trigger] self@[a]).key() == old_rows[a].key(),
                forall|a: int| 0 <= a < self@.len() ==> (#[trigger] self@[a]).wf(),
                forall|a: int|
                    0 <= a < i ==> #[trigger] self@[a] == if spend_markable(old_rows[a], keychain_id, inputs@) {
                        spend_detected_row(old_rows[a], tx_id)
                    } else {
                        old_rows[a]
                    },
                forall|a: int| i <= a < self@.len() ==> #[trigger] self@[a] == old_rows[a],
            decreases self.rows.len() - i,
        {
            if self.rows[i].keychain_id == keychain_id && self.rows[i].spend_detected_ledger_tx_id.is_none()
                && contains_outpoint(inputs, self.rows[i].outpoint) {
                let mut row = self.rows[i].duplicate();
                row.spend_detected_ledger_tx_id = Some(tx_id);
                self.rows.set(i, row);
            }
            i += 1;
        }
        proof {
            let rows = self@;
            assert(rows =~= rows_spend_detected(old_rows, keychain_id, inputs@, tx_id));
            assert forall|a: int, b: int|
                0 <= a < rows.len() && 0 <= b < rows.len() && a != b implies (#[trigger] rows[a]).key()
                != (#[trigger] rows[b]).key() by {
                assert(rows[a].key() == old_rows[a].key());
                assert(rows[b].key() == old_rows[b].key());
            }
        }
    }

    fn insert_change(
        &mut self,
        account_id: AccountId,
        wallet_id: WalletId,
        keychain_id: KeychainId,
        change: &Vec<(LocalUtxo, AddressInfo)>,
        sats_per_vbyte: u64,
        tx_id: LedgerTransactionId,
    )
        requires
            old(self).wf(),
            change_insertable(old(self)@, keychain_id, change@),
        ensures
            final(self).wf(),
            final(self)@ == old(self)@ + change_rows(account_id, wallet_id, keychain_id, change@, sats_per_vbyte, tx_id),
    {
        let ghost old_rows = self@;
        let ghost added = change_rows(account_id, wallet_id, keychain_id, change@, sats_per_vbyte, tx_id);
        let mut j: usize = 0;
        while j < change.len()
            invariant
                j <= change.len(),
                self.wf(),
                change_insertable(old_rows, keychain_id, change@),
                added == change_rows(account_id, wallet_id, keychain_id, change@, sats_per_vbyte, tx_id),
                self@ == old_rows + added.take(j as int),
            decreases change.len() - j,
        {
            proof {
                assert forall|b: int| j <= b < change.len() implies !has_key(self@, keychain_id, (#[trigger] change@[b]).0.outpoint) by {
                    assert(!has_key(old_rows, keychain_id, change@[b].0.outpoint));
                    if has_key(self@, keychain_id, change@[b].0.outpoint) {
                        let w = choose|w: int| 0 <= w < self@.len() && #[trigger] self@[w].key() == (keychain_id, change@[b].0.outpoint);
                        if w >= old_rows.len() {
                            let c = w - old_rows.len();
                            assert(self@[w] == added[c]);
                            assert(added[c].outpoint == change@[c].0.outpoint);
                        } else {
                            assert(self@[w] == old_rows[w]);
                        }
                    }
                }
            }
            self.insert_detected(
                account_id,
                wallet_id,
                keychain_id,
                &change[j].1,
                &change[j].0,
                sats_per_vbyte,
                true,
                tx_id,
            );
            proof {
                assert(old_rows + added.take(j as int + 1) =~= (old_rows + added.take(j as int)).push(added[j as int]));
            }
            j += 1;
        }
        proof {
            assert(added.take(j as int) =~= added);
        }
    }

    /// Records a transaction that spends outputs of the keychain: its change outputs become
    /// rows of our own payments, posted under `tx_id`, and each of the keychain's outputs among
    /// `inputs` not yet seen spent is marked as spent by `tx_id`. Returns the settled total and
    /// the withdrawals to be made from the effective balance (see `allocation_state`).
    ///
    /// `Ok(None)`, with the table unchanged, where a change output is already recorded or
    /// where none of the inputs is an unspent output of the keychain.
    pub fn spend_detected(
        &mut self,
        account_id: AccountId,
        wallet_id: WalletId,
        keychain_id: KeychainId,
        tx_id: LedgerTransactionId,
        inputs: &Vec<OutPoint>,
        change_utxos: &Vec<(LocalUtxo, AddressInfo)>,
        sats_per_vbyte: u64,
    ) -> (r: Result<Option<(Satoshis, Vec<(LedgerTransactionId, Satoshis)>)>, UtxoError>)
        requires
            old(self).wf(),
        ensures
            final(self).wf(),
            ({
                let spent = spent_inputs(old(self)@, keychain_id, inputs@);
                let st = allocation_state(spent, change_total(change_utxos@));
                &&& (!change_insertable(old(self)@, keychain_id, change_utxos@) || spent.len() == 0)
                    <==> r == Ok::<Option<(Satoshis, Vec<(LedgerTransactionId, Satoshis)>)>, UtxoError>(None)
                &&& r.is_err() <==> (change_insertable(old(self)@, keychain_id, change_utxos@) && spent.len() > 0
                    && (change_total(change_utxos@) > u64::MAX || st.0 > u64::MAX))
                &&& r.is_err() ==> r == Err::<Option<(Satoshis, Vec<(LedgerTransactionId, Satoshis)>)>, UtxoError>(
                    UtxoError::AmountOverflow,
                )
                &&& (r.is_err() || r == Ok::<Option<(Satoshis, Vec<(LedgerTransactionId, Satoshis)>)>, UtxoError>(None))
                    ==> final(self)@ == old(self)@
                &&& r matches Ok(Some(a)) ==> {
                    &&& rows_extended(old(self)@, final(self)@)
                    &&& a.0.0 == st.0
                    &&& a.1@ == st.1
                    &&& final(self)@ == rows_spend_detected(old(self)@, keychain_id, inputs@, tx_id)
                        + change_rows(account_id, wallet_id, keychain_id, change_utxos@, sats_per_vbyte, tx_id)
                }
            }),
    {
        if !self.can_insert_change(keychain_id, change_utxos) {
            return Ok(None);
        }
        let spent = self.collect_spent_inputs(keychain_id, inputs);
        if spent.len() == 0 {
            return Ok(None);
        }
        let change = match sum_change(change_utxos) {
            Some(c) => c,
            None => return Err(UtxoError::AmountOverflow),
        };
        let allocation = match withdraw_from_effective_when_settled(&spent, change) {
            Some(a) => a,
            None => return Err(UtxoError::AmountOverflow),
        };
        let ghost before = self@;
        self.mark_spend_detected(keychain_id, inputs, tx_id);
        proof {
            assert forall|j: int| 0 <= j < change_utxos@.len() implies !has_key(self@, keychain_id, (#[trigger] change_utxos@[j]).0.outpoint) by {
                if has_key(self@, keychain_id, change_utxos@[j].0.outpoint) {
                    let w = choose|w: int| 0 <= w < self@.len() && #[trigger] self@[w].key() == (keychain_id, change_utxos@[j].0.outpoint);
                    assert(before[w].key() == self@[w].key());
                }
            }
        }
        let ghost marked = self@;
        self.insert_change(account_id, wallet_id, keychain_id, change_utxos, sats_per_vbyte, tx_id);
        proof {
            lemma_spend_marks_extend(before, keychain_id, inputs@, tx_id);
            lemma_append_extends(marked, change_rows(account_id, wallet_id, keychain_id, change_utxos@, sats_per_vbyte, tx_id));
            lemma_rows_extended_trans(before, marked, self@);
        }
        Ok(Some(allocation))
    }

    fn mark_spend_settled(&mut self, keychain_id: KeychainId, inputs: &Vec<OutPoint>, tx_id: LedgerTransactionId) -> (r: Option<LedgerTransactionId>)
        requires
            old(self).wf(),
        ensures
            final(self).wf(),
            final(self)@ == rows_spend_settled(old(self)@, keychain_id, inputs@, tx_id),
            r.is_some() == any_settleable(old(self)@, keychain_id, inputs@),
            r.is_some() ==> settleable_from(old(self)@, keychain_id, inputs@, r.unwrap()),
    {
        let ghost old_rows = self@;
        let mut found: Option<LedgerTransactionId> = None;
        let mut i: usize = 0;
        while i < self.rows.len()
            invariant
                i <= self.rows.len(),
                self@.len() == old_rows.len(),
                rows_wf(old_rows),
                forall|a: int| 0 <= a < self@.len() ==> (#[trigger] self@[a]).key() == old_rows[a].key(),
                forall|a: int| 0 <= a < self@.len() ==> (#[trigger] self@[a]).wf(),
                forall|a: int|
                    0 <= a < i ==> #[trigger] self@[a] == if spend_settleable(old_rows[a], keychain_id, inputs@) {
                        WalletUtxo { spend_settled_ledger_tx_id: Some(tx_id), ..old_rows[a] }
                    } else {
                        old_rows[a]
                    },
                forall|a: int| i <= a < self@.len() ==> #[trigger] self@[a] == old_rows[a],
                found.is_some() == exists|a: int| 0 <= a < i && spend_settleable(#[trigger] old_rows[a], keychain_id, inputs@),
                found.is_some() ==> exists|a: int|
                    0 <= a < i && spend_settleable(#[trigger] old_rows[a], keychain_id, inputs@)
                        && old_rows[a].spend_detected_ledger_tx_id == found,
            decreases self.rows.len() - i,
        {
            if self.rows[i].keychain_id == keychain_id && self.rows[i].spend_detected_ledger_tx_id.is_some()
                && self.rows[i].spend_settled_ledger_tx_id.is_none()
                && contains_outpoint(inputs, self.rows[i].outpoint) {
                assert(spend_settleable(old_rows[i as int], keychain_id, inputs@));
                if found.is_none() {
                    found = self.rows[i].spend_detected_ledger_tx_id;
                }
                let mut row = self.rows[i].duplicate();
                row.spend_settled_ledger_tx_id = Some(tx_id);
                self.rows.set(i, row);
            }
            i += 1;
        }
        proof {
            let rows = self@;
            assert(rows =~= rows_spend_settled(old_rows, keychain_id, inputs@, tx_id));
            assert forall|a: int, b: int|
                0 <= a < rows.len() && 0 <= b < rows.len() && a != b implies (#[trigger] rows[a]).key()
                != (#[trigger] rows[b]).key() by {
                assert(rows[a].key() == old_rows[a].key());
                assert(rows[b].key() == old_rows[b].key());
            }
        }
        found
    }

    /// Records that a spend of the keychain's outputs is confirmed at `block_height`. A change
    /// output is settled first (see `settle_utxo`) and its settlement id becomes the spend's
    /// settlement id; without change a fresh id is taken. Each input seen spent and not yet
    /// settled is then marked settled. Returns the id of the ledger transaction that recorded
    /// the spend, the settlement id, and whether the change was itself already spent; `None`
    /// where no input was left to settle.
    pub fn spend_settled(
        &mut self,
        keychain_id: KeychainId,
        inputs: &Vec<OutPoint>,
        change_utxo: Option<LocalUtxo>,
        block_height: u32,
    ) -> (r: Result<Option<(LedgerTransactionId, LedgerTransactionId, bool)>, UtxoError>)
        requires
            old(self).wf(),
        ensures
            final(self).wf(),
            r.is_err() ==> final(self)@ == old(self)@,
            r == Err::<Option<(LedgerTransactionId, LedgerTransactionId, bool)>, UtxoError>(
                UtxoError::LedgerTxIdsExhausted,
            ) ==> ids_exhausted(old(self)@),
            match change_utxo {
                None => !ids_exhausted(old(self)@) ==> r.is_ok(),
                Some(c) => {
                    &&& !has_key(old(self)@, keychain_id, c.outpoint) ==> r == Err::<
                        Option<(LedgerTransactionId, LedgerTransactionId, bool)>,
                        UtxoError,
                    >(UtxoError::UtxoDoesNotExist)
                    &&& has_key(old(self)@, keychain_id, c.outpoint) && old(self)@[key_index(
                        old(self)@,
                        keychain_id,
                        c.outpoint,
                    )].utxo_settled_ledger_tx_id.is_some() ==> r == Err::<
                        Option<(LedgerTransactionId, LedgerTransactionId, bool)>,
                        UtxoError,
                    >(UtxoError::UtxoAlreadySettled)
                    &&& has_key(old(self)@, keychain_id, c.outpoint) && old(self)@[key_index(
                        old(self)@,
                        keychain_id,
                        c.outpoint,
                    )].utxo_settled_ledger_tx_id.is_none() && !ids_exhausted(old(self)@) ==> r.is_ok()
                },
            },
            r.is_ok() ==> rows_extended(old(self)@, final(self)@),
            r.is_ok() ==> exists|mid: Seq<WalletUtxo>, t: LedgerTransactionId| {
                &&& !id_used(old(self)@, t)
                &&& final(self)@ == rows_spend_settled(mid, keychain_id, inputs@, t)
                &&& match change_utxo {
                    None => mid == old(self)@,
                    Some(c) => {
                        let i = key_index(old(self)@, keychain_id, c.outpoint);
                        mid == old(self)@.update(i, settled_row(old(self)@[i], c.is_spent, block_height, t))
                    },
                }
                &&& r.unwrap().is_some() == any_settleable(mid, keychain_id, inputs@)
                &&& r.unwrap() matches Some(x) ==> {
                    &&& x.1 == t
                    &&& settleable_from(mid, keychain_id, inputs@, x.0)
                    &&& x.2 == match change_utxo {
                        None => false,
                        Some(c) => old(self)@[key_index(old(self)@, keychain_id, c.outpoint)].spend_detected_ledger_tx_id.is_some(),
                    }
                }
            },
    {
        let (spend_tx_id, change_spent) = match change_utxo {
            Some(utxo) => {
                let settled = match self.settle_utxo(keychain_id, utxo.outpoint, utxo.is_spent, block_height) {
                    Ok(s) => s,
                    Err(e) => return Err(e),
                };
                (settled.utxo_settled_ledger_tx_id, settled.spend_detected_ledger_tx_id.is_some())
            },
            None => match self.fresh_ledger_tx_id() {
                Some(id) => (id, false),
                None => return Err(UtxoError::LedgerTxIdsExhausted),
            },
        };
        let ghost mid = self@;
        let pending = self.mark_spend_settled(keychain_id, inputs, spend_tx_id);
        proof {
            lemma_spend_marks_extend(mid, keychain_id, inputs@, spend_tx_id);
            if change_utxo.is_none() {
                assert(mid == old(self)@);
            }
            lemma_rows_extended_trans(old(self)@, mid, self@);
        }
        match pending {
            Some(p) => Ok(Some((p, spend_tx_id, change_spent))),
            None => Ok(None),
        }
    }

    fn rows_of_keychain(&self, keychain_id: KeychainId) -> (r: Vec<KeychainUtxo>)
        ensures
            r@ == keychain_rows(self@, keychain_id),
    {
        let mut r: Vec<KeychainUtxo> = Vec::new();
        let mut i: usize = self.rows.len();
        while i > 0
            invariant
                i <= self.rows.len(),
                r@ == keychain_rows_from(self@, keychain_id, i as int),
            decreases i,
        {
            i -= 1;
            if self.rows[i].keychain_id == keychain_id && !self.rows[i].bdk_spent {
                let u = self.rows[i].duplicate();
                let address = match u.kind {
                    KeychainKind::External => Some(u.address.clone()),
                    KeychainKind::Internal => None,
                };
                r.push(KeychainUtxo { utxo: u, address });
            }
        }
        r
    }

    fn listed_keychain(found: &Vec<KeychainUtxos>, keychain_id: KeychainId) -> (r: bool)
        ensures
            r == exists|j: int| 0 <= j < found@.len() && (#[trigger] found@[j]).keychain_id == keychain_id,
    {
        let mut j: usize = 0;
        while j < found.len()
            invariant
                j <= found@.len(),
                forall|k: int| 0 <= k < j ==> (#[trigger] found@[k]).keychain_id != keychain_id,
            decreases found.len() - j,
        {
            if found[j].keychain_id == keychain_id {
                return true;
            }
            j += 1;
        }
        false
    }

    /// For each of the given keychains that has outputs the wallet engine reports unspent,
    /// those outputs, newest first, each with its address where it was paid to a receiving
    /// address (see `listed`). A keychain without any is left out, and none is listed twice.
    /// The table is not changed.
    pub fn find_keychain_utxos(&self, keychain_ids: &Vec<KeychainId>) -> (r: Vec<KeychainUtxos>)
        ensures
            forall|i: int|
                0 <= i < r@.len() ==> keychain_ids@.contains((#[trigger] r@[i]).keychain_id) && r@[i].utxos@
                    == keychain_rows(self@, r@[i].keychain_id) && r@[i].utxos@.len() > 0,
            forall|i: int, j: int|
                0 <= i < r@.len() && 0 <= j < r@.len() && i != j ==> (#[trigger] r@[i]).keychain_id
                    != (#[trigger] r@[j]).keychain_id,
            forall|k: int|
                0 <= k < keychain_ids@.len() && keychain_rows(self@, #[trigger] keychain_ids@[k]).len() > 0 ==> exists|i: int|
                    0 <= i < r@.len() && r@[i].keychain_id == keychain_ids@[k],
    {
        let mut r: Vec<KeychainUtxos> = Vec::new();
        let mut k: usize = 0;
        while k < keychain_ids.len()
            invariant
                k <= keychain_ids@.len(),
                forall|i: int|
                    0 <= i < r@.len() ==> keychain_ids@.contains((#[trigger] r@[i]).keychain_id) && r@[i].utxos@
                        == keychain_rows(self@, r@[i].keychain_id) && r@[i].utxos@.len() > 0,
                forall|i: int, j: int|
                    0 <= i < r@.len() && 0 <= j < r@.len() && i != j ==> (#[trigger] r@[i]).keychain_id
                        != (#[trigger] r@[j]).keychain_id,
                forall|q: int|
                    0 <= q < k && keychain_rows(self@, #[trigger] keychain_ids@[q]).len() > 0 ==> exists|i: int|
                        0 <= i < r@.len() && r@[i].keychain_id == keychain_ids@[q],
            decreases keychain_ids.len() - k,
        {
            let id = keychain_ids[k];
            proof {
                assert(keychain_ids@.contains(id)) by {
                    assert(keychain_ids@[k as int] == id);
                }
            }
            if !Self::listed_keychain(&r, id) {
                let utxos = self.rows_of_keychain(id);
                if utxos.len() > 0 {
                    let ghost before = r@;
                    r.push(KeychainUtxos { keychain_id: id, utxos });
                    proof {
                        assert forall|q: int|
                            0 <= q < k + 1 && keychain_rows(self@, #[trigger] keychain_ids@[q]).len() > 0 implies exists|i: int|
                            0 <= i < r@.len() && r@[i].keychain_id == keychain_ids@[q] by {
                            if q < k {
                                let i = choose|i: int| 0 <= i < before.len() && before[i].keychain_id == keychain_ids@[q];
                                assert(r@[i] == before[i]);
                            } else {
                                assert(r@[before.len() as int].keychain_id == keychain_ids@[q]);
                            }
                        }
                    }
                }
            }
            k += 1;
        }
        r
    }

    /// The outputs of the wallet reserved for the batch, each with the ledger transaction that
    /// posted its detection, and their total value; `None` where the total does not fit in
    /// 64 bits.
    pub fn accounting_info_for_batch(&self, batch_id: BatchId, wallet_id: WalletId) -> (r: Option<
        (Vec<(LedgerTransactionId, OutPoint)>, Satoshis),
    >)
        ensures
            r.is_some() == (crate::batch::builder::value_sum(batch_rows(self@, batch_id, wallet_id)) <= u64::MAX),
            r matches Some(x) ==> {
                let rows = batch_rows(self@, batch_id, wallet_id);
                &&& x.0@.len() == rows.len()
                &&& forall|k: int|
                    0 <= k < rows.len() ==> #[trigger] x.0@[k] == (rows[k].utxo_detected_ledger_tx_id, rows[k].outpoint)
                &&& x.1.0 == crate::batch::builder::value_sum(rows)
            },
    {
        let mut out: Vec<(LedgerTransactionId, OutPoint)> = Vec::new();
        let mut total: u64 = 0;
        let mut i: usize = 0;
        while i < self.rows.len()
            invariant
                i <= self.rows.len(),
                out@.len() == batch_rows(self@.take(i as int), batch_id, wallet_id).len(),
                forall|k: int|
                    0 <= k < out@.len() ==> #[trigger] out@[k] == (
                        batch_rows(self@.take(i as int), batch_id, wallet_id)[k].utxo_detected_ledger_tx_id,
                        batch_rows(self@.take(i as int), batch_id, wallet_id)[k].outpoint,
                    ),
                total == crate::batch::builder::value_sum(batch_rows(self@.take(i as int), batch_id, wallet_id)),
            decreases self.rows.len() - i,
        {
            proof {
                assert(self@.take(i as int + 1).drop_last() =~= self@.take(i as int));
            }
            let u = &self.rows[i];
            if u.spending_batch_id == Some(batch_id) && u.wallet_id == wallet_id {
                let ghost prev = batch_rows(self@.take(i as int), batch_id, wallet_id);
                let ghost next = prev.push(self@[i as int]);
                proof {
                    assert(next.drop_last() =~= prev);
                }
                total = match total.checked_add(u.value.0) {
                    Some(t) => t,
                    None => {
                        proof {
                            assert(self@.take(i as int + 1).last() == self@[i as int]);
                            assert(batch_rows(self@.take(i as int + 1), batch_id, wallet_id) == next);
                            lemma_batch_rows_prefix(self@, batch_id, wallet_id, i as int + 1);
                        }
                        return None;
                    },
                };
                out.push((u.utxo_detected_ledger_tx_id, u.outpoint));
            }
            i += 1;
        }
        proof {
            assert(self@.take(i as int) =~= self@);
        }
        Some((out, Satoshis(total)))
    }

    /// Removes an output that was detected but never settled nor reserved, as when the
    /// transaction that made it is dropped, and returns the id of the ledger transaction that
    /// posted its detection, for reversal.
    pub fn delete_utxo(&mut self, outpoint: OutPoint, keychain_id: KeychainId) -> (r: Result<LedgerTransactionId, UtxoError>)
        requires
            old(self).wf(),
        ensures
            final(self).wf(),
            !has_key(old(self)@, keychain_id, outpoint) ==> r == Err::<LedgerTransactionId, UtxoError>(
                UtxoError::UtxoDoesNotExist,
            ),
            has_key(old(self)@, keychain_id, outpoint) ==> ({
                let i = key_index(old(self)@, keychain_id, outpoint);
                let u = old(self)@[i];
                &&& u.utxo_settled_ledger_tx_id.is_some() ==> r == Err::<LedgerTransactionId, UtxoError>(
                    UtxoError::UtxoAlreadySettled,
                )
                &&& u.utxo_settled_ledger_tx_id.is_none() && u.spending_batch_id.is_some() ==> r == Err::<
                    LedgerTransactionId,
                    UtxoError,
                >(UtxoError::UtxoAlreadyReserved)
                &&& u.utxo_settled_ledger_tx_id.is_none() && u.spending_batch_id.is_none() ==> r
                    == Ok::<LedgerTransactionId, UtxoError>(u.utxo_detected_ledger_tx_id) && final(self)@
                    == old(self)@.remove(i)
            }),
            r.is_err() ==> final(self)@ == old(self)@,
    {
        let i = match self.find_index(keychain_id, outpoint) {
            Some(i) => i,
            None => return Err(UtxoError::UtxoDoesNotExist),
        };
        proof {
            assert(key_index(self@, keychain_id, outpoint) == i as int);
        }
        if self.rows[i].utxo_settled_ledger_tx_id.is_some() {
            return Err(UtxoError::UtxoAlreadySettled);
        }
        if self.rows[i].spending_batch_id.is_some() {
            return Err(UtxoError::UtxoAlreadyReserved);
        }
        let ghost before = self@;
        let row = self.rows.remove(i);
        proof {
            let rows = self@;
            assert(rows =~= before.remove(i as int));
            assert forall|a: int, b: int|
                0 <= a < rows.len() && 0 <= b < rows.len() && a != b implies (#[trigger] rows[a]).key()
                != (#[trigger] rows[b]).key() by {
                let oa = if a < i { a } else { a + 1 };
                let ob = if b < i { b } else { b + 1 };
                assert(rows[a] == before[oa]);
                assert(rows[b] == before[ob]);
            }
            assert forall|a: int| 0 <= a < rows.len() implies (#[trigger] rows[a]).wf() by {
                let oa = if a < i { a } else { a + 1 };
                assert(rows[a] == before[oa]);
            }
        }
        Ok(row.utxo_detected_ledger_tx_id)
    }

    /// The rows of the given outputs, in table order.
    pub fn list_utxos_by_outpoint(&self, keys: &Vec<(KeychainId, OutPoint)>) -> (r: Vec<WalletUtxo>)
        ensures
            r@ == rows_with_keys(self@, keys@),
    {
        let mut r: Vec<WalletUtxo> = Vec::new();
        let mut i: usize = 0;
        while i < self.rows.len()
            invariant
                i <= self.rows.len(),
                r@ == rows_with_keys(self@.take(i as int), keys@),
            decreases self.rows.len() - i,
        {
            proof {
                assert(self@.take(i as int + 1).drop_last() =~= self@.take(i as int));
                assert(self@.take(i as int + 1).last() == self@[i as int]);
            }
            if contains_key(keys, (self.rows[i].keychain_id, self.rows[i].outpoint)) {
                r.push(self.rows[i].duplicate());
            }
            i += 1;
        }
        proof {
            assert(self@.take(i as int) =~= self@);
        }
        r
    }
}

pub proof fn lemma_batch_rows_prefix(rows: Seq<WalletUtxo>, batch_id: BatchId, wallet_id: WalletId, i: int)
    requires
        0 <= i <= rows.len(),
    ensures
        crate::batch::builder::value_sum(batch_rows(rows.take(i), batch_id, wallet_id))
            <= crate::batch::builder::value_sum(batch_rows(rows, batch_id, wallet_id)),
    decreases rows.len(),
{
    if i < rows.len() {
        assert(rows.drop_last().take(i) =~= rows.take(i));
        lemma_batch_rows_prefix(rows.drop_last(), batch_id, wallet_id, i);
        let rest = batch_rows(rows.drop_last(), batch_id, wallet_id);
        assert(rest.push(rows.last()).drop_last() =~= rest);
    } else {
        assert(rows.take(i) =~= rows);
    }
}

} // verus!
