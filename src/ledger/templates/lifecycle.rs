use vstd::prelude::*;

use super::confirmed_utxo::confirmed_utxo_entries;
use super::create_batch::create_batch_entries;
use super::queued_payout::queued_payout_entries;
use super::spend_settled::spend_settled_entries;
use super::utxo_detected::utxo_detected_entries;
use crate::ledger::constants::{
    EFFECTIVE_OUTGOING_ID, ONCHAIN_FEE_ID, ONCHAIN_UTXO_AT_REST_ID, ONCHAIN_UTXO_INCOMING_ID, ONCHAIN_UTXO_OUTGOING_ID,
};
use crate::ledger::{posted_with, shapes, Direction, Layer, LedgerEntry, TxTemplate, WalletLedgerAccountIds};
use crate::primitives::LedgerAccountId;

verus! {

/// The units posted to `account` on `layer` in `direction`.
pub open spec fn account_sum(entries: Seq<LedgerEntry>, account: LedgerAccountId, layer: Layer, direction: Direction) -> int
    decreases entries.len(),
{
    if entries.len() == 0 {
        0
    } else {
        let e = entries.last();
        account_sum(entries.drop_last(), account, layer, direction) + if e.account_id == account && e.layer == layer
            && e.direction == direction {
            e.units as int
        } else {
            0
        }
    }
}

/// Credits minus debits on `account` and `layer`.
pub open spec fn net_credit(entries: Seq<LedgerEntry>, account: LedgerAccountId, layer: Layer) -> int {
    account_sum(entries, account, layer, Direction::Credit) - account_sum(entries, account, layer, Direction::Debit)
}

pub proof fn lemma_account_sum_concat(a: Seq<LedgerEntry>, b: Seq<LedgerEntry>, account: LedgerAccountId, layer: Layer, direction: Direction)
    ensures
        account_sum(a + b, account, layer, direction) == account_sum(a, account, layer, direction) + account_sum(
            b,
            account,
            layer,
            direction,
        ),
    decreases b.len(),
{
    if b.len() > 0 {
        assert((a + b).drop_last() =~= a + b.drop_last());
        lemma_account_sum_concat(a, b.drop_last(), account, layer, direction);
    } else {
        assert(a + b =~= a);
    }
}

/// The wallet's accounts differ from each other and from the omnibus accounts.
pub open spec fn accounts_distinct(ids: WalletLedgerAccountIds) -> bool {
    let all = seq![
        ids.onchain_incoming_id,
        ids.onchain_at_rest_id,
        ids.onchain_outgoing_id,
        ids.effective_outgoing_id,
        ids.fee_id,
        LedgerAccountId(ONCHAIN_UTXO_INCOMING_ID),
        LedgerAccountId(ONCHAIN_UTXO_AT_REST_ID),
        LedgerAccountId(ONCHAIN_UTXO_OUTGOING_ID),
        LedgerAccountId(EFFECTIVE_OUTGOING_ID),
        LedgerAccountId(ONCHAIN_FEE_ID),
    ];
    forall|i: int, j: int| 0 <= i < 10 && 0 <= j < 10 && i != j ==> all[i] != all[j]
}

/// The postings of a payout's life, in order: queued, its batch created, the spend settled.
pub open spec fn payout_postings(
    queued: TxTemplate,
    created: TxTemplate,
    settled: TxTemplate,
    ids: WalletLedgerAccountIds,
    spent: u64,
    fee: u64,
    total_in: u64,
    change: u64,
) -> Seq<LedgerEntry> {
    posted_with(queued, seq![ids.effective_outgoing_id], seq![spent]) + posted_with(
        created,
        seq![ids.effective_outgoing_id, ids.fee_id],
        seq![spent, fee],
    ) + posted_with(
        settled,
        seq![ids.effective_outgoing_id, ids.fee_id, ids.onchain_outgoing_id, ids.onchain_at_rest_id, ids.onchain_incoming_id],
        seq![fee, total_in, change, 0],
    )
}

/// Over a payout's life the wallet's effective outgoing account nets out on the encumbered
/// and pending layers and is credited the payout as settled; its fee account nets out as
/// pending and is debited the fee as settled. Here the spend pays `spent` to others and `fee`
/// to miners from inputs worth `total_in`, with `change` back, none of it spent again.
#[verifier::spinoff_prover]
#[verifier::rlimit(100)]
pub proof fn lemma_payout_nets_out(
    queued: TxTemplate,
    created: TxTemplate,
    settled: TxTemplate,
    ids: WalletLedgerAccountIds,
    spent: u64,
    fee: u64,
    total_in: u64,
    change: u64,
)
    requires
        shapes(queued.entries@) == queued_payout_entries(),
        shapes(created.entries@) == create_batch_entries(),
        shapes(settled.entries@) == spend_settled_entries(),
        accounts_distinct(ids),
        total_in == spent + change + fee,
    ensures
        ({
            let all = payout_postings(queued, created, settled, ids, spent, fee, total_in, change);
            &&& net_credit(all, ids.effective_outgoing_id, Layer::Encumbered) == 0
            &&& net_credit(all, ids.effective_outgoing_id, Layer::Pending) == 0
            &&& net_credit(all, ids.effective_outgoing_id, Layer::Settled) == spent
            &&& net_credit(all, ids.fee_id, Layer::Pending) == 0
            &&& net_credit(all, ids.fee_id, Layer::Settled) == -(fee as int)
        }),
{
    let eff = ids.effective_outgoing_id;
    let fa = ids.fee_id;
    let pq = posted_with(queued, seq![eff], seq![spent]);
    let pc = posted_with(created, seq![eff, fa], seq![spent, fee]);
    let ps = posted_with(
        settled,
        seq![eff, fa, ids.onchain_outgoing_id, ids.onchain_at_rest_id, ids.onchain_incoming_id],
        seq![fee, total_in, change, 0],
    );
    let all = seq![
        ids.onchain_incoming_id,
        ids.onchain_at_rest_id,
        ids.onchain_outgoing_id,
        ids.effective_outgoing_id,
        ids.fee_id,
        LedgerAccountId(ONCHAIN_UTXO_INCOMING_ID),
        LedgerAccountId(ONCHAIN_UTXO_AT_REST_ID),
        LedgerAccountId(ONCHAIN_UTXO_OUTGOING_ID),
        LedgerAccountId(EFFECTIVE_OUTGOING_ID),
        LedgerAccountId(ONCHAIN_FEE_ID),
    ];
    assert(all[3] != all[4] && all[3] != all[2] && all[3] != all[1] && all[3] != all[0]);
    assert(all[3] != all[5] && all[3] != all[6] && all[3] != all[7] && all[3] != all[8] && all[3] != all[9]);
    assert(all[4] != all[2] && all[4] != all[1] && all[4] != all[0]);
    assert(all[4] != all[5] && all[4] != all[6] && all[4] != all[7] && all[4] != all[8] && all[4] != all[9]);
    assert(shapes(queued.entries@).len() == 2);
    assert(shapes(created.entries@).len() == 6);
    assert(shapes(settled.entries@).len() == 18);
    reveal_with_fuel(account_sum, 19);
    reveal_with_fuel(crate::ledger::units_value, 4);
    assert forall|l: Layer, d: Direction| account_sum(pq + pc + ps, eff, l, d) == account_sum(pq, eff, l, d) + account_sum(pc, eff, l, d) + account_sum(ps, eff, l, d) by {
        lemma_account_sum_concat(pq, pc, eff, l, d);
        lemma_account_sum_concat(pq + pc, ps, eff, l, d);
    }
    assert forall|l: Layer, d: Direction| account_sum(pq + pc + ps, fa, l, d) == account_sum(pq, fa, l, d) + account_sum(pc, fa, l, d) + account_sum(ps, fa, l, d) by {
        lemma_account_sum_concat(pq, pc, fa, l, d);
        lemma_account_sum_concat(pq + pc, ps, fa, l, d);
    }
}

/// The settlement of a spend posts, on the wallet's accounts: on effective outgoing, a pending
/// debit and a settled credit of what went to others (`total_in - change - fees`); on fee, a
/// pending credit and a settled debit of the fees; on outgoing, a pending debit and a settled
/// credit of `total_in - fees`; on income, a pending debit of the change; on at rest, a settled
/// credit of the change and a settled debit of `spent_change`.
#[verifier::spinoff_prover]
#[verifier::rlimit(100)]
pub proof fn lemma_spend_settled_legs(
    settled: TxTemplate,
    ids: WalletLedgerAccountIds,
    fees: u64,
    total_in: u64,
    change: u64,
    spent_change: u64,
)
    requires
        shapes(settled.entries@) == spend_settled_entries(),
        accounts_distinct(ids),
    ensures
        ({
            let e = posted_with(
                settled,
                seq![ids.effective_outgoing_id, ids.fee_id, ids.onchain_outgoing_id, ids.onchain_at_rest_id, ids.onchain_incoming_id],
                seq![fees, total_in, change, spent_change],
            );
            let others = total_in - change - fees;
            &&& account_sum(e, ids.effective_outgoing_id, Layer::Pending, Direction::Debit) == others
            &&& account_sum(e, ids.effective_outgoing_id, Layer::Pending, Direction::Credit) == 0
            &&& account_sum(e, ids.effective_outgoing_id, Layer::Settled, Direction::Credit) == others
            &&& account_sum(e, ids.effective_outgoing_id, Layer::Settled, Direction::Debit) == 0
            &&& account_sum(e, ids.fee_id, Layer::Pending, Direction::Credit) == fees
            &&& account_sum(e, ids.fee_id, Layer::Pending, Direction::Debit) == 0
            &&& account_sum(e, ids.fee_id, Layer::Settled, Direction::Debit) == fees
            &&& account_sum(e, ids.fee_id, Layer::Settled, Direction::Credit) == 0
            &&& account_sum(e, ids.onchain_outgoing_id, Layer::Pending, Direction::Debit) == total_in - fees
            &&& account_sum(e, ids.onchain_outgoing_id, Layer::Settled, Direction::Credit) == total_in - fees
            &&& account_sum(e, ids.onchain_incoming_id, Layer::Pending, Direction::Debit) == change
            &&& account_sum(e, ids.onchain_at_rest_id, Layer::Settled, Direction::Credit) == change
            &&& account_sum(e, ids.onchain_at_rest_id, Layer::Settled, Direction::Debit) == spent_change
            &&& forall|a: LedgerAccountId, d: Direction|
                account_sum(e, a, Layer::Encumbered, d) == 0
        }),
{
    let all = seq![
        ids.onchain_incoming_id,
        ids.onchain_at_rest_id,
        ids.onchain_outgoing_id,
        ids.effective_outgoing_id,
        ids.fee_id,
        LedgerAccountId(ONCHAIN_UTXO_INCOMING_ID),
        LedgerAccountId(ONCHAIN_UTXO_AT_REST_ID),
        LedgerAccountId(ONCHAIN_UTXO_OUTGOING_ID),
        LedgerAccountId(EFFECTIVE_OUTGOING_ID),
        LedgerAccountId(ONCHAIN_FEE_ID),
    ];
    assert forall|i: int, j: int| 0 <= i < 10 && 0 <= j < 10 && i != j implies all[i] != all[j] by {}
    assert(all[0] != all[1] && all[0] != all[2] && all[0] != all[3] && all[0] != all[4]);
    assert(all[1] != all[2] && all[1] != all[3] && all[1] != all[4]);
    assert(all[2] != all[3] && all[2] != all[4] && all[3] != all[4]);
    assert(shapes(settled.entries@).len() == 18);
    reveal_with_fuel(account_sum, 19);
    reveal_with_fuel(crate::ledger::units_value, 4);
}

/// A detected output of `value` is credited as pending to the wallet's incoming account, and
/// its confirmation moves it: the pending credit is reversed and the at-rest account is
/// credited as settled. Together they leave the incoming account at zero on every layer.
#[verifier::spinoff_prover]
#[verifier::rlimit(100)]
pub proof fn lemma_income_legs(
    detected: TxTemplate,
    confirmed: TxTemplate,
    ids: WalletLedgerAccountIds,
    value: u64,
)
    requires
        shapes(detected.entries@) == utxo_detected_entries(),
        shapes(confirmed.entries@) == confirmed_utxo_entries(),
        accounts_distinct(ids),
    ensures
        ({
            let d = posted_with(detected, seq![ids.onchain_incoming_id], seq![value]);
            let c = posted_with(confirmed, seq![ids.onchain_incoming_id, ids.onchain_at_rest_id], seq![value]);
            &&& net_credit(d, ids.onchain_incoming_id, Layer::Pending) == value
            &&& net_credit(c, ids.onchain_incoming_id, Layer::Pending) == -(value as int)
            &&& net_credit(c, ids.onchain_at_rest_id, Layer::Settled) == value
            &&& net_credit(d + c, ids.onchain_incoming_id, Layer::Pending) == 0
            &&& net_credit(d + c, ids.onchain_incoming_id, Layer::Settled) == 0
        }),
{
    let d = posted_with(detected, seq![ids.onchain_incoming_id], seq![value]);
    let c = posted_with(confirmed, seq![ids.onchain_incoming_id, ids.onchain_at_rest_id], seq![value]);
    let all = seq![
        ids.onchain_incoming_id,
        ids.onchain_at_rest_id,
        ids.onchain_outgoing_id,
        ids.effective_outgoing_id,
        ids.fee_id,
        LedgerAccountId(ONCHAIN_UTXO_INCOMING_ID),
        LedgerAccountId(ONCHAIN_UTXO_AT_REST_ID),
        LedgerAccountId(ONCHAIN_UTXO_OUTGOING_ID),
        LedgerAccountId(EFFECTIVE_OUTGOING_ID),
        LedgerAccountId(ONCHAIN_FEE_ID),
    ];
    assert(all[0] != all[1] && all[0] != all[5] && all[0] != all[6] && all[1] != all[5] && all[1] != all[6]);
    assert(shapes(detected.entries@).len() == 2);
    assert(shapes(confirmed.entries@).len() == 4);
    reveal_with_fuel(account_sum, 5);
    reveal_with_fuel(crate::ledger::units_value, 2);
    lemma_account_sum_concat(d, c, ids.onchain_incoming_id, Layer::Pending, Direction::Credit);
    lemma_account_sum_concat(d, c, ids.onchain_incoming_id, Layer::Pending, Direction::Debit);
    lemma_account_sum_concat(d, c, ids.onchain_incoming_id, Layer::Settled, Direction::Credit);
    lemma_account_sum_concat(d, c, ids.onchain_incoming_id, Layer::Settled, Direction::Debit);
}

} // verus!
