use vstd::prelude::*;

use super::{declared, added, btc, minus, param, plus, push_pair, subtracted, EntryHalf};
use crate::ledger::constants::{
    EFFECTIVE_OUTGOING_ID, ONCHAIN_FEE_ID, ONCHAIN_UTXO_AT_REST_ID, ONCHAIN_UTXO_INCOMING_ID,
    ONCHAIN_UTXO_OUTGOING_ID, SPEND_SETTLED_ID,
};
use crate::ledger::{
    has_template, lemma_template_for_unique, shapes, template_for, template_ok, AccountRef, Currency, Direction, EntrySpec, Layer, Ledger,
    LedgerError, ParamDataType, ParamDefinition, Term, TxParams, TxTemplate, WalletLedgerAccountIds,
};
use crate::primitives::{
    BlockTime, JournalId, LedgerAccountId, LedgerTransactionId, OutPoint, Satoshis, WalletId,
    MAX_BLOCK_TIMESTAMP, UNIX_EPOCH_DAY,
};

verus! {

// Positions of the account parameters.
pub const EFFECTIVE_OUTGOING: usize = 0;
pub const ONCHAIN_FEE: usize = 1;
pub const ONCHAIN_OUTGOING: usize = 2;
pub const ONCHAIN_AT_REST: usize = 3;
pub const ONCHAIN_INCOME: usize = 4;

// Positions of the amount parameters.
pub const FEES: usize = 0;
pub const TOTAL_UTXO_IN: usize = 1;
pub const CHANGE: usize = 2;
pub const SPENT_CHANGE: usize = 3;

/// A change output of a spend.
pub struct ChangeOutput {
    pub outpoint: OutPoint,
    pub satoshis: Satoshis,
    pub address: String,
}

/// What one wallet put into and got back from a transaction.
pub struct WalletTransactionSummary {
    pub wallet_id: WalletId,
    pub total_utxo_in_sats: Satoshis,
    pub change_utxos: Vec<ChangeOutput>,
    pub fee_sats: Satoshis,
}

pub struct SpendSettledMeta {
    pub tx_summary: WalletTransactionSummary,
    pub confirmation_time: BlockTime,
}

pub struct SpendSettledParams {
    pub journal_id: JournalId,
    pub ledger_account_ids: WalletLedgerAccountIds,
    pub spend_detected_tx_id: LedgerTransactionId,
    pub change_spent: bool,
    pub meta: SpendSettledMeta,
}

/// The total value of the change outputs.
pub open spec fn change_sum(change: Seq<ChangeOutput>) -> int
    decreases change.len(),
{
    if change.len() == 0 {
        0
    } else {
        change_sum(change.drop_last()) + change.last().satoshis.0
    }
}

pub proof fn lemma_change_sum_grows(change: Seq<ChangeOutput>, i: int)
    requires
        0 <= i <= change.len(),
    ensures
        change_sum(change.take(i)) <= change_sum(change),
    decreases change.len(),
{
    if i < change.len() {
        assert(change.drop_last().take(i) =~= change.take(i));
        lemma_change_sum_grows(change.drop_last(), i);
    } else {
        assert(change.take(i) =~= change);
    }
}

/// The total value of the change outputs, or `None` where it does not fit in 64 bits.
pub fn total_change(change: &Vec<ChangeOutput>) -> (r: Option<Satoshis>)
    ensures
        r.is_some() == (change_sum(change@) <= u64::MAX),
        r matches Some(s) ==> s.0 == change_sum(change@),
{
    let mut total: u64 = 0;
    let mut i: usize = 0;
    while i < change.len()
        invariant
            i <= change@.len(),
            total == change_sum(change@.take(i as int)),
        decreases change.len() - i,
    {
        proof {
            assert(change@.take(i as int + 1).drop_last() =~= change@.take(i as int));
        }
        match total.checked_add(change[i].satoshis.0) {
            Some(t) => {
                total = t;
            },
            None => {
                proof {
                    lemma_change_sum_grows(change@, i as int + 1);
                }
                return None;
            },
        }
        i += 1;
    }
    proof {
        assert(change@.take(i as int) =~= change@);
    }
    Some(Satoshis(total))
}

impl SpendSettledParams {
    /// The declared parameters of the template.
    pub fn defs() -> (r: Vec<ParamDefinition>)
        ensures
            declared(r@) == seq![
                ("journal_id"@, ParamDataType::Uuid),
                ("effective_outgoing_account_id"@, ParamDataType::Uuid),
                ("onchain_fee_account_id"@, ParamDataType::Uuid),
                ("onchain_outgoing_account_id"@, ParamDataType::Uuid),
                ("onchain_at_rest_account_id"@, ParamDataType::Uuid),
                ("onchain_income_account_id"@, ParamDataType::Uuid),
                ("fees"@, ParamDataType::Decimal),
                ("total_utxo_in"@, ParamDataType::Decimal),
                ("change"@, ParamDataType::Decimal),
                ("spent_change"@, ParamDataType::Decimal),
                ("correlation_id"@, ParamDataType::Uuid),
                ("meta"@, ParamDataType::Json),
                ("effective"@, ParamDataType::Date),
            ],
    {
        let mut r: Vec<ParamDefinition> = Vec::new();
        r.push(param("journal_id", ParamDataType::Uuid));
        r.push(param("effective_outgoing_account_id", ParamDataType::Uuid));
        r.push(param("onchain_fee_account_id", ParamDataType::Uuid));
        r.push(param("onchain_outgoing_account_id", ParamDataType::Uuid));
        r.push(param("onchain_at_rest_account_id", ParamDataType::Uuid));
        r.push(param("onchain_income_account_id", ParamDataType::Uuid));
        r.push(param("fees", ParamDataType::Decimal));
        r.push(param("total_utxo_in", ParamDataType::Decimal));
        r.push(param("change", ParamDataType::Decimal));
        r.push(param("spent_change", ParamDataType::Decimal));
        r.push(param("correlation_id", ParamDataType::Uuid));
        r.push(param("meta", ParamDataType::Json));
        r.push(param("effective", ParamDataType::Date));
        proof {
            assert(declared(r@) =~= seq![
                ("journal_id"@, ParamDataType::Uuid),
                ("effective_outgoing_account_id"@, ParamDataType::Uuid),
                ("onchain_fee_account_id"@, ParamDataType::Uuid),
                ("onchain_outgoing_account_id"@, ParamDataType::Uuid),
                ("onchain_at_rest_account_id"@, ParamDataType::Uuid),
                ("onchain_income_account_id"@, ParamDataType::Uuid),
                ("fees"@, ParamDataType::Decimal),
                ("total_utxo_in"@, ParamDataType::Decimal),
                ("change"@, ParamDataType::Decimal),
                ("spent_change"@, ParamDataType::Decimal),
                ("correlation_id"@, ParamDataType::Uuid),
                ("meta"@, ParamDataType::Json),
                ("effective"@, ParamDataType::Date),
            ]);
        }
        r
    }

    /// The values the template is posted with: the wallet's accounts; the fee, the total
    /// of the inputs, the change, and the change again where it was itself already spent
    /// (else zero); the spend it settles as correlation; the day of the confirming block.
    /// `None` where the change does not fit in 64 bits.
    pub fn to_tx_params(&self, meta_json: String) -> (r: Option<TxParams>)
        requires
            self.meta.confirmation_time.timestamp <= MAX_BLOCK_TIMESTAMP,
        ensures
            r matches Some(p) ==> p.meta == meta_json,
            r.is_some() == (change_sum(self.meta.tx_summary.change_utxos@) <= u64::MAX),
            r matches Some(p) ==> {
                let ids = self.ledger_account_ids;
                let change = change_sum(self.meta.tx_summary.change_utxos@) as u64;
                &&& p.journal_id == self.journal_id
                &&& p.accounts@ == seq![
                    ids.effective_outgoing_id,
                    ids.fee_id,
                    ids.onchain_outgoing_id,
                    ids.onchain_at_rest_id,
                    ids.onchain_incoming_id,
                ]
                &&& p.amounts@ == seq![
                    self.meta.tx_summary.fee_sats.0,
                    self.meta.tx_summary.total_utxo_in_sats.0,
                    change,
                    if self.change_spent { change } else { 0 },
                ]
                &&& p.correlation_id == Some(self.spend_detected_tx_id)
                &&& p.external_id.is_none()
                &&& p.effective.days_from_ce == self.meta.confirmation_time.timestamp / 86400 + UNIX_EPOCH_DAY
            },
    {
        let change = match total_change(&self.meta.tx_summary.change_utxos) {
            Some(c) => c.0,
            None => return None,
        };
        let ids = self.ledger_account_ids;
        let mut accounts: Vec<LedgerAccountId> = Vec::new();
        accounts.push(ids.effective_outgoing_id);
        accounts.push(ids.fee_id);
        accounts.push(ids.onchain_outgoing_id);
        accounts.push(ids.onchain_at_rest_id);
        accounts.push(ids.onchain_incoming_id);
        let mut amounts: Vec<u64> = Vec::new();
        amounts.push(self.meta.tx_summary.fee_sats.0);
        amounts.push(self.meta.tx_summary.total_utxo_in_sats.0);
        amounts.push(change);
        amounts.push(if self.change_spent { change } else { 0 });
        proof {
            assert(accounts@ =~= seq![
                ids.effective_outgoing_id,
                ids.fee_id,
                ids.onchain_outgoing_id,
                ids.onchain_at_rest_id,
                ids.onchain_incoming_id,
            ]);
            assert(amounts@ =~= seq![
                self.meta.tx_summary.fee_sats.0,
                self.meta.tx_summary.total_utxo_in_sats.0,
                change,
                if self.change_spent { change } else { 0 },
            ]);
        }
        Some(
            TxParams {
                journal_id: self.journal_id,
                accounts,
                amounts,
                correlation_id: Some(self.spend_detected_tx_id),
                external_id: None,
                effective: self.meta.confirmation_time.effective_date(),
                meta: meta_json,
            },
        )
    }
}

fn half(entry_type: &str, account: AccountRef, direction: Direction) -> (r: EntryHalf)
    ensures
        r.entry_type == entry_type,
        r.account == account,
        r.direction == direction,
{
    EntryHalf { entry_type, account, direction }
}

fn wallet(i: usize) -> (r: AccountRef)
    ensures
        r == AccountRef::Param(i),
{
    AccountRef::Param(i)
}

fn omnibus(id: u128) -> (r: AccountRef)
    ensures
        r == AccountRef::Fixed(LedgerAccountId(id)),
{
    AccountRef::Fixed(LedgerAccountId(id))
}

/// `total_utxo_in - change - fees`: what left the wallet to others.
pub open spec fn spec_spent_to_others() -> Seq<Term> {
    seq![added(TOTAL_UTXO_IN), subtracted(CHANGE), subtracted(FEES)]
}

/// `total_utxo_in - fees`: what left the wallet's outputs.
pub open spec fn spec_spent_outputs() -> Seq<Term> {
    seq![added(TOTAL_UTXO_IN), subtracted(FEES)]
}

fn spent_to_others() -> (r: Vec<Term>)
    ensures
        r@ == spec_spent_to_others(),
{
    let mut r: Vec<Term> = Vec::new();
    r.push(plus(TOTAL_UTXO_IN));
    r.push(minus(CHANGE));
    r.push(minus(FEES));
    proof {
        assert(r@ =~= spec_spent_to_others());
    }
    r
}

fn spent_outputs() -> (r: Vec<Term>)
    ensures
        r@ == spec_spent_outputs(),
{
    let mut r: Vec<Term> = Vec::new();
    r.push(plus(TOTAL_UTXO_IN));
    r.push(minus(FEES));
    proof {
        assert(r@ =~= spec_spent_outputs());
    }
    r
}

/// The entries of the template, in order, as pairs of a debit and a credit: the effective
/// outgoing, fee and outgoing legs move from pending to settled, the change moves from pending
/// income to settled at rest, and change already spent is withdrawn from at rest.
pub open spec fn spend_settled_entries() -> Seq<(Currency, AccountRef, Direction, Layer, Seq<Term>)> {
    let dr = Direction::Debit;
    let cr = Direction::Credit;
    let pen = Layer::Pending;
    let set = Layer::Settled;
    let w = |i: usize| AccountRef::Param(i);
    let o = |id: u128| AccountRef::Fixed(LedgerAccountId(id));
    seq![
        btc(w(EFFECTIVE_OUTGOING), dr, pen, spec_spent_to_others()),
        btc(o(EFFECTIVE_OUTGOING_ID), cr, pen, spec_spent_to_others()),
        btc(o(EFFECTIVE_OUTGOING_ID), dr, set, spec_spent_to_others()),
        btc(w(EFFECTIVE_OUTGOING), cr, set, spec_spent_to_others()),
        btc(o(ONCHAIN_FEE_ID), dr, pen, seq![added(FEES)]),
        btc(w(ONCHAIN_FEE), cr, pen, seq![added(FEES)]),
        btc(w(ONCHAIN_FEE), dr, set, seq![added(FEES)]),
        btc(o(ONCHAIN_FEE_ID), cr, set, seq![added(FEES)]),
        btc(w(ONCHAIN_OUTGOING), dr, pen, spec_spent_outputs()),
        btc(o(ONCHAIN_UTXO_OUTGOING_ID), cr, pen, spec_spent_outputs()),
        btc(o(ONCHAIN_UTXO_OUTGOING_ID), dr, set, spec_spent_outputs()),
        btc(w(ONCHAIN_OUTGOING), cr, set, spec_spent_outputs()),
        btc(w(ONCHAIN_INCOME), dr, pen, seq![added(CHANGE)]),
        btc(o(ONCHAIN_UTXO_INCOMING_ID), cr, pen, seq![added(CHANGE)]),
        btc(o(ONCHAIN_UTXO_AT_REST_ID), dr, set, seq![added(CHANGE)]),
        btc(w(ONCHAIN_AT_REST), cr, set, seq![added(CHANGE)]),
        btc(w(ONCHAIN_AT_REST), dr, set, seq![added(SPENT_CHANGE)]),
        btc(o(ONCHAIN_UTXO_AT_REST_ID), cr, set, seq![added(SPENT_CHANGE)]),
    ]
}

fn one(param: usize) -> (r: Vec<Term>)
    ensures
        r@ == seq![Term { param, negate: false }],
{
    let mut r: Vec<Term> = Vec::new();
    r.push(plus(param));
    proof {
        assert(r@ =~= seq![Term { param, negate: false }]);
    }
    r
}

/// The confirmation of a spend: what was pending on the effective, fee and outgoing accounts
/// is reversed and posted again as settled, the change moves from pending income to settled
/// at rest, and change that was itself spent already is withdrawn from at rest.
pub struct SpendSettled {}

impl SpendSettled {
    pub fn template() -> (r: TxTemplate)
        ensures
            template_ok(r),
            r.id == SPEND_SETTLED_ID,
            shapes(r.entries@) == spend_settled_entries(),
    {
        let debit = Direction::Debit;
        let credit = Direction::Credit;
        let pending = Layer::Pending;
        let settled = Layer::Settled;
        let mut entries: Vec<EntrySpec> = Vec::new();
        // Effective
        push_pair(
            &mut entries,
            half("SPEND_SETTLED_LOG_OUT_PEN_DR", wallet(EFFECTIVE_OUTGOING), debit),
            half("SPEND_SETTLED_LOG_OUT_PEN_CR", omnibus(EFFECTIVE_OUTGOING_ID), credit),
            pending,
            spent_to_others(),
        );
        push_pair(
            &mut entries,
            half("SPEND_SETTLED_LOG_OUT_SET_DR", omnibus(EFFECTIVE_OUTGOING_ID), debit),
            half("SPEND_SETTLED_LOG_OUT_SET_CR", wallet(EFFECTIVE_OUTGOING), credit),
            settled,
            spent_to_others(),
        );
        // Fees
        push_pair(
            &mut entries,
            half("SPEND_SETTLED_FEE_PEN_DR", omnibus(ONCHAIN_FEE_ID), debit),
            half("SPEND_SETTLED_FEE_PEN_CR", wallet(ONCHAIN_FEE), credit),
            pending,
            one(FEES),
        );
        push_pair(
            &mut entries,
            half("SPEND_SETTLED_FEE_SET_DR", wallet(ONCHAIN_FEE), debit),
            half("SPEND_SETTLED_FEE_SET_CR", omnibus(ONCHAIN_FEE_ID), credit),
            settled,
            one(FEES),
        );
        // Utxo
        push_pair(
            &mut entries,
            half("SPEND_SETTLED_UTX_OUT_PEN_DR", wallet(ONCHAIN_OUTGOING), debit),
            half("SPEND_SETTLED_UTX_OUT_PEN_CR", omnibus(ONCHAIN_UTXO_OUTGOING_ID), credit),
            pending,
            spent_outputs(),
        );
        push_pair(
            &mut entries,
            half("SPEND_SETTLED_UTX_OUT_SET_DR", omnibus(ONCHAIN_UTXO_OUTGOING_ID), debit),
            half("SPEND_SETTLED_UTX_OUT_SET_CR", wallet(ONCHAIN_OUTGOING), credit),
            settled,
            spent_outputs(),
        );
        push_pair(
            &mut entries,
            half("SPEND_SETTLED_CHG_PEN_DR", wallet(ONCHAIN_INCOME), debit),
            half("SPEND_SETTLED_CHG_PEN_CR", omnibus(ONCHAIN_UTXO_INCOMING_ID), credit),
            pending,
            one(CHANGE),
        );
        push_pair(
            &mut entries,
            half("SPEND_SETTLED_CHG_SET_DR", omnibus(ONCHAIN_UTXO_AT_REST_ID), debit),
            half("SPEND_SETTLED_CHG_SET_CR", wallet(ONCHAIN_AT_REST), credit),
            settled,
            one(CHANGE),
        );
        push_pair(
            &mut entries,
            half("SPEND_SETTLED_CHG_SPENT_SET_DR", wallet(ONCHAIN_AT_REST), debit),
            half("SPEND_SETTLED_CHG_SPENT_SET_CR", omnibus(ONCHAIN_UTXO_AT_REST_ID), credit),
            settled,
            one(SPENT_CHANGE),
        );
        proof {
            assert(shapes(entries@) =~= spend_settled_entries());
        }
        TxTemplate {
            id: SPEND_SETTLED_ID,
            code: "SPEND_SETTLED".to_owned(),
            description: "Spend tx confirmed".to_owned(),
            params: SpendSettledParams::defs(),
            entries,
        }
    }

    /// Registers the template unless it is there already.
    pub fn init(ledger: &mut Ledger) -> (r: Result<(), LedgerError>)
        requires
            old(ledger).wf(),
        ensures
            final(ledger).wf(),
            r.is_ok(),
            has_template(final(ledger).templates(), SPEND_SETTLED_ID),
            final(ledger).transactions() == old(ledger).transactions(),
            final(ledger).templates() == old(ledger).templates() || (final(ledger).templates().len()
                == old(ledger).templates().len() + 1 && final(ledger).templates().drop_last()
                == old(ledger).templates() && final(ledger).templates().last().id == SPEND_SETTLED_ID),
            has_template(old(ledger).templates(), SPEND_SETTLED_ID) ==> final(ledger).templates() == old(ledger).templates(),
            !has_template(old(ledger).templates(), SPEND_SETTLED_ID) ==> shapes(
                template_for(final(ledger).templates(), SPEND_SETTLED_ID).entries@,
            ) == spend_settled_entries(),
    {
        let t = SpendSettled::template();
        let r = ledger.create_template_if_absent(t);
        proof {
            if !has_template(old(ledger).templates(), SPEND_SETTLED_ID) {
                lemma_template_for_unique(ledger.templates(), ledger.templates().len() - 1);
            }
        }
        r
    }
}

} // verus!
