use vstd::prelude::*;

use super::{added, btc, declared, param, plus, push_pair, EntryHalf};
use crate::ledger::constants::{CREATE_BATCH_ID, EFFECTIVE_OUTGOING_ID, ONCHAIN_FEE_ID};
use crate::ledger::{
    has_template, lemma_template_for_unique, shapes, template_for, template_ok, AccountRef, Currency, Direction,
    EntrySpec, Layer, Ledger, LedgerError, ParamDataType, ParamDefinition, Term, TxParams, TxTemplate,
    WalletLedgerAccountIds,
};
use crate::primitives::{JournalId, LedgerAccountId, LedgerDate, Satoshis};

verus! {

// Positions of the account parameters.
pub const EFFECTIVE_OUTGOING: usize = 0;
pub const ONCHAIN_FEE: usize = 1;

// Positions of the amount parameters.
pub const TOTAL_SPENT: usize = 0;
pub const FEES: usize = 1;

pub struct CreateBatchParams {
    pub journal_id: JournalId,
    pub ledger_account_ids: WalletLedgerAccountIds,
    pub total_spent: Satoshis,
    pub fee: Satoshis,
    pub effective: LedgerDate,
}

impl CreateBatchParams {
    /// The declared parameters of the template.
    pub fn defs() -> (r: Vec<ParamDefinition>)
        ensures
            declared(r@) == seq![
                ("journal_id"@, ParamDataType::Uuid),
                ("effective_outgoing_account_id"@, ParamDataType::Uuid),
                ("onchain_fee_account_id"@, ParamDataType::Uuid),
                ("total_spent"@, ParamDataType::Decimal),
                ("fees"@, ParamDataType::Decimal),
                ("meta"@, ParamDataType::Json),
                ("effective"@, ParamDataType::Date),
            ],
    {
        let mut r: Vec<ParamDefinition> = Vec::new();
        r.push(param("journal_id", ParamDataType::Uuid));
        r.push(param("effective_outgoing_account_id", ParamDataType::Uuid));
        r.push(param("onchain_fee_account_id", ParamDataType::Uuid));
        r.push(param("total_spent", ParamDataType::Decimal));
        r.push(param("fees", ParamDataType::Decimal));
        r.push(param("meta", ParamDataType::Json));
        r.push(param("effective", ParamDataType::Date));
        proof {
            assert(declared(r@) =~= seq![
                ("journal_id"@, ParamDataType::Uuid),
                ("effective_outgoing_account_id"@, ParamDataType::Uuid),
                ("onchain_fee_account_id"@, ParamDataType::Uuid),
                ("total_spent"@, ParamDataType::Decimal),
                ("fees"@, ParamDataType::Decimal),
                ("meta"@, ParamDataType::Json),
                ("effective"@, ParamDataType::Date),
            ]);
        }
        r
    }

    /// The values the template is posted with: the wallet's effective outgoing and fee
    /// accounts, what the wallet pays out in the batch, and its fee.
    pub fn to_tx_params(&self, meta_json: String) -> (r: TxParams)
        ensures
            r.meta == meta_json,
            r.journal_id == self.journal_id,
            r.accounts@ == seq![self.ledger_account_ids.effective_outgoing_id, self.ledger_account_ids.fee_id],
            r.amounts@ == seq![self.total_spent.0, self.fee.0],
            r.correlation_id.is_none(),
            r.external_id.is_none(),
            r.effective == self.effective,
    {
        let mut accounts: Vec<LedgerAccountId> = Vec::new();
        accounts.push(self.ledger_account_ids.effective_outgoing_id);
        accounts.push(self.ledger_account_ids.fee_id);
        let mut amounts: Vec<u64> = Vec::new();
        amounts.push(self.total_spent.0);
        amounts.push(self.fee.0);
        proof {
            assert(accounts@ =~= seq![self.ledger_account_ids.effective_outgoing_id, self.ledger_account_ids.fee_id]);
            assert(amounts@ =~= seq![self.total_spent.0, self.fee.0]);
        }
        TxParams {
            journal_id: self.journal_id,
            accounts,
            amounts,
            correlation_id: None,
            external_id: None,
            effective: self.effective,
            meta: meta_json,
        }
    }
}

/// The payouts of a wallet leave the encumbered layer for the pending one, and the wallet's
/// fee is charged as pending; the confirmation of the spend later settles both.
pub open spec fn create_batch_entries() -> Seq<(Currency, AccountRef, Direction, Layer, Seq<Term>)> {
    let w = |i: usize| AccountRef::Param(i);
    let o = |id: u128| AccountRef::Fixed(LedgerAccountId(id));
    seq![
        btc(w(EFFECTIVE_OUTGOING), Direction::Debit, Layer::Encumbered, seq![added(TOTAL_SPENT)]),
        btc(o(EFFECTIVE_OUTGOING_ID), Direction::Credit, Layer::Encumbered, seq![added(TOTAL_SPENT)]),
        btc(o(EFFECTIVE_OUTGOING_ID), Direction::Debit, Layer::Pending, seq![added(TOTAL_SPENT)]),
        btc(w(EFFECTIVE_OUTGOING), Direction::Credit, Layer::Pending, seq![added(TOTAL_SPENT)]),
        btc(w(ONCHAIN_FEE), Direction::Debit, Layer::Pending, seq![added(FEES)]),
        btc(o(ONCHAIN_FEE_ID), Direction::Credit, Layer::Pending, seq![added(FEES)]),
    ]
}

fn one(param: usize) -> (r: Vec<Term>)
    ensures
        r@ == seq![added(param)],
{
    let mut r: Vec<Term> = Vec::new();
    r.push(plus(param));
    proof {
        assert(r@ =~= seq![added(param)]);
    }
    r
}

/// The creation of a batch, posted once per wallet in it.
pub struct CreateBatch {}

impl CreateBatch {
    pub fn template() -> (r: TxTemplate)
        ensures
            template_ok(r),
            r.id == CREATE_BATCH_ID,
            shapes(r.entries@) == create_batch_entries(),
    {
        let mut entries: Vec<EntrySpec> = Vec::new();
        push_pair(
            &mut entries,
            EntryHalf {
                entry_type: "CREATE_BATCH_LOG_OUT_ENC_DR",
                account: AccountRef::Param(EFFECTIVE_OUTGOING),
                direction: Direction::Debit,
            },
            EntryHalf {
                entry_type: "CREATE_BATCH_LOG_OUT_ENC_CR",
                account: AccountRef::Fixed(LedgerAccountId(EFFECTIVE_OUTGOING_ID)),
                direction: Direction::Credit,
            },
            Layer::Encumbered,
            one(TOTAL_SPENT),
        );
        push_pair(
            &mut entries,
            EntryHalf {
                entry_type: "CREATE_BATCH_LOG_OUT_PEN_DR",
                account: AccountRef::Fixed(LedgerAccountId(EFFECTIVE_OUTGOING_ID)),
                direction: Direction::Debit,
            },
            EntryHalf {
                entry_type: "CREATE_BATCH_LOG_OUT_PEN_CR",
                account: AccountRef::Param(EFFECTIVE_OUTGOING),
                direction: Direction::Credit,
            },
            Layer::Pending,
            one(TOTAL_SPENT),
        );
        push_pair(
            &mut entries,
            EntryHalf {
                entry_type: "CREATE_BATCH_FEE_PEN_DR",
                account: AccountRef::Param(ONCHAIN_FEE),
                direction: Direction::Debit,
            },
            EntryHalf {
                entry_type: "CREATE_BATCH_FEE_PEN_CR",
                account: AccountRef::Fixed(LedgerAccountId(ONCHAIN_FEE_ID)),
                direction: Direction::Credit,
            },
            Layer::Pending,
            one(FEES),
        );
        proof {
            assert(shapes(entries@) =~= create_batch_entries());
        }
        TxTemplate {
            id: CREATE_BATCH_ID,
            code: "CREATE_BATCH".to_owned(),
            description: "Batch created".to_owned(),
            params: CreateBatchParams::defs(),
            entries,
        }
    }

    /// Registers the template unless it is there already.
    pub fn init(ledger: &mut Ledger) -> (r: Result<(), LedgerError>)
        requires
            old(ledger).wf(),
        ensures
            final(ledger).wf(),
            r.is_ok(),
            has_template(final(ledger).templates(), CREATE_BATCH_ID),
            final(ledger).transactions() == old(ledger).transactions(),
            final(ledger).templates() == old(ledger).templates() || (final(ledger).templates().len()
                == old(ledger).templates().len() + 1 && final(ledger).templates().drop_last()
                == old(ledger).templates() && final(ledger).templates().last().id == CREATE_BATCH_ID),
            has_template(old(ledger).templates(), CREATE_BATCH_ID) ==> final(ledger).templates() == old(ledger).templates(),
            !has_template(old(ledger).templates(), CREATE_BATCH_ID) ==> shapes(
                template_for(final(ledger).templates(), CREATE_BATCH_ID).entries@,
            ) == create_batch_entries(),
    {
        let t = CreateBatch::template();
        let r = ledger.create_template_if_absent(t);
        proof {
            if !has_template(old(ledger).templates(), CREATE_BATCH_ID) {
                lemma_template_for_unique(ledger.templates(), ledger.templates().len() - 1);
            }
        }
        r
    }
}

} // verus!
