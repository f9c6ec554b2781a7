use vstd::prelude::*;

use super::{declared, added, btc, param, plus, push_pair, EntryHalf};
use crate::ledger::constants::{EFFECTIVE_OUTGOING_ID, PAYOUT_CANCELLED_ID};
use crate::ledger::{
    has_template, lemma_template_for_unique, shapes, template_for, template_ok, AccountRef, Currency, Direction, EntrySpec, Layer, Ledger, LedgerError, ParamDataType,
    ParamDefinition, Term, TxParams, TxTemplate,
};
use crate::primitives::{
    AccountId, JournalId, LedgerAccountId, LedgerDate, PayoutDestination, PayoutId, PayoutQueueId, ProfileId,
    Satoshis, WalletId,
};

verus! {

// Position of the account parameter.
pub const EFFECTIVE_OUTGOING: usize = 0;

// Position of the amount parameter.
pub const AMOUNT: usize = 0;

pub struct PayoutCancelledMeta {
    pub account_id: AccountId,
    pub payout_id: PayoutId,
    pub wallet_id: WalletId,
    pub payout_queue_id: PayoutQueueId,
    pub profile_id: ProfileId,
    pub satoshis: Satoshis,
    pub destination: PayoutDestination,
}

pub struct PayoutCancelledParams {
    pub journal_id: JournalId,
    pub effective_outgoing_account_id: LedgerAccountId,
    pub external_id: String,
    pub meta: PayoutCancelledMeta,
}

impl PayoutCancelledParams {
    /// The declared parameters of the template.
    pub fn defs() -> (r: Vec<ParamDefinition>)
        ensures
            declared(r@) == seq![
                ("journal_id"@, ParamDataType::Uuid),
                ("effective_outgoing_account_id"@, ParamDataType::Uuid),
                ("amount"@, ParamDataType::Decimal),
                ("external_id"@, ParamDataType::String),
                ("meta"@, ParamDataType::Json),
                ("effective"@, ParamDataType::Date),
            ],
    {
        let mut r: Vec<ParamDefinition> = Vec::new();
        r.push(param("journal_id", ParamDataType::Uuid));
        r.push(param("effective_outgoing_account_id", ParamDataType::Uuid));
        r.push(param("amount", ParamDataType::Decimal));
        r.push(param("external_id", ParamDataType::String));
        r.push(param("meta", ParamDataType::Json));
        r.push(param("effective", ParamDataType::Date));
        proof {
            assert(declared(r@) =~= seq![
                ("journal_id"@, ParamDataType::Uuid),
                ("effective_outgoing_account_id"@, ParamDataType::Uuid),
                ("amount"@, ParamDataType::Decimal),
                ("external_id"@, ParamDataType::String),
                ("meta"@, ParamDataType::Json),
                ("effective"@, ParamDataType::Date),
            ]);
        }
        r
    }

    /// The values the template is posted with on day `effective`: the wallet's effective
    /// outgoing account, the payout's amount, and the external id.
    pub fn to_tx_params(&self, meta_json: String, effective: LedgerDate) -> (r: TxParams)
        ensures
            r.meta == meta_json,
            r.journal_id == self.journal_id,
            r.accounts@ == seq![self.effective_outgoing_account_id],
            r.amounts@ == seq![self.meta.satoshis.0],
            r.correlation_id.is_none(),
            r.external_id == Some(self.external_id),
            r.effective == effective,
    {
        cancellation_tx_params(
            self.journal_id,
            self.effective_outgoing_account_id,
            self.meta.satoshis,
            self.external_id.clone(),
            effective,
            meta_json,
        )
    }
}

/// The values the template is posted with for a payout of `amount`.
pub fn cancellation_tx_params(
    journal_id: JournalId,
    effective_outgoing_account_id: LedgerAccountId,
    amount: Satoshis,
    external_id: String,
    effective: LedgerDate,
    meta_json: String,
) -> (r: TxParams)
    ensures
        r.meta == meta_json,
        r.journal_id == journal_id,
        r.accounts@ == seq![effective_outgoing_account_id],
        r.amounts@ == seq![amount.0],
        r.correlation_id.is_none(),
        r.external_id == Some(external_id),
        r.effective == effective,
{
    let mut accounts: Vec<LedgerAccountId> = Vec::new();
    accounts.push(effective_outgoing_account_id);
    let mut amounts: Vec<u64> = Vec::new();
    amounts.push(amount.0);
    proof {
        assert(accounts@ =~= seq![effective_outgoing_account_id]);
        assert(amounts@ =~= seq![amount.0]);
    }
    TxParams {
        journal_id,
        accounts,
        amounts,
        correlation_id: None,
        external_id: Some(external_id),
        effective,
        meta: meta_json,
    }
}

/// The encumbered amount leaves the omnibus effective outgoing account and returns to the
/// wallet's.
pub open spec fn payout_cancelled_entries() -> Seq<(Currency, AccountRef, Direction, Layer, Seq<Term>)> {
    seq![
        btc(AccountRef::Fixed(LedgerAccountId(EFFECTIVE_OUTGOING_ID)), Direction::Credit, Layer::Encumbered, seq![added(AMOUNT)]),
        btc(AccountRef::Param(EFFECTIVE_OUTGOING), Direction::Debit, Layer::Encumbered, seq![added(AMOUNT)]),
    ]
}

fn amount() -> (r: Vec<Term>)
    ensures
        r@ == seq![added(AMOUNT)],
{
    let mut r: Vec<Term> = Vec::new();
    r.push(plus(AMOUNT));
    proof {
        assert(r@ =~= seq![added(AMOUNT)]);
    }
    r
}

/// The cancellation of a queued payout: the amount encumbered on the wallet's effective
/// outgoing account is released.
pub struct PayoutCancelled {}

impl PayoutCancelled {
    pub fn template() -> (r: TxTemplate)
        ensures
            template_ok(r),
            r.id == PAYOUT_CANCELLED_ID,
            shapes(r.entries@) == payout_cancelled_entries(),
    {
        let mut entries: Vec<EntrySpec> = Vec::new();
        push_pair(
            &mut entries,
            EntryHalf {
                entry_type: "PAYOUT_CANCELLED_LOG_OUT_ENC_CR",
                account: AccountRef::Fixed(LedgerAccountId(EFFECTIVE_OUTGOING_ID)),
                direction: Direction::Credit,
            },
            EntryHalf {
                entry_type: "PAYOUT_CANCELLED_LOG_OUT_ENC_DR",
                account: AccountRef::Param(EFFECTIVE_OUTGOING),
                direction: Direction::Debit,
            },
            Layer::Encumbered,
            amount(),
        );
        proof {
            assert(shapes(entries@) =~= payout_cancelled_entries());
        }
        TxTemplate {
            id: PAYOUT_CANCELLED_ID,
            code: "PAYOUT_CANCELLED".to_owned(),
            description: "Cancelled payout".to_owned(),
            params: PayoutCancelledParams::defs(),
            entries,
        }
    }

    /// Registers the template unless it is there already.
    pub fn init(ledger: &mut Ledger) -> (r: Result<(), LedgerError>)
        requires
            old(ledger).wf(),
        ensures
            final(ledger).wf(),
            r.is_ok(),
            has_template(final(ledger).templates(), PAYOUT_CANCELLED_ID),
            final(ledger).transactions() == old(ledger).transactions(),
            final(ledger).templates() == old(ledger).templates() || (final(ledger).templates().len()
                == old(ledger).templates().len() + 1 && final(ledger).templates().drop_last()
                == old(ledger).templates() && final(ledger).templates().last().id == PAYOUT_CANCELLED_ID),
            has_template(old(ledger).templates(), PAYOUT_CANCELLED_ID) ==> final(ledger).templates() == old(ledger).templates(),
            !has_template(old(ledger).templates(), PAYOUT_CANCELLED_ID) ==> shapes(
                template_for(final(ledger).templates(), PAYOUT_CANCELLED_ID).entries@,
            ) == payout_cancelled_entries(),
    {
        let t = PayoutCancelled::template();
        let r = ledger.create_template_if_absent(t);
        proof {
            if !has_template(old(ledger).templates(), PAYOUT_CANCELLED_ID) {
                lemma_template_for_unique(ledger.templates(), ledger.templates().len() - 1);
            }
        }
        r
    }
}

} // verus!
