use vstd::prelude::*;

use super::{declared, added, btc, param, plus, push_pair, EntryHalf};
use crate::ledger::constants::{ONCHAIN_UTXO_INCOMING_ID, UTXO_DETECTED_ID};
use crate::ledger::{
    has_template, lemma_template_for_unique, shapes, template_for, template_ok, AccountRef, Currency, Direction, EntrySpec, Layer, Ledger, LedgerError, ParamDataType,
    ParamDefinition, Term, TxParams, TxTemplate,
};
use crate::primitives::{JournalId, LedgerAccountId, LedgerDate, Satoshis};

verus! {

// Position of the account parameter.
pub const ONCHAIN_INCOMING: usize = 0;

// Position of the amount parameter.
pub const AMOUNT: usize = 0;

pub struct UtxoDetectedParams {
    pub journal_id: JournalId,
    pub onchain_incoming_account_id: LedgerAccountId,
    pub satoshis: Satoshis,
    pub effective: LedgerDate,
}

impl UtxoDetectedParams {
    /// The declared parameters of the template.
    pub fn defs() -> (r: Vec<ParamDefinition>)
        ensures
            declared(r@) == seq![
                ("journal_id"@, ParamDataType::Uuid),
                ("onchain_incoming_account_id"@, ParamDataType::Uuid),
                ("amount"@, ParamDataType::Decimal),
                ("effective"@, ParamDataType::Date),
            ],
    {
        let mut r: Vec<ParamDefinition> = Vec::new();
        r.push(param("journal_id", ParamDataType::Uuid));
        r.push(param("onchain_incoming_account_id", ParamDataType::Uuid));
        r.push(param("amount", ParamDataType::Decimal));
        r.push(param("effective", ParamDataType::Date));
        proof {
            assert(declared(r@) =~= seq![
                ("journal_id"@, ParamDataType::Uuid),
                ("onchain_incoming_account_id"@, ParamDataType::Uuid),
                ("amount"@, ParamDataType::Decimal),
                ("effective"@, ParamDataType::Date),
            ]);
        }
        r
    }

    /// The values the template is posted with: the wallet's incoming account and the value
    /// of the output.
    pub fn to_tx_params(&self, meta_json: String) -> (r: TxParams)
        ensures
            r.meta == meta_json,
            r.journal_id == self.journal_id,
            r.accounts@ == seq![self.onchain_incoming_account_id],
            r.amounts@ == seq![self.satoshis.0],
            r.correlation_id.is_none(),
            r.external_id.is_none(),
            r.effective == self.effective,
    {
        let mut accounts: Vec<LedgerAccountId> = Vec::new();
        accounts.push(self.onchain_incoming_account_id);
        let mut amounts: Vec<u64> = Vec::new();
        amounts.push(self.satoshis.0);
        proof {
            assert(accounts@ =~= seq![self.onchain_incoming_account_id]);
            assert(amounts@ =~= seq![self.satoshis.0]);
        }
        TxParams {
            journal_id: self.journal_id,
            accounts,
            amounts,
            correlation_id: None,
            external_id: None,
            effective: self.effective,
            meta: meta_json,
        }
    }
}

/// The value is credited as pending to the wallet's incoming account.
pub open spec fn utxo_detected_entries() -> Seq<(Currency, AccountRef, Direction, Layer, Seq<Term>)> {
    seq![
        btc(AccountRef::Fixed(LedgerAccountId(ONCHAIN_UTXO_INCOMING_ID)), Direction::Debit, Layer::Pending, seq![added(AMOUNT)]),
        btc(AccountRef::Param(ONCHAIN_INCOMING), Direction::Credit, Layer::Pending, seq![added(AMOUNT)]),
    ]
}

fn amount() -> (r: Vec<Term>)
    ensures
        r@ == seq![added(AMOUNT)],
{
    let mut r: Vec<Term> = Vec::new();
    r.push(plus(AMOUNT));
    proof {
        assert(r@ =~= seq![added(AMOUNT)]);
    }
    r
}

/// A newly seen output: its value is credited as pending to the wallet's incoming account.
pub struct UtxoDetected {}

impl UtxoDetected {
    pub fn template() -> (r: TxTemplate)
        ensures
            template_ok(r),
            r.id == UTXO_DETECTED_ID,
            shapes(r.entries@) == utxo_detected_entries(),
    {
        let mut entries: Vec<EntrySpec> = Vec::new();
        push_pair(
            &mut entries,
            EntryHalf {
                entry_type: "UTXO_DETECTED_UTX_IN_PEN_DR",
                account: AccountRef::Fixed(LedgerAccountId(ONCHAIN_UTXO_INCOMING_ID)),
                direction: Direction::Debit,
            },
            EntryHalf {
                entry_type: "UTXO_DETECTED_UTX_IN_PEN_CR",
                account: AccountRef::Param(ONCHAIN_INCOMING),
                direction: Direction::Credit,
            },
            Layer::Pending,
            amount(),
        );
        proof {
            assert(shapes(entries@) =~= utxo_detected_entries());
        }
        TxTemplate {
            id: UTXO_DETECTED_ID,
            code: "UTXO_DETECTED".to_owned(),
            description: "Onchain utxo detected".to_owned(),
            params: UtxoDetectedParams::defs(),
            entries,
        }
    }

    /// Registers the template unless it is there already.
    pub fn init(ledger: &mut Ledger) -> (r: Result<(), LedgerError>)
        requires
            old(ledger).wf(),
        ensures
            final(ledger).wf(),
            r.is_ok(),
            has_template(final(ledger).templates(), UTXO_DETECTED_ID),
            final(ledger).transactions() == old(ledger).transactions(),
            final(ledger).templates() == old(ledger).templates() || (final(ledger).templates().len()
                == old(ledger).templates().len() + 1 && final(ledger).templates().drop_last()
                == old(ledger).templates() && final(ledger).templates().last().id == UTXO_DETECTED_ID),
            has_template(old(ledger).templates(), UTXO_DETECTED_ID) ==> final(ledger).templates() == old(ledger).templates(),
            !has_template(old(ledger).templates(), UTXO_DETECTED_ID) ==> shapes(
                template_for(final(ledger).templates(), UTXO_DETECTED_ID).entries@,
            ) == utxo_detected_entries(),
    {
        let t = UtxoDetected::template();
        let r = ledger.create_template_if_absent(t);
        proof {
            if !has_template(old(ledger).templates(), UTXO_DETECTED_ID) {
                lemma_template_for_unique(ledger.templates(), ledger.templates().len() - 1);
            }
        }
        r
    }
}

} // verus!
