use vstd::prelude::*;

use super::{declared, added, btc, param, plus, push_pair, EntryHalf};
use crate::ledger::constants::{CONFIRMED_UTXO_ID, ONCHAIN_UTXO_AT_REST_ID, ONCHAIN_UTXO_INCOMING_ID};
use crate::ledger::{
    has_template, lemma_template_for_unique, shapes, template_for, template_ok, AccountRef, Currency, Direction, EntrySpec, Layer, Ledger, LedgerError, ParamDataType,
    ParamDefinition, Term, TxParams, TxTemplate, WalletLedgerAccountIds,
};
use crate::primitives::{
    BlockTime, JournalId, LedgerAccountId, LedgerTransactionId, Satoshis, MAX_BLOCK_TIMESTAMP, UNIX_EPOCH_DAY,
};

verus! {

// Positions of the account parameters.
pub const ONCHAIN_INCOMING: usize = 0;
pub const ONCHAIN_AT_REST: usize = 1;

// Position of the amount parameter.
pub const AMOUNT: usize = 0;

pub struct ConfirmedUtxoParams {
    pub journal_id: JournalId,
    pub ledger_account_ids: WalletLedgerAccountIds,
    pub pending_id: LedgerTransactionId,
    pub satoshis: Satoshis,
    pub confirmation_time: BlockTime,
}

impl ConfirmedUtxoParams {
    /// The declared parameters of the template.
    pub fn defs() -> (r: Vec<ParamDefinition>)
        ensures
            declared(r@) == seq![
                ("journal_id"@, ParamDataType::Uuid),
                ("onchain_incoming_account_id"@, ParamDataType::Uuid),
                ("onchain_at_rest_account_id"@, ParamDataType::Uuid),
                ("amount"@, ParamDataType::Decimal),
                ("correlation_id"@, ParamDataType::Uuid),
                ("effective"@, ParamDataType::Date),
            ],
    {
        let mut r: Vec<ParamDefinition> = Vec::new();
        r.push(param("journal_id", ParamDataType::Uuid));
        r.push(param("onchain_incoming_account_id", ParamDataType::Uuid));
        r.push(param("onchain_at_rest_account_id", ParamDataType::Uuid));
        r.push(param("amount", ParamDataType::Decimal));
        r.push(param("correlation_id", ParamDataType::Uuid));
        r.push(param("effective", ParamDataType::Date));
        proof {
            assert(declared(r@) =~= seq![
                ("journal_id"@, ParamDataType::Uuid),
                ("onchain_incoming_account_id"@, ParamDataType::Uuid),
                ("onchain_at_rest_account_id"@, ParamDataType::Uuid),
                ("amount"@, ParamDataType::Decimal),
                ("correlation_id"@, ParamDataType::Uuid),
                ("effective"@, ParamDataType::Date),
            ]);
        }
        r
    }

    /// The values the template is posted with: the wallet's incoming and at-rest accounts,
    /// the value of the output, the posting of its detection as correlation, and the day of
    /// the confirming block.
    pub fn to_tx_params(&self, meta_json: String) -> (r: TxParams)
        requires
            self.confirmation_time.timestamp <= MAX_BLOCK_TIMESTAMP,
        ensures
            r.meta == meta_json,
            r.journal_id == self.journal_id,
            r.accounts@ == seq![
                self.ledger_account_ids.onchain_incoming_id,
                self.ledger_account_ids.onchain_at_rest_id,
            ],
            r.amounts@ == seq![self.satoshis.0],
            r.correlation_id == Some(self.pending_id),
            r.external_id.is_none(),
            r.effective.days_from_ce == self.confirmation_time.timestamp / 86400 + UNIX_EPOCH_DAY,
    {
        let mut accounts: Vec<LedgerAccountId> = Vec::new();
        accounts.push(self.ledger_account_ids.onchain_incoming_id);
        accounts.push(self.ledger_account_ids.onchain_at_rest_id);
        let mut amounts: Vec<u64> = Vec::new();
        amounts.push(self.satoshis.0);
        proof {
            assert(accounts@ =~= seq![
                self.ledger_account_ids.onchain_incoming_id,
                self.ledger_account_ids.onchain_at_rest_id,
            ]);
            assert(amounts@ =~= seq![self.satoshis.0]);
        }
        TxParams {
            journal_id: self.journal_id,
            accounts,
            amounts,
            correlation_id: Some(self.pending_id),
            external_id: None,
            effective: self.confirmation_time.effective_date(),
            meta: meta_json,
        }
    }
}

/// The pending income is reversed, and the value is credited as settled to the wallet's
/// at-rest account.
pub open spec fn confirmed_utxo_entries() -> Seq<(Currency, AccountRef, Direction, Layer, Seq<Term>)> {
    seq![
        btc(AccountRef::Param(ONCHAIN_INCOMING), Direction::Debit, Layer::Pending, seq![added(AMOUNT)]),
        btc(AccountRef::Fixed(LedgerAccountId(ONCHAIN_UTXO_INCOMING_ID)), Direction::Credit, Layer::Pending, seq![added(AMOUNT)]),
        btc(AccountRef::Fixed(LedgerAccountId(ONCHAIN_UTXO_AT_REST_ID)), Direction::Debit, Layer::Settled, seq![added(AMOUNT)]),
        btc(AccountRef::Param(ONCHAIN_AT_REST), Direction::Credit, Layer::Settled, seq![added(AMOUNT)]),
    ]
}

fn amount() -> (r: Vec<Term>)
    ensures
        r@ == seq![added(AMOUNT)],
{
    let mut r: Vec<Term> = Vec::new();
    r.push(plus(AMOUNT));
    proof {
        assert(r@ =~= seq![added(AMOUNT)]);
    }
    r
}

/// The confirmation of an incoming output: its pending income is reversed and the value is
/// posted as settled on the wallet's at-rest account.
pub struct ConfirmedUtxo {}

impl ConfirmedUtxo {
    pub fn template() -> (r: TxTemplate)
        ensures
            template_ok(r),
            r.id == CONFIRMED_UTXO_ID,
            shapes(r.entries@) == confirmed_utxo_entries(),
    {
        let mut entries: Vec<EntrySpec> = Vec::new();
        push_pair(
            &mut entries,
            EntryHalf {
                entry_type: "CONFIRMED_UTXO_UTX_IN_PEN_DR",
                account: AccountRef::Param(ONCHAIN_INCOMING),
                direction: Direction::Debit,
            },
            EntryHalf {
                entry_type: "CONFIRMED_UTXO_UTX_IN_PEN_CR",
                account: AccountRef::Fixed(LedgerAccountId(ONCHAIN_UTXO_INCOMING_ID)),
                direction: Direction::Credit,
            },
            Layer::Pending,
            amount(),
        );
        push_pair(
            &mut entries,
            EntryHalf {
                entry_type: "CONFIRMED_UTXO_UTX_AT_REST_SET_DR",
                account: AccountRef::Fixed(LedgerAccountId(ONCHAIN_UTXO_AT_REST_ID)),
                direction: Direction::Debit,
            },
            EntryHalf {
                entry_type: "CONFIRMED_UTXO_UTX_AT_REST_SET_CR",
                account: AccountRef::Param(ONCHAIN_AT_REST),
                direction: Direction::Credit,
            },
            Layer::Settled,
            amount(),
        );
        proof {
            assert(shapes(entries@) =~= confirmed_utxo_entries());
        }
        TxTemplate {
            id: CONFIRMED_UTXO_ID,
            code: "CONFIRMED_UTXO".to_owned(),
            description: "Onchain utxo confirmed".to_owned(),
            params: ConfirmedUtxoParams::defs(),
            entries,
        }
    }

    /// Registers the template unless it is there already.
    pub fn init(ledger: &mut Ledger) -> (r: Result<(), LedgerError>)
        requires
            old(ledger).wf(),
        ensures
            final(ledger).wf(),
            r.is_ok(),
            has_template(final(ledger).templates(), CONFIRMED_UTXO_ID),
            final(ledger).transactions() == old(ledger).transactions(),
            final(ledger).templates() == old(ledger).templates() || (final(ledger).templates().len()
                == old(ledger).templates().len() + 1 && final(ledger).templates().drop_last()
                == old(ledger).templates() && final(ledger).templates().last().id == CONFIRMED_UTXO_ID),
            has_template(old(ledger).templates(), CONFIRMED_UTXO_ID) ==> final(ledger).templates() == old(ledger).templates(),
            !has_template(old(ledger).templates(), CONFIRMED_UTXO_ID) ==> shapes(
                template_for(final(ledger).templates(), CONFIRMED_UTXO_ID).entries@,
            ) == confirmed_utxo_entries(),
    {
        let t = ConfirmedUtxo::template();
        let r = ledger.create_template_if_absent(t);
        proof {
            if !has_template(old(ledger).templates(), CONFIRMED_UTXO_ID) {
                lemma_template_for_unique(ledger.templates(), ledger.templates().len() - 1);
            }
        }
        r
    }
}

} // verus!
