use vstd::prelude::*;

pub mod confirmed_utxo;
pub mod create_batch;
pub mod lifecycle;
pub mod payout_cancelled;
pub mod queued_payout;
pub mod spend_settled;
pub mod utxo_detected;

use crate::ledger::constants::{
    CONFIRMED_UTXO_ID, CREATE_BATCH_ID, PAYOUT_CANCELLED_ID, QUEUED_PAYOUT_ID, SPEND_SETTLED_ID, UTXO_DETECTED_ID,
};
use crate::ledger::{
    has_template, lemma_template_for_kept, shapes, template_for, Ledger, LedgerError, TxTemplate, paired, within_limits, AccountRef, Currency, Direction, EntrySpec, Layer, ParamDataType,
    ParamDefinition, Term, MAX_TERMS,
};

verus! {

pub open spec fn added(param: usize) -> Term {
    Term { param, negate: false }
}

pub open spec fn subtracted(param: usize) -> Term {
    Term { param, negate: true }
}

/// The shape of an entry in BTC.
pub open spec fn btc(account: AccountRef, direction: Direction, layer: Layer, units: Seq<Term>) -> (
    Currency,
    AccountRef,
    Direction,
    Layer,
    Seq<Term>,
) {
    (Currency::Btc, account, direction, layer, units)
}

/// Each declared parameter's name and type.
pub open spec fn declared(defs: Seq<ParamDefinition>) -> Seq<(Seq<char>, ParamDataType)> {
    defs.map_values(|d: ParamDefinition| (d.name@, d.data_type))
}

/// A declared parameter.
pub fn param(name: &str, data_type: ParamDataType) -> (r: ParamDefinition)
    ensures
        r.name@ == name@,
        r.data_type == data_type,
{
    ParamDefinition { name: name.to_owned(), data_type }
}

/// An amount parameter added to a units expression.
pub fn plus(param: usize) -> (r: Term)
    ensures
        r == (Term { param, negate: false }),
{
    Term { param, negate: false }
}

/// An amount parameter subtracted in a units expression.
pub fn minus(param: usize) -> (r: Term)
    ensures
        r == (Term { param, negate: true }),
{
    Term { param, negate: true }
}

fn copy_terms(terms: &Vec<Term>) -> (r: Vec<Term>)
    ensures
        r@ == terms@,
{
    let mut r: Vec<Term> = Vec::new();
    let mut i: usize = 0;
    while i < terms.len()
        invariant
            i <= terms@.len(),
            r@ == terms@.take(i as int),
        decreases terms.len() - i,
    {
        r.push(terms[i]);
        proof {
            assert(r@ =~= terms@.take(i as int + 1));
        }
        i += 1;
    }
    proof {
        assert(r@ =~= terms@);
    }
    r
}

/// The first and second entry of a balancing pair.
pub struct EntryHalf<'a> {
    pub entry_type: &'a str,
    pub account: AccountRef,
    pub direction: Direction,
}

/// Appends a pair of entries in BTC on `layer` with the same units: `first` and `second`,
/// which must be one debit and one credit.
pub fn push_pair(entries: &mut Vec<EntrySpec>, first: EntryHalf, second: EntryHalf, layer: Layer, units: Vec<Term>)
    requires
        paired(old(entries)@),
        within_limits(old(entries)@),
        old(entries)@.len() + 2 <= crate::ledger::MAX_ENTRIES,
        units@.len() <= MAX_TERMS,
        first.direction != second.direction,
    ensures
        paired(final(entries)@),
        within_limits(final(entries)@),
        final(entries)@.len() == old(entries)@.len() + 2,
        final(entries)@.drop_last().drop_last() == old(entries)@,
        shapes(final(entries)@) == shapes(old(entries)@).push(
            (Currency::Btc, first.account, first.direction, layer, units@),
        ).push((Currency::Btc, second.account, second.direction, layer, units@)),
{
    let ghost before = entries@;
    let copy = copy_terms(&units);
    entries.push(
        EntrySpec {
            entry_type: first.entry_type.to_owned(),
            currency: Currency::Btc,
            account: first.account,
            direction: first.direction,
            layer,
            units,
        },
    );
    entries.push(
        EntrySpec {
            entry_type: second.entry_type.to_owned(),
            currency: Currency::Btc,
            account: second.account,
            direction: second.direction,
            layer,
            units: copy,
        },
    );
    proof {
        let e = entries@;
        assert(e.drop_last().drop_last() =~= before);
        assert(shapes(e) =~= shapes(before).push(
            (Currency::Btc, first.account, first.direction, layer, units@),
        ).push((Currency::Btc, second.account, second.direction, layer, units@)));
        let n = before.len() as int;
        assert(n % 2 == 0);
        assert forall|k: int| 0 <= k < e.len() / 2 implies {
            let a = #[trigger] e[2 * k];
            let b = e[2 * k + 1];
            &&& a.currency == b.currency
            &&& a.layer == b.layer
            &&& a.units@ == b.units@
            &&& crate::ledger::opposite(a.direction, b.direction)
        } by {
            if 2 * k < n {
                assert(e[2 * k] == before[2 * k]);
                assert(e[2 * k + 1] == before[2 * k + 1]);
            } else {
                assert(2 * k == n);
            }
        }
        assert forall|i: int| 0 <= i < e.len() implies (#[trigger] e[i]).units@.len() <= MAX_TERMS by {
            if i < n {
                assert(e[i] == before[i]);
            }
        }
    }
}

proof fn lemma_absent_kept(before: Seq<TxTemplate>, after: Seq<TxTemplate>, id: u128, other: u128)
    requires
        !has_template(before, id),
        id != other,
        after == before || (after.len() == before.len() + 1 && after.drop_last() == before && after.last().id == other),
    ensures
        !has_template(after, id),
{
    if has_template(after, id) {
        let i = choose|i: int| 0 <= i < after.len() && (#[trigger] after[i]).id == id;
        if i < before.len() {
            assert(after[i] == before[i]);
        }
    }
}

/// Registers every template the core posts, leaving those already registered as they are.
pub fn init_templates(ledger: &mut Ledger) -> (r: Result<(), LedgerError>)
    requires
        old(ledger).wf(),
    ensures
        final(ledger).wf(),
        r.is_ok(),
        final(ledger).transactions() == old(ledger).transactions(),
        has_template(final(ledger).templates(), UTXO_DETECTED_ID),
        !has_template(old(ledger).templates(), UTXO_DETECTED_ID) ==> shapes(template_for(final(ledger).templates(), UTXO_DETECTED_ID).entries@)
            == utxo_detected::utxo_detected_entries(),
        has_template(final(ledger).templates(), CONFIRMED_UTXO_ID),
        !has_template(old(ledger).templates(), CONFIRMED_UTXO_ID) ==> shapes(template_for(final(ledger).templates(), CONFIRMED_UTXO_ID).entries@)
            == confirmed_utxo::confirmed_utxo_entries(),
        has_template(final(ledger).templates(), SPEND_SETTLED_ID),
        !has_template(old(ledger).templates(), SPEND_SETTLED_ID) ==> shapes(template_for(final(ledger).templates(), SPEND_SETTLED_ID).entries@)
            == spend_settled::spend_settled_entries(),
        has_template(final(ledger).templates(), PAYOUT_CANCELLED_ID),
        !has_template(old(ledger).templates(), PAYOUT_CANCELLED_ID) ==> shapes(template_for(final(ledger).templates(), PAYOUT_CANCELLED_ID).entries@)
            == payout_cancelled::payout_cancelled_entries(),
        has_template(final(ledger).templates(), QUEUED_PAYOUT_ID),
        !has_template(old(ledger).templates(), QUEUED_PAYOUT_ID) ==> shapes(template_for(final(ledger).templates(), QUEUED_PAYOUT_ID).entries@)
            == queued_payout::queued_payout_entries(),
        has_template(final(ledger).templates(), CREATE_BATCH_ID),
        !has_template(old(ledger).templates(), CREATE_BATCH_ID) ==> shapes(template_for(final(ledger).templates(), CREATE_BATCH_ID).entries@)
            == create_batch::create_batch_entries(),
{    let ghost t0 = ledger.templates();
    let _ = utxo_detected::UtxoDetected::init(ledger);
    let ghost t1 = ledger.templates();
    proof {
        if !has_template(t0, CREATE_BATCH_ID) {
            lemma_absent_kept(t0, t1, CREATE_BATCH_ID, UTXO_DETECTED_ID);
        }
        if !has_template(t0, CONFIRMED_UTXO_ID) {
            lemma_absent_kept(t0, t1, CONFIRMED_UTXO_ID, UTXO_DETECTED_ID);
        }
        if !has_template(t0, SPEND_SETTLED_ID) {
            lemma_absent_kept(t0, t1, SPEND_SETTLED_ID, UTXO_DETECTED_ID);
        }
        if !has_template(t0, PAYOUT_CANCELLED_ID) {
            lemma_absent_kept(t0, t1, PAYOUT_CANCELLED_ID, UTXO_DETECTED_ID);
        }
        if !has_template(t0, QUEUED_PAYOUT_ID) {
            lemma_absent_kept(t0, t1, QUEUED_PAYOUT_ID, UTXO_DETECTED_ID);
        }
    }
    let _ = confirmed_utxo::ConfirmedUtxo::init(ledger);
    let ghost t2 = ledger.templates();
    proof {
        if !has_template(t1, CREATE_BATCH_ID) {
            lemma_absent_kept(t1, t2, CREATE_BATCH_ID, CONFIRMED_UTXO_ID);
        }
        lemma_template_for_kept(t1, t2, UTXO_DETECTED_ID);
        if !has_template(t1, SPEND_SETTLED_ID) {
            lemma_absent_kept(t1, t2, SPEND_SETTLED_ID, CONFIRMED_UTXO_ID);
        }
        if !has_template(t1, PAYOUT_CANCELLED_ID) {
            lemma_absent_kept(t1, t2, PAYOUT_CANCELLED_ID, CONFIRMED_UTXO_ID);
        }
        if !has_template(t1, QUEUED_PAYOUT_ID) {
            lemma_absent_kept(t1, t2, QUEUED_PAYOUT_ID, CONFIRMED_UTXO_ID);
        }
    }
    let _ = spend_settled::SpendSettled::init(ledger);
    let ghost t3 = ledger.templates();
    proof {
        if !has_template(t2, CREATE_BATCH_ID) {
            lemma_absent_kept(t2, t3, CREATE_BATCH_ID, SPEND_SETTLED_ID);
        }
        lemma_template_for_kept(t2, t3, UTXO_DETECTED_ID);
        lemma_template_for_kept(t2, t3, CONFIRMED_UTXO_ID);
        if !has_template(t2, PAYOUT_CANCELLED_ID) {
            lemma_absent_kept(t2, t3, PAYOUT_CANCELLED_ID, SPEND_SETTLED_ID);
        }
        if !has_template(t2, QUEUED_PAYOUT_ID) {
            lemma_absent_kept(t2, t3, QUEUED_PAYOUT_ID, SPEND_SETTLED_ID);
        }
    }
    let _ = payout_cancelled::PayoutCancelled::init(ledger);
    let ghost t4 = ledger.templates();
    proof {
        if !has_template(t3, CREATE_BATCH_ID) {
            lemma_absent_kept(t3, t4, CREATE_BATCH_ID, PAYOUT_CANCELLED_ID);
        }
        lemma_template_for_kept(t3, t4, UTXO_DETECTED_ID);
        lemma_template_for_kept(t3, t4, CONFIRMED_UTXO_ID);
        lemma_template_for_kept(t3, t4, SPEND_SETTLED_ID);
        if !has_template(t3, QUEUED_PAYOUT_ID) {
            lemma_absent_kept(t3, t4, QUEUED_PAYOUT_ID, PAYOUT_CANCELLED_ID);
        }
    }
    let _ = queued_payout::QueuedPayout::init(ledger);
    let ghost t5 = ledger.templates();
    proof {
        if !has_template(t4, CREATE_BATCH_ID) {
            lemma_absent_kept(t4, t5, CREATE_BATCH_ID, QUEUED_PAYOUT_ID);
        }
        lemma_template_for_kept(t4, t5, UTXO_DETECTED_ID);
        lemma_template_for_kept(t4, t5, CONFIRMED_UTXO_ID);
        lemma_template_for_kept(t4, t5, SPEND_SETTLED_ID);
        lemma_template_for_kept(t4, t5, PAYOUT_CANCELLED_ID);
    }
    let _ = create_batch::CreateBatch::init(ledger);
    let ghost t6 = ledger.templates();
    proof {
        lemma_template_for_kept(t5, t6, UTXO_DETECTED_ID);
        lemma_template_for_kept(t5, t6, CONFIRMED_UTXO_ID);
        lemma_template_for_kept(t5, t6, SPEND_SETTLED_ID);
        lemma_template_for_kept(t5, t6, PAYOUT_CANCELLED_ID);
        lemma_template_for_kept(t5, t6, QUEUED_PAYOUT_ID);
    }
    Ok(())
}

} // verus!
