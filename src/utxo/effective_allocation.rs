use vstd::prelude::*;

use crate::primitives::{LedgerTransactionId, OutPoint, Satoshis};

verus! {

/// An input of a spending transaction, as the UTXO table knew it when the spend was seen.
#[derive(PartialEq, Eq, Structural, Clone, Copy, Debug)]
pub struct SpentUtxo {
    pub outpoint: OutPoint,
    pub value: Satoshis,
    pub settled: bool,
    pub detected_ledger_tx_id: LedgerTransactionId,
}

/// Walks the inputs in order. A settled input adds its value to the settled total. An
/// unsettled one is first covered by what is left of the change; the rest of its value is
/// what is to be withdrawn from the effective balance once it settles, recorded under the
/// ledger transaction that first posted it. The result is the settled total, the
/// withdrawals, and the change still uncovered.
pub open spec fn allocation_state(spent: Seq<SpentUtxo>, change: int) -> (int, Seq<(LedgerTransactionId, Satoshis)>, int)
    decreases spent.len(),
{
    if spent.len() == 0 {
        (0, Seq::empty(), change)
    } else {
        let prev = allocation_state(spent.drop_last(), change);
        let u = spent.last();
        if u.settled {
            (prev.0 + u.value.0, prev.1, prev.2)
        } else {
            let covered = if u.value.0 <= prev.2 { u.value.0 as int } else { prev.2 };
            (prev.0, prev.1.push((u.detected_ledger_tx_id, Satoshis((u.value.0 - covered) as u64))), prev.2 - covered)
        }
    }
}

/// The settled total of a prefix is at most that of the whole.
pub proof fn lemma_settled_total_grows(spent: Seq<SpentUtxo>, change: int, i: int)
    requires
        change >= 0,
        0 <= i <= spent.len(),
    ensures
        allocation_state(spent.take(i), change).0 <= allocation_state(spent, change).0,
    decreases spent.len(),
{
    if i < spent.len() {
        assert(spent.drop_last().take(i) =~= spent.take(i));
        lemma_settled_total_grows(spent.drop_last(), change, i);
    } else {
        assert(spent.take(i) =~= spent);
    }
}

/// Splits what a spend drew from the effective balance: the total of the settled inputs, and
/// for each unsettled input what is to be withdrawn once it settles (see `allocation_state`).
/// `None` where the settled total does not fit in 64 bits.
pub fn withdraw_from_effective_when_settled(spent: &Vec<SpentUtxo>, change: Satoshis) -> (r: Option<
    (Satoshis, Vec<(LedgerTransactionId, Satoshis)>),
>)
    ensures
        r.is_some() == (allocation_state(spent@, change.0 as int).0 <= u64::MAX),
        r.is_some() ==> {
            let st = allocation_state(spent@, change.0 as int);
            &&& r.unwrap().0.0 == st.0
            &&& r.unwrap().1@ == st.1
        },
{
    let mut total: u64 = 0;
    let mut remaining: u64 = change.0;
    let mut allocations: Vec<(LedgerTransactionId, Satoshis)> = Vec::new();
    let mut i: usize = 0;
    while i < spent.len()
        invariant
            i <= spent.len(),
            allocation_state(spent@.take(i as int), change.0 as int) == (
                total as int,
                allocations@,
                remaining as int,
            ),
        decreases spent.len() - i,
    {
        let u = spent[i];
        proof {
            assert(spent@.take(i as int + 1).drop_last() =~= spent@.take(i as int));
            assert(spent@.take(i as int + 1).last() == u);
        }
        if u.settled {
            match total.checked_add(u.value.0) {
                Some(t) => {
                    total = t;
                },
                None => {
                    proof {
                        lemma_settled_total_grows(spent@, change.0 as int, i as int + 1);
                    }
                    return None;
                },
            }
        } else {
            let covered = if u.value.0 <= remaining {
                u.value.0
            } else {
                remaining
            };
            allocations.push((u.detected_ledger_tx_id, Satoshis(u.value.0 - covered)));
            remaining = remaining - covered;
        }
        i += 1;
    }
    proof {
        assert(spent@.take(i as int) =~= spent@);
    }
    Some((Satoshis(total), allocations))
}

} // verus!
