use vstd::prelude::*;

use crate::batch::entity::WalletSummary;
use crate::primitives::{KeychainId, OutPoint, Satoshis, WalletId};
use crate::utxo::entity::WalletUtxo;
use crate::utxo::{contains_keychain, Utxos};

verus! {

/// Why a batch could not be built.
#[derive(PartialEq, Eq, Structural, Clone, Copy, Debug)]
pub enum BuilderError {
    InsufficientFunds { wallet_id: WalletId, required: u64, available: u64 },
    NoUsableInputs { wallet_id: WalletId },
    FeeBelowMinimum { sats_per_vbyte: u64 },
    AmountOverflow,
}

/// An output coin selection may use: on one of the given keychains, not blocked (see
/// `WalletUtxo::blocked_for_selection`), and not seen spent.
pub open spec fn selectable(u: WalletUtxo, wallet_id: WalletId, keychains: Seq<KeychainId>) -> bool {
    &&& u.wallet_id == wallet_id
    &&& keychains.contains(u.keychain_id)
    &&& !u.blocked_for_selection()
    &&& u.spend_detected_ledger_tx_id.is_none()
}

/// The selectable outputs, in table order.
pub open spec fn candidates(rows: Seq<WalletUtxo>, wallet_id: WalletId, keychains: Seq<KeychainId>) -> Seq<WalletUtxo>
    decreases rows.len(),
{
    if rows.len() == 0 {
        Seq::empty()
    } else {
        let rest = candidates(rows.drop_last(), wallet_id, keychains);
        if selectable(rows.last(), wallet_id, keychains) {
            rest.push(rows.last())
        } else {
            rest
        }
    }
}

pub open spec fn value_sum(rows: Seq<WalletUtxo>) -> int
    decreases rows.len(),
{
    if rows.len() == 0 {
        0
    } else {
        value_sum(rows.drop_last()) + rows.last().value.0
    }
}

pub open spec fn keys_of(rows: Seq<WalletUtxo>) -> Seq<(KeychainId, OutPoint)> {
    rows.map_values(|u: WalletUtxo| u.key())
}

/// The first `n` candidates are the shortest run that reaches `required`.
pub open spec fn covers(cands: Seq<WalletUtxo>, required: int, n: int) -> bool {
    &&& 0 <= n <= cands.len()
    &&& value_sum(cands.take(n)) >= required
    &&& forall|m: int| 0 <= m < n ==> value_sum(#[trigger] cands.take(m)) < required
}

/// The length of the shortest run of candidates that reaches `required`.
pub open spec fn cover_len(cands: Seq<WalletUtxo>, required: int) -> int {
    choose|n: int| covers(cands, required, n)
}

/// What coin selection gives: the number of candidates taken, or why it fails. It fails where
/// there is no candidate, where all of them fall short, and where the run that reaches the
/// requirement is worth more than 64 bits can count.
pub open spec fn selection(rows: Seq<WalletUtxo>, wallet_id: WalletId, keychains: Seq<KeychainId>, required: u64) -> Result<
    int,
    BuilderError,
> {
    let c = candidates(rows, wallet_id, keychains);
    if c.len() == 0 {
        Err(BuilderError::NoUsableInputs { wallet_id })
    } else if value_sum(c) < required {
        Err(BuilderError::InsufficientFunds { wallet_id, required, available: value_sum(c) as u64 })
    } else if value_sum(c.take(cover_len(c, required as int))) > u64::MAX {
        Err(BuilderError::AmountOverflow)
    } else {
        Ok(cover_len(c, required as int))
    }
}

/// Where all candidates together reach `required`, a shortest run that does exists.
pub proof fn lemma_cover_exists(c: Seq<WalletUtxo>, required: int)
    requires
        value_sum(c) >= required,
    ensures
        covers(c, required, cover_len(c, required)),
    decreases c.len(),
{
    if c.len() > 0 && value_sum(c.drop_last()) >= required {
        lemma_cover_exists(c.drop_last(), required);
        let n = cover_len(c.drop_last(), required);
        assert(c.take(n) =~= c.drop_last().take(n));
        assert forall|m: int| 0 <= m < n implies value_sum(#[trigger] c.take(m)) < required by {
            assert(c.take(m) =~= c.drop_last().take(m));
        }
        assert(covers(c, required, n));
    } else {
        let n = c.len() as int;
        assert(c.take(n) =~= c);
        assert forall|m: int| 0 <= m < n implies value_sum(#[trigger] c.take(m)) < required by {
            assert(c.take(m) =~= c.drop_last().take(m));
            lemma_value_sum_grows(c.drop_last(), m);
        }
        assert(covers(c, required, n));
    }
}

pub proof fn lemma_covers_unique(c: Seq<WalletUtxo>, required: int, n: int)
    requires
        covers(c, required, n),
    ensures
        cover_len(c, required) == n,
{
    let m = cover_len(c, required);
    assert(covers(c, required, m));
    if m < n {
        assert(value_sum(c.take(m)) < required);
    } else if n < m {
        assert(value_sum(c.take(n)) < required);
    }
}

pub proof fn lemma_value_sum_grows(rows: Seq<WalletUtxo>, i: int)
    requires
        0 <= i <= rows.len(),
    ensures
        value_sum(rows.take(i)) <= value_sum(rows),
    decreases rows.len(),
{
    if i < rows.len() {
        assert(rows.drop_last().take(i) =~= rows.take(i));
        lemma_value_sum_grows(rows.drop_last(), i);
    } else {
        assert(rows.take(i) =~= rows);
    }
}

proof fn lemma_candidates_step(rows: Seq<WalletUtxo>, wallet_id: WalletId, keychains: Seq<KeychainId>, i: int)
    requires
        0 <= i < rows.len(),
    ensures
        candidates(rows.take(i + 1), wallet_id, keychains) == if selectable(rows[i], wallet_id, keychains) {
            candidates(rows.take(i), wallet_id, keychains).push(rows[i])
        } else {
            candidates(rows.take(i), wallet_id, keychains)
        },
{
    assert(rows.take(i + 1).drop_last() =~= rows.take(i));
}

proof fn lemma_candidates_prefix(rows: Seq<WalletUtxo>, wallet_id: WalletId, keychains: Seq<KeychainId>, i: int)
    requires
        0 <= i <= rows.len(),
    ensures
        candidates(rows.take(i), wallet_id, keychains).len() <= candidates(rows, wallet_id, keychains).len(),
        candidates(rows, wallet_id, keychains).take(candidates(rows.take(i), wallet_id, keychains).len() as int) == candidates(
            rows.take(i),
            wallet_id,
            keychains,
        ),
    decreases rows.len() - i,
{
    if i < rows.len() {
        lemma_candidates_prefix(rows, wallet_id, keychains, i + 1);
        lemma_candidates_step(rows, wallet_id, keychains, i);
        let c = candidates(rows.take(i), wallet_id, keychains);
        let c1 = candidates(rows.take(i + 1), wallet_id, keychains);
        let all = candidates(rows, wallet_id, keychains);
        assert(all.take(c.len() as int) =~= c1.take(c.len() as int));
    } else {
        assert(rows.take(i) =~= rows);
        assert(candidates(rows, wallet_id, keychains).take(candidates(rows, wallet_id, keychains).len() as int) =~= candidates(rows, wallet_id, keychains));
    }
}

/// Picks inputs for a wallet: the selectable outputs of `keychains`, in table order, until
/// their value reaches `required`. Fails where there is no selectable output, where all of
/// them together fall short, and where the value reached does not fit in 64 bits.
pub fn select_inputs(utxos: &Utxos, wallet_id: WalletId, keychains: &Vec<KeychainId>, required: u64) -> (r: Result<
    (Vec<(KeychainId, OutPoint)>, Satoshis),
    BuilderError,
>)
    ensures
        match selection(utxos@, wallet_id, keychains@, required) {
            Ok(n) => r matches Ok((keys, total)) && keys@ == keys_of(
                candidates(utxos@, wallet_id, keychains@).take(n),
            ) && total.0 == value_sum(candidates(utxos@, wallet_id, keychains@).take(n)),
            Err(e) => r == Err::<(Vec<(KeychainId, OutPoint)>, Satoshis), BuilderError>(e),
        },
        r == Err::<(Vec<(KeychainId, OutPoint)>, Satoshis), BuilderError>(BuilderError::AmountOverflow) ==> value_sum(
            candidates(utxos@, wallet_id, keychains@),
        ) > u64::MAX,
{
    let ghost rows = utxos@;
    let ghost ks = keychains@;
    let mut keys: Vec<(KeychainId, OutPoint)> = Vec::new();
    let mut total: u64 = 0;
    let mut reached = required == 0;
    let mut count: usize = 0;
    let mut i: usize = 0;
    let n = utxos.len();
    while i < n
        invariant
            n == rows.len(),
            rows == utxos@,
            ks == keychains@,
            i <= n,
            count == candidates(rows.take(i as int), wallet_id, ks).len(),
            total == value_sum(candidates(rows.take(i as int), wallet_id, ks)),
            keys@ == keys_of(candidates(rows.take(i as int), wallet_id, ks)),
            reached == (total >= required),
            forall|m: int|
                0 <= m < count ==> value_sum(#[trigger] candidates(rows.take(i as int), wallet_id, ks).take(m)) < required,
            reached ==> i > 0 || required == 0,
            count <= i,
        ensures
            !reached ==> i == n,
            i <= n,
            count == candidates(rows.take(i as int), wallet_id, ks).len(),
            total == value_sum(candidates(rows.take(i as int), wallet_id, ks)),
            keys@ == keys_of(candidates(rows.take(i as int), wallet_id, ks)),
            reached == (total >= required),
            forall|m: int|
                0 <= m < count ==> value_sum(#[trigger] candidates(rows.take(i as int), wallet_id, ks).take(m)) < required,
        decreases n - i,
    {
        if reached {
            break;
        }
        let u = utxos.get(i);
        proof {
            lemma_candidates_step(rows, wallet_id, ks, i as int);
        }
        let ghost c = candidates(rows.take(i as int), wallet_id, ks);
        if u.wallet_id == wallet_id && contains_keychain(keychains, u.keychain_id) && !u.is_blocked_for_selection()
            && u.spend_detected_ledger_tx_id.is_none() {
            let t = match total.checked_add(u.value.0) {
                Some(t) => t,
                None => {
                    proof {
                        let c1 = c.push(u);
                        assert(c1.drop_last() =~= c);
                        lemma_candidates_prefix(rows, wallet_id, ks, i as int + 1);
                        let all = candidates(rows, wallet_id, ks);
                        assert(all.take(c1.len() as int) == c1);
                        lemma_value_sum_grows(all, c1.len() as int);
                        assert(covers(all, required as int, count as int + 1)) by {
                            assert forall|m: int| 0 <= m < count + 1 implies value_sum(#[trigger] all.take(m)) < required by {
                                if m < count {
                                    assert(all.take(m) =~= c.take(m));
                                } else {
                                    assert(all.take(m) =~= c);
                                }
                            }
                        }
                        lemma_covers_unique(all, required as int, count as int + 1);
                    }
                    return Err(BuilderError::AmountOverflow);
                },
            };
            let ghost c1 = c.push(u);
            proof {
                assert(c1.drop_last() =~= c);
                assert forall|m: int| 0 <= m < count + 1 implies value_sum(#[trigger] c1.take(m)) < required by {
                    if m < count {
                        assert(c1.take(m) =~= c.take(m));
                    } else {
                        assert(c1.take(m) =~= c);
                    }
                }
            }
            keys.push((u.keychain_id, u.outpoint));
            proof {
                assert(keys@ =~= keys_of(c1));
            }
            total = t;
            count = count + 1;
            reached = total >= required;
        }
        i += 1;
    }
    proof {
        lemma_candidates_prefix(rows, wallet_id, ks, i as int);
    }
    let ghost c = candidates(rows.take(i as int), wallet_id, ks);
    let ghost all = candidates(rows, wallet_id, ks);
    if !reached {
        proof {
            assert(rows.take(i as int) =~= rows);
        }
        if count == 0 {
            return Err(BuilderError::NoUsableInputs { wallet_id });
        }
        return Err(BuilderError::InsufficientFunds { wallet_id, required, available: total });
    }
    proof {
        assert(all.take(count as int) == c);
        assert(c.take(count as int) =~= c);
        if count == 0 {
            assert(required == 0);
        }
        assert(covers(all, required as int, count as int)) by {
            assert forall|m: int| 0 <= m < count implies value_sum(#[trigger] all.take(m)) < required by {
                assert(all.take(m) =~= c.take(m));
            }
        }
        if all.len() == 0 {
            assert(value_sum(all.take(0)) == 0);
        }
        assert(keys@ == keys_of(all.take(count as int)));
        assert(total == value_sum(all.take(count as int)));
        lemma_covers_unique(all, required as int, count as int);
    }
    if count == 0 && utxos_has_no_candidate(utxos, wallet_id, keychains) {
        return Err(BuilderError::NoUsableInputs { wallet_id });
    }
    proof {
        assert(all.len() > 0);
        assert(value_sum(all) >= required) by {
            lemma_value_sum_grows(all, count as int);
        }
        assert(covers(all, required as int, count as int) && keys@ == keys_of(all.take(count as int)) && total == value_sum(all.take(count as int)));
    }
    Ok((keys, Satoshis(total)))
}

fn utxos_has_no_candidate(utxos: &Utxos, wallet_id: WalletId, keychains: &Vec<KeychainId>) -> (r: bool)
    ensures
        r == (candidates(utxos@, wallet_id, keychains@).len() == 0),
{
    let ghost rows = utxos@;
    let n = utxos.len();
    let mut i: usize = 0;
    while i < n
        invariant
            n == rows.len(),
            rows == utxos@,
            i <= n,
            candidates(rows.take(i as int), wallet_id, keychains@).len() == 0,
        decreases n - i,
    {
        let u = utxos.get(i);
        proof {
            lemma_candidates_step(rows, wallet_id, keychains@, i as int);
        }
        if u.wallet_id == wallet_id && contains_keychain(keychains, u.keychain_id) && !u.is_blocked_for_selection()
            && u.spend_detected_ledger_tx_id.is_none() {
            proof {
                lemma_candidates_prefix(rows, wallet_id, keychains@, i as int + 1);
            }
            return false;
        }
        i += 1;
    }
    proof {
        assert(rows.take(i as int) =~= rows);
    }
    true
}

/// The summary of a wallet whose inputs bring `total_in`, which pays out `total_spent` and
/// is charged `fee`. What is left is change on the wallet's current keychain, unless it falls
/// below `dust_limit`: then it is added to the fee and the wallet gets no change output.
pub fn summarize_wallet(
    wallet_id: WalletId,
    current_keychain_id: KeychainId,
    signing_keychains: Vec<KeychainId>,
    total_in: Satoshis,
    total_spent: Satoshis,
    fee: Satoshis,
    dust_limit: u64,
    change_address: String,
    change_outpoint: OutPoint,
) -> (r: Result<WalletSummary, BuilderError>)
    ensures
        total_spent.0 + fee.0 > u64::MAX ==> r == Err::<WalletSummary, BuilderError>(BuilderError::AmountOverflow),
        total_spent.0 + fee.0 <= u64::MAX && total_spent.0 + fee.0 > total_in.0 ==> r == Err::<
            WalletSummary,
            BuilderError,
        >(BuilderError::InsufficientFunds { wallet_id, required: (total_spent.0 + fee.0) as u64, available: total_in.0 }),
        total_spent.0 + fee.0 <= total_in.0 ==> r.is_ok(),
        r matches Ok(s) ==> {
            let change = total_in.0 - total_spent.0 - fee.0;
            &&& s.wallet_id == wallet_id
            &&& s.current_keychain_id == current_keychain_id
            &&& s.signing_keychains@ == signing_keychains@
            &&& s.total_in_sats == total_in
            &&& s.total_spent_sats == total_spent
            &&& s.total_in_sats.0 == s.total_spent_sats.0 + s.fee_sats.0 + s.change_sats.0
            &&& change < dust_limit ==> s.change_sats.0 == 0 && s.fee_sats.0 == fee.0 + change && s.change_address.is_none()
                && s.change_outpoint.is_none()
            &&& change >= dust_limit ==> s.change_sats.0 == change && s.fee_sats == fee && s.change_address == Some(
                change_address,
            ) && s.change_outpoint == Some(change_outpoint)
            &&& s.batch_created_ledger_tx_id.is_none()
            &&& s.batch_broadcast_ledger_tx_id.is_none()
        },
{
    let required = match total_spent.0.checked_add(fee.0) {
        Some(v) => v,
        None => return Err(BuilderError::AmountOverflow),
    };
    if required > total_in.0 {
        return Err(BuilderError::InsufficientFunds { wallet_id, required, available: total_in.0 });
    }
    let change = total_in.0 - required;
    let (fee_sats, change_sats, change_address, change_outpoint) = if change < dust_limit {
        (Satoshis(fee.0 + change), Satoshis(0), None, None)
    } else {
        (fee, Satoshis(change), Some(change_address), Some(change_outpoint))
    };
    Ok(
        WalletSummary {
            wallet_id,
            current_keychain_id,
            signing_keychains,
            total_in_sats: total_in,
            total_spent_sats: total_spent,
            fee_sats,
            change_sats,
            change_address,
            change_outpoint,
            batch_created_ledger_tx_id: None,
            batch_broadcast_ledger_tx_id: None,
        },
    )
}

} // verus!
