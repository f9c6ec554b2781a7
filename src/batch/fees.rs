use vstd::prelude::*;

use crate::primitives::WalletId;

verus! {

pub open spec fn sum_u64(s: Seq<u64>) -> int
    decreases s.len(),
{
    if s.len() == 0 {
        0
    } else {
        sum_u64(s.drop_last()) + s.last()
    }
}

/// A wallet's share of `total` before the remainder: its bytes times the total fee, divided
/// by all bytes, rounded down.
pub open spec fn base_share(vbytes: u64, total: u64, all: int) -> int {
    (vbytes as int * total as int) / all
}

/// What rounding down left of a wallet's share.
pub open spec fn share_remainder(vbytes: u64, total: u64, all: int) -> int {
    (vbytes as int * total as int) % all
}

pub open spec fn base_sum(v: Seq<u64>, total: u64, all: int) -> int
    decreases v.len(),
{
    if v.len() == 0 {
        0
    } else {
        base_sum(v.drop_last(), total, all) + base_share(v.last(), total, all)
    }
}

/// Wallet `w` outranks wallet `j` for the remainder: a larger remainder, or an equal one and a
/// lower id, or the same id and an earlier place.
pub open spec fn outranks(ids: Seq<WalletId>, v: Seq<u64>, total: u64, w: int, j: int) -> bool {
    let all = sum_u64(v);
    share_remainder(v[j], total, all) < share_remainder(v[w], total, all) || (share_remainder(v[j], total, all)
        == share_remainder(v[w], total, all) && (ids[w].0 < ids[j].0 || (ids[w].0 == ids[j].0 && w <= j)))
}

/// Wallet `w` takes the remainder: it has the largest remainder, and the lowest id among those
/// that have it (the first such wallet where ids repeat).
pub open spec fn takes_remainder(ids: Seq<WalletId>, v: Seq<u64>, total: u64, w: int) -> bool {
    &&& 0 <= w < v.len()
    &&& forall|j: int| 0 <= j < v.len() ==> #[trigger] outranks(ids, v, total, w, j)
}

/// The wallet that takes the remainder.
pub open spec fn remainder_taker(ids: Seq<WalletId>, v: Seq<u64>, total: u64) -> int {
    choose|w: int| takes_remainder(ids, v, total, w)
}

/// The fee of wallet `i` when `total` is split by `v`.
pub open spec fn fee_share(ids: Seq<WalletId>, v: Seq<u64>, total: u64, i: int) -> int {
    attributed_fee(v, total, remainder_taker(ids, v, total), i)
}

pub proof fn lemma_remainder_taker_unique(ids: Seq<WalletId>, v: Seq<u64>, total: u64, w: int)
    requires
        takes_remainder(ids, v, total, w),
    ensures
        remainder_taker(ids, v, total) == w,
{
    let x = remainder_taker(ids, v, total);
    assert(outranks(ids, v, total, w, x));
    assert(outranks(ids, v, total, x, w));
}

/// The fee of wallet `i`: its base share, and for the wallet that takes the remainder, all that
/// rounding left over.
pub open spec fn attributed_fee(v: Seq<u64>, total: u64, w: int, i: int) -> int {
    let all = sum_u64(v);
    base_share(v[i], total, all) + if i == w { total - base_sum(v, total, all) } else { 0 }
}

pub proof fn lemma_sum_prefix(s: Seq<u64>, i: int)
    requires
        0 <= i <= s.len(),
    ensures
        0 <= sum_u64(s.take(i)) <= sum_u64(s),
    decreases s.len(),
{
    if i < s.len() {
        assert(s.drop_last().take(i) =~= s.take(i));
        lemma_sum_prefix(s.drop_last(), i);
    } else {
        assert(s.take(i) =~= s);
    }
    lemma_sum_nonneg(s.take(i));
}

pub proof fn lemma_sum_nonneg(s: Seq<u64>)
    ensures
        sum_u64(s) >= 0,
    decreases s.len(),
{
    if s.len() > 0 {
        lemma_sum_nonneg(s.drop_last());
    }
}

pub proof fn lemma_elem_le_sum(s: Seq<u64>, i: int)
    requires
        0 <= i < s.len(),
    ensures
        s[i] <= sum_u64(s),
    decreases s.len(),
{
    lemma_sum_nonneg(s.drop_last());
    if i < s.len() - 1 {
        lemma_elem_le_sum(s.drop_last(), i);
    }
}

pub proof fn lemma_sum_update(s: Seq<u64>, i: int, x: u64)
    requires
        0 <= i < s.len(),
    ensures
        sum_u64(s.update(i, x)) == sum_u64(s) - s[i] + x,
    decreases s.len(),
{
    let u = s.update(i, x);
    if i == s.len() - 1 {
        assert(u.drop_last() =~= s.drop_last());
    } else {
        assert(u.drop_last() =~= s.drop_last().update(i, x));
        lemma_sum_update(s.drop_last(), i, x);
    }
}

/// Rounded-down shares never add up to more than the whole: the bases of a set of wallets,
/// times all bytes, are at most their bytes times the total.
pub proof fn lemma_base_sum_bound(v: Seq<u64>, total: u64, all: int)
    requires
        all > 0,
    ensures
        base_sum(v, total, all) * all <= sum_u64(v) * total,
        base_sum(v, total, all) >= 0,
    decreases v.len(),
{
    if v.len() > 0 {
        lemma_base_sum_bound(v.drop_last(), total, all);
        let b0 = base_sum(v.drop_last(), total, all);
        let s0 = sum_u64(v.drop_last());
        let x = v.last() as int;
        let t = total as int;
        let b = (x * t) / all;
        assert(b * all <= x * t) by (nonlinear_arith)
            requires b == (x * t) / all, all > 0;
        assert(b >= 0) by (nonlinear_arith)
            requires b == (x * t) / all, all > 0, x >= 0, t >= 0;
        assert((b0 + b) * all <= (s0 + x) * t) by (nonlinear_arith)
            requires b0 * all <= s0 * t, b * all <= x * t;
    }
}

/// Splits `total` among wallets in proportion to the bytes each adds to the transaction
/// (`vbytes`, aligned with `ids`): each gets its rounded-down share, and the wallet with the
/// largest remainder (lowest id on a tie) also gets what rounding left. `None` where there
/// are no bytes at all, or more than 64 bits can count.
pub fn attribute_fees(ids: &Vec<WalletId>, vbytes: &Vec<u64>, total: u64) -> (r: Option<Vec<u64>>)
    requires
        ids@.len() == vbytes@.len(),
    ensures
        r.is_some() == (0 < sum_u64(vbytes@) <= u64::MAX),
        r matches Some(fees) ==> {
            &&& fees@.len() == vbytes@.len()
            &&& sum_u64(fees@) == total
            &&& exists|w: int|
                takes_remainder(ids@, vbytes@, total, w) && forall|i: int|
                    0 <= i < fees@.len() ==> #[trigger] fees@[i] == attributed_fee(vbytes@, total, w, i)
            &&& forall|i: int| 0 <= i < fees@.len() ==> #[trigger] fees@[i] == fee_share(ids@, vbytes@, total, i)
        },
{
    let n = vbytes.len();
    let mut all: u64 = 0;
    let mut i: usize = 0;
    while i < n
        invariant
            i <= n == vbytes@.len(),
            all == sum_u64(vbytes@.take(i as int)),
        decreases n - i,
    {
        proof {
            assert(vbytes@.take(i as int + 1).drop_last() =~= vbytes@.take(i as int));
        }
        match all.checked_add(vbytes[i]) {
            Some(a) => {
                all = a;
            },
            None => {
                proof {
                    lemma_sum_prefix(vbytes@, i as int + 1);
                }
                return None;
            },
        }
        i += 1;
    }
    proof {
        assert(vbytes@.take(i as int) =~= vbytes@);
    }
    if all == 0 {
        return None;
    }
    let ghost v = vbytes@;
    let mut bases: Vec<u64> = Vec::new();
    let mut acc: u64 = 0;
    let mut w: usize = 0;
    let mut best: u128 = 0;
    i = 0;
    while i < n
        invariant
            i <= n == v.len() == ids@.len(),
            v == vbytes@,
            all as int == sum_u64(v),
            all > 0,
            bases@.len() == i,
            forall|k: int| 0 <= k < i ==> #[trigger] bases@[k] == base_share(v[k], total, all as int),
            acc == base_sum(v.take(i as int), total, all as int),
            acc == sum_u64(bases@),
            i > 0 ==> w < i && best == share_remainder(v[w as int], total, all as int),
            sum_u64(v) == all as int,
            forall|j: int| 0 <= j < i ==> #[trigger] outranks(ids@, v, total, w as int, j),
        decreases n - i,
    {
        let x = vbytes[i];
        proof {
            assert((x as int) * (total as int) <= u64::MAX as int * u64::MAX as int) by (nonlinear_arith)
                requires x <= u64::MAX, total <= u64::MAX;
            assert(u64::MAX as int * u64::MAX as int <= u128::MAX);
        }
        let prod: u128 = (x as u128) * (total as u128);
        let base = prod / (all as u128);
        let rem = prod % (all as u128);
        proof {
            assert(v.take(i as int + 1).drop_last() =~= v.take(i as int));
            lemma_base_sum_bound(v.take(i as int + 1), total, all as int);
            lemma_sum_prefix(v, i as int + 1);
            let s1 = sum_u64(v.take(i as int + 1));
            let b1 = base_sum(v.take(i as int + 1), total, all as int);
            assert(b1 * all <= s1 * total);
            assert(s1 * total <= all * total) by (nonlinear_arith)
                requires s1 <= all, total >= 0;
            assert(b1 <= total) by (nonlinear_arith)
                requires b1 * all <= all * total, all > 0;
            assert(base == base_share(v[i as int], total, all as int));
            assert(rem == share_remainder(v[i as int], total, all as int));
        }
        let ghost old_bases = bases@;
        bases.push(base as u64);
        proof {
            assert(bases@.drop_last() =~= old_bases);
        }
        acc = acc + base as u64;
        let ghost old_w = w;
        if i == 0 || rem > best || (rem == best && ids[i].0 < ids[w].0) {
            w = i;
            best = rem;
        }
        proof {
            assert forall|j: int| 0 <= j < i + 1 implies #[trigger] outranks(ids@, v, total, w as int, j) by {
                if j < i {
                    assert(outranks(ids@, v, total, old_w as int, j));
                }
            }
        }
        i += 1;
    }
    proof {
        assert(v.take(i as int) =~= v);
        lemma_base_sum_bound(v, total, all as int);
        assert(acc * all <= all * total) by (nonlinear_arith)
            requires acc * all <= sum_u64(v) * total, sum_u64(v) == all;
        assert(acc <= total) by (nonlinear_arith)
            requires acc * all <= all * total, all > 0;
        lemma_elem_le_sum(bases@, w as int);
    }
    let leftover = total - acc;
    let ghost before = bases@;
    let bonus = bases[w] + leftover;
    bases.set(w, bonus);
    proof {
        lemma_sum_update(before, w as int, bonus);
        assert(takes_remainder(ids@, vbytes@, total, w as int));
        lemma_remainder_taker_unique(ids@, vbytes@, total, w as int);
        assert forall|k: int| 0 <= k < bases@.len() implies #[trigger] bases@[k] == attributed_fee(vbytes@, total, w as int, k) by {}
    }
    Some(bases)
}

} // verus!
