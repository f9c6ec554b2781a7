use vstd::prelude::*;

use crate::ledger::constants::{PAYOUT_CANCELLED_ID, QUEUED_PAYOUT_ID};
use crate::ledger::templates::payout_cancelled::cancellation_tx_params;
use crate::ledger::templates::queued_payout::queued_tx_params;
use crate::ledger::{lemma_posted_with, postable, posted_with, template_for, Ledger, LedgerError};
use crate::primitives::{
    AccountId, BatchId, JournalId, LedgerAccountId, LedgerDate, LedgerTransactionId, PayoutDestination, PayoutId,
    PayoutQueueId, Satoshis, WalletId,
};

verus! {

/// A payout queued on a payout queue.
pub struct Payout {
    pub id: PayoutId,
    pub account_id: AccountId,
    pub wallet_id: WalletId,
    pub payout_queue_id: PayoutQueueId,
    pub destination: PayoutDestination,
    pub satoshis: Satoshis,
    pub batch_id: Option<BatchId>,
    pub cancelled: bool,
}

#[derive(PartialEq, Eq, Structural, Clone, Copy, Debug)]
pub enum PayoutError {
    PayoutNotFound,
    PayoutAlreadyBatched,
    PayoutAlreadyCancelled,
}

/// Waiting on the queue: neither in a batch nor cancelled.
pub open spec fn spec_unbatched(p: Payout, queue_id: PayoutQueueId) -> bool {
    p.payout_queue_id == queue_id && p.batch_id.is_none() && !p.cancelled
}

/// The payouts waiting on the queue, in the order they were queued.
pub open spec fn unbatched(ps: Seq<Payout>, queue_id: PayoutQueueId) -> Seq<(PayoutId, WalletId, Satoshis)>
    decreases ps.len(),
{
    if ps.len() == 0 {
        Seq::empty()
    } else {
        let rest = unbatched(ps.drop_last(), queue_id);
        let p = ps.last();
        if spec_unbatched(p, queue_id) {
            rest.push((p.id, p.wallet_id, p.satoshis))
        } else {
            rest
        }
    }
}

/// `i` is the first payout with id `id`.
pub open spec fn first_with_id(ps: Seq<Payout>, id: PayoutId, i: int) -> bool {
    0 <= i < ps.len() && ps[i].id == id && forall|k: int| 0 <= k < i ==> (#[trigger] ps[k]).id != id
}

/// Every payout queued so far.
pub struct Payouts {
    payouts: Vec<Payout>,
}

impl View for Payouts {
    type V = Seq<Payout>;

    closed spec fn view(&self) -> Seq<Payout> {
        self.payouts@
    }
}

impl Payouts {
    pub fn new() -> (r: Payouts)
        ensures
            r@ == Seq::<Payout>::empty(),
    {
        Payouts { payouts: Vec::new() }
    }

    /// Queues a payout and returns its fresh id.
    pub fn queue_payout(
        &mut self,
        account_id: AccountId,
        wallet_id: WalletId,
        payout_queue_id: PayoutQueueId,
        destination: PayoutDestination,
        satoshis: Satoshis,
    ) -> (r: PayoutId)
        ensures
            final(self)@ == old(self)@.push(
                Payout {
                    id: r,
                    account_id,
                    wallet_id,
                    payout_queue_id,
                    destination,
                    satoshis,
                    batch_id: None,
                    cancelled: false,
                },
            ),
    {
        let id = PayoutId::new();
        self.payouts.push(
            Payout { id, account_id, wallet_id, payout_queue_id, destination, satoshis, batch_id: None, cancelled: false },
        );
        id
    }

    fn index_of(&self, id: PayoutId) -> (r: Option<usize>)
        ensures
            match r {
                Some(i) => i < self@.len() && self@[i as int].id == id && forall|k: int| 0 <= k < i ==> (#[trigger] self@[k]).id != id,
                None => forall|k: int| 0 <= k < self@.len() ==> (#[trigger] self@[k]).id != id,
            },
    {
        let mut i: usize = 0;
        while i < self.payouts.len()
            invariant
                i <= self.payouts@.len(),
                forall|k: int| 0 <= k < i ==> (#[trigger] self.payouts@[k]).id != id,
            decreases self.payouts.len() - i,
        {
            if self.payouts[i].id == id {
                return Some(i);
            }
            i += 1;
        }
        None
    }

    /// Cancels a payout still waiting on its queue and returns its amount, to be released
    /// from the wallet's effective balance. A payout in a batch cannot be cancelled.
    pub fn cancel_payout(&mut self, id: PayoutId) -> (r: Result<Satoshis, PayoutError>)
        ensures
            (forall|k: int| 0 <= k < old(self)@.len() ==> (#[trigger] old(self)@[k]).id != id) ==> r == Err::<
                Satoshis,
                PayoutError,
            >(PayoutError::PayoutNotFound),
            r.is_err() ==> final(self)@ == old(self)@,
            forall|i: int|
                #[trigger] first_with_id(old(self)@, id, i) ==> {
                    let p = old(self)@[i];
                    &&& p.batch_id.is_some() ==> r == Err::<Satoshis, PayoutError>(PayoutError::PayoutAlreadyBatched)
                    &&& p.batch_id.is_none() && p.cancelled ==> r == Err::<Satoshis, PayoutError>(
                        PayoutError::PayoutAlreadyCancelled,
                    )
                    &&& p.batch_id.is_none() && !p.cancelled ==> r == Ok::<Satoshis, PayoutError>(p.satoshis)
                        && final(self)@ == old(self)@.update(i, Payout { cancelled: true, ..p })
                },
    {
        let i = match self.index_of(id) {
            Some(i) => i,
            None => return Err(PayoutError::PayoutNotFound),
        };
        proof {
            assert forall|j: int| #[trigger] first_with_id(self@, id, j) implies j == i as int by {
                if j < i {
                    assert(self@[j].id != id);
                } else if j > i {
                    assert(self@[i as int].id != id);
                }
            }
        }
        if self.payouts[i].batch_id.is_some() {
            return Err(PayoutError::PayoutAlreadyBatched);
        }
        if self.payouts[i].cancelled {
            return Err(PayoutError::PayoutAlreadyCancelled);
        }
        self.payouts[i].cancelled = true;
        Ok(self.payouts[i].satoshis)
    }

    /// The payouts waiting on the queue.
    pub fn list_unbatched(&self, payout_queue_id: PayoutQueueId) -> (r: Vec<(PayoutId, WalletId, Satoshis)>)
        ensures
            r@ == unbatched(self@, payout_queue_id),
    {
        let mut r: Vec<(PayoutId, WalletId, Satoshis)> = Vec::new();
        let mut i: usize = 0;
        while i < self.payouts.len()
            invariant
                i <= self.payouts@.len(),
                r@ == unbatched(self@.take(i as int), payout_queue_id),
            decreases self.payouts.len() - i,
        {
            proof {
                assert(self@.take(i as int + 1).drop_last() =~= self@.take(i as int));
            }
            let p = &self.payouts[i];
            if p.payout_queue_id == payout_queue_id && p.batch_id.is_none() && !p.cancelled {
                r.push((p.id, p.wallet_id, p.satoshis));
            }
            i += 1;
        }
        proof {
            assert(self@.take(i as int) =~= self@);
        }
        r
    }

    /// Puts every payout waiting on the queue into the batch.
    pub fn mark_batched(&mut self, payout_queue_id: PayoutQueueId, batch_id: BatchId)
        ensures
            final(self)@.len() == old(self)@.len(),
            forall|i: int|
                0 <= i < old(self)@.len() ==> #[trigger] final(self)@[i] == if spec_unbatched(old(self)@[i], payout_queue_id) {
                    Payout { batch_id: Some(batch_id), ..old(self)@[i] }
                } else {
                    old(self)@[i]
                },
    {
        let ghost before = self@;
        let mut i: usize = 0;
        while i < self.payouts.len()
            invariant
                i <= self.payouts@.len(),
                self@.len() == before.len(),
                forall|k: int|
                    0 <= k < i ==> #[trigger] self@[k] == if spec_unbatched(before[k], payout_queue_id) {
                        Payout { batch_id: Some(batch_id), ..before[k] }
                    } else {
                        before[k]
                    },
                forall|k: int| i <= k < self@.len() ==> #[trigger] self@[k] == before[k],
            decreases self.payouts.len() - i,
        {
            if self.payouts[i].payout_queue_id == payout_queue_id && self.payouts[i].batch_id.is_none()
                && !self.payouts[i].cancelled {
                self.payouts[i].batch_id = Some(batch_id);
            }
            i += 1;
        }
    }
}

#[derive(PartialEq, Eq, Structural, Clone, Copy, Debug)]
pub enum CancelError {
    Payout(PayoutError),
    Ledger(LedgerError),
}

/// Cancels a payout still waiting on its queue (see `Payouts::cancel_payout`) and posts the
/// release of its amount (PAYOUT_CANCELLED) on the wallet's effective outgoing account.
/// Nothing changes where the template cannot be posted or the payout cannot be cancelled.
pub fn cancel_payout_and_post(
    payouts: &mut Payouts,
    ledger: &mut Ledger,
    id: PayoutId,
    tx_id: LedgerTransactionId,
    journal_id: JournalId,
    effective_outgoing_account_id: LedgerAccountId,
    external_id: String,
    effective: LedgerDate,
    meta_json: String,
) -> (r: Result<Satoshis, CancelError>)
    requires
        old(ledger).wf(),
    ensures
        final(ledger).wf(),
        !postable(old(ledger).templates(), PAYOUT_CANCELLED_ID, 1, 1) ==> r.is_err(),
        r.is_err() ==> final(payouts)@ == old(payouts)@ && final(ledger).transactions() == old(ledger).transactions(),
        postable(old(ledger).templates(), PAYOUT_CANCELLED_ID, 1, 1) ==> forall|i: int|
            #[trigger] first_with_id(old(payouts)@, id, i) ==> {
                let p = old(payouts)@[i];
                &&& p.batch_id.is_some() ==> r == Err::<Satoshis, CancelError>(
                    CancelError::Payout(PayoutError::PayoutAlreadyBatched),
                )
                &&& p.batch_id.is_none() && p.cancelled ==> r == Err::<Satoshis, CancelError>(
                    CancelError::Payout(PayoutError::PayoutAlreadyCancelled),
                )
                &&& p.batch_id.is_none() && !p.cancelled ==> r == Ok::<Satoshis, CancelError>(p.satoshis)
                    && final(payouts)@ == old(payouts)@.update(i, Payout { cancelled: true, ..p })
            },
        (forall|k: int| 0 <= k < old(payouts)@.len() ==> (#[trigger] old(payouts)@[k]).id != id) ==> r.is_err(),
        r matches Ok(amount) ==> {
            let tx = final(ledger).transactions().last();
            &&& final(ledger).transactions().drop_last() == old(ledger).transactions()
            &&& tx.id == tx_id
            &&& tx.template_id == PAYOUT_CANCELLED_ID
            &&& tx.journal_id == journal_id
            &&& tx.external_id == Some(external_id)
            &&& tx.metadata == meta_json
            &&& tx.effective == effective
            &&& tx.entries@ == posted_with(
                template_for(old(ledger).templates(), PAYOUT_CANCELLED_ID),
                seq![effective_outgoing_account_id],
                seq![amount.0],
            )
        },
{
    let probe = cancellation_tx_params(
        journal_id,
        effective_outgoing_account_id,
        Satoshis(0),
        String::new(),
        effective,
        String::new(),
    );
    match ledger.check_postable(PAYOUT_CANCELLED_ID, &probe) {
        Ok(()) => {},
        Err(e) => return Err(CancelError::Ledger(e)),
    }
    let amount = match payouts.cancel_payout(id) {
        Ok(a) => a,
        Err(e) => return Err(CancelError::Payout(e)),
    };
    let params = cancellation_tx_params(journal_id, effective_outgoing_account_id, amount, external_id, effective, meta_json);
    proof {
        lemma_posted_with(template_for(ledger.templates(), PAYOUT_CANCELLED_ID), params);
    }
    match ledger.post_transaction(tx_id, PAYOUT_CANCELLED_ID, &params) {
        Ok(()) => {},
        Err(e) => return Err(CancelError::Ledger(e)),
    }
    Ok(amount)
}

/// Queues a payout and posts the encumbrance of its amount (QUEUED_PAYOUT) on the wallet's
/// effective outgoing account as transaction `tx_id`. Nothing changes where the template
/// cannot be posted.
pub fn queue_payout_and_post(
    payouts: &mut Payouts,
    ledger: &mut Ledger,
    account_id: AccountId,
    wallet_id: WalletId,
    payout_queue_id: PayoutQueueId,
    destination: PayoutDestination,
    satoshis: Satoshis,
    tx_id: LedgerTransactionId,
    journal_id: JournalId,
    effective_outgoing_account_id: LedgerAccountId,
    external_id: String,
    effective: LedgerDate,
    meta_json: String,
) -> (r: Result<PayoutId, LedgerError>)
    requires
        old(ledger).wf(),
    ensures
        final(ledger).wf(),
        r.is_ok() == postable(old(ledger).templates(), QUEUED_PAYOUT_ID, 1, 1),
        r.is_err() ==> final(payouts)@ == old(payouts)@ && final(ledger).transactions() == old(ledger).transactions(),
        r matches Ok(id) ==> {
            let tx = final(ledger).transactions().last();
            &&& final(payouts)@ == old(payouts)@.push(
                Payout {
                    id,
                    account_id,
                    wallet_id,
                    payout_queue_id,
                    destination,
                    satoshis,
                    batch_id: None,
                    cancelled: false,
                },
            )
            &&& final(ledger).transactions().drop_last() == old(ledger).transactions()
            &&& tx.id == tx_id
            &&& tx.template_id == QUEUED_PAYOUT_ID
            &&& tx.journal_id == journal_id
            &&& tx.external_id == Some(external_id)
            &&& tx.metadata == meta_json
            &&& tx.effective == effective
            &&& tx.entries@ == posted_with(
                template_for(old(ledger).templates(), QUEUED_PAYOUT_ID),
                seq![effective_outgoing_account_id],
                seq![satoshis.0],
            )
        },
{
    let params = queued_tx_params(journal_id, effective_outgoing_account_id, satoshis, external_id, effective, meta_json);
    match ledger.check_postable(QUEUED_PAYOUT_ID, &params) {
        Ok(()) => {},
        Err(e) => return Err(e),
    }
    let id = payouts.queue_payout(account_id, wallet_id, payout_queue_id, destination, satoshis);
    proof {
        lemma_posted_with(template_for(ledger.templates(), QUEUED_PAYOUT_ID), params);
    }
    match ledger.post_transaction(tx_id, QUEUED_PAYOUT_ID, &params) {
        Ok(()) => {},
        Err(e) => return Err(e),
    }
    Ok(id)
}

} // verus!
