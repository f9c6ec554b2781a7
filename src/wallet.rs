use vstd::prelude::*;

use crate::ledger::WalletLedgerAccountIds;
use crate::primitives::{AccountId, JournalId, KeychainId, WalletId};

verus! {

#[derive(PartialEq, Eq, Structural, Clone, Copy, Debug)]
pub struct WalletConfig {
    /// How many confirmations make an incoming output settled.
    pub mark_settled_after_n_confs: u32,
}

/// A wallet: its ledger accounts, and its keychains, the current one first and the deprecated
/// ones after it.
pub struct Wallet {
    pub id: WalletId,
    pub account_id: AccountId,
    pub journal_id: JournalId,
    pub ledger_account_ids: WalletLedgerAccountIds,
    pub config: WalletConfig,
    pub keychains: Vec<KeychainId>,
}

impl Wallet {
    /// A wallet always has a current keychain.
    pub open spec fn wf(&self) -> bool {
        self.keychains@.len() > 0
    }

    /// The keychain new addresses and change come from.
    pub fn current_keychain_id(&self) -> (r: KeychainId)
        requires
            self.wf(),
        ensures
            r == self.keychains@[0],
    {
        self.keychains[0]
    }

    /// The keychains coin selection may draw from: all of them where deprecated keychains are
    /// consolidated, else the current one alone.
    pub fn spendable_keychains(&self, consolidate_deprecated_keychains: bool) -> (r: Vec<KeychainId>)
        requires
            self.wf(),
        ensures
            consolidate_deprecated_keychains ==> r@ == self.keychains@,
            !consolidate_deprecated_keychains ==> r@ == seq![self.keychains@[0]],
    {
        if consolidate_deprecated_keychains {
            let mut r: Vec<KeychainId> = Vec::new();
            let mut i: usize = 0;
            while i < self.keychains.len()
                invariant
                    i <= self.keychains@.len(),
                    r@ == self.keychains@.take(i as int),
                decreases self.keychains.len() - i,
            {
                r.push(self.keychains[i]);
                proof {
                    assert(r@ =~= self.keychains@.take(i as int + 1));
                }
                i += 1;
            }
            proof {
                assert(r@ =~= self.keychains@);
            }
            r
        } else {
            let mut r: Vec<KeychainId> = Vec::new();
            r.push(self.keychains[0]);
            proof {
                assert(r@ =~= seq![self.keychains@[0]]);
            }
            r
        }
    }
}

} // verus!
