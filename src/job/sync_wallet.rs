use vstd::prelude::*;

use crate::primitives::WalletId;

verus! {

/// The payload of a sync job: the wallet to sync.
#[derive(PartialEq, Eq, Structural, Clone, Copy, Debug)]
pub struct SyncWalletData {
    pub wallet_id: WalletId,
}

impl SyncWalletData {
    pub fn new(id: WalletId) -> (r: Self)
        ensures
            r.wallet_id == id,
    {
        SyncWalletData { wallet_id: id }
    }
}

} // verus!
