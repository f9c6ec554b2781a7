use vstd::prelude::*;

pub mod process_batch_group;
pub mod sync_wallet;

verus! {

} // verus!
