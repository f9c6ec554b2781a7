use vstd::prelude::*;

use crate::entity::EntityError;

verus! {

/// Why a profile operation failed.
#[derive(PartialEq, Eq, Structural, Clone, Copy, Debug)]
pub enum ProfileError {
    /// The store failed; the detail stays with the store.
    Sqlx,
    EntityError(EntityError),
}

impl ProfileError {
    pub fn from_entity_error(e: EntityError) -> (r: ProfileError)
        ensures
            r == ProfileError::EntityError(e),
    {
        ProfileError::EntityError(e)
    }
}

} // verus!
