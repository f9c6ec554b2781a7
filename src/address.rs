use vstd::prelude::*;

use crate::entity::EntityEvents;
use crate::primitives::{hyphenated_uuid, AccountId, AddressId, KeychainId, KeychainKind, ProfileId, WalletId};

verus! {

/// What can happen to an address. Metadata is held as JSON text.
pub enum AddressEvent {
    AddressInitialized,
    AddressExternalIdUpdated { external_id: String },
    AddressMetadataUpdated { metadata: String },
}

/// An address about to be stored.
pub struct NewAddress {
    pub id: AddressId,
    pub address: String,
    pub address_idx: u32,
    pub account_id: AccountId,
    pub wallet_id: WalletId,
    pub profile_id: Option<ProfileId>,
    pub keychain_id: KeychainId,
    pub external_id: String,
    pub kind: KeychainKind,
    pub metadata: Option<String>,
}

/// Why a `NewAddress` could not be built: the field that was not set.
#[derive(PartialEq, Eq, Structural, Clone, Copy, Debug)]
pub enum NewAddressBuilderError {
    MissingAddress,
    MissingAddressIdx,
    MissingAccountId,
    MissingWalletId,
    MissingKeychainId,
    MissingKind,
}

/// Collects the fields of a `NewAddress`; id and external id are set from the start.
pub struct NewAddressBuilder {
    pub id: AddressId,
    pub external_id: String,
    pub address: Option<String>,
    pub address_idx: Option<u32>,
    pub account_id: Option<AccountId>,
    pub wallet_id: Option<WalletId>,
    pub profile_id: Option<ProfileId>,
    pub keychain_id: Option<KeychainId>,
    pub kind: Option<KeychainKind>,
    pub metadata: Option<String>,
}

impl NewAddressBuilder {
    /// The address, or the first required field not set. Profile and metadata are optional.
    pub fn build(self) -> (r: Result<NewAddress, NewAddressBuilderError>)
        ensures
            (self.address.is_some() && self.address_idx.is_some() && self.account_id.is_some()
                && self.wallet_id.is_some() && self.keychain_id.is_some() && self.kind.is_some()) == r.is_ok(),
            r matches Ok(a) ==> {
                &&& a.id == self.id
                &&& a.external_id == self.external_id
                &&& Some(a.address) == self.address
                &&& Some(a.address_idx) == self.address_idx
                &&& Some(a.account_id) == self.account_id
                &&& Some(a.wallet_id) == self.wallet_id
                &&& a.profile_id == self.profile_id
                &&& Some(a.keychain_id) == self.keychain_id
                &&& Some(a.kind) == self.kind
                &&& a.metadata == self.metadata
            },
    {
        let address = match self.address {
            Some(v) => v,
            None => return Err(NewAddressBuilderError::MissingAddress),
        };
        let address_idx = match self.address_idx {
            Some(v) => v,
            None => return Err(NewAddressBuilderError::MissingAddressIdx),
        };
        let account_id = match self.account_id {
            Some(v) => v,
            None => return Err(NewAddressBuilderError::MissingAccountId),
        };
        let wallet_id = match self.wallet_id {
            Some(v) => v,
            None => return Err(NewAddressBuilderError::MissingWalletId),
        };
        let keychain_id = match self.keychain_id {
            Some(v) => v,
            None => return Err(NewAddressBuilderError::MissingKeychainId),
        };
        let kind = match self.kind {
            Some(v) => v,
            None => return Err(NewAddressBuilderError::MissingKind),
        };
        Ok(
            NewAddress {
                id: self.id,
                address,
                address_idx,
                account_id,
                wallet_id,
                profile_id: self.profile_id,
                keychain_id,
                external_id: self.external_id,
                kind,
                metadata: self.metadata,
            },
        )
    }
}

impl NewAddress {
    /// A builder with a fresh id, whose text is the default external id.
    pub fn builder() -> (r: NewAddressBuilder)
        ensures
            r.external_id@ == hyphenated_uuid(r.id.0),
            r.address.is_none() && r.address_idx.is_none() && r.account_id.is_none() && r.wallet_id.is_none()
                && r.profile_id.is_none() && r.keychain_id.is_none() && r.kind.is_none() && r.metadata.is_none(),
    {
        let id = AddressId::new();
        NewAddressBuilder {
            id,
            external_id: id.to_text(),
            address: None,
            address_idx: None,
            account_id: None,
            wallet_id: None,
            profile_id: None,
            keychain_id: None,
            kind: None,
            metadata: None,
        }
    }

    /// The events that start the address's history: initialized, its external id, and its
    /// metadata where it has any.
    pub fn initial_events(self) -> (r: EntityEvents<AddressEvent>)
        ensures
            r.wf(),
            r.persisted() == 0,
            r.events().len() == if self.metadata.is_some() { 3int } else { 2int },
            r.events()[0] == AddressEvent::AddressInitialized,
            r.events()[1] == (AddressEvent::AddressExternalIdUpdated { external_id: self.external_id }),
            self.metadata matches Some(m) ==> r.events()[2] == (AddressEvent::AddressMetadataUpdated { metadata: m }),
    {
        let mut initial: Vec<AddressEvent> = Vec::new();
        initial.push(AddressEvent::AddressInitialized);
        initial.push(AddressEvent::AddressExternalIdUpdated { external_id: self.external_id.clone() });
        let mut events = EntityEvents::init(initial);
        if let Some(metadata) = self.metadata {
            events.push(AddressEvent::AddressMetadataUpdated { metadata });
        }
        events
    }
}

} // verus!
