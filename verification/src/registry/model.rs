//! The registry's state and the actions it asks for.
use crate::address::Address;
use crate::errors::RegistryError;
use crate::metadata;
use crate::metadata::{Metadata, MetadataEntries};
use crate::table::Table;
use vstd::prelude::*;

verus! {

/// Most entries that a batch registration may have.
pub const MAX_BATCH_SIZE: usize = 50;

/// What a registered address trades as.
#[derive(Clone, Copy, Debug, PartialEq, Eq)]
pub enum Role {
    Issuer,
    Buyer,
}

/// How an address stands with the registry.
#[derive(Clone, Copy, Debug, PartialEq, Eq)]
pub enum VerificationStatus {
    /// It has no profile.
    Unregistered,
    /// It has a profile that has been neither verified nor revoked.
    Pending,
    /// Its profile is verified.
    Verified,
    /// Its verification has been withdrawn.
    Revoked,
}

/// What the registry knows of an address.
#[derive(Debug, PartialEq, Eq)]
pub struct Profile {
    pub role: Role,
    pub verified: bool,
    pub revoked: bool,
    pub registered_at: u64,
    pub metadata: Metadata,
}

/// The mathematical content of a profile.
pub struct ProfileView {
    pub role: Role,
    pub verified: bool,
    pub revoked: bool,
    pub registered_at: u64,
    pub metadata: MetadataEntries,
}

impl View for Profile {
    type V = ProfileView;

    open spec fn view(&self) -> ProfileView {
        ProfileView {
            role: self.role,
            verified: self.verified,
            revoked: self.revoked,
            registered_at: self.registered_at,
            metadata: metadata::metadata_entries(self.metadata),
        }
    }
}

impl Profile {
    /// A profile that has not been revoked.
    pub fn new(role: Role, verified: bool, registered_at: u64, metadata: Metadata) -> (r: Self)
        ensures
            r@ == (ProfileView {
                role,
                verified,
                revoked: false,
                registered_at,
                metadata: metadata::metadata_entries(metadata),
            }),
            r.metadata == metadata,
    {
        Profile { role, verified, revoked: false, registered_at, metadata }
    }

    /// What the address trades as.
    pub fn role(&self) -> (r: Role)
        ensures
            r == self@.role,
    {
        self.role
    }

    /// Whether the address is verified.
    pub fn verified(&self) -> (r: bool)
        ensures
            r == self@.verified,
    {
        self.verified
    }

    /// Whether the verification has been withdrawn.
    pub fn revoked(&self) -> (r: bool)
        ensures
            r == self@.revoked,
    {
        self.revoked
    }

    /// When the address was registered, in seconds.
    pub fn registered_at(&self) -> (r: u64)
        ensures
            r == self@.registered_at,
    {
        self.registered_at
    }

    /// Marks the profile as verified or not.
    pub fn set_verified(&mut self, verified: bool)
        ensures
            final(self)@ == (ProfileView { verified, ..old(self)@ }),
            final(self).metadata == old(self).metadata,
    {
        self.verified = verified;
    }

    /// Marks the profile as revoked or not.
    pub fn set_revoked(&mut self, revoked: bool)
        ensures
            final(self)@ == (ProfileView { revoked, ..old(self)@ }),
            final(self).metadata == old(self).metadata,
    {
        self.revoked = revoked;
    }

    /// Replaces the metadata.
    pub fn set_metadata(&mut self, metadata: Metadata)
        ensures
            final(self)@ == (ProfileView { metadata: metadata::metadata_entries(metadata), ..old(self)@ }),
            final(self).metadata == metadata,
    {
        self.metadata = metadata;
    }
}

/// Why a call to the registry is undone.
#[derive(Clone, Copy, Debug, PartialEq, Eq)]
pub enum RegistryAbort {
    /// The contract refuses the call with an error of its own.
    Error(RegistryError),
    /// The address has not authorised the call.
    Unauthorized(Address),
    /// The metadata holds something else than texts.
    Malformed,
}

/// The ledger entries that hold the registry's state.
#[derive(Clone, Copy, Debug, PartialEq, Eq)]
pub enum RegistryKey {
    Admin,
    Profile(Address),
}

/// The events that the registry publishes.
#[derive(Clone, Copy, Debug, PartialEq, Eq)]
pub enum RegistryEvent {
    ContractInitialized { admin: Address },
    IssuerRegistered { address: Address },
    BuyerRegistered { address: Address },
    BatchRegistered { registered: u32, skipped: u32 },
    ProfileUpdated { address: Address },
    MetadataUpdated { address: Address },
    AddressRevoked { address: Address },
    AddressReinstated { address: Address },
    ProfileVerified { address: Address, verified: bool },
    OwnershipTransferred { old_admin: Address, new_admin: Address },
    AdminTransferred { old_admin: Address, new_admin: Address },
}

impl RegistryEvent {
    /// The name under which the event is published.
    pub open spec fn spec_topic(self) -> Seq<char> {
        match self {
            RegistryEvent::ContractInitialized { .. } => "contract_initialized"@,
            RegistryEvent::IssuerRegistered { .. } => "issuer_registered"@,
            RegistryEvent::BuyerRegistered { .. } => "buyer_registered"@,
            RegistryEvent::BatchRegistered { .. } => "batch_registered"@,
            RegistryEvent::ProfileUpdated { .. } => "profile_updated"@,
            RegistryEvent::MetadataUpdated { .. } => "metadata_updated"@,
            RegistryEvent::AddressRevoked { .. } => "address_revoked"@,
            RegistryEvent::AddressReinstated { .. } => "address_reinstated"@,
            RegistryEvent::ProfileVerified { .. } => "profile_verified"@,
            RegistryEvent::OwnershipTransferred { .. } => "ownership_transferred"@,
            RegistryEvent::AdminTransferred { .. } => "admin_transferred"@,
        }
    }

    /// The name under which the event is published.
    pub fn topic(&self) -> (r: &'static str)
        ensures
            r@ == self.spec_topic(),
    {
        match self {
            RegistryEvent::ContractInitialized { .. } => "contract_initialized",
            RegistryEvent::IssuerRegistered { .. } => "issuer_registered",
            RegistryEvent::BuyerRegistered { .. } => "buyer_registered",
            RegistryEvent::BatchRegistered { .. } => "batch_registered",
            RegistryEvent::ProfileUpdated { .. } => "profile_updated",
            RegistryEvent::MetadataUpdated { .. } => "metadata_updated",
            RegistryEvent::AddressRevoked { .. } => "address_revoked",
            RegistryEvent::AddressReinstated { .. } => "address_reinstated",
            RegistryEvent::ProfileVerified { .. } => "profile_verified",
            RegistryEvent::OwnershipTransferred { .. } => "ownership_transferred",
            RegistryEvent::AdminTransferred { .. } => "admin_transferred",
        }
    }
}

/// What is to be done on the ledger once a call has succeeded, in order.
#[derive(Clone, Copy, Debug, PartialEq, Eq)]
pub enum RegistryAction {
    /// Write the registry's new value of an entry.
    Store(RegistryKey),
    /// Extend the lifetime of a profile.
    ExtendTtl(Address),
    /// Extend the lifetime of the contract itself.
    ExtendInstanceTtl,
    /// Publish an event.
    Emit(RegistryEvent),
}

/// The outcome of a call that succeeded.
#[derive(Clone, Debug, PartialEq, Eq)]
pub struct RegistryReceipt<T> {
    /// What the call returns.
    pub value: T,
    /// What is to be done on the ledger, in order.
    pub actions: Vec<RegistryAction>,
}

/// The registry contract's storage.
#[derive(Debug, PartialEq, Eq)]
pub struct RegistryContract {
    pub admin: Option<Address>,
    pub profiles: Table<Address, Profile>,
}

/// The mathematical content of a registry.
#[verifier::ext_equal]
pub struct RegistryState {
    pub admin: Option<Address>,
    pub profiles: Map<Address, ProfileView>,
}

impl View for RegistryContract {
    type V = RegistryState;

    open spec fn view(&self) -> RegistryState {
        RegistryState {
            admin: self.admin,
            profiles: self.profiles@.map_values(|p: Profile| p@),
        }
    }
}

} // verus!
