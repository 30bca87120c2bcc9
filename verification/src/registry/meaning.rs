//! What each registry operation means, over the registry's mathematical content.
//!
//! For an operation `op`, `op_refusal` is the reason for which a call is undone
//! (the first that applies), `after_op` the state that an accepted call leaves,
//! and `op_actions` what the ledger is asked to do.
use crate::address::Address;
use crate::errors::RegistryError;
use crate::metadata;
use crate::metadata::{Metadata, MetadataEntries, MetadataFault};
use crate::registry::model::{
    ProfileView, RegistryAbort, RegistryAction, RegistryEvent, RegistryKey, RegistryReceipt,
    RegistryState, Role, VerificationStatus, MAX_BATCH_SIZE,
};
use vstd::prelude::*;

verus! {

/// A call agrees with its meaning: it is undone for `refusal` and changes
/// nothing, or it is accepted and does all that is stated.
pub open spec fn performs<T>(
    r: Result<RegistryReceipt<T>, RegistryAbort>,
    before: RegistryState,
    after: RegistryState,
    refusal: Option<RegistryAbort>,
    next: RegistryState,
    value: T,
    actions: Seq<RegistryAction>,
) -> bool {
    match refusal {
        Some(reason) => r == Err::<RegistryReceipt<T>, RegistryAbort>(reason) && after == before,
        None => {
            &&& r matches Ok(receipt)
            &&& receipt.value == value
            &&& receipt.actions@ == actions
            &&& after == next
        },
    }
}

/// The state of a registry that nothing has been done to.
pub open spec fn blank() -> RegistryState {
    RegistryState { admin: None, profiles: Map::empty() }
}

/// The reason that a metadata fault gives.
pub open spec fn fault_reason(fault: MetadataFault) -> RegistryAbort {
    match fault {
        MetadataFault::Invalid => RegistryAbort::Error(RegistryError::InvalidMetadata),
        MetadataFault::Malformed => RegistryAbort::Malformed,
    }
}

/// Why metadata is refused.
pub open spec fn metadata_refusal(entries: MetadataEntries) -> Option<RegistryAbort> {
    match metadata::metadata_fault(entries) {
        Some(fault) => Some(fault_reason(fault)),
        None => None,
    }
}

/// Why a call that is reserved to the admin is undone.
pub open spec fn admin_refusal(s: RegistryState, signers: Set<Address>) -> Option<RegistryAbort> {
    match s.admin {
        None => Some(RegistryAbort::Error(RegistryError::NotFound)),
        Some(admin) => if !signers.contains(admin) {
            Some(RegistryAbort::Unauthorized(admin))
        } else {
            None
        },
    }
}

/// Why a call of the admin on a profile is undone.
pub open spec fn moderation_refusal(
    s: RegistryState,
    signers: Set<Address>,
    address: Address,
) -> Option<RegistryAbort> {
    if admin_refusal(s, signers) is Some {
        admin_refusal(s, signers)
    } else if !s.profiles.contains_key(address) {
        Some(RegistryAbort::Error(RegistryError::NotFound))
    } else {
        None
    }
}

/// The state with another profile under an address.
pub open spec fn with_profile(s: RegistryState, address: Address, profile: ProfileView) -> RegistryState {
    RegistryState { profiles: s.profiles.insert(address, profile), ..s }
}

/// How an address stands with the registry.
pub open spec fn status_of(s: RegistryState, address: Address) -> VerificationStatus {
    if !s.profiles.contains_key(address) {
        VerificationStatus::Unregistered
    } else if s.profiles[address].verified {
        VerificationStatus::Verified
    } else if s.profiles[address].revoked {
        VerificationStatus::Revoked
    } else {
        VerificationStatus::Pending
    }
}

/// Whether an address is verified; one without a profile is not.
pub open spec fn verified(s: RegistryState, address: Address) -> bool {
    s.profiles.contains_key(address) && s.profiles[address].verified
}

// ---------------------------------------------------------------- initialization
/// Why an initialization is undone.
pub open spec fn initialize_refusal(
    s: RegistryState,
    signers: Set<Address>,
    admin: Address,
) -> Option<RegistryAbort> {
    if s.admin is Some {
        Some(RegistryAbort::Error(RegistryError::AlreadyInitialized))
    } else if !signers.contains(admin) {
        Some(RegistryAbort::Unauthorized(admin))
    } else {
        None
    }
}

/// The state with another admin.
pub open spec fn with_admin(s: RegistryState, admin: Address) -> RegistryState {
    RegistryState { admin: Some(admin), ..s }
}

/// What an initialization asks of the ledger.
pub open spec fn initialize_actions(admin: Address) -> Seq<RegistryAction> {
    seq![
        RegistryAction::Store(RegistryKey::Admin),
        RegistryAction::Emit(RegistryEvent::ContractInitialized { admin }),
        RegistryAction::ExtendInstanceTtl,
    ]
}

// ---------------------------------------------------------------- registration
/// Why a registration is undone.
pub open spec fn register_refusal(
    s: RegistryState,
    signers: Set<Address>,
    address: Address,
    entries: MetadataEntries,
) -> Option<RegistryAbort> {
    if s.admin is None {
        Some(RegistryAbort::Error(RegistryError::NotInitialized))
    } else if metadata_refusal(entries) is Some {
        metadata_refusal(entries)
    } else if !signers.contains(address) {
        Some(RegistryAbort::Unauthorized(address))
    } else if s.profiles.contains_key(address) {
        Some(RegistryAbort::Error(RegistryError::AlreadyRegistered))
    } else {
        None
    }
}

/// A fresh profile: neither verified nor revoked.
pub open spec fn fresh_profile(role: Role, now: u64, entries: MetadataEntries) -> ProfileView {
    ProfileView { role, verified: false, revoked: false, registered_at: now, metadata: entries }
}

/// The event that announces a registration.
pub open spec fn registered_event(role: Role, address: Address) -> RegistryEvent {
    match role {
        Role::Issuer => RegistryEvent::IssuerRegistered { address },
        Role::Buyer => RegistryEvent::BuyerRegistered { address },
    }
}

/// What a changed profile asks of the ledger: the entry, its lifetime, an
/// event.
pub open spec fn profile_actions(address: Address, event: RegistryEvent) -> Seq<RegistryAction> {
    seq![
        RegistryAction::Store(RegistryKey::Profile(address)),
        RegistryAction::ExtendTtl(address),
        RegistryAction::Emit(event),
    ]
}

/// The same, and the lifetime of the contract.
pub open spec fn lasting_profile_actions(address: Address, event: RegistryEvent) -> Seq<
    RegistryAction,
> {
    profile_actions(address, event).push(RegistryAction::ExtendInstanceTtl)
}

// ---------------------------------------------------------------- batches
/// The first metadata that is refused, in the order of the batch from
/// position `i` on.
pub open spec fn first_refused(batch: Seq<(Address, Metadata)>, i: nat) -> Option<RegistryAbort>
    decreases batch.len() - i,
{
    if i >= batch.len() {
        None
    } else if metadata_refusal(metadata::metadata_entries(batch[i as int].1)) is Some {
        metadata_refusal(metadata::metadata_entries(batch[i as int].1))
    } else {
        first_refused(batch, i + 1)
    }
}

/// Why a batch is undone: as a whole, whichever entry is at fault.
pub open spec fn batch_refusal(
    s: RegistryState,
    signers: Set<Address>,
    batch: Seq<(Address, Metadata)>,
) -> Option<RegistryAbort> {
    if batch.len() > MAX_BATCH_SIZE {
        Some(RegistryAbort::Error(RegistryError::BatchSizeExceeded))
    } else if admin_refusal(s, signers) is Some {
        admin_refusal(s, signers)
    } else {
        first_refused(batch, 0)
    }
}

/// The profiles after a batch: each address without a profile, the earlier
/// entries of the batch included, gets a fresh one with its entry's metadata.
pub open spec fn batch_profiles(
    profiles: Map<Address, ProfileView>,
    batch: Seq<(Address, Metadata)>,
    role: Role,
    now: u64,
) -> Map<Address, ProfileView>
    decreases batch.len(),
{
    if batch.len() == 0 {
        profiles
    } else {
        let before = batch_profiles(profiles, batch.drop_last(), role, now);
        let (address, m) = batch.last();
        if before.contains_key(address) {
            before
        } else {
            before.insert(address, fresh_profile(role, now, metadata::metadata_entries(m)))
        }
    }
}

/// The addresses that a batch passes over because they have a profile, in the
/// order of the batch.
pub open spec fn batch_skipped(
    profiles: Map<Address, ProfileView>,
    batch: Seq<(Address, Metadata)>,
    role: Role,
    now: u64,
) -> Seq<Address>
    decreases batch.len(),
{
    if batch.len() == 0 {
        Seq::empty()
    } else {
        let before = batch_profiles(profiles, batch.drop_last(), role, now);
        let skipped = batch_skipped(profiles, batch.drop_last(), role, now);
        if before.contains_key(batch.last().0) {
            skipped.push(batch.last().0)
        } else {
            skipped
        }
    }
}

/// What the entries of a batch ask of the ledger, one after the other.
pub open spec fn batch_entry_actions(
    profiles: Map<Address, ProfileView>,
    batch: Seq<(Address, Metadata)>,
    role: Role,
    now: u64,
) -> Seq<RegistryAction>
    decreases batch.len(),
{
    if batch.len() == 0 {
        Seq::empty()
    } else {
        let before = batch_profiles(profiles, batch.drop_last(), role, now);
        let actions = batch_entry_actions(profiles, batch.drop_last(), role, now);
        let address = batch.last().0;
        if before.contains_key(address) {
            actions
        } else {
            actions + profile_actions(address, registered_event(role, address))
        }
    }
}

/// What a batch asks of the ledger: its entries, a summary, and the lifetime
/// of the contract if anyone was registered.
pub open spec fn batch_actions(
    profiles: Map<Address, ProfileView>,
    batch: Seq<(Address, Metadata)>,
    role: Role,
    now: u64,
) -> Seq<RegistryAction> {
    let skipped = batch_skipped(profiles, batch, role, now).len();
    let registered = batch.len() - skipped;
    let actions = batch_entry_actions(profiles, batch, role, now).push(
        RegistryAction::Emit(
            RegistryEvent::BatchRegistered {
                registered: registered as u32,
                skipped: skipped as u32,
            },
        ),
    );
    if registered > 0 {
        actions.push(RegistryAction::ExtendInstanceTtl)
    } else {
        actions
    }
}

/// The state after a batch.
pub open spec fn after_batch(
    s: RegistryState,
    batch: Seq<(Address, Metadata)>,
    role: Role,
    now: u64,
) -> RegistryState {
    RegistryState { profiles: batch_profiles(s.profiles, batch, role, now), ..s }
}

/// A batch call agrees with its meaning.
pub open spec fn batch_performs(
    r: Result<RegistryReceipt<Vec<Address>>, RegistryAbort>,
    before: RegistryState,
    after: RegistryState,
    signers: Set<Address>,
    batch: Seq<(Address, Metadata)>,
    role: Role,
    now: u64,
) -> bool {
    match batch_refusal(before, signers, batch) {
        Some(reason) => r == Err::<RegistryReceipt<Vec<Address>>, RegistryAbort>(reason) && after
            == before,
        None => {
            &&& r matches Ok(receipt)
            &&& receipt.value@ == batch_skipped(before.profiles, batch, role, now)
            &&& receipt.actions@ == batch_actions(before.profiles, batch, role, now)
            &&& after == after_batch(before, batch, role, now)
        },
    }
}

// ---------------------------------------------------------------- updates
/// Why an update of a profile's metadata is undone; `missing` is the error for
/// an address without a profile.
pub open spec fn update_refusal(
    s: RegistryState,
    signers: Set<Address>,
    address: Address,
    entries: MetadataEntries,
    missing: RegistryError,
) -> Option<RegistryAbort> {
    if metadata_refusal(entries) is Some {
        metadata_refusal(entries)
    } else if !signers.contains(address) {
        Some(RegistryAbort::Unauthorized(address))
    } else if !s.profiles.contains_key(address) {
        Some(RegistryAbort::Error(missing))
    } else {
        None
    }
}

/// The state after an update: the metadata is replaced, the rest stays.
pub open spec fn after_update(
    s: RegistryState,
    address: Address,
    entries: MetadataEntries,
) -> RegistryState {
    with_profile(s, address, ProfileView { metadata: entries, ..s.profiles[address] })
}

// ---------------------------------------------------------------- moderation
/// The state after an address was marked as verified or as revoked.
pub open spec fn after_verdict(s: RegistryState, address: Address, verify: bool) -> RegistryState {
    with_profile(
        s,
        address,
        ProfileView { verified: verify, revoked: !verify, ..s.profiles[address] },
    )
}

/// The state after a revocation; one who is not verified stays as they are.
pub open spec fn after_revoke(s: RegistryState, address: Address) -> RegistryState {
    if s.profiles[address].verified {
        after_verdict(s, address, false)
    } else {
        s
    }
}

/// What a revocation asks of the ledger: nothing where it changes nothing.
pub open spec fn revoke_actions(s: RegistryState, address: Address) -> Seq<RegistryAction> {
    if s.profiles[address].verified {
        lasting_profile_actions(address, RegistryEvent::AddressRevoked { address })
    } else {
        Seq::empty()
    }
}

// ---------------------------------------------------------------- admin
/// Why a transfer of ownership is undone: both sides have to authorise it.
pub open spec fn ownership_refusal(
    s: RegistryState,
    signers: Set<Address>,
    new_admin: Address,
) -> Option<RegistryAbort> {
    if admin_refusal(s, signers) is Some {
        admin_refusal(s, signers)
    } else if !signers.contains(new_admin) {
        Some(RegistryAbort::Unauthorized(new_admin))
    } else {
        None
    }
}

/// What a change of admin asks of the ledger.
pub open spec fn admin_actions(event: RegistryEvent) -> Seq<RegistryAction> {
    seq![
        RegistryAction::Store(RegistryKey::Admin),
        RegistryAction::Emit(event),
        RegistryAction::ExtendInstanceTtl,
    ]
}

} // verus!
