//! What the registry's calls come to, entry by entry, and when they are refused.
//!
//! The laws speak of the profiles before and after, so that they say what a
//! call is for, however it is carried out.
use crate::address::Address;
use crate::errors::RegistryError;
use crate::metadata;
use crate::metadata::{Metadata, MetadataEntries};
use crate::registry::laws;
use crate::registry::meaning;
use crate::registry::model::{
    ProfileView, RegistryAbort, RegistryAction, RegistryContract, RegistryReceipt, RegistryState,
    Role, VerificationStatus,
};
use vstd::prelude::*;

verus! {

/// A refusal with an error of the registry's own.
pub open spec fn error(e: RegistryError) -> Option<RegistryAbort> {
    Some(RegistryAbort::Error(e))
}

/// Whether two states agree on the admin and on all profiles but one.
pub open spec fn same_but(s: RegistryState, t: RegistryState, address: Address) -> bool {
    &&& s.admin == t.admin
    &&& forall|a: Address|
        a != address ==> {
            &&& #[trigger] s.profiles.contains_key(a) == t.profiles.contains_key(a)
            &&& s.profiles.contains_key(a) ==> s.profiles[a] == t.profiles[a]
        }
}

/// A refused call hands back the reason and leaves the state alone; an
/// accepted one hands back its value and its actions and leaves the new state.
pub proof fn law_outcome_is_fixed<T>(
    r: Result<RegistryReceipt<T>, RegistryAbort>,
    before: RegistryState,
    after: RegistryState,
    refusal: Option<RegistryAbort>,
    next: RegistryState,
    value: T,
    actions: Seq<RegistryAction>,
)
    requires
        meaning::performs(r, before, after, refusal, next, value, actions),
    ensures
        r is Ok <==> refusal is None,
        r matches Err(reason) ==> refusal == Some(reason) && after == before,
        r matches Ok(receipt) ==> {
            &&& receipt.value == value
            &&& receipt.actions@ == actions
            &&& after == next
        },
{
}

/// The same of a batch: it hands back the addresses it passed over.
pub proof fn law_batch_outcome_is_fixed(
    r: Result<RegistryReceipt<Vec<Address>>, RegistryAbort>,
    before: RegistryState,
    after: RegistryState,
    signers: Set<Address>,
    batch: Seq<(Address, Metadata)>,
    role: Role,
    now: u64,
)
    requires
        meaning::batch_performs(r, before, after, signers, batch, role, now),
    ensures
        r is Ok <==> meaning::batch_refusal(before, signers, batch) is None,
        r matches Err(reason) ==> meaning::batch_refusal(before, signers, batch) == Some(reason)
            && after == before,
        r matches Ok(receipt) ==> {
            &&& receipt.value@ == meaning::batch_skipped(before.profiles, batch, role, now)
            &&& receipt.actions@ == meaning::batch_actions(before.profiles, batch, role, now)
            &&& after.admin == before.admin
            &&& after.profiles == meaning::batch_profiles(before.profiles, batch, role, now)
        },
{
}

/// The mathematical content of a registry is its admin and what its profiles
/// hold, field by field.
pub proof fn law_registry_is_seen_as_it_is(registry: RegistryContract, address: Address)
    ensures
        registry@.admin == registry.admin,
        registry@.profiles.contains_key(address) <==> registry.profiles@.contains_key(address),
        registry.profiles@.contains_key(address) ==> {
            let seen = registry@.profiles[address];
            let p = registry.profiles@[address];
            &&& seen.role == p.role && seen.registered_at == p.registered_at
            &&& seen.verified == p.verified && seen.revoked == p.revoked
            &&& seen.metadata == metadata::metadata_entries(p.metadata)
        },
{
}

/// A registry that nothing has been done to has no admin and no profiles.
pub proof fn law_blank_registry_is_empty()
    ensures
        meaning::blank().admin is None,
        meaning::blank().profiles == Map::<Address, ProfileView>::empty(),
{
}

// ---------------------------------------------------------------- status
/// What an address counts as: unregistered without a profile, else verified,
/// revoked or pending, by what its profile is marked as.
pub proof fn law_status_follows_the_profile(s: RegistryState, address: Address)
    ensures
        ({
            let known = s.profiles.contains_key(address);
            let p = s.profiles[address];
            let status = meaning::status_of(s, address);
            &&& status == VerificationStatus::Unregistered <==> !known
            &&& status == VerificationStatus::Verified <==> known && p.verified
            &&& status == VerificationStatus::Revoked <==> known && !p.verified && p.revoked
            &&& status == VerificationStatus::Pending <==> known && !p.verified && !p.revoked
            &&& meaning::verified(s, address) <==> known && p.verified
        }),
{
}

/// A verdict settles the status whatever it was, pending included: verified if
/// it is favourable, revoked if not. The rest of the profile and all else stay.
pub proof fn law_verdict_settles_the_status(s: RegistryState, address: Address, verify: bool)
    requires
        s.profiles.contains_key(address),
    ensures
        ({
            let t = meaning::after_verdict(s, address, verify);
            let p = t.profiles[address];
            &&& t.profiles.contains_key(address)
            &&& p.verified == verify && p.revoked != verify
            &&& meaning::status_of(t, address) == if verify {
                VerificationStatus::Verified
            } else {
                VerificationStatus::Revoked
            }
            &&& meaning::verified(t, address) == verify
            &&& p.role == s.profiles[address].role
            &&& p.registered_at == s.profiles[address].registered_at
            &&& p.metadata == s.profiles[address].metadata
            &&& same_but(s, t, address)
        }),
{
}

/// A revocation turns verified into revoked, and leaves every other status and
/// all else as it is.
pub proof fn law_revocation_withdraws_a_verification(s: RegistryState, address: Address)
    requires
        s.profiles.contains_key(address),
    ensures
        ({
            let t = meaning::after_revoke(s, address);
            let before = s.profiles[address];
            let p = t.profiles[address];
            &&& !before.verified ==> t == s
            &&& before.verified ==> {
                &&& t.profiles.contains_key(address)
                &&& !p.verified && p.revoked
                &&& meaning::status_of(t, address) == VerificationStatus::Revoked
                &&& p.role == before.role && p.registered_at == before.registered_at
                &&& p.metadata == before.metadata
                &&& same_but(s, t, address)
            }
        }),
{
}

// ---------------------------------------------------------------- registration and updates
/// A registration leaves a profile in the role asked for, of the time of the
/// call and with the metadata given, neither verified nor revoked; all else
/// stays.
pub proof fn law_registration_stores_what_was_given(
    s: RegistryState,
    address: Address,
    role: Role,
    now: u64,
    entries: MetadataEntries,
)
    ensures
        ({
            let t = meaning::with_profile(s, address, meaning::fresh_profile(role, now, entries));
            let p = t.profiles[address];
            &&& t.profiles.contains_key(address)
            &&& p.role == role && p.registered_at == now && p.metadata == entries
            &&& !p.verified && !p.revoked
            &&& same_but(s, t, address)
        }),
{
}

/// An update replaces the metadata and nothing else.
pub proof fn law_update_replaces_the_metadata(
    s: RegistryState,
    address: Address,
    entries: MetadataEntries,
)
    requires
        s.profiles.contains_key(address),
    ensures
        ({
            let t = meaning::after_update(s, address, entries);
            let before = s.profiles[address];
            let p = t.profiles[address];
            &&& t.profiles.contains_key(address)
            &&& p.metadata == entries
            &&& p.role == before.role && p.registered_at == before.registered_at
            &&& p.verified == before.verified && p.revoked == before.revoked
            &&& same_but(s, t, address)
        }),
{
}

/// When metadata is refused: it has more than twenty entries, or else the first
/// entry that is not a pair of texts of 1 to 64 and 1 to 512 bytes is at fault.
pub proof fn law_metadata_refusals(entries: MetadataEntries, i: int)
    ensures
        ({
            let refusal = meaning::metadata_refusal(entries);
            &&& entries.len() > 20 ==> refusal == error(RegistryError::InvalidMetadata)
            &&& entries.len() <= 20 && 0 <= i < entries.len() && !metadata::sound_entry(entries[i])
                && (forall|j: int| 0 <= j < i ==> metadata::sound_entry(#[trigger] entries[j]))
                ==> refusal == if entries[i] is None {
                Some(RegistryAbort::Malformed)
            } else {
                error(RegistryError::InvalidMetadata)
            }
            &&& refusal is None <==> entries.len() <= 20 && forall|j: int|
                0 <= j < entries.len() ==> metadata::sound_entry(#[trigger] entries[j])
        }),
{
    metadata::law_fault_is_that_of_the_first_faulty_entry(entries, i);
}

/// When a registration is refused.
pub proof fn law_registration_refusals(
    s: RegistryState,
    signers: Set<Address>,
    address: Address,
    entries: MetadataEntries,
)
    ensures
        ({
            let refusal = meaning::register_refusal(s, signers, address, entries);
            let bad = meaning::metadata_refusal(entries);
            let stated = s.admin is Some && bad is None;
            let signed = stated && signers.contains(address);
            &&& refusal == error(RegistryError::NotInitialized) <==> s.admin is None
            &&& s.admin is Some && bad is Some ==> refusal == bad
            &&& stated && !signed ==> refusal == Some(RegistryAbort::Unauthorized(address))
            &&& refusal == error(RegistryError::AlreadyRegistered) <==> signed
                && s.profiles.contains_key(address)
            &&& refusal is None <==> signed && !s.profiles.contains_key(address)
        }),
{
    law_metadata_refusals(entries, 0);
}

/// When an update is refused; `missing` is the error for an address without a
/// profile.
pub proof fn law_update_refusals(
    s: RegistryState,
    signers: Set<Address>,
    address: Address,
    entries: MetadataEntries,
    missing: RegistryError,
)
    ensures
        ({
            let refusal = meaning::update_refusal(s, signers, address, entries, missing);
            let bad = meaning::metadata_refusal(entries);
            let signed = bad is None && signers.contains(address);
            &&& bad is Some ==> refusal == bad
            &&& bad is None && !signed ==> refusal == Some(RegistryAbort::Unauthorized(address))
            &&& signed && !s.profiles.contains_key(address) ==> refusal == error(missing)
            &&& refusal is None <==> signed && s.profiles.contains_key(address)
        }),
{
}

// ---------------------------------------------------------------- the admin
/// A new admin takes the place of the old one, and no profile changes.
pub proof fn law_admin_is_set_as_asked(s: RegistryState, admin: Address)
    ensures
        meaning::with_admin(s, admin).admin == Some(admin),
        meaning::with_admin(s, admin).profiles == s.profiles,
{
}

/// When an initialization, a call of the admin, a call of the admin on a
/// profile, and a transfer of ownership are refused.
pub proof fn law_admin_refusals(s: RegistryState, signers: Set<Address>, address: Address)
    ensures
        ({
            let start = meaning::initialize_refusal(s, signers, address);
            let admin = meaning::admin_refusal(s, signers);
            let moderation = meaning::moderation_refusal(s, signers, address);
            let ownership = meaning::ownership_refusal(s, signers, address);
            let signed = s.admin is Some && signers.contains(s.admin->0);
            let known = s.profiles.contains_key(address);
            &&& start == error(RegistryError::AlreadyInitialized) <==> s.admin is Some
            &&& s.admin is None && !signers.contains(address) ==> start == Some(
                RegistryAbort::Unauthorized(address),
            )
            &&& start is None <==> s.admin is None && signers.contains(address)
            &&& admin == error(RegistryError::NotFound) <==> s.admin is None
            &&& s.admin is Some && !signed ==> admin == Some(
                RegistryAbort::Unauthorized(s.admin->0),
            )
            &&& admin is None <==> signed
            &&& !signed ==> moderation == admin && ownership == admin
            &&& signed && !known ==> moderation == error(RegistryError::NotFound)
            &&& moderation is None <==> signed && known
            &&& signed && !signers.contains(address) ==> ownership == Some(
                RegistryAbort::Unauthorized(address),
            )
            &&& ownership is None <==> signed && signers.contains(address)
        }),
{
}

// ---------------------------------------------------------------- batches
/// When a batch is refused: it has more than fifty entries, the admin is
/// missing or did not sign, or else the first entry whose metadata is refused
/// is the reason.
pub proof fn law_batch_refusals(
    s: RegistryState,
    signers: Set<Address>,
    batch: Seq<(Address, Metadata)>,
    i: int,
)
    ensures
        ({
            let refusal = meaning::batch_refusal(s, signers, batch);
            let admin = meaning::admin_refusal(s, signers);
            let bad = meaning::metadata_refusal(metadata::metadata_entries(batch[i].1));
            &&& refusal == error(RegistryError::BatchSizeExceeded) <==> batch.len() > 50
            &&& batch.len() <= 50 && admin is Some ==> refusal == admin
            &&& batch.len() <= 50 && admin is None && 0 <= i < batch.len() && bad is Some && (
            forall|j: int|
                0 <= j < i ==> meaning::metadata_refusal(
                    metadata::metadata_entries((#[trigger] batch[j]).1),
                ) is None) ==> refusal == bad
            &&& refusal is None <==> batch.len() <= 50 && admin is None && forall|j: int|
                0 <= j < batch.len() ==> meaning::metadata_refusal(
                    metadata::metadata_entries((#[trigger] batch[j]).1),
                ) is None
        }),
{
    laws::law_batch_is_all_or_nothing(s, signers, batch);
    lemma_first_refused_kind(batch, 0);
    if 0 <= i < batch.len() && meaning::metadata_refusal(metadata::metadata_entries(batch[i].1))
        is Some && (forall|j: int|
        0 <= j < i ==> meaning::metadata_refusal(
            metadata::metadata_entries((#[trigger] batch[j]).1),
        ) is None) {
        lemma_first_refused_at(batch, 0, i as nat);
    }
    if meaning::batch_refusal(s, signers, batch) is None {
        assert forall|j: int| 0 <= j < batch.len() implies meaning::metadata_refusal(
            metadata::metadata_entries((#[trigger] batch[j]).1),
        ) is None by {
            assert(metadata::metadata_fault(metadata::metadata_entries(batch[j].1)) is None);
        }
    }
    if forall|j: int|
        0 <= j < batch.len() ==> meaning::metadata_refusal(
            metadata::metadata_entries((#[trigger] batch[j]).1),
        ) is None {
        assert forall|j: int| 0 <= j < batch.len() implies metadata::metadata_fault(
            metadata::metadata_entries((#[trigger] batch[j]).1),
        ) is None by {
            assert(meaning::metadata_refusal(metadata::metadata_entries(batch[j].1)) is None);
        }
    }
}

/// A batch is never refused for its size on account of metadata.
proof fn lemma_first_refused_kind(batch: Seq<(Address, Metadata)>, from: nat)
    ensures
        meaning::first_refused(batch, from) != error(RegistryError::BatchSizeExceeded),
    decreases batch.len() - from,
{
    if from < batch.len() {
        lemma_first_refused_kind(batch, from + 1);
    }
}

/// The first refused entry is the reason.
proof fn lemma_first_refused_at(batch: Seq<(Address, Metadata)>, from: nat, i: nat)
    requires
        from <= i < batch.len(),
        forall|j: int|
            from <= j < i ==> meaning::metadata_refusal(
                metadata::metadata_entries((#[trigger] batch[j]).1),
            ) is None,
        meaning::metadata_refusal(metadata::metadata_entries(batch[i as int].1)) is Some,
    ensures
        meaning::first_refused(batch, from) == meaning::metadata_refusal(
            metadata::metadata_entries(batch[i as int].1),
        ),
    decreases i - from,
{
    if from < i {
        assert(meaning::metadata_refusal(metadata::metadata_entries(batch[from as int].1)) is None);
        lemma_first_refused_at(batch, from + 1, i);
    }
}

} // verus!
