//! What the registry promises.
use crate::address::{Address, InvoiceId};
use crate::errors::{PoolError, RegistryError};
use crate::metadata;
use crate::metadata::{Metadata, MetadataEntries};
use crate::pool;
use crate::pool::model::{InvoiceTerms, PoolAbort, PoolState};
use crate::registry::meaning;
use crate::registry::model::{
    ProfileView, RegistryAbort, RegistryAction, RegistryState, Role, VerificationStatus,
    MAX_BATCH_SIZE,
};
use vstd::prelude::*;

verus! {

/// A call to the registry, with the addresses that authorised it.
pub enum RegistryCall {
    Initialize { signers: Set<Address>, admin: Address },
    Register {
        signers: Set<Address>,
        address: Address,
        entries: MetadataEntries,
        role: Role,
        now: u64,
    },
    Batch { signers: Set<Address>, batch: Seq<(Address, Metadata)>, role: Role, now: u64 },
    UpdateProfile { signers: Set<Address>, address: Address, entries: MetadataEntries },
    UpdateMetadata { signers: Set<Address>, address: Address, entries: MetadataEntries },
    Revoke { signers: Set<Address>, address: Address },
    Reinstate { signers: Set<Address>, address: Address },
    Verify { signers: Set<Address>, address: Address, verify: bool },
    TransferOwnership { signers: Set<Address>, new_admin: Address },
    TransferAdmin { signers: Set<Address>, new_admin: Address },
}

/// The addresses that authorised a call.
pub open spec fn signers_of(call: RegistryCall) -> Set<Address> {
    match call {
        RegistryCall::Initialize { signers, .. } => signers,
        RegistryCall::Register { signers, .. } => signers,
        RegistryCall::Batch { signers, .. } => signers,
        RegistryCall::UpdateProfile { signers, .. } => signers,
        RegistryCall::UpdateMetadata { signers, .. } => signers,
        RegistryCall::Revoke { signers, .. } => signers,
        RegistryCall::Reinstate { signers, .. } => signers,
        RegistryCall::Verify { signers, .. } => signers,
        RegistryCall::TransferOwnership { signers, .. } => signers,
        RegistryCall::TransferAdmin { signers, .. } => signers,
    }
}

/// Why a call is undone.
pub open spec fn refusal(s: RegistryState, call: RegistryCall) -> Option<RegistryAbort> {
    match call {
        RegistryCall::Initialize { signers, admin } => meaning::initialize_refusal(
            s,
            signers,
            admin,
        ),
        RegistryCall::Register { signers, address, entries, .. } => meaning::register_refusal(
            s,
            signers,
            address,
            entries,
        ),
        RegistryCall::Batch { signers, batch, .. } => meaning::batch_refusal(s, signers, batch),
        RegistryCall::UpdateProfile { signers, address, entries } => meaning::update_refusal(
            s,
            signers,
            address,
            entries,
            RegistryError::NotRegistered,
        ),
        RegistryCall::UpdateMetadata { signers, address, entries } => meaning::update_refusal(
            s,
            signers,
            address,
            entries,
            RegistryError::NotFound,
        ),
        RegistryCall::Revoke { signers, address } => meaning::moderation_refusal(
            s,
            signers,
            address,
        ),
        RegistryCall::Reinstate { signers, address } => meaning::moderation_refusal(
            s,
            signers,
            address,
        ),
        RegistryCall::Verify { signers, address, .. } => meaning::moderation_refusal(
            s,
            signers,
            address,
        ),
        RegistryCall::TransferOwnership { signers, new_admin } => meaning::ownership_refusal(
            s,
            signers,
            new_admin,
        ),
        RegistryCall::TransferAdmin { signers, .. } => meaning::admin_refusal(s, signers),
    }
}

/// The state after a call that is accepted.
pub open spec fn accepted(s: RegistryState, call: RegistryCall) -> RegistryState {
    match call {
        RegistryCall::Initialize { admin, .. } => meaning::with_admin(s, admin),
        RegistryCall::Register { address, entries, role, now, .. } => meaning::with_profile(
            s,
            address,
            meaning::fresh_profile(role, now, entries),
        ),
        RegistryCall::Batch { batch, role, now, .. } => meaning::after_batch(s, batch, role, now),
        RegistryCall::UpdateProfile { address, entries, .. } => meaning::after_update(
            s,
            address,
            entries,
        ),
        RegistryCall::UpdateMetadata { address, entries, .. } => meaning::after_update(
            s,
            address,
            entries,
        ),
        RegistryCall::Revoke { address, .. } => meaning::after_revoke(s, address),
        RegistryCall::Reinstate { address, .. } => meaning::after_verdict(s, address, true),
        RegistryCall::Verify { address, verify, .. } => meaning::after_verdict(s, address, verify),
        RegistryCall::TransferOwnership { new_admin, .. } => meaning::with_admin(s, new_admin),
        RegistryCall::TransferAdmin { new_admin, .. } => meaning::with_admin(s, new_admin),
    }
}

/// The state after a call, accepted or undone.
pub open spec fn step(s: RegistryState, call: RegistryCall) -> RegistryState {
    if refusal(s, call) is Some {
        s
    } else {
        accepted(s, call)
    }
}

/// The state after a sequence of calls.
pub open spec fn run(s: RegistryState, calls: Seq<RegistryCall>) -> RegistryState
    decreases calls.len(),
{
    if calls.len() == 0 {
        s
    } else {
        step(run(s, calls.drop_last()), calls.last())
    }
}

// ---------------------------------------------------------------- batches
/// Whether a batch lists an address.
pub open spec fn listed(batch: Seq<(Address, Metadata)>, address: Address) -> bool {
    exists|i: int| 0 <= i < batch.len() && (#[trigger] batch[i]).0 == address
}

/// Whether the entry at `i` is the first of a batch that lists an address.
pub open spec fn first_listing(batch: Seq<(Address, Metadata)>, address: Address, i: int) -> bool {
    &&& 0 <= i < batch.len()
    &&& batch[i].0 == address
    &&& forall|j: int| 0 <= j < i ==> (#[trigger] batch[j]).0 != address
}

/// Whether an address is listed by the entry at `i` when it has a profile
/// already: from before the batch, or from an earlier entry.
pub open spec fn repeats(
    profiles: Map<Address, ProfileView>,
    batch: Seq<(Address, Metadata)>,
    i: int,
) -> bool {
    profiles.contains_key(batch[i].0) || listed(batch.take(i), batch[i].0)
}

proof fn lemma_listed_last(batch: Seq<(Address, Metadata)>, address: Address)
    requires
        batch.len() > 0,
    ensures
        listed(batch, address) <==> listed(batch.drop_last(), address) || batch.last().0 == address,
{
    let rest = batch.drop_last();
    if listed(batch, address) {
        let i = choose|i: int| 0 <= i < batch.len() && (#[trigger] batch[i]).0 == address;
        if i < rest.len() {
            assert(rest[i].0 == address);
        }
    }
    if listed(rest, address) {
        let i = choose|i: int| 0 <= i < rest.len() && (#[trigger] rest[i]).0 == address;
        assert(batch[i].0 == address);
    }
    if batch.last().0 == address {
        assert(batch[batch.len() - 1].0 == address);
    }
}

proof fn lemma_first_listing_exists(batch: Seq<(Address, Metadata)>, address: Address)
    requires
        listed(batch, address),
    ensures
        exists|i: int| #[trigger] first_listing(batch, address, i),
    decreases batch.len(),
{
    let rest = batch.drop_last();
    lemma_listed_last(batch, address);
    if listed(rest, address) {
        lemma_first_listing_exists(rest, address);
        let i = choose|i: int| #[trigger] first_listing(rest, address, i);
        assert forall|j: int| 0 <= j < i implies (#[trigger] batch[j]).0 != address by {
            assert(rest[j].0 != address);
        }
        assert(batch[i] == rest[i]);
        assert(first_listing(batch, address, i));
    } else {
        assert forall|j: int| 0 <= j < rest.len() implies (#[trigger] batch[j]).0 != address by {
            assert(rest[j] == batch[j]);
        }
        assert(first_listing(batch, address, batch.len() - 1));
    }
}

/// After a batch the registered addresses are those of before and those that
/// the batch lists; who had a profile keeps it as it was, and everyone else
/// starts unverified, in the batch's role, with the metadata of the first entry
/// that lists them.
pub proof fn law_batch_registers_what_it_lists(
    profiles: Map<Address, ProfileView>,
    batch: Seq<(Address, Metadata)>,
    role: Role,
    now: u64,
    address: Address,
)
    ensures
        ({
            let after = meaning::batch_profiles(profiles, batch, role, now);
            &&& after.contains_key(address) <==> profiles.contains_key(address) || listed(
                batch,
                address,
            )
            &&& profiles.contains_key(address) ==> after[address] == profiles[address]
            &&& forall|i: int| #[trigger]
                first_listing(batch, address, i) && !profiles.contains_key(address)
                    ==> after[address] == meaning::fresh_profile(
                    role,
                    now,
                    metadata::metadata_entries(batch[i].1),
                )
        }),
    decreases batch.len(),
{
    if batch.len() > 0 {
        let rest = batch.drop_last();
        law_batch_registers_what_it_lists(profiles, rest, role, now, address);
        lemma_listed_last(batch, address);
        let after = meaning::batch_profiles(profiles, batch, role, now);
        assert forall|i: int| #[trigger]
            first_listing(batch, address, i) && !profiles.contains_key(address) implies after[address]
            == meaning::fresh_profile(
            role,
            now,
            metadata::metadata_entries(batch[i].1),
        ) by {
            if i < rest.len() {
                assert(first_listing(rest, address, i));
                assert(rest[i].0 == address);
                assert(listed(rest, address));
            } else if listed(rest, address) {
                let j = choose|j: int| 0 <= j < rest.len() && (#[trigger] rest[j]).0 == address;
                assert(batch[j].0 == address);
            }
        }
    }
}

/// A batch passes over exactly the entries whose address has a profile
/// already, in their order.
pub proof fn law_batch_skips_exactly_the_registered(
    profiles: Map<Address, ProfileView>,
    batch: Seq<(Address, Metadata)>,
    role: Role,
    now: u64,
)
    ensures
        meaning::batch_skipped(profiles, batch, role, now).len() <= batch.len(),
        batch.len() > 0 ==> meaning::batch_skipped(profiles, batch, role, now) == (if repeats(
            profiles,
            batch,
            batch.len() - 1,
        ) {
            meaning::batch_skipped(profiles, batch.drop_last(), role, now).push(batch.last().0)
        } else {
            meaning::batch_skipped(profiles, batch.drop_last(), role, now)
        }),
    decreases batch.len(),
{
    if batch.len() > 0 {
        let rest = batch.drop_last();
        law_batch_skips_exactly_the_registered(profiles, rest, role, now);
        law_batch_registers_what_it_lists(profiles, rest, role, now, batch.last().0);
        assert(batch.take(batch.len() - 1) =~= rest);
    }
}

/// Each entry of a batch is registered or passed over: the new profiles and
/// the addresses passed over are as many as the entries.
pub proof fn law_batch_accounts_for_every_entry(
    profiles: Map<Address, ProfileView>,
    batch: Seq<(Address, Metadata)>,
    role: Role,
    now: u64,
)
    requires
        profiles.dom().finite(),
    ensures
        ({
            let after = meaning::batch_profiles(profiles, batch, role, now);
            &&& after.dom().finite()
            &&& after.dom().len() + meaning::batch_skipped(profiles, batch, role, now).len()
                == profiles.dom().len() + batch.len()
        }),
    decreases batch.len(),
{
    if batch.len() > 0 {
        law_batch_accounts_for_every_entry(profiles, batch.drop_last(), role, now);
    }
}

proof fn lemma_none_refused_from(batch: Seq<(Address, Metadata)>, from: nat)
    ensures
        meaning::first_refused(batch, from) is None <==> forall|i: int|
            from <= i < batch.len() ==> meaning::metadata_refusal(
                metadata::metadata_entries((#[trigger] batch[i]).1),
            ) is None,
    decreases batch.len() - from,
{
    if from < batch.len() {
        lemma_none_refused_from(batch, from + 1);
        let here = batch[from as int];
        if meaning::first_refused(batch, from) is None {
            assert forall|i: int| from <= i < batch.len() implies meaning::metadata_refusal(
                metadata::metadata_entries((#[trigger] batch[i]).1),
            ) is None by {
                if i != from {
                    assert(from + 1 <= i);
                }
            }
        }
    }
}

/// A batch is taken as a whole or not at all: it is accepted exactly when it is
/// not too large, the admin authorised it, and the metadata of every entry is
/// in order.
pub proof fn law_batch_is_all_or_nothing(
    s: RegistryState,
    signers: Set<Address>,
    batch: Seq<(Address, Metadata)>,
)
    ensures
        meaning::batch_refusal(s, signers, batch) is None <==> {
            &&& batch.len() <= MAX_BATCH_SIZE
            &&& meaning::admin_refusal(s, signers) is None
            &&& forall|i: int|
                0 <= i < batch.len() ==> metadata::metadata_fault(
                    metadata::metadata_entries((#[trigger] batch[i]).1),
                ) is None
        },
{
    lemma_none_refused_from(batch, 0);
    if meaning::first_refused(batch, 0) is None {
        assert forall|i: int| 0 <= i < batch.len() implies metadata::metadata_fault(
            metadata::metadata_entries((#[trigger] batch[i]).1),
        ) is None by {
            assert(meaning::metadata_refusal(metadata::metadata_entries(batch[i].1)) is None);
        }
    }
}

/// A batch of one does what a registration does.
pub proof fn law_batch_of_one(s: RegistryState, address: Address, m: Metadata, role: Role, now: u64)
    requires
        !s.profiles.contains_key(address),
    ensures
        meaning::after_batch(s, seq![(address, m)], role, now) == meaning::with_profile(
            s,
            address,
            meaning::fresh_profile(role, now, metadata::metadata_entries(m)),
        ),
        meaning::batch_skipped(s.profiles, seq![(address, m)], role, now).len() == 0,
{
    let batch = seq![(address, m)];
    assert(batch.drop_last() =~= Seq::empty());
    assert(batch.last() == (address, m));
    reveal_with_fuel(meaning::batch_profiles, 2);
    reveal_with_fuel(meaning::batch_skipped, 2);
}

/// A batch of issuers and a batch of buyers do the same but for the role: they
/// pass over the same entries and register the same addresses, each with the
/// same profile in another role.
pub proof fn law_batches_differ_in_role_alone(
    profiles: Map<Address, ProfileView>,
    batch: Seq<(Address, Metadata)>,
    now: u64,
)
    ensures
        ({
            let issuers = meaning::batch_profiles(profiles, batch, Role::Issuer, now);
            let buyers = meaning::batch_profiles(profiles, batch, Role::Buyer, now);
            &&& meaning::batch_skipped(profiles, batch, Role::Issuer, now)
                == meaning::batch_skipped(profiles, batch, Role::Buyer, now)
            &&& issuers.dom() == buyers.dom()
            &&& forall|a: Address| #[trigger]
                issuers.contains_key(a) ==> if profiles.contains_key(a) {
                    issuers[a] == profiles[a] && buyers[a] == profiles[a]
                } else {
                    &&& issuers[a].role == Role::Issuer
                    &&& buyers[a] == (ProfileView { role: Role::Buyer, ..issuers[a] })
                }
        }),
    decreases batch.len(),
{
    if batch.len() > 0 {
        law_batches_differ_in_role_alone(profiles, batch.drop_last(), now);
        let before_issuers = meaning::batch_profiles(
            profiles,
            batch.drop_last(),
            Role::Issuer,
            now,
        );
        let before_buyers = meaning::batch_profiles(
            profiles,
            batch.drop_last(),
            Role::Buyer,
            now,
        );
        let address = batch.last().0;
        assert(before_issuers.dom().contains(address) == before_buyers.dom().contains(address));
        let issuers = meaning::batch_profiles(profiles, batch, Role::Issuer, now);
        let buyers = meaning::batch_profiles(profiles, batch, Role::Buyer, now);
        law_batch_registers_what_it_lists(profiles, batch.drop_last(), Role::Issuer, now, address);
        assert forall|a: Address| #[trigger] issuers.contains_key(a) implies if profiles.contains_key(
            a,
        ) {
            issuers[a] == profiles[a] && buyers[a] == profiles[a]
        } else {
            &&& issuers[a].role == Role::Issuer
            &&& buyers[a] == (ProfileView { role: Role::Buyer, ..issuers[a] })
        } by {
            if a != address {
                assert(before_issuers.contains_key(a));
            }
        }
    }
}

// ---------------------------------------------------------------- every state
/// What holds of a registry at all times: no profile without an admin, no
/// profile both verified and revoked, and no metadata beyond the limits.
pub open spec fn sound(s: RegistryState) -> bool {
    &&& s.admin is None ==> s.profiles.dom() =~= Set::empty()
    &&& forall|a: Address| #[trigger]
        s.profiles.contains_key(a) ==> {
            &&& !(s.profiles[a].verified && s.profiles[a].revoked)
            &&& metadata::metadata_fault(s.profiles[a].metadata) is None
        }
}

/// Every call, accepted or undone, keeps a registry sound.
pub proof fn law_call_keeps_registry_sound(s: RegistryState, call: RegistryCall)
    requires
        sound(s),
    ensures
        sound(step(s, call)),
{
    if refusal(s, call) is None {
        match call {
            RegistryCall::Batch { signers, batch, role, now } => {
                law_batch_is_all_or_nothing(s, signers, batch);
                let t = meaning::after_batch(s, batch, role, now);
                assert forall|a: Address| #[trigger] t.profiles.contains_key(a) implies {
                    &&& !(t.profiles[a].verified && t.profiles[a].revoked)
                    &&& metadata::metadata_fault(t.profiles[a].metadata) is None
                } by {
                    law_batch_registers_what_it_lists(s.profiles, batch, role, now, a);
                    if s.profiles.contains_key(a) {
                        assert(t.profiles[a] == s.profiles[a]);
                    } else {
                        lemma_first_listing_exists(batch, a);
                        let i = choose|i: int| #[trigger] first_listing(batch, a, i);
                        assert(metadata::metadata_fault(
                            metadata::metadata_entries(batch[i].1),
                        ) is None);
                    }
                }
            },
            _ => {},
        }
    }
}

/// A registry is sound after any sequence of calls.
pub proof fn law_registry_sound_after_any_calls(calls: Seq<RegistryCall>)
    ensures
        sound(run(meaning::blank(), calls)),
    decreases calls.len(),
{
    if calls.len() > 0 {
        law_registry_sound_after_any_calls(calls.drop_last());
        law_call_keeps_registry_sound(run(meaning::blank(), calls.drop_last()), calls.last());
    }
}

/// A profile, once there, stays; its role and its time of registration never
/// change.
pub proof fn law_registration_is_permanent(
    s: RegistryState,
    calls: Seq<RegistryCall>,
    address: Address,
)
    requires
        s.profiles.contains_key(address),
    ensures
        ({
            let t = run(s, calls);
            &&& t.profiles.contains_key(address)
            &&& t.profiles[address].role == s.profiles[address].role
            &&& t.profiles[address].registered_at == s.profiles[address].registered_at
        }),
    decreases calls.len(),
{
    if calls.len() > 0 {
        law_registration_is_permanent(s, calls.drop_last(), address);
        let before = run(s, calls.drop_last());
        match calls.last() {
            RegistryCall::Batch { batch, role, now, .. } => {
                law_batch_registers_what_it_lists(before.profiles, batch, role, now, address);
            },
            _ => {},
        }
    }
}

/// Once a registry has an admin, it always has one.
pub proof fn law_admin_is_never_lost(s: RegistryState, calls: Seq<RegistryCall>)
    requires
        s.admin is Some,
    ensures
        run(s, calls).admin is Some,
    decreases calls.len(),
{
    if calls.len() > 0 {
        law_admin_is_never_lost(s, calls.drop_last());
    }
}

/// Whether an address counts as verified changes only on a call that the admin
/// authorised.
pub proof fn law_verification_changes_only_by_admin(
    s: RegistryState,
    call: RegistryCall,
    address: Address,
)
    ensures
        meaning::verified(step(s, call), address) == meaning::verified(s, address) || (s.admin
            is Some && signers_of(call).contains(s.admin->0)),
{
    match call {
        RegistryCall::Batch { batch, role, now, .. } => {
            law_batch_registers_what_it_lists(s.profiles, batch, role, now, address);
        },
        _ => {},
    }
}

/// Metadata of a profile changes only on a call that its owner authorised.
pub proof fn law_metadata_changes_only_by_owner(
    s: RegistryState,
    call: RegistryCall,
    address: Address,
)
    requires
        s.profiles.contains_key(address),
    ensures
        step(s, call).profiles[address].metadata == s.profiles[address].metadata || signers_of(
            call,
        ).contains(address),
{
    match call {
        RegistryCall::Batch { batch, role, now, .. } => {
            law_batch_registers_what_it_lists(s.profiles, batch, role, now, address);
        },
        _ => {},
    }
}

// ---------------------------------------------------------------- verification
/// An address is verified exactly when its status says so, and one that is not
/// registered never is.
pub proof fn law_verified_iff_status(s: RegistryState, address: Address)
    ensures
        meaning::verified(s, address) <==> meaning::status_of(s, address)
            == VerificationStatus::Verified,
        !s.profiles.contains_key(address) <==> meaning::status_of(s, address)
            == VerificationStatus::Unregistered,
        !s.profiles.contains_key(address) ==> !meaning::verified(s, address),
{
}

/// A new registration is pending, and cannot be repeated in either role.
pub proof fn law_registration_starts_pending(
    s: RegistryState,
    signers: Set<Address>,
    address: Address,
    entries: MetadataEntries,
    role: Role,
    now: u64,
    again: MetadataEntries,
)
    requires
        meaning::register_refusal(s, signers, address, entries) is None,
    ensures
        ({
            let t = meaning::with_profile(
                s,
                address,
                meaning::fresh_profile(role, now, entries),
            );
            &&& meaning::status_of(t, address) == VerificationStatus::Pending
            &&& !meaning::verified(t, address)
            &&& metadata::metadata_fault(again) is None ==> meaning::register_refusal(
                t,
                signers,
                address,
                again,
            ) == Some(RegistryAbort::Error(RegistryError::AlreadyRegistered))
        }),
{
}

/// Verifying makes an address verified, withdrawing it makes it revoked, and
/// verifying it again restores it.
pub proof fn law_verification_cycle(s: RegistryState, address: Address)
    requires
        s.profiles.contains_key(address),
    ensures
        ({
            let on = meaning::after_verdict(s, address, true);
            let off = meaning::after_revoke(on, address);
            &&& meaning::status_of(on, address) == VerificationStatus::Verified
            &&& meaning::status_of(off, address) == VerificationStatus::Revoked
            &&& meaning::after_verdict(off, address, true) == on
            &&& meaning::after_verdict(on, address, false) == off
        }),
{
    let on = meaning::after_verdict(s, address, true);
    let off = meaning::after_revoke(on, address);
    assert(meaning::after_verdict(off, address, true).profiles =~= on.profiles);
}

/// Withdrawing a verification twice is the same as once; the second time
/// nothing is written and nothing announced.
pub proof fn law_revocation_is_idempotent(s: RegistryState, address: Address)
    requires
        s.profiles.contains_key(address),
    ensures
        ({
            let t = meaning::after_revoke(s, address);
            &&& !meaning::verified(t, address)
            &&& meaning::after_revoke(t, address) == t
            &&& meaning::revoke_actions(t, address) == Seq::<RegistryAction>::empty()
        }),
{
}

/// Reinstating undoes the revocation of a verified address.
pub proof fn law_reinstatement_undoes_revocation(s: RegistryState, address: Address)
    requires
        sound(s),
        meaning::verified(s, address),
    ensures
        meaning::after_verdict(meaning::after_revoke(s, address), address, true) == s,
{
    let t = meaning::after_verdict(meaning::after_revoke(s, address), address, true);
    assert(t.profiles =~= s.profiles);
}

/// A verdict leaves the metadata alone, an update leaves the status alone, and
/// either leaves all other profiles alone.
pub proof fn law_verdicts_and_updates_are_independent(
    s: RegistryState,
    address: Address,
    entries: MetadataEntries,
    verify: bool,
    other: Address,
)
    requires
        s.profiles.contains_key(address),
        other != address,
    ensures
        ({
            let judged = meaning::after_verdict(s, address, verify);
            let updated = meaning::after_update(s, address, entries);
            &&& judged.profiles[address].metadata == s.profiles[address].metadata
            &&& meaning::status_of(updated, address) == meaning::status_of(s, address)
            &&& updated.profiles[address].metadata == entries
            &&& meaning::status_of(judged, other) == meaning::status_of(s, other)
            &&& meaning::status_of(updated, other) == meaning::status_of(s, other)
            &&& s.profiles.contains_key(other) ==> {
                &&& judged.profiles[other] == s.profiles[other]
                &&& updated.profiles[other] == s.profiles[other]
            }
        }),
{
}

/// A change of admin leaves all profiles alone.
pub proof fn law_admin_change_keeps_profiles(s: RegistryState, new_admin: Address)
    ensures
        meaning::with_admin(s, new_admin).profiles == s.profiles,
        meaning::with_admin(s, new_admin).admin == Some(new_admin),
{
}

/// A revocation stops further funding: once the registry has revoked the
/// issuer, a pool that asks it does not fund the invoice.
pub proof fn law_revoked_issuer_is_not_funded(
    s: RegistryState,
    p: PoolState,
    invoice_id: InvoiceId,
    terms: InvoiceTerms,
)
    requires
        s.profiles.contains_key(terms.issuer),
        p.config is Some,
        terms.status == pool::model::STATUS_LISTED,
        !p.funded.contains_key(invoice_id),
        terms.issuer_verified == meaning::verified(
            meaning::after_revoke(s, terms.issuer),
            terms.issuer,
        ),
    ensures
        pool::meaning::funding_refusal(p, invoice_id, terms) == Some(
            PoolAbort::Error(PoolError::IssuerNotVerified),
        ),
{
    law_revocation_is_idempotent(s, terms.issuer);
}

} // verus!
