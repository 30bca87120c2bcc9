//! What accepted calls ask of the ledger: that nothing the registry decided
//! gets lost on the way.
use crate::address::Address;
use crate::metadata::Metadata;
use crate::registry::laws;
use crate::registry::laws::RegistryCall;
use crate::registry::meaning;
use crate::registry::model::{
    ProfileView, RegistryAction, RegistryEvent, RegistryKey, RegistryState, Role,
};
use vstd::prelude::*;

verus! {

/// What an accepted call asks of the ledger.
pub open spec fn actions_of(s: RegistryState, call: RegistryCall) -> Seq<RegistryAction> {
    match call {
        RegistryCall::Initialize { admin, .. } => meaning::initialize_actions(admin),
        RegistryCall::Register { address, role, .. } => meaning::lasting_profile_actions(
            address,
            meaning::registered_event(role, address),
        ),
        RegistryCall::Batch { batch, role, now, .. } => meaning::batch_actions(
            s.profiles,
            batch,
            role,
            now,
        ),
        RegistryCall::UpdateProfile { address, .. } => meaning::profile_actions(
            address,
            RegistryEvent::ProfileUpdated { address },
        ),
        RegistryCall::UpdateMetadata { address, .. } => meaning::lasting_profile_actions(
            address,
            RegistryEvent::MetadataUpdated { address },
        ),
        RegistryCall::Revoke { address, .. } => meaning::revoke_actions(s, address),
        RegistryCall::Reinstate { address, .. } => meaning::lasting_profile_actions(
            address,
            RegistryEvent::AddressReinstated { address },
        ),
        RegistryCall::Verify { address, verify, .. } => meaning::lasting_profile_actions(
            address,
            RegistryEvent::ProfileVerified { address, verified: verify },
        ),
        RegistryCall::TransferOwnership { new_admin, .. } => meaning::admin_actions(
            RegistryEvent::OwnershipTransferred { old_admin: s.admin->0, new_admin },
        ),
        RegistryCall::TransferAdmin { new_admin, .. } => meaning::admin_actions(
            RegistryEvent::AdminTransferred { old_admin: s.admin->0, new_admin },
        ),
    }
}

/// Whether two states hold the same under a key.
pub open spec fn same_entry(s: RegistryState, t: RegistryState, key: RegistryKey) -> bool {
    match key {
        RegistryKey::Admin => s.admin == t.admin,
        RegistryKey::Profile(address) => {
            &&& s.profiles.contains_key(address) == t.profiles.contains_key(address)
            &&& s.profiles.contains_key(address) ==> s.profiles[address] == t.profiles[address]
        },
    }
}

/// Whether each stored profile has its lifetime extended right after.
pub open spec fn extends_what_it_stores(actions: Seq<RegistryAction>) -> bool {
    forall|i: int|
        #![trigger actions[i]]
        0 <= i < actions.len() ==> (actions[i] matches RegistryAction::Store(
            RegistryKey::Profile(address),
        ) ==> i + 1 < actions.len() && actions[i + 1] == RegistryAction::ExtendTtl(address))
}

proof fn lemma_batch_stores_new_profiles(
    profiles: Map<Address, ProfileView>,
    batch: Seq<(Address, Metadata)>,
    role: Role,
    now: u64,
    address: Address,
)
    requires
        !profiles.contains_key(address),
        meaning::batch_profiles(profiles, batch, role, now).contains_key(address),
    ensures
        meaning::batch_entry_actions(profiles, batch, role, now).contains(
            RegistryAction::Store(RegistryKey::Profile(address)),
        ),
    decreases batch.len(),
{
    let rest = batch.drop_last();
    let before = meaning::batch_entry_actions(profiles, rest, role, now);
    let after = meaning::batch_entry_actions(profiles, batch, role, now);
    let wanted = RegistryAction::Store(RegistryKey::Profile(address));
    if meaning::batch_profiles(profiles, rest, role, now).contains_key(address) {
        lemma_batch_stores_new_profiles(profiles, rest, role, now, address);
        let i = choose|i: int| 0 <= i < before.len() && before[i] == wanted;
        assert(after[i] == wanted);
    } else {
        assert(after[before.len() as int] == wanted);
    }
}

proof fn lemma_batch_extends_what_it_stores(
    profiles: Map<Address, ProfileView>,
    batch: Seq<(Address, Metadata)>,
    role: Role,
    now: u64,
)
    ensures
        extends_what_it_stores(meaning::batch_entry_actions(profiles, batch, role, now)),
    decreases batch.len(),
{
    if batch.len() > 0 {
        let rest = batch.drop_last();
        lemma_batch_extends_what_it_stores(profiles, rest, role, now);
        let before = meaning::batch_entry_actions(profiles, rest, role, now);
        let after = meaning::batch_entry_actions(profiles, batch, role, now);
        assert forall|i: int| #![trigger after[i]] 0 <= i < after.len() implies (
        after[i] matches RegistryAction::Store(RegistryKey::Profile(address)) ==> i + 1
            < after.len() && after[i + 1] == RegistryAction::ExtendTtl(address)) by {
            if i < before.len() {
                assert(after[i] == before[i]);
            }
        }
    }
}

/// Every entry that an accepted call changes is among those it has stored, so
/// that the ledger holds the new state once the actions are done.
pub proof fn law_changes_are_stored(s: RegistryState, call: RegistryCall, key: RegistryKey)
    requires
        laws::refusal(s, call) is None,
        !same_entry(s, laws::accepted(s, call), key),
    ensures
        actions_of(s, call).contains(RegistryAction::Store(key)),
{
    let actions = actions_of(s, call);
    match call {
        RegistryCall::Batch { batch, role, now, .. } => {
            let address = key->Profile_0;
            laws::law_batch_registers_what_it_lists(s.profiles, batch, role, now, address);
            lemma_batch_stores_new_profiles(s.profiles, batch, role, now, address);
            let entries = meaning::batch_entry_actions(s.profiles, batch, role, now);
            let i = choose|i: int|
                0 <= i < entries.len() && entries[i] == RegistryAction::Store(key);
            assert(actions[i] == RegistryAction::Store(key));
        },
        _ => {
            assert(actions[0] == RegistryAction::Store(key));
        },
    }
}

/// A profile that is stored has its lifetime extended right after.
pub proof fn law_stored_profiles_are_extended(s: RegistryState, call: RegistryCall)
    ensures
        extends_what_it_stores(actions_of(s, call)),
{
    match call {
        RegistryCall::Batch { batch, role, now, .. } => {
            lemma_batch_extends_what_it_stores(s.profiles, batch, role, now);
            let entries = meaning::batch_entry_actions(s.profiles, batch, role, now);
            let actions = actions_of(s, call);
            assert forall|i: int| #![trigger actions[i]] 0 <= i < actions.len() implies (
            actions[i] matches RegistryAction::Store(RegistryKey::Profile(address)) ==> i + 1
                < actions.len() && actions[i + 1] == RegistryAction::ExtendTtl(address)) by {
                if i < entries.len() {
                    assert(actions[i] == entries[i]);
                }
            }
        },
        _ => {},
    }
}

/// An accepted call is announced by exactly one event, unless it is a batch or
/// the revocation of an address that is not verified.
pub proof fn law_calls_are_announced_once(s: RegistryState, call: RegistryCall)
    requires
        !(call is Batch),
        call matches RegistryCall::Revoke { address, .. } ==> meaning::verified(s, address),
        laws::refusal(s, call) is None,
    ensures
        exists|i: int|
            #![trigger actions_of(s, call)[i]]
            {
                &&& 0 <= i < actions_of(s, call).len()
                &&& actions_of(s, call)[i] is Emit
                &&& forall|j: int|
                    #![trigger actions_of(s, call)[j]]
                    0 <= j < actions_of(s, call).len() && j != i ==> !(actions_of(s, call)[j]
                        is Emit)
            },
{
    let actions = actions_of(s, call);
    let at: int = if actions[1] is Emit {
        1
    } else {
        2
    };
    assert(actions[at] is Emit);
    assert forall|j: int|
        #![trigger actions[j]]
        0 <= j < actions.len() && j != at implies !(actions[j] is Emit) by {}
}

proof fn lemma_batch_stores_only_new_profiles(
    profiles: Map<Address, ProfileView>,
    batch: Seq<(Address, Metadata)>,
    role: Role,
    now: u64,
    i: int,
)
    requires
        0 <= i < meaning::batch_entry_actions(profiles, batch, role, now).len(),
    ensures
        meaning::batch_entry_actions(profiles, batch, role, now)[i] matches RegistryAction::Store(
            key,
        ) ==> {
            &&& key is Profile
            &&& !profiles.contains_key(key->Profile_0)
            &&& laws::listed(batch, key->Profile_0)
        },
        !(meaning::batch_entry_actions(profiles, batch, role, now)[i] is ExtendInstanceTtl),
    decreases batch.len(),
{
    if batch.len() > 0 {
        let rest = batch.drop_last();
        let before = meaning::batch_entry_actions(profiles, rest, role, now);
        laws::law_batch_registers_what_it_lists(profiles, rest, role, now, batch.last().0);
        if i < before.len() {
            lemma_batch_stores_only_new_profiles(profiles, rest, role, now, i);
            if before[i] is Store {
                let a = before[i]->Store_0->Profile_0;
                let j = choose|j: int| 0 <= j < rest.len() && (#[trigger] rest[j]).0 == a;
                assert(batch[j].0 == a);
            }
        } else {
            assert(batch[batch.len() - 1] == batch.last());
        }
    }
}

/// Which entries an accepted call stores: the admin, or its own profile, if it
/// has anything to change; a batch stores the profiles that are new.
pub proof fn law_calls_store_their_own_entries(
    s: RegistryState,
    call: RegistryCall,
    key: RegistryKey,
)
    requires
        laws::refusal(s, call) is None,
    ensures
        actions_of(s, call).contains(RegistryAction::Store(key)) <==> match call {
            RegistryCall::Initialize { .. }
            | RegistryCall::TransferOwnership { .. }
            | RegistryCall::TransferAdmin { .. } => key == RegistryKey::Admin,
            RegistryCall::Register { address, .. }
            | RegistryCall::UpdateProfile { address, .. }
            | RegistryCall::UpdateMetadata { address, .. }
            | RegistryCall::Reinstate { address, .. }
            | RegistryCall::Verify { address, .. } => key == RegistryKey::Profile(address),
            RegistryCall::Revoke { address, .. } => key == RegistryKey::Profile(address)
                && s.profiles[address].verified,
            RegistryCall::Batch { batch, .. } => key matches RegistryKey::Profile(address)
                && !s.profiles.contains_key(address) && laws::listed(batch, address),
        },
{
    let actions = actions_of(s, call);
    match call {
        RegistryCall::Batch { batch, role, now, .. } => {
            let entries = meaning::batch_entry_actions(s.profiles, batch, role, now);
            if actions.contains(RegistryAction::Store(key)) {
                let i = choose|i: int|
                    0 <= i < actions.len() && actions[i] == RegistryAction::Store(key);
                assert(i < entries.len());
                assert(entries[i] == actions[i]);
                lemma_batch_stores_only_new_profiles(s.profiles, batch, role, now, i);
            }
            if key is Profile && !s.profiles.contains_key(key->Profile_0) && laws::listed(
                batch,
                key->Profile_0,
            ) {
                let address = key->Profile_0;
                laws::law_batch_registers_what_it_lists(s.profiles, batch, role, now, address);
                lemma_batch_stores_new_profiles(s.profiles, batch, role, now, address);
                let i = choose|i: int|
                    0 <= i < entries.len() && entries[i] == RegistryAction::Store(key);
                assert(actions[i] == RegistryAction::Store(key));
            }
        },
        RegistryCall::Revoke { address, .. } => {
            if s.profiles[address].verified {
                assert(actions[0] == RegistryAction::Store(RegistryKey::Profile(address)));
            }
        },
        RegistryCall::Initialize { .. }
        | RegistryCall::TransferOwnership { .. }
        | RegistryCall::TransferAdmin { .. } => {
            assert(actions[0] == RegistryAction::Store(RegistryKey::Admin));
        },
        RegistryCall::Register { address, .. }
        | RegistryCall::UpdateProfile { address, .. }
        | RegistryCall::UpdateMetadata { address, .. }
        | RegistryCall::Reinstate { address, .. }
        | RegistryCall::Verify { address, .. } => {
            assert(actions[0] == RegistryAction::Store(RegistryKey::Profile(address)));
        },
    }
}

/// Which calls extend the lifetime of the contract: all but `update_profile`,
/// a revocation that changes nothing and a batch that registers nobody.
pub proof fn law_calls_extend_the_contract(s: RegistryState, call: RegistryCall)
    requires
        laws::refusal(s, call) is None,
    ensures
        actions_of(s, call).contains(RegistryAction::ExtendInstanceTtl) <==> match call {
            RegistryCall::UpdateProfile { .. } => false,
            RegistryCall::Revoke { address, .. } => s.profiles[address].verified,
            RegistryCall::Batch { batch, role, now, .. } => meaning::batch_skipped(
                s.profiles,
                batch,
                role,
                now,
            ).len() < batch.len(),
            _ => true,
        },
{
    let actions = actions_of(s, call);
    match call {
        RegistryCall::Batch { batch, role, now, .. } => {
            let entries = meaning::batch_entry_actions(s.profiles, batch, role, now);
            laws::law_batch_skips_exactly_the_registered(s.profiles, batch, role, now);
            if meaning::batch_skipped(s.profiles, batch, role, now).len() < batch.len() {
                assert(actions[actions.len() - 1] == RegistryAction::ExtendInstanceTtl);
            } else if actions.contains(RegistryAction::ExtendInstanceTtl) {
                let i = choose|i: int|
                    0 <= i < actions.len() && actions[i] == RegistryAction::ExtendInstanceTtl;
                assert(entries[i] == actions[i]);
                lemma_batch_stores_only_new_profiles(s.profiles, batch, role, now, i);
            }
        },
        RegistryCall::UpdateProfile { .. } => {},
        RegistryCall::Revoke { address, .. } => {
            if s.profiles[address].verified {
                assert(actions[3] == RegistryAction::ExtendInstanceTtl);
            }
        },
        _ => {
            assert(actions[actions.len() - 1] == RegistryAction::ExtendInstanceTtl);
        },
    }
}

/// A call other than a batch asks for nothing twice, and extends no lifetime
/// but that of the profile it stored just before.
pub proof fn law_nothing_is_asked_twice(s: RegistryState, call: RegistryCall, i: int, j: int)
    requires
        !(call is Batch),
        0 <= i < j < actions_of(s, call).len(),
    ensures
        actions_of(s, call)[i] != actions_of(s, call)[j],
        !(actions_of(s, call)[0] is ExtendTtl),
        actions_of(s, call)[j] matches RegistryAction::ExtendTtl(address) ==> actions_of(s, call)[j
            - 1] == RegistryAction::Store(RegistryKey::Profile(address)),
{
}

/// What the event of a call other than a batch says: what was done, to whom,
/// and who was admin before and after.
pub proof fn law_events_tell_what_changed(s: RegistryState, call: RegistryCall, i: int)
    requires
        !(call is Batch),
        laws::refusal(s, call) is None,
        0 <= i < actions_of(s, call).len(),
        actions_of(s, call)[i] is Emit,
    ensures
        ({
            let t = laws::accepted(s, call);
            let event = actions_of(s, call)[i]->Emit_0;
            match call {
                RegistryCall::Initialize { .. } => event == (RegistryEvent::ContractInitialized {
                    admin: t.admin->0,
                }),
                RegistryCall::Register { address, .. } => event == match t.profiles[address].role {
                    Role::Issuer => RegistryEvent::IssuerRegistered { address },
                    Role::Buyer => RegistryEvent::BuyerRegistered { address },
                },
                RegistryCall::UpdateProfile { address, .. } => event == (
                RegistryEvent::ProfileUpdated { address }),
                RegistryCall::UpdateMetadata { address, .. } => event == (
                RegistryEvent::MetadataUpdated { address }),
                RegistryCall::Revoke { address, .. } => event == (RegistryEvent::AddressRevoked {
                    address,
                }),
                RegistryCall::Reinstate { address, .. } => event == (
                RegistryEvent::AddressReinstated { address }),
                RegistryCall::Verify { address, .. } => event == (RegistryEvent::ProfileVerified {
                    address,
                    verified: t.profiles[address].verified,
                }),
                RegistryCall::TransferOwnership { .. } => event == (
                RegistryEvent::OwnershipTransferred {
                    old_admin: s.admin->0,
                    new_admin: t.admin->0,
                }),
                RegistryCall::TransferAdmin { .. } => event == (RegistryEvent::AdminTransferred {
                    old_admin: s.admin->0,
                    new_admin: t.admin->0,
                }),
                RegistryCall::Batch { .. } => true,
            }
        }),
{
}

/// A batch asks for its entries one after the other: a new profile is stored,
/// extended and announced in the batch's role, an entry that is passed over asks
/// for nothing. A summary with both numbers follows, and an extension of the
/// contract if anyone was registered.
pub proof fn law_batch_actions_follow_its_entries(
    profiles: Map<Address, ProfileView>,
    batch: Seq<(Address, Metadata)>,
    role: Role,
    now: u64,
)
    ensures
        ({
            let entries = meaning::batch_entry_actions(profiles, batch, role, now);
            let actions = meaning::batch_actions(profiles, batch, role, now);
            let skipped = meaning::batch_skipped(profiles, batch, role, now).len();
            &&& batch.len() == 0 ==> entries.len() == 0
            &&& batch.len() > 0 ==> {
                let earlier = meaning::batch_entry_actions(profiles, batch.drop_last(), role, now);
                let address = batch.last().0;
                let n = earlier.len() as int;
                if laws::repeats(profiles, batch, batch.len() - 1) {
                    entries == earlier
                } else {
                    &&& entries.len() == n + 3
                    &&& entries.take(n) == earlier
                    &&& entries[n] == RegistryAction::Store(RegistryKey::Profile(address))
                    &&& entries[n + 1] == RegistryAction::ExtendTtl(address)
                    &&& entries[n + 2] == RegistryAction::Emit(
                        match role {
                            Role::Issuer => RegistryEvent::IssuerRegistered { address },
                            Role::Buyer => RegistryEvent::BuyerRegistered { address },
                        },
                    )
                }
            }
            &&& actions.len() == entries.len() + if skipped < batch.len() {
                2int
            } else {
                1
            }
            &&& actions.take(entries.len() as int) == entries
            &&& actions[entries.len() as int] == RegistryAction::Emit(
                RegistryEvent::BatchRegistered {
                    registered: (batch.len() - skipped) as u32,
                    skipped: skipped as u32,
                },
            )
            &&& skipped < batch.len() ==> actions.last() == RegistryAction::ExtendInstanceTtl
        }),
{
    let entries = meaning::batch_entry_actions(profiles, batch, role, now);
    let actions = meaning::batch_actions(profiles, batch, role, now);
    laws::law_batch_skips_exactly_the_registered(profiles, batch, role, now);
    assert(actions.take(entries.len() as int) =~= entries);
    if batch.len() > 0 {
        let rest = batch.drop_last();
        let earlier = meaning::batch_entry_actions(profiles, rest, role, now);
        laws::law_batch_registers_what_it_lists(profiles, rest, role, now, batch.last().0);
        assert(batch.take(batch.len() - 1) =~= rest);
        if !laws::repeats(profiles, batch, batch.len() - 1) {
            assert(entries.take(earlier.len() as int) =~= earlier);
        }
    }
}

} // verus!
