//! The registry's operations.
use crate::address::Address;
use crate::auth::Auth;
use crate::errors::RegistryError;
use crate::metadata;
use crate::metadata::{Metadata, MetadataFault};
use crate::registry::meaning;
use crate::registry::model::{
    Profile, RegistryAbort, RegistryAction, RegistryContract, RegistryEvent, RegistryKey,
    RegistryReceipt, Role, VerificationStatus, MAX_BATCH_SIZE,
};
use crate::table::Table;
use vstd::prelude::*;

verus! {

/// Checks metadata against the limits.
fn check_metadata(m: &Metadata) -> (r: Result<(), RegistryAbort>)
    ensures
        match meaning::metadata_refusal(metadata::metadata_entries(*m)) {
            Some(reason) => r == Err::<(), RegistryAbort>(reason),
            None => r is Ok,
        },
{
    match metadata::validate_metadata(m) {
        Ok(()) => Ok(()),
        Err(MetadataFault::Invalid) => Err(RegistryAbort::Error(RegistryError::InvalidMetadata)),
        Err(MetadataFault::Malformed) => Err(RegistryAbort::Malformed),
    }
}

/// The event that announces a registration.
fn registered_event(role: Role, address: Address) -> (r: RegistryEvent)
    ensures
        r == meaning::registered_event(role, address),
{
    match role {
        Role::Issuer => RegistryEvent::IssuerRegistered { address },
        Role::Buyer => RegistryEvent::BuyerRegistered { address },
    }
}

/// What a changed profile and the contract itself ask of the ledger.
fn lasting_profile_actions(address: Address, event: RegistryEvent) -> (r: Vec<RegistryAction>)
    ensures
        r@ == meaning::lasting_profile_actions(address, event),
{
    let actions = vec![
        RegistryAction::Store(RegistryKey::Profile(address)),
        RegistryAction::ExtendTtl(address),
        RegistryAction::Emit(event),
        RegistryAction::ExtendInstanceTtl,
    ];
    assert(actions@ =~= meaning::lasting_profile_actions(address, event));
    actions
}

/// What a change of admin asks of the ledger.
fn admin_actions(event: RegistryEvent) -> (r: Vec<RegistryAction>)
    ensures
        r@ == meaning::admin_actions(event),
{
    let actions = vec![
        RegistryAction::Store(RegistryKey::Admin),
        RegistryAction::Emit(event),
        RegistryAction::ExtendInstanceTtl,
    ];
    assert(actions@ =~= meaning::admin_actions(event));
    actions
}

impl RegistryContract {
    /// A registry that nothing has been done to.
    pub fn new() -> (r: Self)
        ensures
            r@ == meaning::blank(),
    {
        let r = RegistryContract { admin: None, profiles: Table::new() };
        assert(r@ =~= meaning::blank());
        r
    }

    /// Sets the admin, who has to authorise the call.
    pub fn initialize(&mut self, auth: &Auth, admin: Address) -> (r: Result<
        RegistryReceipt<()>,
        RegistryAbort,
    >)
        ensures
            meaning::performs(
                r,
                old(self)@,
                final(self)@,
                meaning::initialize_refusal(old(self)@, auth@, admin),
                meaning::with_admin(old(self)@, admin),
                (),
                meaning::initialize_actions(admin),
            ),
    {
        if self.admin.is_some() {
            return Err(RegistryAbort::Error(RegistryError::AlreadyInitialized));
        }
        if !auth.covers(&admin) {
            return Err(RegistryAbort::Unauthorized(admin));
        }
        self.admin = Some(admin);
        let actions = admin_actions(RegistryEvent::ContractInitialized { admin });
        assert(actions@ =~= meaning::initialize_actions(admin));
        Ok(RegistryReceipt { value: (), actions })
    }

    /// Registers an address in a role; the profile starts unverified.
    fn register(
        &mut self,
        auth: &Auth,
        address: Address,
        metadata: Metadata,
        role: Role,
        now: u64,
    ) -> (r: Result<RegistryReceipt<bool>, RegistryAbort>)
        ensures
            ({
                let entries = metadata::metadata_entries(metadata);
                meaning::performs(
                    r,
                    old(self)@,
                    final(self)@,
                    meaning::register_refusal(old(self)@, auth@, address, entries),
                    meaning::with_profile(
                        old(self)@,
                        address,
                        meaning::fresh_profile(role, now, entries),
                    ),
                    true,
                    meaning::lasting_profile_actions(
                        address,
                        meaning::registered_event(role, address),
                    ),
                )
            }),
    {
        if self.admin.is_none() {
            return Err(RegistryAbort::Error(RegistryError::NotInitialized));
        }
        if let Err(reason) = check_metadata(&metadata) {
            return Err(reason);
        }
        if !auth.covers(&address) {
            return Err(RegistryAbort::Unauthorized(address));
        }
        if self.profiles.has(&address) {
            return Err(RegistryAbort::Error(RegistryError::AlreadyRegistered));
        }
        let ghost entries = metadata::metadata_entries(metadata);
        self.profiles.put(address, Profile::new(role, false, now, metadata));
        assert(self@ =~= meaning::with_profile(
            old(self)@,
            address,
            meaning::fresh_profile(role, now, entries),
        ));
        let actions = lasting_profile_actions(address, registered_event(role, address));
        Ok(RegistryReceipt { value: true, actions })
    }

    /// Registers `address` as an issuer, at time `now` and with its own
    /// authorisation. The profile starts unverified.
    pub fn register_issuer(&mut self, auth: &Auth, address: Address, metadata: Metadata, now: u64) -> (r:
        Result<RegistryReceipt<bool>, RegistryAbort>)
        ensures
            ({
                let entries = metadata::metadata_entries(metadata);
                meaning::performs(
                    r,
                    old(self)@,
                    final(self)@,
                    meaning::register_refusal(old(self)@, auth@, address, entries),
                    meaning::with_profile(
                        old(self)@,
                        address,
                        meaning::fresh_profile(Role::Issuer, now, entries),
                    ),
                    true,
                    meaning::lasting_profile_actions(
                        address,
                        RegistryEvent::IssuerRegistered { address },
                    ),
                )
            }),
    {
        self.register(auth, address, metadata, Role::Issuer, now)
    }

    /// Registers `address` as a buyer, at time `now` and with its own
    /// authorisation. The profile starts unverified.
    pub fn register_buyer(&mut self, auth: &Auth, address: Address, metadata: Metadata, now: u64) -> (r:
        Result<RegistryReceipt<bool>, RegistryAbort>)
        ensures
            ({
                let entries = metadata::metadata_entries(metadata);
                meaning::performs(
                    r,
                    old(self)@,
                    final(self)@,
                    meaning::register_refusal(old(self)@, auth@, address, entries),
                    meaning::with_profile(
                        old(self)@,
                        address,
                        meaning::fresh_profile(Role::Buyer, now, entries),
                    ),
                    true,
                    meaning::lasting_profile_actions(
                        address,
                        RegistryEvent::BuyerRegistered { address },
                    ),
                )
            }),
    {
        self.register(auth, address, metadata, Role::Buyer, now)
    }

    /// Checks that the call comes from the admin.
    fn require_admin(&self, auth: &Auth) -> (r: Result<Address, RegistryAbort>)
        ensures
            match meaning::admin_refusal(self@, auth@) {
                Some(reason) => r == Err::<Address, RegistryAbort>(reason),
                None => r == Ok::<Address, RegistryAbort>(self@.admin->0),
            },
    {
        match &self.admin {
            Some(admin) => if auth.covers(admin) {
                Ok(*admin)
            } else {
                Err(RegistryAbort::Unauthorized(*admin))
            },
            None => Err(RegistryAbort::Error(RegistryError::NotFound)),
        }
    }

    /// Registers a batch of addresses in a role.
    fn batch_register(
        &mut self,
        auth: &Auth,
        batch: Vec<(Address, Metadata)>,
        role: Role,
        now: u64,
    ) -> (r: Result<RegistryReceipt<Vec<Address>>, RegistryAbort>)
        ensures
            meaning::batch_performs(
                r,
                old(self)@,
                final(self)@,
                auth@,
                batch@,
                role,
                now,
            ),
    {
        if batch.len() > MAX_BATCH_SIZE {
            return Err(RegistryAbort::Error(RegistryError::BatchSizeExceeded));
        }
        if let Err(reason) = self.require_admin(auth) {
            return Err(reason);
        }
        let mut i: usize = 0;
        while i < batch.len()
            invariant
                i <= batch.len(),
                meaning::first_refused(batch@, 0) == meaning::first_refused(batch@, i as nat),
                self@ == old(self)@,
                batch.len() <= MAX_BATCH_SIZE,
                meaning::admin_refusal(old(self)@, auth@) is None,
            decreases batch.len() - i,
        {
            if let Err(reason) = check_metadata(&batch[i].1) {
                return Err(reason);
            }
            i += 1;
        }
        let ghost start = self@.profiles;
        let ghost all = batch@;
        let mut rest = batch;
        let mut skipped: Vec<Address> = Vec::new();
        let mut registered: u32 = 0;
        let mut actions: Vec<RegistryAction> = Vec::new();
        while rest.len() > 0
            invariant
                rest@ == all.skip(all.len() - rest@.len()),
                rest@.len() <= all.len() <= MAX_BATCH_SIZE,
                self@.admin == old(self)@.admin,
                self@.profiles == meaning::batch_profiles(
                    start,
                    all.take(all.len() - rest@.len()),
                    role,
                    now,
                ),
                skipped@ == meaning::batch_skipped(
                    start,
                    all.take(all.len() - rest@.len()),
                    role,
                    now,
                ),
                actions@ == meaning::batch_entry_actions(
                    start,
                    all.take(all.len() - rest@.len()),
                    role,
                    now,
                ),
                registered + skipped@.len() + rest@.len() == all.len(),
            decreases rest.len(),
        {
            let ghost done = all.len() - rest@.len();
            let ghost before = self@.profiles;
            let (address, given) = rest.remove(0);
            proof {
                assert(all.take(done + 1).drop_last() =~= all.take(done));
                assert(all.take(done + 1).last() == (address, given));
                assert(rest@ =~= all.skip(done + 1));
            }
            if self.profiles.has(&address) {
                skipped.push(address);
            } else {
                let ghost entries = metadata::metadata_entries(given);
                self.profiles.put(address, Profile::new(role, false, now, given));
                assert(self@.profiles =~= before.insert(
                    address,
                    meaning::fresh_profile(role, now, entries),
                ));
                actions.push(RegistryAction::Store(RegistryKey::Profile(address)));
                actions.push(RegistryAction::ExtendTtl(address));
                actions.push(RegistryAction::Emit(registered_event(role, address)));
                registered += 1;
            }
            assert(actions@ =~= meaning::batch_entry_actions(start, all.take(done + 1), role, now));
        }
        assert(all.take(all.len() as int) =~= all);
        let skipped_count: u32 = skipped.len() as u32;
        actions.push(
            RegistryAction::Emit(
                RegistryEvent::BatchRegistered { registered, skipped: skipped_count },
            ),
        );
        if registered > 0 {
            actions.push(RegistryAction::ExtendInstanceTtl);
        }
        assert(self@ =~= meaning::after_batch(old(self)@, all, role, now));
        Ok(RegistryReceipt { value: skipped, actions })
    }

    /// Registers a batch of issuers at time `now`, on the admin's authority,
    /// and returns the addresses that were passed over because they have a
    /// profile already.
    ///
    /// Metadata that is refused undoes the whole batch.
    pub fn batch_register_issuers(
        &mut self,
        auth: &Auth,
        batch: Vec<(Address, Metadata)>,
        now: u64,
    ) -> (r: Result<RegistryReceipt<Vec<Address>>, RegistryAbort>)
        ensures
            meaning::batch_performs(
                r,
                old(self)@,
                final(self)@,
                auth@,
                batch@,
                Role::Issuer,
                now,
            ),
    {
        self.batch_register(auth, batch, Role::Issuer, now)
    }

    /// Registers a batch of buyers at time `now`, on the admin's authority, and
    /// returns the addresses that were passed over because they have a profile
    /// already.
    ///
    /// Metadata that is refused undoes the whole batch.
    pub fn batch_register_buyers(
        &mut self,
        auth: &Auth,
        batch: Vec<(Address, Metadata)>,
        now: u64,
    ) -> (r: Result<RegistryReceipt<Vec<Address>>, RegistryAbort>)
        ensures
            meaning::batch_performs(
                r,
                old(self)@,
                final(self)@,
                auth@,
                batch@,
                Role::Buyer,
                now,
            ),
    {
        self.batch_register(auth, batch, Role::Buyer, now)
    }

    /// Replaces the metadata of a profile; `missing` is the error for an
    /// address without one.
    fn replace_metadata(
        &mut self,
        auth: &Auth,
        address: Address,
        metadata: Metadata,
        missing: RegistryError,
    ) -> (r: Result<(), RegistryAbort>)
        ensures
            ({
                let entries = metadata::metadata_entries(metadata);
                match meaning::update_refusal(old(self)@, auth@, address, entries, missing) {
                    Some(reason) => r == Err::<(), RegistryAbort>(reason) && final(self)@ == old(
                        self,
                    )@,
                    None => r is Ok && final(self)@ == meaning::after_update(
                        old(self)@,
                        address,
                        entries,
                    ),
                }
            }),
    {
        if let Err(reason) = check_metadata(&metadata) {
            return Err(reason);
        }
        if !auth.covers(&address) {
            return Err(RegistryAbort::Unauthorized(address));
        }
        let ghost entries = metadata::metadata_entries(metadata);
        match self.profiles.take(&address) {
            Some(mut profile) => {
                profile.set_metadata(metadata);
                self.profiles.put(address, profile);
                assert(self@ =~= meaning::after_update(old(self)@, address, entries));
                Ok(())
            },
            None => {
                assert(self@ =~= old(self)@);
                Err(RegistryAbort::Error(missing))
            },
        }
    }

    /// Replaces the metadata of a profile, on its owner's authority.
    pub fn update_profile(&mut self, auth: &Auth, address: Address, metadata: Metadata) -> (r:
        Result<RegistryReceipt<bool>, RegistryAbort>)
        ensures
            ({
                let entries = metadata::metadata_entries(metadata);
                meaning::performs(
                    r,
                    old(self)@,
                    final(self)@,
                    meaning::update_refusal(
                        old(self)@,
                        auth@,
                        address,
                        entries,
                        RegistryError::NotRegistered,
                    ),
                    meaning::after_update(old(self)@, address, entries),
                    true,
                    meaning::profile_actions(address, RegistryEvent::ProfileUpdated { address }),
                )
            }),
    {
        if let Err(reason) = self.replace_metadata(
            auth,
            address,
            metadata,
            RegistryError::NotRegistered,
        ) {
            return Err(reason);
        }
        let actions = vec![
            RegistryAction::Store(RegistryKey::Profile(address)),
            RegistryAction::ExtendTtl(address),
            RegistryAction::Emit(RegistryEvent::ProfileUpdated { address }),
        ];
        assert(actions@ =~= meaning::profile_actions(
            address,
            RegistryEvent::ProfileUpdated { address },
        ));
        Ok(RegistryReceipt { value: true, actions })
    }

    /// Replaces the metadata of a profile, on its owner's authority, and
    /// extends the lifetime of the contract.
    pub fn update_metadata(&mut self, auth: &Auth, address: Address, metadata: Metadata) -> (r:
        Result<RegistryReceipt<bool>, RegistryAbort>)
        ensures
            ({
                let entries = metadata::metadata_entries(metadata);
                meaning::performs(
                    r,
                    old(self)@,
                    final(self)@,
                    meaning::update_refusal(
                        old(self)@,
                        auth@,
                        address,
                        entries,
                        RegistryError::NotFound,
                    ),
                    meaning::after_update(old(self)@, address, entries),
                    true,
                    meaning::lasting_profile_actions(
                        address,
                        RegistryEvent::MetadataUpdated { address },
                    ),
                )
            }),
    {
        if let Err(reason) = self.replace_metadata(
            auth,
            address,
            metadata,
            RegistryError::NotFound,
        ) {
            return Err(reason);
        }
        let actions = lasting_profile_actions(address, RegistryEvent::MetadataUpdated { address });
        Ok(RegistryReceipt { value: true, actions })
    }

    /// The profile of an address; reading it extends its lifetime.
    pub fn get_profile(&self, address: Address) -> (r: Result<
        RegistryReceipt<&Profile>,
        RegistryAbort,
    >)
        ensures
            if self@.profiles.contains_key(address) {
                &&& r matches Ok(receipt)
                &&& receipt.value@ == self@.profiles[address]
                &&& receipt.actions@ == seq![RegistryAction::ExtendTtl(address)]
            } else {
                r == Err::<RegistryReceipt<&Profile>, RegistryAbort>(
                    RegistryAbort::Error(RegistryError::NotFound),
                )
            },
    {
        match self.profiles.get(&address) {
            Some(profile) => {
                let actions = vec![RegistryAction::ExtendTtl(address)];
                assert(actions@ =~= seq![RegistryAction::ExtendTtl(address)]);
                Ok(RegistryReceipt { value: profile, actions })
            },
            None => Err(RegistryAbort::Error(RegistryError::NotFound)),
        }
    }

    /// Whether an address is verified; one without a profile is not. Reading a
    /// profile extends its lifetime.
    pub fn is_verified(&self, address: Address) -> (r: RegistryReceipt<bool>)
        ensures
            r.value == meaning::verified(self@, address),
            r.actions@ == (if self@.profiles.contains_key(address) {
                seq![RegistryAction::ExtendTtl(address)]
            } else {
                seq![]
            }),
    {
        match self.profiles.get(&address) {
            Some(profile) => {
                let actions = vec![RegistryAction::ExtendTtl(address)];
                assert(actions@ =~= seq![RegistryAction::ExtendTtl(address)]);
                RegistryReceipt { value: profile.verified(), actions }
            },
            None => RegistryReceipt { value: false, actions: Vec::new() },
        }
    }

    /// How an address stands with the registry.
    pub fn get_verification_status(&self, address: Address) -> (r: VerificationStatus)
        ensures
            r == meaning::status_of(self@, address),
    {
        match self.profiles.get(&address) {
            None => VerificationStatus::Unregistered,
            Some(profile) => if profile.verified() {
                VerificationStatus::Verified
            } else if profile.revoked() {
                VerificationStatus::Revoked
            } else {
                VerificationStatus::Pending
            },
        }
    }

    /// Marks a profile as verified or as revoked, on the admin's authority.
    fn pass_verdict(&mut self, auth: &Auth, address: Address, verify: bool) -> (r: Result<
        (),
        RegistryAbort,
    >)
        ensures
            match meaning::moderation_refusal(old(self)@, auth@, address) {
                Some(reason) => r == Err::<(), RegistryAbort>(reason) && final(self)@ == old(self)@,
                None => r is Ok && final(self)@ == meaning::after_verdict(
                    old(self)@,
                    address,
                    verify,
                ),
            },
    {
        if let Err(reason) = self.require_admin(auth) {
            return Err(reason);
        }
        match self.profiles.take(&address) {
            Some(mut profile) => {
                profile.set_verified(verify);
                profile.set_revoked(!verify);
                self.profiles.put(address, profile);
                assert(self@ =~= meaning::after_verdict(old(self)@, address, verify));
                Ok(())
            },
            None => {
                assert(self@ =~= old(self)@);
                Err(RegistryAbort::Error(RegistryError::NotFound))
            },
        }
    }

    /// Withdraws the verification of an address, on the admin's authority.
    ///
    /// An address that is not verified stays as it is: nothing is written and
    /// nothing is announced.
    pub fn revoke(&mut self, auth: &Auth, address: Address) -> (r: Result<
        RegistryReceipt<bool>,
        RegistryAbort,
    >)
        ensures
            meaning::performs(
                r,
                old(self)@,
                final(self)@,
                meaning::moderation_refusal(old(self)@, auth@, address),
                meaning::after_revoke(old(self)@, address),
                true,
                meaning::revoke_actions(old(self)@, address),
            ),
    {
        if let Err(reason) = self.require_admin(auth) {
            return Err(reason);
        }
        match self.profiles.get(&address) {
            Some(profile) => if !profile.verified() {
                return Ok(RegistryReceipt { value: true, actions: Vec::new() });
            },
            None => {
                return Err(RegistryAbort::Error(RegistryError::NotFound));
            },
        }
        if let Err(reason) = self.pass_verdict(auth, address, false) {
            return Err(reason);
        }
        let actions = lasting_profile_actions(address, RegistryEvent::AddressRevoked { address });
        Ok(RegistryReceipt { value: true, actions })
    }

    /// Restores the verification of an address, on the admin's authority.
    pub fn reinstate(&mut self, auth: &Auth, address: Address) -> (r: Result<
        RegistryReceipt<bool>,
        RegistryAbort,
    >)
        ensures
            meaning::performs(
                r,
                old(self)@,
                final(self)@,
                meaning::moderation_refusal(old(self)@, auth@, address),
                meaning::after_verdict(old(self)@, address, true),
                true,
                meaning::lasting_profile_actions(
                    address,
                    RegistryEvent::AddressReinstated { address },
                ),
            ),
    {
        if let Err(reason) = self.pass_verdict(auth, address, true) {
            return Err(reason);
        }
        let actions = lasting_profile_actions(
            address,
            RegistryEvent::AddressReinstated { address },
        );
        Ok(RegistryReceipt { value: true, actions })
    }

    /// Marks an address as verified or as revoked, on the admin's authority.
    pub fn verify_profile(&mut self, auth: &Auth, address: Address, verify: bool) -> (r: Result<
        RegistryReceipt<bool>,
        RegistryAbort,
    >)
        ensures
            meaning::performs(
                r,
                old(self)@,
                final(self)@,
                meaning::moderation_refusal(old(self)@, auth@, address),
                meaning::after_verdict(old(self)@, address, verify),
                true,
                meaning::lasting_profile_actions(
                    address,
                    RegistryEvent::ProfileVerified { address, verified: verify },
                ),
            ),
    {
        if let Err(reason) = self.pass_verdict(auth, address, verify) {
            return Err(reason);
        }
        let actions = lasting_profile_actions(
            address,
            RegistryEvent::ProfileVerified { address, verified: verify },
        );
        Ok(RegistryReceipt { value: true, actions })
    }

    /// Hands the registry over to another admin; both have to authorise it, so
    /// that it cannot go to a mistaken address.
    pub fn transfer_ownership(&mut self, auth: &Auth, new_admin: Address) -> (r: Result<
        RegistryReceipt<()>,
        RegistryAbort,
    >)
        ensures
            meaning::performs(
                r,
                old(self)@,
                final(self)@,
                meaning::ownership_refusal(old(self)@, auth@, new_admin),
                meaning::with_admin(old(self)@, new_admin),
                (),
                meaning::admin_actions(
                    RegistryEvent::OwnershipTransferred {
                        old_admin: old(self)@.admin->0,
                        new_admin,
                    },
                ),
            ),
    {
        let old_admin = match self.require_admin(auth) {
            Ok(admin) => admin,
            Err(reason) => {
                return Err(reason);
            },
        };
        if !auth.covers(&new_admin) {
            return Err(RegistryAbort::Unauthorized(new_admin));
        }
        self.admin = Some(new_admin);
        let actions = admin_actions(RegistryEvent::OwnershipTransferred { old_admin, new_admin });
        Ok(RegistryReceipt { value: (), actions })
    }

    /// Hands the registry over to another admin, on the authority of the
    /// present one alone.
    pub fn transfer_admin(&mut self, auth: &Auth, new_admin: Address) -> (r: Result<
        RegistryReceipt<()>,
        RegistryAbort,
    >)
        ensures
            meaning::performs(
                r,
                old(self)@,
                final(self)@,
                meaning::admin_refusal(old(self)@, auth@),
                meaning::with_admin(old(self)@, new_admin),
                (),
                meaning::admin_actions(
                    RegistryEvent::AdminTransferred { old_admin: old(self)@.admin->0, new_admin },
                ),
            ),
    {
        let old_admin = match self.require_admin(auth) {
            Ok(admin) => admin,
            Err(reason) => {
                return Err(reason);
            },
        };
        self.admin = Some(new_admin);
        let actions = admin_actions(RegistryEvent::AdminTransferred { old_admin, new_admin });
        Ok(RegistryReceipt { value: (), actions })
    }

    /// The admin of the registry; reading it extends the contract's lifetime.
    pub fn get_admin(&self) -> (r: Result<RegistryReceipt<Address>, RegistryAbort>)
        ensures
            match self@.admin {
                Some(admin) => {
                    &&& r matches Ok(receipt)
                    &&& receipt.value == admin
                    &&& receipt.actions@ == seq![RegistryAction::ExtendInstanceTtl]
                },
                None => r == Err::<RegistryReceipt<Address>, RegistryAbort>(
                    RegistryAbort::Error(RegistryError::NotInitialized),
                ),
            },
    {
        match &self.admin {
            Some(admin) => {
                let actions = vec![RegistryAction::ExtendInstanceTtl];
                assert(actions@ =~= seq![RegistryAction::ExtendInstanceTtl]);
                Ok(RegistryReceipt { value: *admin, actions })
            },
            None => Err(RegistryAbort::Error(RegistryError::NotInitialized)),
        }
    }
}

} // verus!
