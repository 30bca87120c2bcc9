//! What the registry promises, on concrete values.
use soroban_sdk::{Env, TryFromVal};
use trusttrove::address::{Address, InvoiceId};
use trusttrove::auth::Auth;
use trusttrove::errors::{InvoiceError, PoolError, RegistryError};
use trusttrove::metadata::{check_entry, validate_metadata, Metadata, MetadataFault};
use trusttrove::pool::model::{InvoiceTerms, PoolAbort, PoolContract};
use trusttrove::registry::model::{
    Profile, RegistryAbort, RegistryAction, RegistryContract, RegistryEvent, RegistryKey,
    RegistryReceipt, Role, VerificationStatus, MAX_BATCH_SIZE,
};

fn address(n: u8) -> Address {
    let mut strkey = [b'A'; 56];
    strkey[55] = n;
    Address { strkey }
}

fn signed(signers: &[Address]) -> Auth {
    let mut auth = Auth::none();
    for who in signers {
        auth.add_signer(*who);
    }
    auth
}

fn text(env: &Env, s: &str) -> soroban_sdk::String {
    soroban_sdk::String::from_str(env, s)
}

fn metadata(env: &Env, entries: &[(&str, &str)]) -> Metadata {
    let mut m: Metadata = soroban_sdk::Map::new(env);
    for (key, value) in entries {
        m.set(text(env, key), text(env, value));
    }
    m
}

/// A map whose keys are numbers, under the type of a metadata map.
fn malformed(env: &Env) -> Metadata {
    let mut numbers: soroban_sdk::Map<u32, soroban_sdk::String> = soroban_sdk::Map::new(env);
    numbers.set(1, text(env, "one"));
    Metadata::try_from_val(env, &numbers.to_val()).unwrap()
}

const ADMIN: u8 = 1;
const ACME: u8 = 10;
const BIG_BUYER: u8 = 11;

fn admin_signed() -> Auth {
    signed(&[address(ADMIN)])
}

fn initialized() -> RegistryContract {
    let mut registry = RegistryContract::new();
    registry
        .initialize(&admin_signed(), address(ADMIN))
        .unwrap();
    registry
}

/// A registry with one pending issuer.
fn with_acme(env: &Env) -> RegistryContract {
    let mut registry = initialized();
    let acme = address(ACME);
    registry
        .register_issuer(&signed(&[acme]), acme, metadata(env, &[("name", "Acme")]), 77)
        .unwrap();
    registry
}

fn verified(env: &Env) -> RegistryContract {
    let mut registry = with_acme(env);
    registry
        .verify_profile(&admin_signed(), address(ACME), true)
        .unwrap();
    registry
}

fn status(registry: &RegistryContract, n: u8) -> VerificationStatus {
    registry.get_verification_status(address(n))
}

fn profile_actions(who: Address, event: RegistryEvent) -> Vec<RegistryAction> {
    vec![
        RegistryAction::Store(RegistryKey::Profile(who)),
        RegistryAction::ExtendTtl(who),
        RegistryAction::Emit(event),
    ]
}

fn lasting_actions(who: Address, event: RegistryEvent) -> Vec<RegistryAction> {
    let mut actions = profile_actions(who, event);
    actions.push(RegistryAction::ExtendInstanceTtl);
    actions
}

// ---------------------------------------------------------------- metadata

#[test]
fn metadata_is_accepted_within_the_limits() {
    let env = Env::default();
    let (key, value) = ("k".repeat(64), "v".repeat(512));
    for entries in [
        vec![],
        vec![("a", "b")],
        vec![(key.as_str(), value.as_str())],
    ] {
        assert_eq!(validate_metadata(&metadata(&env, &entries)), Ok(()));
    }
    let mut full = metadata(&env, &[]);
    for i in 0..20 {
        full.set(text(&env, &format!("key{i}")), text(&env, "x"));
    }
    assert_eq!(validate_metadata(&full), Ok(()));
    full.set(text(&env, "one more"), text(&env, "x"));
    assert_eq!(validate_metadata(&full), Err(MetadataFault::Invalid));
}

#[test]
fn metadata_is_refused_beyond_the_limits() {
    let env = Env::default();
    let (key, value) = ("k".repeat(65), "v".repeat(513));
    for entries in [
        vec![("", "b")],
        vec![("a", "")],
        vec![(key.as_str(), "b")],
        vec![("a", value.as_str())],
        vec![("a", "b"), ("c", "d"), ("e", "")],
    ] {
        assert_eq!(
            validate_metadata(&metadata(&env, &entries)),
            Err(MetadataFault::Invalid)
        );
    }
}

#[test]
fn an_entry_is_checked_by_its_lengths() {
    for (lengths, expected) in [
        (Some((1, 1)), Ok(())),
        (Some((64, 512)), Ok(())),
        (Some((0, 1)), Err(MetadataFault::Invalid)),
        (Some((1, 0)), Err(MetadataFault::Invalid)),
        (Some((65, 1)), Err(MetadataFault::Invalid)),
        (Some((1, 513)), Err(MetadataFault::Invalid)),
        (None, Err(MetadataFault::Malformed)),
    ] {
        assert_eq!(check_entry(lengths), expected);
    }
}

#[test]
fn lengths_are_counted_in_bytes() {
    let env = Env::default();
    // Two bytes each.
    let (fits, too_long) = ("\u{e9}".repeat(32), "\u{e9}".repeat(33));
    assert_eq!(
        validate_metadata(&metadata(&env, &[(fits.as_str(), "x")])),
        Ok(())
    );
    assert_eq!(
        validate_metadata(&metadata(&env, &[(too_long.as_str(), "x")])),
        Err(MetadataFault::Invalid)
    );
}

#[test]
fn metadata_of_another_type_is_malformed() {
    let env = Env::default();
    assert_eq!(
        validate_metadata(&malformed(&env)),
        Err(MetadataFault::Malformed)
    );
    let acme = address(ACME);
    assert_eq!(
        initialized().register_issuer(&signed(&[acme]), acme, malformed(&env), 0),
        Err(RegistryAbort::Malformed)
    );
    assert_eq!(
        initialized().batch_register_buyers(
            &admin_signed(),
            vec![(acme, metadata(&env, &[])), (acme, malformed(&env))],
            0
        ),
        Err(RegistryAbort::Malformed)
    );
    assert_eq!(
        with_acme(&env).update_metadata(&signed(&[acme]), acme, malformed(&env)),
        Err(RegistryAbort::Malformed)
    );
}

// ---------------------------------------------------------------- registration

#[test]
fn a_registration_starts_pending() {
    let env = Env::default();
    let mut registry = initialized();
    let (acme, buyer) = (address(ACME), address(BIG_BUYER));
    let given = metadata(&env, &[("name", "Acme")]);
    assert_eq!(
        registry.register_issuer(&signed(&[acme]), acme, given.clone(), 77),
        Ok(RegistryReceipt {
            value: true,
            actions: lasting_actions(acme, RegistryEvent::IssuerRegistered { address: acme }),
        })
    );
    assert_eq!(
        registry.register_buyer(&signed(&[buyer]), buyer, given.clone(), 78),
        Ok(RegistryReceipt {
            value: true,
            actions: lasting_actions(buyer, RegistryEvent::BuyerRegistered { address: buyer }),
        })
    );
    for (n, role, at) in [(ACME, Role::Issuer, 77), (BIG_BUYER, Role::Buyer, 78)] {
        assert_eq!(status(&registry, n), VerificationStatus::Pending);
        let receipt = registry.get_profile(address(n)).unwrap();
        assert_eq!(
            receipt.actions,
            vec![RegistryAction::ExtendTtl(address(n))]
        );
        assert_eq!(
            *receipt.value,
            Profile::new(role, false, at, given.clone())
        );
        assert_eq!(receipt.value.registered_at(), at);
        assert!(!receipt.value.revoked());
    }
    let again = Err(RegistryAbort::Error(RegistryError::AlreadyRegistered));
    assert_eq!(
        registry.register_issuer(&signed(&[acme]), acme, given.clone(), 79),
        again
    );
    assert_eq!(
        registry.register_buyer(&signed(&[acme]), acme, given, 79),
        again
    );
}

#[test]
fn a_registration_is_refused_for_the_first_reason() {
    let env = Env::default();
    let (acme, other) = (address(ACME), address(BIG_BUYER));
    let bad = metadata(&env, &[("", "x")]);
    let good = metadata(&env, &[]);
    assert_eq!(
        RegistryContract::new().register_issuer(&signed(&[]), acme, bad.clone(), 0),
        Err(RegistryAbort::Error(RegistryError::NotInitialized))
    );
    assert_eq!(
        initialized().register_issuer(&signed(&[]), acme, bad, 0),
        Err(RegistryAbort::Error(RegistryError::InvalidMetadata))
    );
    assert_eq!(
        with_acme(&env).register_issuer(&signed(&[other]), acme, good, 0),
        Err(RegistryAbort::Unauthorized(acme))
    );
}

#[test]
fn the_admin_initializes_once() {
    let mut registry = RegistryContract::new();
    let (admin, other) = (address(ADMIN), address(ACME));
    assert_eq!(
        registry.initialize(&signed(&[other]), admin),
        Err(RegistryAbort::Unauthorized(admin))
    );
    assert_eq!(
        registry.initialize(&signed(&[admin]), admin),
        Ok(RegistryReceipt {
            value: (),
            actions: vec![
                RegistryAction::Store(RegistryKey::Admin),
                RegistryAction::Emit(RegistryEvent::ContractInitialized { admin }),
                RegistryAction::ExtendInstanceTtl,
            ],
        })
    );
    assert_eq!(
        registry.initialize(&signed(&[other]), other),
        Err(RegistryAbort::Error(RegistryError::AlreadyInitialized))
    );
    assert_eq!(
        registry.get_admin(),
        Ok(RegistryReceipt {
            value: admin,
            actions: vec![RegistryAction::ExtendInstanceTtl],
        })
    );
}

// ---------------------------------------------------------------- batches

#[test]
fn a_batch_registers_what_it_lists() {
    let env = Env::default();
    let given = metadata(&env, &[("name", "someone")]);
    for buyers in [false, true] {
        let mut registry = with_acme(&env);
        let before = registry.get_profile(address(ACME)).unwrap().value.metadata.clone();
        let batch = vec![
            (address(20), given.clone()),
            (address(ACME), given.clone()),
            (address(21), given.clone()),
            (address(20), metadata(&env, &[])),
        ];
        let receipt = if buyers {
            registry.batch_register_buyers(&admin_signed(), batch, 99).unwrap()
        } else {
            registry.batch_register_issuers(&admin_signed(), batch, 99).unwrap()
        };
        // One had a profile, one was listed before.
        assert_eq!(receipt.value, vec![address(ACME), address(20)]);
        let announced = |address| {
            if buyers {
                RegistryEvent::BuyerRegistered { address }
            } else {
                RegistryEvent::IssuerRegistered { address }
            }
        };
        let mut actions = profile_actions(address(20), announced(address(20)));
        actions.extend(profile_actions(address(21), announced(address(21))));
        actions.push(RegistryAction::Emit(RegistryEvent::BatchRegistered {
            registered: 2,
            skipped: 2,
        }));
        actions.push(RegistryAction::ExtendInstanceTtl);
        assert_eq!(receipt.actions, actions);
        let role = if buyers { Role::Buyer } else { Role::Issuer };
        for n in [20, 21] {
            assert_eq!(status(&registry, n), VerificationStatus::Pending);
            assert_eq!(
                *registry.get_profile(address(n)).unwrap().value,
                Profile::new(role, false, 99, given.clone())
            );
        }
        let kept = registry.get_profile(address(ACME)).unwrap().value;
        assert_eq!(*kept, Profile::new(Role::Issuer, false, 77, before));
    }
}

#[test]
fn a_batch_that_registers_nobody_only_reports() {
    let env = Env::default();
    let mut registry = with_acme(&env);
    for (batch, skipped) in [
        (vec![], 0u32),
        (vec![(address(ACME), metadata(&env, &[]))], 1),
    ] {
        let receipt = registry
            .batch_register_issuers(&admin_signed(), batch, 0)
            .unwrap();
        assert_eq!(
            receipt.actions,
            vec![RegistryAction::Emit(RegistryEvent::BatchRegistered {
                registered: 0,
                skipped
            })]
        );
    }
}

#[test]
fn a_batch_is_taken_as_a_whole_or_not_at_all() {
    let env = Env::default();
    let good = metadata(&env, &[("a", "b")]);
    let bad = metadata(&env, &[("a", "")]);
    for position in 0..3 {
        for buyers in [false, true] {
            let mut registry = initialized();
            let batch: Vec<(Address, Metadata)> = (0..3)
                .map(|i| {
                    let m = if i == position { &bad } else { &good };
                    (address(20 + i as u8), m.clone())
                })
                .collect();
            let r = if buyers {
                registry.batch_register_buyers(&admin_signed(), batch, 0)
            } else {
                registry.batch_register_issuers(&admin_signed(), batch, 0)
            };
            assert_eq!(
                r,
                Err(RegistryAbort::Error(RegistryError::InvalidMetadata))
            );
            assert_eq!(registry, initialized());
        }
    }
}

#[test]
fn a_batch_is_bounded_and_reserved_to_the_admin() {
    let env = Env::default();
    let m = metadata(&env, &[]);
    let batch = |n: usize| -> Vec<(Address, Metadata)> {
        (0..n).map(|i| (address(20 + i as u8), m.clone())).collect()
    };
    // The size is looked at first.
    assert_eq!(
        RegistryContract::new().batch_register_buyers(&signed(&[]), batch(MAX_BATCH_SIZE + 1), 0),
        Err(RegistryAbort::Error(RegistryError::BatchSizeExceeded))
    );
    assert_eq!(
        RegistryContract::new().batch_register_buyers(&signed(&[]), batch(1), 0),
        Err(RegistryAbort::Error(RegistryError::NotFound))
    );
    assert_eq!(
        initialized().batch_register_issuers(&signed(&[address(20)]), batch(1), 0),
        Err(RegistryAbort::Unauthorized(address(ADMIN)))
    );
    let mut registry = initialized();
    let receipt = registry
        .batch_register_issuers(&admin_signed(), batch(MAX_BATCH_SIZE), 0)
        .unwrap();
    assert!(receipt.value.is_empty());
    for i in 0..MAX_BATCH_SIZE {
        assert_eq!(
            status(&registry, 20 + i as u8),
            VerificationStatus::Pending
        );
    }
}

#[test]
fn a_batch_of_one_is_a_registration() {
    let env = Env::default();
    let who = address(BIG_BUYER);
    let m = metadata(&env, &[("name", "Big")]);
    let mut single = initialized();
    single
        .register_buyer(&signed(&[who]), who, m.clone(), 5)
        .unwrap();
    let mut batch = initialized();
    batch
        .batch_register_buyers(&admin_signed(), vec![(who, m.clone())], 5)
        .unwrap();
    assert_eq!(single, batch);
    let mut single = initialized();
    single
        .register_issuer(&signed(&[who]), who, m.clone(), 5)
        .unwrap();
    let mut batch = initialized();
    batch
        .batch_register_issuers(&admin_signed(), vec![(who, m)], 5)
        .unwrap();
    assert_eq!(single, batch);
}

#[test]
fn batches_differ_in_role_alone() {
    let env = Env::default();
    let batch = vec![
        (address(20), metadata(&env, &[("name", "first")])),
        (address(ACME), metadata(&env, &[("name", "known")])),
        (address(20), metadata(&env, &[("name", "second")])),
        (address(21), metadata(&env, &[])),
    ];
    let mut issuers = with_acme(&env);
    let mut buyers = with_acme(&env);
    let skipped = issuers
        .batch_register_issuers(&admin_signed(), batch.clone(), 9)
        .unwrap()
        .value;
    assert_eq!(skipped, vec![address(ACME), address(20)]);
    assert_eq!(
        buyers
            .batch_register_buyers(&admin_signed(), batch.clone(), 9)
            .unwrap()
            .value,
        skipped
    );
    // The first entry of an address counts.
    for (n, entry) in [(20, 0), (21, 3)] {
        let m = &batch[entry].1;
        assert_eq!(
            issuers.profiles.get(&address(n)),
            Some(&Profile::new(Role::Issuer, false, 9, m.clone()))
        );
        assert_eq!(
            buyers.profiles.get(&address(n)),
            Some(&Profile::new(Role::Buyer, false, 9, m.clone()))
        );
    }
    assert_eq!(
        issuers.profiles.get(&address(ACME)),
        buyers.profiles.get(&address(ACME))
    );
}

// ---------------------------------------------------------------- verification

#[test]
fn verification_goes_round() {
    let env = Env::default();
    let mut registry = with_acme(&env);
    let acme = address(ACME);
    let on = registry.verify_profile(&admin_signed(), acme, true).unwrap();
    assert_eq!(
        on.actions,
        lasting_actions(
            acme,
            RegistryEvent::ProfileVerified {
                address: acme,
                verified: true
            }
        )
    );
    assert_eq!(status(&registry, ACME), VerificationStatus::Verified);
    let off = registry.verify_profile(&admin_signed(), acme, false).unwrap();
    assert_eq!(
        off.actions,
        lasting_actions(
            acme,
            RegistryEvent::ProfileVerified {
                address: acme,
                verified: false
            }
        )
    );
    assert_eq!(status(&registry, ACME), VerificationStatus::Revoked);
    let mut revoked = verified(&env);
    revoked.revoke(&admin_signed(), acme).unwrap();
    assert_eq!(status(&revoked, ACME), VerificationStatus::Revoked);
    registry.verify_profile(&admin_signed(), acme, true).unwrap();
    assert_eq!(status(&registry, ACME), VerificationStatus::Verified);
}

#[test]
fn an_address_is_verified_exactly_when_its_status_says_so() {
    let env = Env::default();
    let mut registry = with_acme(&env);
    let acme = address(ACME);
    let check = |registry: &RegistryContract, expected: VerificationStatus| {
        assert_eq!(registry.get_verification_status(acme), expected);
        let receipt = registry.is_verified(acme);
        assert_eq!(receipt.value, expected == VerificationStatus::Verified);
        assert_eq!(receipt.actions, vec![RegistryAction::ExtendTtl(acme)]);
    };
    check(&registry, VerificationStatus::Pending);
    registry.verify_profile(&admin_signed(), acme, true).unwrap();
    check(&registry, VerificationStatus::Verified);
    registry.revoke(&admin_signed(), acme).unwrap();
    check(&registry, VerificationStatus::Revoked);
    registry.reinstate(&admin_signed(), acme).unwrap();
    check(&registry, VerificationStatus::Verified);
    let unknown = registry.is_verified(address(99));
    assert!(!unknown.value && unknown.actions.is_empty());
    assert_eq!(status(&registry, 99), VerificationStatus::Unregistered);
}

#[test]
fn a_second_revocation_changes_and_announces_nothing() {
    let env = Env::default();
    let mut registry = verified(&env);
    let acme = address(ACME);
    let first = registry.revoke(&admin_signed(), acme).unwrap();
    assert_eq!(
        first.actions,
        lasting_actions(acme, RegistryEvent::AddressRevoked { address: acme })
    );
    let second = registry.revoke(&admin_signed(), acme).unwrap();
    assert!(second.value && second.actions.is_empty());
    assert_eq!(status(&registry, ACME), VerificationStatus::Revoked);
}

#[test]
fn a_reinstatement_undoes_a_revocation() {
    let env = Env::default();
    let mut registry = verified(&env);
    let acme = address(ACME);
    registry.revoke(&admin_signed(), acme).unwrap();
    let receipt = registry.reinstate(&admin_signed(), acme).unwrap();
    assert_eq!(
        receipt.actions,
        lasting_actions(acme, RegistryEvent::AddressReinstated { address: acme })
    );
    let expected = verified(&env);
    assert_eq!(
        registry.get_profile(acme).unwrap().value,
        expected.get_profile(acme).unwrap().value
    );
}

#[test]
fn verdicts_and_updates_are_independent() {
    let env = Env::default();
    let mut registry = verified(&env);
    let (acme, buyer) = (address(ACME), address(BIG_BUYER));
    registry
        .register_buyer(&signed(&[buyer]), buyer, metadata(&env, &[]), 5)
        .unwrap();
    let renamed = metadata(&env, &[("name", "Acme LLC")]);
    let receipt = registry
        .update_profile(&signed(&[acme]), acme, renamed.clone())
        .unwrap();
    assert_eq!(
        receipt.actions,
        profile_actions(acme, RegistryEvent::ProfileUpdated { address: acme })
    );
    assert_eq!(status(&registry, ACME), VerificationStatus::Verified);
    let again = metadata(&env, &[("name", "Acme Inc")]);
    let receipt = registry
        .update_metadata(&signed(&[acme]), acme, again.clone())
        .unwrap();
    assert_eq!(
        receipt.actions,
        lasting_actions(acme, RegistryEvent::MetadataUpdated { address: acme })
    );
    registry.revoke(&admin_signed(), acme).unwrap();
    let profile = registry.get_profile(acme).unwrap().value;
    assert_eq!(profile.metadata, again);
    assert_eq!(profile.registered_at(), 77);
    assert_eq!(profile.role(), Role::Issuer);
    assert_eq!(
        *registry.get_profile(buyer).unwrap().value,
        Profile::new(Role::Buyer, false, 5, metadata(&env, &[]))
    );
}

#[test]
fn moderation_needs_the_admin_and_a_profile() {
    let env = Env::default();
    let acme = address(ACME);
    let missing = RegistryAbort::Error(RegistryError::NotFound);
    let mut none = RegistryContract::new();
    assert_eq!(none.revoke(&signed(&[]), acme), Err(missing));
    assert_eq!(none.reinstate(&signed(&[]), acme), Err(missing));
    assert_eq!(none.verify_profile(&signed(&[]), acme, true), Err(missing));
    let refused = RegistryAbort::Unauthorized(address(ADMIN));
    let mut registry = verified(&env);
    let own = signed(&[acme]);
    assert_eq!(registry.revoke(&own, acme), Err(refused));
    assert_eq!(registry.reinstate(&own, acme), Err(refused));
    assert_eq!(registry.verify_profile(&own, acme, false), Err(refused));
    assert_eq!(status(&registry, ACME), VerificationStatus::Verified);
    assert_eq!(
        registry.revoke(&admin_signed(), address(99)),
        Err(missing)
    );
    assert_eq!(registry.get_profile(address(99)), Err(missing));
}

#[test]
fn metadata_changes_only_by_its_owner() {
    let env = Env::default();
    let mut registry = with_acme(&env);
    let acme = address(ACME);
    let forged = metadata(&env, &[("name", "forged")]);
    assert_eq!(
        registry.update_profile(&admin_signed(), acme, forged.clone()),
        Err(RegistryAbort::Unauthorized(acme))
    );
    assert_eq!(
        registry.update_metadata(&admin_signed(), acme, forged.clone()),
        Err(RegistryAbort::Unauthorized(acme))
    );
    let unknown = address(99);
    assert_eq!(
        registry.update_profile(&signed(&[unknown]), unknown, forged.clone()),
        Err(RegistryAbort::Error(RegistryError::NotRegistered))
    );
    assert_eq!(
        registry.update_metadata(&signed(&[unknown]), unknown, forged),
        Err(RegistryAbort::Error(RegistryError::NotFound))
    );
    assert_eq!(registry, with_acme(&env));
}

// ---------------------------------------------------------------- admin

#[test]
fn a_change_of_admin_keeps_the_profiles() {
    let env = Env::default();
    let (old_admin, new_admin) = (address(ADMIN), address(2));
    let mut registry = verified(&env);
    assert_eq!(
        registry.transfer_ownership(&signed(&[new_admin]), new_admin),
        Err(RegistryAbort::Unauthorized(old_admin))
    );
    assert_eq!(
        registry.transfer_ownership(&signed(&[old_admin]), new_admin),
        Err(RegistryAbort::Unauthorized(new_admin))
    );
    assert_eq!(
        registry.transfer_ownership(&signed(&[old_admin, new_admin]), new_admin),
        Ok(RegistryReceipt {
            value: (),
            actions: vec![
                RegistryAction::Store(RegistryKey::Admin),
                RegistryAction::Emit(RegistryEvent::OwnershipTransferred {
                    old_admin,
                    new_admin
                }),
                RegistryAction::ExtendInstanceTtl,
            ],
        })
    );
    assert_eq!(registry.profiles, verified(&env).profiles);
    // The old admin has nothing to say any more.
    assert_eq!(
        registry.transfer_admin(&signed(&[old_admin]), old_admin),
        Err(RegistryAbort::Unauthorized(new_admin))
    );
    assert_eq!(
        registry.transfer_admin(&signed(&[new_admin]), old_admin),
        Ok(RegistryReceipt {
            value: (),
            actions: vec![
                RegistryAction::Store(RegistryKey::Admin),
                RegistryAction::Emit(RegistryEvent::AdminTransferred {
                    old_admin: new_admin,
                    new_admin: old_admin
                }),
                RegistryAction::ExtendInstanceTtl,
            ],
        })
    );
    assert_eq!(registry, verified(&env));
}

#[test]
fn without_an_admin_nothing_is_handed_over() {
    let mut registry = RegistryContract::new();
    let new_admin = address(2);
    let missing = RegistryAbort::Error(RegistryError::NotFound);
    assert_eq!(
        registry.transfer_admin(&signed(&[new_admin]), new_admin),
        Err(missing)
    );
    assert_eq!(
        registry.transfer_ownership(&signed(&[new_admin]), new_admin),
        Err(missing)
    );
    assert_eq!(
        registry.get_admin(),
        Err(RegistryAbort::Error(RegistryError::NotInitialized))
    );
}

// ---------------------------------------------------------------- every state

#[test]
fn a_registry_is_sound_after_any_calls() {
    let env = Env::default();
    let samples = [
        metadata(&env, &[]),
        metadata(&env, &[("a", "b")]),
        metadata(&env, &[("a", "")]),
    ];
    let mut registry = initialized();
    let mut admin = address(ADMIN);
    let mut roles: Vec<(u8, Role, u64)> = Vec::new();
    let mut seed: u64 = 3;
    for now in 0..600u64 {
        seed = seed
            .wrapping_mul(6_364_136_223_846_793_005)
            .wrapping_add(1_442_695_040_888_963_407);
        let roll = (seed >> 33) as usize;
        let n = 10 + (roll >> 4) as u8 % 6;
        let who = address(n);
        let m = samples[(roll >> 9) % 3].clone();
        let auth = signed(&[admin, who]);
        match roll % 8 {
            0 => {
                let _ = registry.register_issuer(&auth, who, m, now);
            }
            1 => {
                let _ = registry.register_buyer(&auth, who, m, now);
            }
            2 => {
                let _ = registry.batch_register_buyers(&auth, vec![(who, m.clone()), (who, m)], now);
            }
            3 => {
                let _ = registry.update_metadata(&auth, who, m);
            }
            4 => {
                let _ = registry.revoke(&auth, who);
            }
            5 => {
                let _ = registry.reinstate(&auth, who);
            }
            6 => {
                let _ = registry.verify_profile(&auth, who, roll & 4096 == 0);
            }
            _ => {
                if registry.transfer_admin(&auth, who).is_ok() {
                    admin = who;
                }
            }
        }
        assert_eq!(registry.admin, Some(admin));
        for k in 10..16u8 {
            if let Some(profile) = registry.profiles.get(&address(k)) {
                assert!(!(profile.verified() && profile.revoked()));
                assert_eq!(validate_metadata(&profile.metadata), Ok(()));
                let known = roles.iter().find(|entry| entry.0 == k).copied();
                match known {
                    Some((_, role, at)) => {
                        assert_eq!(profile.role(), role);
                        assert_eq!(profile.registered_at(), at);
                    }
                    None => roles.push((k, profile.role(), profile.registered_at())),
                }
            } else {
                assert!(roles.iter().all(|entry| entry.0 != k));
            }
        }
    }
    assert_eq!(roles.len(), 6);
}

#[test]
fn what_a_batch_changes_is_stored_and_extended() {
    let env = Env::default();
    let mut registry = with_acme(&env);
    let m = metadata(&env, &[("a", "b")]);
    let listed = [20u8, ACME, 21, 20, 22];
    let batch: Vec<(Address, Metadata)> =
        listed.iter().map(|n| (address(*n), m.clone())).collect();
    let receipt = registry
        .batch_register_buyers(&admin_signed(), batch, 9)
        .unwrap();
    let mut stored = Vec::new();
    for (i, action) in receipt.actions.iter().enumerate() {
        if let RegistryAction::Store(RegistryKey::Profile(who)) = *action {
            assert_eq!(receipt.actions[i + 1], RegistryAction::ExtendTtl(who));
            stored.push(who);
        }
    }
    assert_eq!(stored, vec![address(20), address(21), address(22)]);
    assert_eq!(stored.len() + receipt.value.len(), listed.len());
}

#[test]
fn a_revoked_issuer_is_not_funded() {
    let env = Env::default();
    let mut registry = verified(&env);
    let acme = address(ACME);
    registry.revoke(&admin_signed(), acme).unwrap();
    let parts = [1u8, 2, 3, 4, 5].map(address);
    let mut pool = PoolContract::new();
    pool.initialize(
        &signed(&[parts[0]]),
        parts[0],
        parts[1],
        parts[2],
        parts[3],
        parts[4],
        parts[3],
    )
    .unwrap();
    let mut terms = InvoiceTerms {
        status: 1,
        issuer: acme,
        issuer_verified: registry.is_verified(acme).value,
        buyer: address(BIG_BUYER),
        buyer_verified: true,
        funding_asset: parts[3],
        face_value: 100,
        discount_bps: 0,
    };
    let id = InvoiceId { bytes: [1; 32] };
    assert_eq!(
        pool.fund_invoice(id, terms),
        Err(PoolAbort::Error(PoolError::IssuerNotVerified))
    );
    registry.reinstate(&admin_signed(), acme).unwrap();
    terms.issuer_verified = registry.is_verified(acme).value;
    // The issuer no longer stands in the way; the empty pool does.
    assert_eq!(
        pool.fund_invoice(id, terms),
        Err(PoolAbort::Error(PoolError::InsufficientLiquidity))
    );
}

// ---------------------------------------------------------------- names and numbers

#[test]
fn registry_errors_have_their_codes() {
    for (error, code) in [
        (RegistryError::AlreadyInitialized, 1),
        (RegistryError::AlreadyRegistered, 2),
        (RegistryError::NotFound, 3),
        (RegistryError::NotInitialized, 4),
        (RegistryError::BatchSizeExceeded, 5),
        (RegistryError::InvalidMetadata, 6),
        (RegistryError::NotRegistered, 7),
    ] {
        assert_eq!(error.code(), code);
    }
}

#[test]
fn invoice_errors_have_their_codes() {
    let errors = [
        InvoiceError::AlreadyInitialized,
        InvoiceError::NotFound,
        InvoiceError::NotAuthorized,
        InvoiceError::IssuerNotVerified,
        InvoiceError::BuyerNotVerified,
        InvoiceError::InvalidFaceValue,
        InvoiceError::InvalidDueDate,
        InvoiceError::InvalidStatusTransition,
        InvoiceError::DiscountTooHigh,
        InvoiceError::AlreadyConfirmed,
        InvoiceError::DueDateNotPassed,
        InvoiceError::InvalidDiscount,
        InvoiceError::UnsupportedAsset,
        InvoiceError::ListingNotExpired,
        InvoiceError::MathOverflow,
        InvoiceError::InvalidAmount,
        InvoiceError::CounterOverflow,
        InvoiceError::InvalidExpiryWindow,
        InvoiceError::InvalidParticipants,
        InvoiceError::NotInitialized,
        InvoiceError::UntrustedSigner,
        InvoiceError::AlreadyAttested,
        InvoiceError::VerificationRequired,
        InvoiceError::CrossContractCallFailed,
    ];
    for (i, error) in errors.iter().enumerate() {
        assert_eq!(error.code(), i as u32 + 1);
    }
}

#[test]
fn registry_events_have_their_topics() {
    let address = address(1);
    for (event, topic) in [
        (
            RegistryEvent::ContractInitialized { admin: address },
            "contract_initialized",
        ),
        (
            RegistryEvent::IssuerRegistered { address },
            "issuer_registered",
        ),
        (
            RegistryEvent::BuyerRegistered { address },
            "buyer_registered",
        ),
        (
            RegistryEvent::BatchRegistered {
                registered: 1,
                skipped: 2,
            },
            "batch_registered",
        ),
        (RegistryEvent::ProfileUpdated { address }, "profile_updated"),
        (
            RegistryEvent::MetadataUpdated { address },
            "metadata_updated",
        ),
        (RegistryEvent::AddressRevoked { address }, "address_revoked"),
        (
            RegistryEvent::AddressReinstated { address },
            "address_reinstated",
        ),
        (
            RegistryEvent::ProfileVerified {
                address,
                verified: true,
            },
            "profile_verified",
        ),
        (
            RegistryEvent::OwnershipTransferred {
                old_admin: address,
                new_admin: address,
            },
            "ownership_transferred",
        ),
        (
            RegistryEvent::AdminTransferred {
                old_admin: address,
                new_admin: address,
            },
            "admin_transferred",
        ),
    ] {
        assert_eq!(event.topic(), topic);
    }
}
