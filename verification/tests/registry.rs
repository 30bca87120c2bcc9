//! The registry contract against a simulated ledger.
use soroban_sdk::Env;
use std::collections::HashMap;
use trusttrove::address::Address;
use trusttrove::auth::Auth;
use trusttrove::ledger::{TTL_EXTEND_TO, TTL_THRESHOLD};
use trusttrove::metadata::{
    Metadata, MAX_METADATA_KEY_LEN, MAX_METADATA_SIZE, MAX_METADATA_VALUE_LEN,
};
use trusttrove::registry::model::{
    Profile, RegistryAbort, RegistryAction, RegistryContract, RegistryEvent, RegistryKey,
    RegistryReceipt, Role, VerificationStatus,
};

// Lifetime of a fresh entry, in ledgers.
const DEFAULT_TTL: u32 = 4096;

struct Client {
    env: Env,
    registry: RegistryContract,
    next_address: u8,
    now: u64,
    sequence: u32,
    // Whose signatures are at hand; everyone's when `None`.
    signers: Option<Vec<Address>>,
    instance_live_until: u32,
    profiles_live_until: HashMap<Address, u32>,
    events: Vec<RegistryEvent>,
}

fn message(reason: RegistryAbort) -> String {
    match reason {
        RegistryAbort::Error(error) => format!("Error(Contract, #{})", error.code()),
        RegistryAbort::Unauthorized(_) => "Error(Auth, InvalidAction)".to_string(),
        RegistryAbort::Malformed => "ConversionError".to_string(),
    }
}

fn ok<T>(r: Result<T, String>) -> T {
    match r {
        Ok(value) => value,
        Err(text) => panic!("{}", text),
    }
}

fn text(env: &Env, s: &str) -> soroban_sdk::String {
    soroban_sdk::String::from_str(env, s)
}

fn build_metadata(env: &Env, entries: &[(&str, &str)]) -> Metadata {
    let mut metadata: Metadata = soroban_sdk::Map::new(env);
    for (key, value) in entries {
        metadata.set(text(env, key), text(env, value));
    }
    metadata
}

fn numbered_metadata(env: &Env, count: u32) -> Metadata {
    let mut metadata: Metadata = soroban_sdk::Map::new(env);
    for i in 0..count {
        metadata.set(
            text(env, &format!("key_{}", i)),
            text(env, &format!("value_{}", i)),
        );
    }
    metadata
}

impl Client {
    fn generate(&mut self) -> Address {
        self.next_address += 1;
        let mut strkey = [b'A'; 56];
        strkey[0] = b'G';
        strkey[55] = self.next_address;
        Address { strkey }
    }

    fn empty(&self) -> Metadata {
        build_metadata(&self.env, &[])
    }

    fn named(&self, name: &str) -> Metadata {
        build_metadata(&self.env, &[("name", name)])
    }

    fn clear_auths(&mut self) {
        self.signers = Some(Vec::new());
    }

    fn sign_only(&mut self, who: Address) {
        self.signers = Some(vec![who]);
    }

    fn can_sign(&self, who: &Address) -> bool {
        match &self.signers {
            None => true,
            Some(signers) => signers.contains(who),
        }
    }

    fn instance_ttl(&self) -> u32 {
        self.instance_live_until - self.sequence
    }

    fn profile_ttl(&self, who: Address) -> u32 {
        self.profiles_live_until[&who] - self.sequence
    }

    fn perform(&mut self, actions: &[RegistryAction]) {
        for action in actions {
            match *action {
                RegistryAction::Store(RegistryKey::Admin) => {}
                RegistryAction::Store(RegistryKey::Profile(who)) => {
                    let fresh = self.sequence + DEFAULT_TTL;
                    self.profiles_live_until.entry(who).or_insert(fresh);
                }
                RegistryAction::ExtendTtl(who) => {
                    if self.profile_ttl(who) < TTL_THRESHOLD {
                        self.profiles_live_until
                            .insert(who, self.sequence + TTL_EXTEND_TO);
                    }
                }
                RegistryAction::ExtendInstanceTtl => {
                    if self.instance_ttl() < TTL_THRESHOLD {
                        self.instance_live_until = self.sequence + TTL_EXTEND_TO;
                    }
                }
                RegistryAction::Emit(event) => self.events.push(event),
            }
        }
    }

    fn call<T>(
        &mut self,
        f: impl Fn(&mut RegistryContract, &Auth) -> Result<RegistryReceipt<T>, RegistryAbort>,
    ) -> Result<T, String> {
        let mut auth = Auth::none();
        loop {
            match f(&mut self.registry, &auth) {
                Ok(receipt) => {
                    self.perform(&receipt.actions);
                    return Ok(receipt.value);
                }
                Err(RegistryAbort::Unauthorized(who)) if self.can_sign(&who) && !auth.covers(&who) => {
                    auth.add_signer(who)
                }
                Err(reason) => return Err(message(reason)),
            }
        }
    }

    fn initialize(&mut self, admin: Address) {
        ok(self.call(|r, auth| r.initialize(auth, admin)))
    }

    fn try_register_issuer(&mut self, who: Address, metadata: &Metadata) -> Result<bool, String> {
        let now = self.now;
        self.call(|r, auth| r.register_issuer(auth, who, metadata.clone(), now))
    }

    fn register_issuer(&mut self, who: Address, metadata: &Metadata) -> bool {
        ok(self.try_register_issuer(who, metadata))
    }

    fn register_buyer(&mut self, who: Address, metadata: &Metadata) -> bool {
        let now = self.now;
        ok(self.call(|r, auth| r.register_buyer(auth, who, metadata.clone(), now)))
    }

    fn batch_register_issuers(&mut self, entries: &[(Address, Metadata)]) -> Vec<Address> {
        let now = self.now;
        ok(self.call(|r, auth| r.batch_register_issuers(auth, entries.to_vec(), now)))
    }

    fn batch_register_buyers(&mut self, entries: &[(Address, Metadata)]) -> Vec<Address> {
        let now = self.now;
        ok(self.call(|r, auth| r.batch_register_buyers(auth, entries.to_vec(), now)))
    }

    fn update_profile(&mut self, who: Address, metadata: &Metadata) -> bool {
        ok(self.call(|r, auth| r.update_profile(auth, who, metadata.clone())))
    }

    fn update_metadata(&mut self, who: Address, metadata: &Metadata) -> bool {
        ok(self.call(|r, auth| r.update_metadata(auth, who, metadata.clone())))
    }

    fn get_profile(&mut self, who: Address) -> &Profile {
        let actions = match self.registry.get_profile(who) {
            Ok(receipt) => receipt.actions,
            Err(reason) => panic!("{}", message(reason)),
        };
        self.perform(&actions);
        self.registry.profiles.get(&who).unwrap()
    }

    fn is_verified(&mut self, who: Address) -> bool {
        let receipt = self.registry.is_verified(who);
        self.perform(&receipt.actions);
        receipt.value
    }

    fn get_verification_status(&self, who: Address) -> VerificationStatus {
        self.registry.get_verification_status(who)
    }

    fn revoke(&mut self, who: Address) -> bool {
        ok(self.call(|r, auth| r.revoke(auth, who)))
    }

    fn reinstate(&mut self, who: Address) -> bool {
        ok(self.call(|r, auth| r.reinstate(auth, who)))
    }

    fn verify_profile(&mut self, who: Address, verify: bool) -> bool {
        ok(self.call(|r, auth| r.verify_profile(auth, who, verify)))
    }

    fn transfer_ownership(&mut self, new_admin: Address) {
        ok(self.call(|r, auth| r.transfer_ownership(auth, new_admin)))
    }

    fn transfer_admin(&mut self, new_admin: Address) {
        ok(self.call(|r, auth| r.transfer_admin(auth, new_admin)))
    }

    fn get_admin(&mut self) -> Address {
        match self.registry.get_admin() {
            Ok(receipt) => {
                self.perform(&receipt.actions);
                receipt.value
            }
            Err(reason) => panic!("{}", message(reason)),
        }
    }

    fn topics(&self) -> Vec<&'static str> {
        self.events.iter().map(|event| event.topic()).collect()
    }
}

fn setup() -> Client {
    Client {
        env: Env::default(),
        registry: RegistryContract::new(),
        next_address: 0,
        now: 0,
        sequence: 0,
        signers: None,
        instance_live_until: DEFAULT_TTL,
        profiles_live_until: HashMap::new(),
        events: Vec::new(),
    }
}

/// A registry with an admin.
fn setup_initialized() -> (Client, Address) {
    let mut client = setup();
    let admin = client.generate();
    client.initialize(admin);
    (client, admin)
}

// ============== initialization ==============

#[test]
fn test_initialize() {
    let (mut client, admin) = setup_initialized();
    assert_eq!(client.get_admin(), admin);
    assert_eq!(client.events.len(), 1);
    assert_eq!(
        client.events[0],
        RegistryEvent::ContractInitialized { admin }
    );
}

#[test]
#[should_panic(expected = "Error(Contract, #4)")]
fn test_get_admin_before_initialize_panics_with_not_initialized() {
    let mut client = setup();
    client.get_admin();
}

#[test]
fn test_register_issuer() {
    let (mut client, _) = setup_initialized();
    let issuer = client.generate();
    let metadata = client.named("Acme Corp");
    let result = client.register_issuer(issuer, &metadata);
    assert!(result);
    let profile = client.get_profile(issuer);
    assert_eq!(profile.role(), Role::Issuer);
    assert!(!profile.verified());
}

#[test]
fn test_register_buyer() {
    let (mut client, _) = setup_initialized();
    let buyer = client.generate();
    let metadata = client.empty();
    let result = client.register_buyer(buyer, &metadata);
    assert!(result);
    let profile = client.get_profile(buyer);
    assert_eq!(profile.role(), Role::Buyer);
    assert!(!profile.verified());
}

#[test]
#[should_panic(expected = "Error(Contract, #4)")]
fn test_register_issuer_before_initialize_panics() {
    let mut client = setup();
    let issuer = client.generate();
    let metadata = client.empty();
    client.register_issuer(issuer, &metadata);
}

#[test]
#[should_panic(expected = "Error(Contract, #4)")]
fn test_register_buyer_before_initialize_panics() {
    let mut client = setup();
    let buyer = client.generate();
    let metadata = client.empty();
    client.register_buyer(buyer, &metadata);
}

#[test]
fn test_is_verified_returns_false_for_registered_but_unverified() {
    let (mut client, _) = setup_initialized();
    let issuer = client.generate();
    let metadata = client.empty();
    client.register_issuer(issuer, &metadata);
    assert!(!client.is_verified(issuer));
}

#[test]
fn test_is_verified_returns_false_for_unknown() {
    let (mut client, _) = setup_initialized();
    let unknown = client.generate();
    assert!(!client.is_verified(unknown));
}

// ============== revocation and reinstatement ==============

#[test]
fn test_revoke_sets_verified_false() {
    let (mut client, _) = setup_initialized();
    let issuer = client.generate();
    let metadata = client.empty();
    client.register_issuer(issuer, &metadata);
    assert!(!client.is_verified(issuer));
    client.verify_profile(issuer, true);
    assert!(client.is_verified(issuer));
    let result = client.revoke(issuer);
    assert!(result);
    assert!(!client.is_verified(issuer));
}

#[test]
fn test_revoke_already_revoked_returns_true_no_reemit() {
    let (mut client, _) = setup_initialized();
    let issuer = client.generate();
    let metadata = client.empty();
    client.register_issuer(issuer, &metadata);
    assert!(!client.is_verified(issuer));
    let published = client.events.len();

    // Nothing to revoke yet.
    let result = client.revoke(issuer);
    assert!(result);
    assert!(!client.is_verified(issuer));
    assert_eq!(
        client.get_verification_status(issuer),
        VerificationStatus::Pending
    );

    let result2 = client.revoke(issuer);
    assert!(result2);
    assert!(!client.is_verified(issuer));
    assert_eq!(
        client.get_verification_status(issuer),
        VerificationStatus::Pending
    );
    assert_eq!(client.events.len(), published);
}

#[test]
#[should_panic(expected = "Error(Contract, #3)")]
fn test_revoke_unregistered_panics() {
    let (mut client, _) = setup_initialized();
    let unknown = client.generate();
    client.revoke(unknown);
}

#[test]
#[should_panic(expected = "Error(Auth, InvalidAction)")]
fn test_revoke_wrong_auth_panics() {
    let mut client = setup();
    client.clear_auths();
    let admin = client.generate();
    let issuer = client.generate();
    let metadata = client.empty();
    let profile = Profile::new(Role::Issuer, true, client.now, metadata);
    client.registry.admin = Some(admin);
    client.registry.profiles.put(issuer, profile);
    client.profiles_live_until.insert(issuer, TTL_EXTEND_TO);

    assert!(client.is_verified(issuer));
    client.revoke(issuer);
}

#[test]
#[should_panic(expected = "Error(Contract, #2)")]
fn test_re_register_revoked_issuer_panics() {
    let (mut client, _) = setup_initialized();
    let issuer = client.generate();
    let metadata = client.empty();
    client.register_issuer(issuer, &metadata);
    assert!(!client.is_verified(issuer));
    client.verify_profile(issuer, true);
    assert!(client.is_verified(issuer));
    client.revoke(issuer);
    assert!(!client.is_verified(issuer));
    client.register_issuer(issuer, &metadata);
}

#[test]
fn test_reinstate_revoked_issuer_restores_verification() {
    let (mut client, _) = setup_initialized();
    let issuer = client.generate();
    let metadata = client.empty();
    client.register_issuer(issuer, &metadata);
    assert!(!client.is_verified(issuer));
    client.verify_profile(issuer, true);
    assert!(client.is_verified(issuer));

    client.revoke(issuer);
    assert!(!client.is_verified(issuer));

    client.verify_profile(issuer, true);
    assert!(client.is_verified(issuer));
}

#[test]
fn test_reinstate_restores_verified_and_emits_event() {
    let (mut client, admin) = setup_initialized();
    let issuer = client.generate();
    let metadata = client.empty();
    client.register_issuer(issuer, &metadata);
    assert!(!client.is_verified(issuer));
    client.verify_profile(issuer, true);
    assert!(client.is_verified(issuer));

    client.revoke(issuer);
    assert!(!client.is_verified(issuer));

    let result = client.reinstate(issuer);
    assert!(result);
    assert!(client.is_verified(issuer));

    assert_eq!(
        client.events,
        vec![
            RegistryEvent::ContractInitialized { admin },
            RegistryEvent::IssuerRegistered { address: issuer },
            RegistryEvent::ProfileVerified {
                address: issuer,
                verified: true
            },
            RegistryEvent::AddressRevoked { address: issuer },
            RegistryEvent::AddressReinstated { address: issuer },
        ]
    );
    assert_eq!(
        client.topics(),
        vec![
            "contract_initialized",
            "issuer_registered",
            "profile_verified",
            "address_revoked",
            "address_reinstated"
        ]
    );
}

#[test]
#[should_panic(expected = "Error(Auth, InvalidAction)")]
fn test_reinstate_wrong_auth_panics() {
    let mut client = setup();
    client.clear_auths();
    let admin = client.generate();
    let issuer = client.generate();
    let metadata = client.empty();
    let profile = Profile::new(Role::Issuer, false, client.now, metadata);
    client.registry.admin = Some(admin);
    client.registry.profiles.put(issuer, profile);

    client.reinstate(issuer);
}

#[test]
#[should_panic(expected = "Error(Contract, #3)")]
fn test_reinstate_unregistered_panics() {
    let (mut client, _) = setup_initialized();
    let unknown = client.generate();
    client.reinstate(unknown);
}

// ============== metadata updates ==============

#[test]
fn test_update_metadata_self_succeeds() {
    let (mut client, _) = setup_initialized();
    let issuer = client.generate();
    let metadata = client.named("Acme Corp");
    client.register_issuer(issuer, &metadata);

    let updated_metadata = client.named("Acme LLC");
    let result = client.update_metadata(issuer, &updated_metadata);
    assert!(result);

    let profile = client.get_profile(issuer);
    assert_eq!(profile.metadata, updated_metadata);
}

#[test]
#[should_panic(expected = "Error(Contract, #3)")]
fn test_update_metadata_unregistered_panics() {
    let (mut client, _) = setup_initialized();
    let unknown = client.generate();
    let metadata = client.empty();
    client.update_metadata(unknown, &metadata);
}

#[test]
#[should_panic(expected = "Error(Auth, InvalidAction)")]
fn test_update_metadata_wrong_auth_panics() {
    let mut client = setup();
    client.clear_auths();
    let issuer = client.generate();
    let metadata = client.named("Acme Corp");
    let profile = Profile::new(Role::Issuer, true, client.now, metadata);
    client.registry.profiles.put(issuer, profile);

    let updated_metadata = client.named("Bad Actor");
    client.update_metadata(issuer, &updated_metadata);
}

#[test]
fn test_update_profile_happy_path() {
    let (mut client, admin) = setup_initialized();
    let issuer = client.generate();
    let metadata = client.named("Acme Corp");
    client.register_issuer(issuer, &metadata);

    let updated_metadata = build_metadata(
        &client.env,
        &[("name", "Acme LLC"), ("tax_id", "12-3456789")],
    );
    let result = client.update_profile(issuer, &updated_metadata);
    assert!(result);

    let profile = client.get_profile(issuer);
    assert_eq!(profile.metadata, updated_metadata);
    assert_eq!(profile.role(), Role::Issuer);
    assert!(!profile.verified());

    assert_eq!(
        client.events,
        vec![
            RegistryEvent::ContractInitialized { admin },
            RegistryEvent::IssuerRegistered { address: issuer },
            RegistryEvent::ProfileUpdated { address: issuer },
        ]
    );
    assert_eq!(
        client.topics(),
        vec![
            "contract_initialized",
            "issuer_registered",
            "profile_updated"
        ]
    );
}

#[test]
#[should_panic(expected = "Error(Auth, InvalidAction)")]
fn test_update_profile_wrong_auth_panics() {
    let mut client = setup();
    client.clear_auths();
    let issuer = client.generate();
    let metadata = client.named("Acme Corp");
    let profile = Profile::new(Role::Issuer, true, client.now, metadata);
    client.registry.profiles.put(issuer, profile);

    let updated_metadata = client.named("Bad Actor");
    client.update_profile(issuer, &updated_metadata);
}

#[test]
#[should_panic(expected = "Error(Contract, #7)")]
fn test_update_profile_unregistered_panics() {
    let (mut client, _) = setup_initialized();
    let unknown = client.generate();
    let metadata = client.empty();
    client.update_profile(unknown, &metadata);
}

// ============== one profile per address ==============

#[test]
#[should_panic(expected = "Error(Contract, #2)")]
fn test_duplicate_registration_panics() {
    let (mut client, _) = setup_initialized();
    let issuer = client.generate();
    let metadata = client.empty();
    client.register_issuer(issuer, &metadata);
    client.register_issuer(issuer, &metadata);
}

#[test]
#[should_panic(expected = "Error(Contract, #2)")]
fn test_register_issuer_then_buyer_panics() {
    let mut client = setup();
    let admin = client.generate();
    let issuer = client.generate();
    let metadata = client.empty();

    client.sign_only(admin);
    client.initialize(admin);

    client.sign_only(issuer);
    client.register_issuer(issuer, &metadata);

    assert!(!client.is_verified(issuer));
    assert_eq!(client.get_profile(issuer).role(), Role::Issuer);

    assert_eq!(
        client.events,
        vec![
            RegistryEvent::ContractInitialized { admin },
            RegistryEvent::IssuerRegistered { address: issuer },
        ]
    );

    client.sign_only(issuer);
    client.register_buyer(issuer, &metadata);
}

#[test]
#[should_panic(expected = "Error(Contract, #2)")]
fn test_register_buyer_then_issuer_panics() {
    let mut client = setup();
    let admin = client.generate();
    let buyer = client.generate();
    let metadata = client.empty();

    client.sign_only(admin);
    client.initialize(admin);

    client.sign_only(buyer);
    client.register_buyer(buyer, &metadata);

    assert!(!client.is_verified(buyer));
    assert_eq!(client.get_profile(buyer).role(), Role::Buyer);

    assert_eq!(
        client.events,
        vec![
            RegistryEvent::ContractInitialized { admin },
            RegistryEvent::BuyerRegistered { address: buyer },
        ]
    );

    client.sign_only(buyer);
    client.register_issuer(buyer, &metadata);
}

#[test]
#[should_panic(expected = "Error(Contract, #1)")]
fn test_test_double_initialize_panics() {
    let (mut client, admin) = setup_initialized();
    client.initialize(admin);
}

#[test]
#[should_panic(expected = "Error(Contract, #3)")]
fn test_get_profile_unknown_panics() {
    let (mut client, _) = setup_initialized();
    let unknown = client.generate();
    client.get_profile(unknown);
}

// ============== batches of issuers ==============

#[test]
fn test_batch_register_issuers_empty_vec() {
    let (mut client, _) = setup_initialized();
    let skipped = client.batch_register_issuers(&[]);
    assert_eq!(skipped.len(), 0);
}

#[test]
fn test_batch_register_issuers_all_new() {
    let (mut client, _) = setup_initialized();

    let issuer1 = client.generate();
    let issuer2 = client.generate();
    let issuer3 = client.generate();

    let entries = [
        (issuer1, client.named("Issuer 1")),
        (issuer2, client.named("Issuer 2")),
        (issuer3, client.named("Issuer 3")),
    ];

    let skipped = client.batch_register_issuers(&entries);
    assert_eq!(skipped.len(), 0);

    assert!(!client.is_verified(issuer1));
    assert!(!client.is_verified(issuer2));
    assert!(!client.is_verified(issuer3));

    assert_eq!(client.get_profile(issuer1).role(), Role::Issuer);
    assert_eq!(client.get_profile(issuer2).role(), Role::Issuer);
    assert_eq!(client.get_profile(issuer3).role(), Role::Issuer);
}

#[test]
fn test_batch_register_issuers_all_duplicate() {
    let (mut client, _) = setup_initialized();

    let issuer1 = client.generate();
    let issuer2 = client.generate();

    let empty = client.empty();
    client.register_issuer(issuer1, &empty);
    client.register_issuer(issuer2, &empty);

    let entries = [(issuer1, empty.clone()), (issuer2, empty.clone())];

    let skipped = client.batch_register_issuers(&entries);
    assert_eq!(skipped.len(), 2);
    assert!(skipped.contains(&issuer1));
    assert!(skipped.contains(&issuer2));
}

#[test]
fn test_batch_register_issuers_mixed() {
    let (mut client, _) = setup_initialized();

    let issuer1 = client.generate(); // existing
    let issuer2 = client.generate(); // new
    let issuer3 = client.generate(); // new

    let empty = client.empty();
    client.register_issuer(issuer1, &empty);

    let entries = [
        (issuer1, empty.clone()),
        (issuer2, empty.clone()),
        (issuer3, empty.clone()),
    ];

    let skipped = client.batch_register_issuers(&entries);
    assert_eq!(skipped.len(), 1);
    assert!(skipped.contains(&issuer1));

    assert!(!client.is_verified(issuer1));
    assert!(!client.is_verified(issuer2));
    assert!(!client.is_verified(issuer3));
}

#[test]
#[should_panic(expected = "Error(Contract, #5)")]
fn test_batch_register_issuers_exceeds_limit() {
    let (mut client, _) = setup_initialized();
    let mut entries = Vec::new();
    for _ in 0..51 {
        let address = client.generate();
        entries.push((address, client.empty()));
    }
    client.batch_register_issuers(&entries);
}

// ============== batches of buyers ==============

#[test]
fn test_batch_register_buyers_empty_vec() {
    let (mut client, _) = setup_initialized();
    let skipped = client.batch_register_buyers(&[]);
    assert_eq!(skipped.len(), 0);
}

#[test]
fn test_batch_register_buyers_all_new() {
    let (mut client, _) = setup_initialized();

    let buyer1 = client.generate();
    let buyer2 = client.generate();
    let buyer3 = client.generate();

    let entries = [
        (buyer1, client.named("Buyer 1")),
        (buyer2, client.named("Buyer 2")),
        (buyer3, client.named("Buyer 3")),
    ];

    let skipped = client.batch_register_buyers(&entries);
    assert_eq!(skipped.len(), 0);

    assert!(!client.is_verified(buyer1));
    assert!(!client.is_verified(buyer2));
    assert!(!client.is_verified(buyer3));

    assert_eq!(client.get_profile(buyer1).role(), Role::Buyer);
    assert_eq!(client.get_profile(buyer2).role(), Role::Buyer);
    assert_eq!(client.get_profile(buyer3).role(), Role::Buyer);
}

#[test]
fn test_batch_register_buyers_all_duplicate() {
    let (mut client, _) = setup_initialized();

    let buyer1 = client.generate();
    let buyer2 = client.generate();

    let empty = client.empty();
    client.register_buyer(buyer1, &empty);
    client.register_buyer(buyer2, &empty);

    let entries = [(buyer1, empty.clone()), (buyer2, empty.clone())];

    let skipped = client.batch_register_buyers(&entries);
    assert_eq!(skipped.len(), 2);
    assert!(skipped.contains(&buyer1));
    assert!(skipped.contains(&buyer2));
}

#[test]
fn test_batch_register_buyers_mixed() {
    let (mut client, _) = setup_initialized();

    let buyer1 = client.generate(); // existing
    let buyer2 = client.generate(); // new
    let buyer3 = client.generate(); // new

    let empty = client.empty();
    client.register_buyer(buyer1, &empty);

    let entries = [
        (buyer1, empty.clone()),
        (buyer2, empty.clone()),
        (buyer3, empty.clone()),
    ];

    let skipped = client.batch_register_buyers(&entries);
    assert_eq!(skipped.len(), 1);
    assert!(skipped.contains(&buyer1));

    assert!(!client.is_verified(buyer1));
    assert!(!client.is_verified(buyer2));
    assert!(!client.is_verified(buyer3));

    assert_eq!(client.get_profile(buyer2).role(), Role::Buyer);
    assert_eq!(client.get_profile(buyer3).role(), Role::Buyer);
}

#[test]
#[should_panic(expected = "Error(Contract, #5)")]
fn test_batch_register_buyers_exceeds_limit() {
    let (mut client, _) = setup_initialized();
    let mut entries = Vec::new();
    for _ in 0..51 {
        let address = client.generate();
        entries.push((address, client.empty()));
    }
    client.batch_register_buyers(&entries);
}

// ============== verification ==============

#[test]
fn test_verify_profile_updates_status() {
    let (mut client, _) = setup_initialized();
    let issuer = client.generate();
    let metadata = client.empty();
    client.register_issuer(issuer, &metadata);

    assert!(!client.is_verified(issuer));

    let result = client.verify_profile(issuer, true);
    assert!(result);
    assert!(client.is_verified(issuer));

    client.revoke(issuer);
    assert!(!client.is_verified(issuer));

    let result = client.verify_profile(issuer, true);
    assert!(result);
    assert!(client.is_verified(issuer));

    let result2 = client.verify_profile(issuer, false);
    assert!(result2);
    assert!(!client.is_verified(issuer));
}

#[test]
#[should_panic(expected = "Error(Contract, #3)")]
fn test_verify_profile_unknown_panics() {
    let (mut client, _) = setup_initialized();
    let unknown = client.generate();
    client.verify_profile(unknown, true);
}

#[test]
#[should_panic(expected = "Error(Auth, InvalidAction)")]
fn test_verify_profile_wrong_auth_panics() {
    let (mut client, _) = setup_initialized();
    let issuer = client.generate();
    let metadata = client.empty();
    client.register_issuer(issuer, &metadata);

    client.clear_auths();
    client.verify_profile(issuer, true);
}

#[test]
fn test_get_verification_status_unregistered() {
    let (mut client, _) = setup_initialized();
    let unknown = client.generate();
    assert_eq!(
        client.get_verification_status(unknown),
        VerificationStatus::Unregistered
    );
}

#[test]
fn test_get_verification_status_verified() {
    let (mut client, _) = setup_initialized();
    let issuer = client.generate();
    let metadata = client.empty();
    client.register_issuer(issuer, &metadata);
    client.verify_profile(issuer, true);
    assert_eq!(
        client.get_verification_status(issuer),
        VerificationStatus::Verified
    );
}

#[test]
fn test_get_verification_status_revoked() {
    let (mut client, _) = setup_initialized();
    let issuer = client.generate();
    let metadata = client.empty();
    client.register_issuer(issuer, &metadata);
    client.verify_profile(issuer, true);
    client.revoke(issuer);
    assert_eq!(
        client.get_verification_status(issuer),
        VerificationStatus::Revoked
    );
}

#[test]
fn test_get_verification_status_distinguishes_pending_from_unregistered() {
    let (mut client, _) = setup_initialized();

    let never_registered = client.generate();
    let pending = client.generate();

    let metadata = client.empty();
    client.register_issuer(pending, &metadata);

    assert!(!client.is_verified(never_registered));
    assert!(!client.is_verified(pending));

    assert_eq!(
        client.get_verification_status(never_registered),
        VerificationStatus::Unregistered
    );
    assert_eq!(
        client.get_verification_status(pending),
        VerificationStatus::Pending
    );
}

#[test]
fn test_get_verification_status_revoked_distinct_from_pending() {
    let (mut client, _) = setup_initialized();

    let pending = client.generate();
    let revoked = client.generate();

    let metadata = client.empty();
    client.register_issuer(pending, &metadata);
    client.register_issuer(revoked, &metadata);
    client.verify_profile(revoked, true);
    client.revoke(revoked);

    assert_eq!(
        client.get_verification_status(pending),
        VerificationStatus::Pending
    );
    assert_eq!(
        client.get_verification_status(revoked),
        VerificationStatus::Revoked
    );
}

#[test]
fn test_get_verification_status_re_verified_returns_verified() {
    let (mut client, _) = setup_initialized();
    let issuer = client.generate();
    let metadata = client.empty();
    client.register_issuer(issuer, &metadata);
    client.verify_profile(issuer, true);
    client.revoke(issuer);
    assert_eq!(
        client.get_verification_status(issuer),
        VerificationStatus::Revoked
    );
    client.verify_profile(issuer, true);
    assert_eq!(
        client.get_verification_status(issuer),
        VerificationStatus::Verified
    );
}

// ============== change of admin ==============

#[test]
fn test_transfer_admin_changes_admin() {
    let (mut client, _) = setup_initialized();
    let new_admin = client.generate();
    client.transfer_admin(new_admin);
    assert_eq!(client.get_admin(), new_admin);
}

#[test]
#[should_panic(expected = "Error(Auth, InvalidAction)")]
fn test_transfer_admin_by_non_admin_panics() {
    let (mut client, _) = setup_initialized();
    let new_admin = client.generate();
    client.clear_auths();
    client.transfer_admin(new_admin);
}

#[test]
#[should_panic(expected = "Error(Contract, #3)")]
fn test_transfer_admin_before_initialize_panics() {
    let mut client = setup();
    let new_admin = client.generate();
    client.transfer_admin(new_admin);
}

#[test]
fn test_transfer_admin_emits_event() {
    let (mut client, admin) = setup_initialized();
    let new_admin = client.generate();
    client.transfer_admin(new_admin);
    assert_eq!(
        client.events,
        vec![
            RegistryEvent::ContractInitialized { admin },
            RegistryEvent::AdminTransferred {
                old_admin: admin,
                new_admin
            },
        ]
    );
    assert_eq!(
        client.topics(),
        vec!["contract_initialized", "admin_transferred"]
    );
}

#[test]
fn test_registry_transfer_ownership_changes_admin() {
    let (mut client, _) = setup_initialized();
    let new_admin = client.generate();
    client.transfer_ownership(new_admin);
    assert_eq!(client.get_admin(), new_admin);
}

#[test]
#[should_panic(expected = "Error(Auth, InvalidAction)")]
fn test_registry_transfer_ownership_requires_both_auths() {
    let (mut client, _) = setup_initialized();
    let new_admin = client.generate();
    client.clear_auths();
    client.transfer_ownership(new_admin);
}

// ============== properties over a range of profiles ==============

/// Metadata of several sizes and shapes.
fn metadata_samples(env: &Env) -> Vec<Metadata> {
    vec![
        build_metadata(env, &[]),
        build_metadata(env, &[("a", "1")]),
        build_metadata(env, &[("_", "_")]),
        build_metadata(env, &[("name", "Acme"), ("tax_id", "12_3456789")]),
        build_metadata(env, &[("abcdefghij", "abcdefghijklmnopqrst")]),
        build_metadata(
            env,
            &[("k1", "v1"), ("k2", "v2"), ("k3", "v3"), ("k4", "v4"), ("k5", "v5")],
        ),
    ]
}

fn register_as(client: &mut Client, is_buyer: bool, who: Address, metadata: &Metadata) {
    if is_buyer {
        client.register_buyer(who, metadata);
    } else {
        client.register_issuer(who, metadata);
    }
}

#[test]
fn prop_is_verified_always_consistent_with_get_verification_status_after_register() {
    for is_buyer in [false, true] {
        let (mut client, _) = setup_initialized();
        for metadata in metadata_samples(&client.env) {
            let address = client.generate();
            register_as(&mut client, is_buyer, address, &metadata);
            let verified = client.is_verified(address);
            let status = client.get_verification_status(address);
            assert!(!verified);
            assert_eq!(status, VerificationStatus::Pending);
        }
    }
}

#[test]
fn prop_revoke_always_sets_is_verified_false_and_status_revoked() {
    for is_buyer in [false, true] {
        for verify_count in 1..=3 {
            let (mut client, _) = setup_initialized();
            for metadata in metadata_samples(&client.env) {
                let address = client.generate();
                register_as(&mut client, is_buyer, address, &metadata);
                for _ in 0..verify_count {
                    client.verify_profile(address, true);
                }
                client.revoke(address);
                assert!(!client.is_verified(address));
                assert_eq!(
                    client.get_verification_status(address),
                    VerificationStatus::Revoked
                );
            }
        }
    }
}

#[test]
fn prop_unregistered_address_never_verified() {
    for others in 1..=5 {
        let (mut client, _) = setup_initialized();
        let samples = metadata_samples(&client.env);
        for i in 0..others {
            let address = client.generate();
            register_as(&mut client, i % 2 == 0, address, &samples[i]);
        }
        let unknown = client.generate();
        assert!(!client.is_verified(unknown));
        assert_eq!(
            client.get_verification_status(unknown),
            VerificationStatus::Unregistered
        );
    }
}

#[test]
fn prop_re_verify_after_revoke_restores_verified_state() {
    for is_buyer in [false, true] {
        for cycles in 1..=3 {
            let (mut client, _) = setup_initialized();
            for metadata in metadata_samples(&client.env) {
                let address = client.generate();
                register_as(&mut client, is_buyer, address, &metadata);
                client.verify_profile(address, true);
                for _ in 0..cycles {
                    client.revoke(address);
                    assert_eq!(
                        client.get_verification_status(address),
                        VerificationStatus::Revoked
                    );
                    client.verify_profile(address, true);
                    assert!(client.is_verified(address));
                    assert_eq!(
                        client.get_verification_status(address),
                        VerificationStatus::Verified
                    );
                }
            }
        }
    }
}

#[test]
fn test_profile_packing_correctness() {
    let env = Env::default();
    let metadata = build_metadata(&env, &[]);

    let p1 = Profile::new(Role::Issuer, true, 100, metadata.clone());
    assert_eq!(p1.role(), Role::Issuer);
    assert!(p1.verified());

    let p2 = Profile::new(Role::Issuer, false, 100, metadata.clone());
    assert_eq!(p2.role(), Role::Issuer);
    assert!(!p2.verified());

    let p3 = Profile::new(Role::Buyer, true, 100, metadata.clone());
    assert_eq!(p3.role(), Role::Buyer);
    assert!(p3.verified());

    let p4 = Profile::new(Role::Buyer, false, 100, metadata.clone());
    assert_eq!(p4.role(), Role::Buyer);
    assert!(!p4.verified());
}

// ============== metadata limits ==============

#[test]
fn test_metadata_empty_map_accepted() {
    let (mut client, _) = setup_initialized();
    let issuer = client.generate();
    let metadata = client.empty();
    let result = client.register_issuer(issuer, &metadata);
    assert!(result);
    let profile = client.get_profile(issuer);
    assert_eq!(profile.metadata.len(), 0);
}

#[test]
fn test_metadata_max_size_map_accepted() {
    let (mut client, _) = setup_initialized();
    let issuer = client.generate();
    let metadata = numbered_metadata(&client.env, 20);
    assert_eq!(metadata.len(), 20);
    let result = client.register_issuer(issuer, &metadata);
    assert!(result);
    let profile = client.get_profile(issuer);
    assert_eq!(profile.metadata.len(), 20);
}

#[test]
#[should_panic(expected = "Error(Contract, #6)")]
fn test_metadata_oversize_map_panics() {
    let (mut client, _) = setup_initialized();
    let issuer = client.generate();
    let metadata = numbered_metadata(&client.env, 21);
    client.register_issuer(issuer, &metadata);
}

#[test]
#[should_panic(expected = "Error(Contract, #6)")]
fn test_metadata_oversize_map_via_update_panics() {
    let (mut client, _) = setup_initialized();
    let issuer = client.generate();
    let metadata = client.empty();
    client.register_issuer(issuer, &metadata);

    let oversized = numbered_metadata(&client.env, 21);
    client.update_metadata(issuer, &oversized);
}

#[test]
#[should_panic(expected = "Error(Contract, #6)")]
fn test_metadata_empty_key_panics() {
    let (mut client, _) = setup_initialized();
    let issuer = client.generate();
    let metadata = build_metadata(&client.env, &[("", "value")]);
    client.register_issuer(issuer, &metadata);
}

#[test]
#[should_panic(expected = "Error(Contract, #6)")]
fn test_metadata_empty_value_panics() {
    let (mut client, _) = setup_initialized();
    let issuer = client.generate();
    let metadata = build_metadata(&client.env, &[("key", "")]);
    client.register_issuer(issuer, &metadata);
}

#[test]
#[should_panic(expected = "Error(Contract, #6)")]
fn test_metadata_empty_key_via_update_panics() {
    let (mut client, _) = setup_initialized();
    let issuer = client.generate();
    let metadata = client.empty();
    client.register_issuer(issuer, &metadata);

    let bad_metadata = build_metadata(&client.env, &[("", "value")]);
    client.update_metadata(issuer, &bad_metadata);
}

#[test]
#[should_panic(expected = "Error(Contract, #6)")]
fn test_metadata_empty_value_via_update_panics() {
    let (mut client, _) = setup_initialized();
    let issuer = client.generate();
    let metadata = client.empty();
    client.register_issuer(issuer, &metadata);

    let bad_metadata = build_metadata(&client.env, &[("key", "")]);
    client.update_metadata(issuer, &bad_metadata);
}

#[test]
fn test_metadata_buyer_empty_map_accepted() {
    let (mut client, _) = setup_initialized();
    let buyer = client.generate();
    let metadata = client.empty();
    let result = client.register_buyer(buyer, &metadata);
    assert!(result);
    let profile = client.get_profile(buyer);
    assert_eq!(profile.metadata.len(), 0);
}

#[test]
#[should_panic(expected = "Error(Contract, #6)")]
fn test_register_buyer_rejects_oversized_metadata_key() {
    let (mut client, _) = setup_initialized();
    let buyer = client.generate();
    let long_key = "k".repeat((MAX_METADATA_KEY_LEN + 1) as usize);
    let metadata = build_metadata(&client.env, &[(&long_key, "value")]);
    client.register_buyer(buyer, &metadata);
}

#[test]
#[should_panic(expected = "Error(Contract, #6)")]
fn test_register_issuer_rejects_oversized_metadata_value() {
    let (mut client, _) = setup_initialized();
    let issuer = client.generate();
    let long_value = "v".repeat((MAX_METADATA_VALUE_LEN + 1) as usize);
    let metadata = build_metadata(&client.env, &[("key", &long_value)]);
    client.register_issuer(issuer, &metadata);
}

#[test]
fn test_register_metadata_at_limits_accepted() {
    let (mut client, _) = setup_initialized();
    let buyer = client.generate();
    let key_prefix = "k".repeat((MAX_METADATA_KEY_LEN - 2) as usize);
    let value = "v".repeat(MAX_METADATA_VALUE_LEN as usize);
    let mut metadata = client.empty();
    for i in 0..MAX_METADATA_SIZE {
        let key = format!("{key_prefix}{i:02}");
        metadata.set(text(&client.env, &key), text(&client.env, &value));
    }
    assert_eq!(metadata.len(), MAX_METADATA_SIZE);
    assert!(client.register_buyer(buyer, &metadata));
    let profile = client.get_profile(buyer);
    assert_eq!(profile.metadata.len(), MAX_METADATA_SIZE);
}

// ============== events ==============

#[test]
fn test_register_issuer_emits_event() {
    let (mut client, admin) = setup_initialized();
    let issuer = client.generate();
    let metadata = client.empty();

    client.register_issuer(issuer, &metadata);

    assert!(!client.is_verified(issuer));

    assert_eq!(
        client.events,
        vec![
            RegistryEvent::ContractInitialized { admin },
            RegistryEvent::IssuerRegistered { address: issuer },
        ]
    );
    assert_eq!(
        client.topics(),
        vec!["contract_initialized", "issuer_registered"]
    );
}

#[test]
fn test_register_buyer_emits_event() {
    let (mut client, admin) = setup_initialized();
    let buyer = client.generate();
    let metadata = client.empty();

    client.register_buyer(buyer, &metadata);

    assert!(!client.is_verified(buyer));

    assert_eq!(
        client.events,
        vec![
            RegistryEvent::ContractInitialized { admin },
            RegistryEvent::BuyerRegistered { address: buyer },
        ]
    );
    assert_eq!(
        client.topics(),
        vec!["contract_initialized", "buyer_registered"]
    );
}

#[test]
fn test_revoke_emits_event() {
    let (mut client, admin) = setup_initialized();
    let issuer = client.generate();
    let metadata = client.empty();
    client.register_issuer(issuer, &metadata);
    client.verify_profile(issuer, true);

    client.revoke(issuer);

    assert!(!client.is_verified(issuer));

    assert_eq!(
        client.events,
        vec![
            RegistryEvent::ContractInitialized { admin },
            RegistryEvent::IssuerRegistered { address: issuer },
            RegistryEvent::ProfileVerified {
                address: issuer,
                verified: true
            },
            RegistryEvent::AddressRevoked { address: issuer },
        ]
    );
    assert_eq!(
        client.topics(),
        vec![
            "contract_initialized",
            "issuer_registered",
            "profile_verified",
            "address_revoked"
        ]
    );
}

// ============== lifetimes ==============

#[test]
fn test_get_profile_extends_ttl() {
    let (mut client, _) = setup_initialized();
    let issuer = client.generate();
    let metadata = client.empty();
    client.register_issuer(issuer, &metadata);
    client.verify_profile(issuer, true);

    // Leave about 50 ledgers.
    client.sequence += client.profile_ttl(issuer) - 50;

    let ttl_before_read = client.profile_ttl(issuer);
    assert!(
        ttl_before_read < TTL_THRESHOLD,
        "TTL should be below threshold before read, got {ttl_before_read}"
    );

    let profile = client.get_profile(issuer);
    assert!(profile.verified());

    let ttl_after_read = client.profile_ttl(issuer);
    assert!(
        ttl_after_read > ttl_before_read,
        "get_profile should extend TTL: before={ttl_before_read}, after={ttl_after_read}"
    );
    assert!(
        ttl_after_read >= 1_999_000,
        "TTL should be extended close to EXTEND_TO (2_000_000), got {ttl_after_read}"
    );
}

#[test]
fn test_is_verified_extends_ttl() {
    let (mut client, _) = setup_initialized();
    let issuer = client.generate();
    let metadata = client.empty();
    client.register_issuer(issuer, &metadata);
    client.verify_profile(issuer, true);

    client.sequence += client.profile_ttl(issuer) - 50;

    let ttl_before_read = client.profile_ttl(issuer);
    assert!(
        ttl_before_read < TTL_THRESHOLD,
        "TTL should be below threshold before read, got {ttl_before_read}"
    );

    assert!(client.is_verified(issuer));

    let ttl_after_read = client.profile_ttl(issuer);
    assert!(
        ttl_after_read > ttl_before_read,
        "is_verified should extend TTL: before={ttl_before_read}, after={ttl_after_read}"
    );
    assert!(
        ttl_after_read >= 1_999_000,
        "TTL should be extended close to EXTEND_TO (2_000_000), got {ttl_after_read}"
    );
}

#[test]
fn test_is_verified_does_not_extend_ttl_for_unknown() {
    let (mut client, _) = setup_initialized();

    let unknown = client.generate();
    assert!(!client.is_verified(unknown));
    assert!(client.registry.is_verified(unknown).actions.is_empty());

    let issuer = client.generate();
    let metadata = client.empty();
    client.register_issuer(issuer, &metadata);
    client.verify_profile(issuer, true);
    assert!(client.is_verified(issuer));
}

#[test]
fn test_get_admin_extends_instance_ttl() {
    let (mut client, admin) = setup_initialized();

    client.sequence += client.instance_ttl() - 50;

    let ttl_before_read = client.instance_ttl();
    assert!(
        ttl_before_read < TTL_THRESHOLD,
        "Instance TTL should be below threshold before read, got {ttl_before_read}"
    );

    assert_eq!(client.get_admin(), admin);

    let ttl_after_read = client.instance_ttl();
    assert!(
        ttl_after_read > ttl_before_read,
        "get_admin should extend instance TTL: before={ttl_before_read}, after={ttl_after_read}"
    );
    assert!(
        ttl_after_read >= 1_999_000,
        "Instance TTL should be extended close to EXTEND_TO (2_000_000), got {ttl_after_read}"
    );
}

#[test]
fn test_update_metadata_extends_instance_ttl() {
    let (mut client, _) = setup_initialized();
    let issuer = client.generate();
    let metadata = client.named("Acme Corp");
    client.register_issuer(issuer, &metadata);

    client.sequence += client.instance_ttl() - 50;

    let ttl_before_update = client.instance_ttl();
    assert!(
        ttl_before_update < TTL_THRESHOLD,
        "Instance TTL should be below threshold before update, got {ttl_before_update}"
    );

    let updated_metadata = client.named("Acme LLC");
    let result = client.update_metadata(issuer, &updated_metadata);
    assert!(result);

    let ttl_after_update = client.instance_ttl();
    assert!(
        ttl_after_update > ttl_before_update,
        "update_metadata should extend instance TTL: before={ttl_before_update}, after={ttl_after_update}"
    );
    assert!(
        ttl_after_update >= 1_999_000,
        "Instance TTL should be extended close to EXTEND_TO (2_000_000), got {ttl_after_update}"
    );
}

// ============== metadata properties ==============

#[test]
fn prop_metadata_size_boundary_accepted_and_rejected() {
    let samples: Vec<Vec<(&str, &str)>> = vec![
        vec![],
        vec![("a", "1")],
        vec![("_", "_"), ("name", "Acme"), ("tax_id", "12_3456789")],
        vec![("k1", "v1"), ("k2", "v2"), ("k3", "v3"), ("k4", "v4"), ("abcdefghij", "v5")],
    ];
    for entries in samples {
        for target_size in 0u32..=25 {
            let (mut client, _) = setup_initialized();
            let address = client.generate();

            // Exactly `target_size` entries.
            let mut metadata = client.empty();
            for i in 0..target_size {
                let (key, value) = match entries.get(i as usize) {
                    Some((key, value)) => (key.to_string(), value.to_string()),
                    None => (format!("key_{i}"), format!("value_{i}")),
                };
                metadata.set(text(&client.env, &key), text(&client.env, &value));
            }
            assert_eq!(metadata.len(), target_size);

            let result = client.try_register_issuer(address, &metadata);
            if target_size <= 20 {
                assert!(
                    result.is_ok(),
                    "metadata with {} entries should be accepted, but panicked",
                    target_size
                );
                assert_eq!(client.get_profile(address).role(), Role::Issuer);
            } else {
                assert_eq!(
                    result,
                    Err("Error(Contract, #6)".to_string()),
                    "metadata with {} entries should be rejected, but succeeded",
                    target_size
                );
            }
        }
    }
}

#[test]
fn prop_metadata_empty_key_or_value_always_rejected() {
    let samples: Vec<Vec<(&str, &str)>> = vec![
        vec![("", "")],
        vec![("", "v")],
        vec![("k", "")],
        vec![("a", "1"), ("", "2")],
        vec![("a", "1"), ("b", "")],
        vec![("a", ""), ("b", "2"), ("c", "3")],
        vec![("a", "1"), ("b", "2"), ("c", "3"), ("d", "4"), ("", "5")],
        vec![("a", "1")],
        vec![("a", "1"), ("b", "2")],
        vec![("a", "1"), ("b", "2"), ("c", "3"), ("d", "4"), ("e", "5")],
    ];
    for entries in samples {
        let (mut client, _) = setup_initialized();
        let address = client.generate();
        let metadata = build_metadata(&client.env, &entries);
        let has_empty = entries.iter().any(|(k, v)| k.is_empty() || v.is_empty());
        let result = client.try_register_issuer(address, &metadata);
        if has_empty {
            assert_eq!(
                result,
                Err("Error(Contract, #6)".to_string()),
                "metadata with empty key/value should be rejected, but succeeded"
            );
        } else {
            assert!(
                result.is_ok(),
                "metadata with all non-empty fields should be accepted, but panicked"
            );
        }
    }
}
