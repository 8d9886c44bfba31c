//! What the contract sees of the ledger while it serves a call, as plain values.

use crate::address::Address;
use crate::bond::IdentityBond;
use crate::effect::{Effect, Event};
use crate::error::ContractError;
use crate::keyed_map::KeyedMap;
use crate::subject_index::SubjectIndex;
use crate::types::{Attestation, AttestationDedupKey, AttestationView, DedupKeyView};
use vstd::prelude::*;

verus! {

/// The bonded amounts from which on a bond ranks above Bronze.
#[derive(Clone, Copy, Debug, PartialEq, Eq, Structural)]
pub struct TierThresholds {
    pub silver: i128,
    pub gold: i128,
    pub platinum: i128,
}

/// How an attester's stake turns into the weight of an attestation.
#[derive(Clone, Copy, Debug, PartialEq, Eq, Structural)]
pub struct WeightConfig {
    /// The share of the stake that counts, in basis points (100 = 1%).
    pub multiplier_bps: u32,
    /// The most that the stake can be worth.
    pub max_weight: u32,
}

/// Where an early exit penalty goes and how high it is.
#[derive(Clone, Copy, Debug, PartialEq, Eq, Structural)]
pub struct EarlyExitConfig {
    /// Who receives the penalty.
    pub treasury: Address,
    /// The penalty for leaving a whole period early, in basis points of the withdrawal.
    pub penalty_bps: u32,
}

/// The figures that are fixed when the contract is deployed.
#[derive(Clone, Copy, Debug, PartialEq, Eq, Structural)]
pub struct Rules {
    pub tiers: TierThresholds,
    /// The weight configuration until the admin sets one.
    pub default_weight_config: WeightConfig,
    /// The most that any attestation may weigh, whatever the admin has set.
    pub max_attestation_weight: u32,
}

/// The slots of the instance storage.
#[derive(Clone, Copy, Debug, PartialEq, Eq, Structural)]
pub enum DataKey {
    Admin,
    /// Emergency pause flag. When true, mutating entrypoints are blocked.
    Paused,
    /// Token contract used for real bond custody.
    Token,
    Bond,
    Attester(Address),
    Attestation(u64),
    AttestationCounter,
    SubjectAttestations(Address),
    /// Number of live, non-revoked attestation IDs in SubjectAttestations.
    SubjectAttestationCount(Address),
    /// Per-identity nonce for replay prevention.
    Nonce(Address),
    /// Attester stake used for weighted attestation (set by admin or from bond).
    AttesterStake(Address),
}

/// The contract's instance storage.
pub struct Storage {
    pub admin: Option<Address>,
    /// Emergency pause flag. When true, mutating entrypoints are blocked.
    pub paused: bool,
    /// Token contract used for real bond custody.
    pub token: Option<Address>,
    pub bond: Option<IdentityBond>,
    /// The registered attesters.
    pub attesters: KeyedMap<Address, bool>,
    pub attestations: KeyedMap<u64, Attestation>,
    /// The number that the next attestation gets.
    pub attestation_counter: u64,
    /// The numbers of each subject's live, non-revoked attestations.
    pub subject_attestations: KeyedMap<Address, SubjectIndex>,
    /// Number of live, non-revoked attestation IDs in `subject_attestations`.
    pub subject_attestation_counts: KeyedMap<Address, u32>,
    /// The live attestation of each (verifier, identity, data).
    pub dedup: KeyedMap<AttestationDedupKey, u64>,
    /// Per-identity nonce for replay prevention.
    pub nonces: KeyedMap<Address, u64>,
    /// Attester stake used for weighted attestation.
    pub attester_stakes: KeyedMap<Address, i128>,
    pub weight_config: Option<WeightConfig>,
    pub early_exit: Option<EarlyExitConfig>,
    /// The fee pool.
    pub fees: i128,
    /// The contract that is told of withdrawals, slashes and fee collections.
    pub callback: Option<Address>,
    /// Whether a guarded call is in progress.
    pub locked: bool,
}

/// What the instance storage holds.
#[verifier::ext_equal]
pub struct StorageView {
    pub admin: Option<Address>,
    pub paused: bool,
    pub token: Option<Address>,
    pub bond: Option<IdentityBond>,
    pub attesters: Map<Address, bool>,
    pub attestations: Map<u64, AttestationView>,
    pub attestation_counter: u64,
    pub subject_attestations: Map<Address, Seq<u64>>,
    pub subject_attestation_counts: Map<Address, u32>,
    pub dedup: Map<DedupKeyView, u64>,
    pub nonces: Map<Address, u64>,
    pub attester_stakes: Map<Address, i128>,
    pub weight_config: Option<WeightConfig>,
    pub early_exit: Option<EarlyExitConfig>,
    pub fees: i128,
    pub callback: Option<Address>,
    pub locked: bool,
}

impl View for Storage {
    type V = StorageView;

    open spec fn view(&self) -> StorageView {
        StorageView {
            admin: self.admin,
            paused: self.paused,
            token: self.token,
            bond: self.bond,
            attesters: self.attesters@,
            attestations: self.attestations@,
            attestation_counter: self.attestation_counter,
            subject_attestations: self.subject_attestations@,
            subject_attestation_counts: self.subject_attestation_counts@,
            dedup: self.dedup@,
            nonces: self.nonces@,
            attester_stakes: self.attester_stakes@,
            weight_config: self.weight_config,
            early_exit: self.early_exit,
            fees: self.fees,
            callback: self.callback,
            locked: self.locked,
        }
    }
}

impl StorageView {
    /// The storage of a contract that has just been deployed.
    pub open spec fn initial() -> StorageView {
        StorageView {
            admin: None,
            paused: false,
            token: None,
            bond: None,
            attesters: Map::empty(),
            attestations: Map::empty(),
            attestation_counter: 0,
            subject_attestations: Map::empty(),
            subject_attestation_counts: Map::empty(),
            dedup: Map::empty(),
            nonces: Map::empty(),
            attester_stakes: Map::empty(),
            weight_config: None,
            early_exit: None,
            fees: 0,
            callback: None,
            locked: false,
        }
    }

    /// Whether an address is registered as an attester.
    pub open spec fn is_attester(self, attester: Address) -> bool {
        self.attesters.contains_key(attester) && self.attesters[attester]
    }

    /// The live attestations of a subject, oldest first.
    pub open spec fn ids_of(self, subject: Address) -> Seq<u64> {
        if self.subject_attestations.contains_key(subject) {
            self.subject_attestations[subject]
        } else {
            Seq::empty()
        }
    }

    /// The number of live attestations that is kept for a subject.
    pub open spec fn count_of(self, subject: Address) -> u32 {
        if self.subject_attestation_counts.contains_key(subject) {
            self.subject_attestation_counts[subject]
        } else {
            0
        }
    }

    /// The nonce that an address has to present next.
    pub open spec fn nonce_of(self, identity: Address) -> u64 {
        if self.nonces.contains_key(identity) {
            self.nonces[identity]
        } else {
            0
        }
    }

    /// Whether two storages hold the same in a slot.
    pub open spec fn agrees(self, other: StorageView, key: DataKey) -> bool {
        match key {
            DataKey::Admin => self.admin == other.admin,
            DataKey::Paused => self.paused == other.paused,
            DataKey::Token => self.token == other.token,
            DataKey::Bond => self.bond == other.bond,
            DataKey::Attester(attester) => self.is_attester(attester) == other.is_attester(
                attester,
            ),
            DataKey::Attestation(id) => {
                &&& self.attestations.contains_key(id) == other.attestations.contains_key(id)
                &&& self.attestations.contains_key(id) ==> self.attestations[id]
                    == other.attestations[id]
            },
            DataKey::AttestationCounter => self.attestation_counter == other.attestation_counter,
            DataKey::SubjectAttestations(subject) => self.ids_of(subject) == other.ids_of(subject),
            DataKey::SubjectAttestationCount(subject) => self.count_of(subject) == other.count_of(
                subject,
            ),
            DataKey::Nonce(identity) => self.nonce_of(identity) == other.nonce_of(identity),
            DataKey::AttesterStake(attester) => self.stake_of(attester) == other.stake_of(attester),
        }
    }

    /// The stake of an attester.
    pub open spec fn stake_of(self, attester: Address) -> i128 {
        if self.attester_stakes.contains_key(attester) {
            self.attester_stakes[attester]
        } else {
            0
        }
    }
}

impl Storage {
    /// The storage of a contract that has just been deployed.
    pub fn new() -> (storage: Self)
        ensures
            storage@ == StorageView::initial(),
    {
        Storage {
            admin: None,
            paused: false,
            token: None,
            bond: None,
            attesters: KeyedMap::new(),
            attestations: KeyedMap::new(),
            attestation_counter: 0,
            subject_attestations: KeyedMap::new(),
            subject_attestation_counts: KeyedMap::new(),
            dedup: KeyedMap::new(),
            nonces: KeyedMap::new(),
            attester_stakes: KeyedMap::new(),
            weight_config: None,
            early_exit: None,
            fees: 0,
            callback: None,
            locked: false,
        }
    }
}

/// The ledger as the contract sees it during one call.
pub struct Ledger {
    /// The handle from which host vectors are made.
    pub host: soroban_sdk::Env,
    /// The address of this contract.
    pub contract: Address,
    /// The ledger's clock (seconds).
    pub timestamp: u64,
    /// The addresses that have authorized the call.
    pub auths: Vec<Address>,
    pub rules: Rules,
    pub storage: Storage,
    /// What the calls so far have asked of the ledger.
    pub effects: Vec<Effect<Vec<u8>>>,
}

/// What the contract sees of the ledger.
#[verifier::ext_equal]
pub struct LedgerView {
    pub contract: Address,
    pub timestamp: u64,
    pub auths: Seq<Address>,
    pub rules: Rules,
    pub storage: StorageView,
    pub effects: Seq<Effect<Seq<u8>>>,
}

impl View for Ledger {
    type V = LedgerView;

    open spec fn view(&self) -> LedgerView {
        LedgerView {
            contract: self.contract,
            timestamp: self.timestamp,
            auths: self.auths@,
            rules: self.rules,
            storage: self.storage@,
            effects: self.effects@.map_values(|effect: Effect<Vec<u8>>| effect@),
        }
    }
}

impl LedgerView {
    /// The same ledger with other contents of the storage.
    pub open spec fn with_storage(self, storage: StorageView) -> LedgerView {
        LedgerView { storage, ..self }
    }

    /// The same ledger with another thing asked of it.
    pub open spec fn with_effect(self, effect: Effect<Seq<u8>>) -> LedgerView {
        LedgerView { effects: self.effects.push(effect), ..self }
    }

    /// The same ledger with another notice to publish.
    pub open spec fn with_event(self, event: Event<Seq<u8>>) -> LedgerView {
        self.with_effect(Effect::Publish(event))
    }

    /// The same ledger with another bond in storage.
    pub open spec fn with_bond(self, bond: IdentityBond) -> LedgerView {
        self.with_storage(StorageView { bond: Some(bond), ..self.storage })
    }

    /// Why a call that needs the authorization of an address is refused, if it is.
    pub open spec fn auth_refusal(self, address: Address) -> Option<ContractError> {
        if self.auths.contains(address) {
            None
        } else {
            Some(ContractError::NotAuthorized(address))
        }
    }

    /// Why a call that claims to come from the admin is refused, if it is.
    pub open spec fn admin_refusal(self, admin: Address) -> Option<ContractError> {
        if self.storage.admin is None {
            Some(ContractError::NotInitialized)
        } else if self.storage.admin != Some(admin) {
            Some(ContractError::NotAdmin)
        } else {
            self.auth_refusal(admin)
        }
    }

    /// The weight configuration in force.
    pub open spec fn weight_config(self) -> WeightConfig {
        match self.storage.weight_config {
            Some(config) => config,
            None => self.rules.default_weight_config,
        }
    }
}

impl Ledger {
    /// A contract that has just been deployed, before its first call.
    pub fn new(host: soroban_sdk::Env, contract: Address, rules: Rules) -> (e: Self)
        ensures
            e@ == (LedgerView {
                contract,
                timestamp: 0,
                auths: Seq::empty(),
                rules,
                storage: StorageView::initial(),
                effects: Seq::empty(),
            }),
    {
        let e = Ledger {
            host,
            contract,
            timestamp: 0,
            auths: Vec::new(),
            rules,
            storage: Storage::new(),
            effects: Vec::new(),
        };
        assert(e@.effects =~= Seq::empty());
        assert(e@.auths =~= Seq::empty());
        e
    }

    /// Refuses a call that an address has not authorized.
    pub fn require_auth(&self, address: Address) -> (checked: Result<(), ContractError>)
        ensures
            checked == (match self@.auth_refusal(address) {
                Some(refusal) => Err::<(), ContractError>(refusal),
                None => Ok(()),
            }),
    {
        let mut i: usize = 0;
        while i < self.auths.len()
            invariant
                i <= self.auths.len(),
                forall|j: int| 0 <= j < i ==> self.auths@[j] != address,
            decreases self.auths.len() - i,
        {
            if self.auths[i] == address {
                assert(self.auths@.contains(address));
                return Ok(());
            }
            i = i + 1;
        }
        Err(ContractError::NotAuthorized(address))
    }

    /// Asks something of the ledger.
    pub fn request(&mut self, effect: Effect<Vec<u8>>)
        ensures
            final(self)@ == old(self)@.with_effect(effect@),
    {
        self.effects.push(effect);
        assert(self@.effects =~= old(self)@.effects.push(effect@));
    }

    /// Publishes a notice.
    pub fn publish(&mut self, event: Event<Vec<u8>>)
        ensures
            final(self)@ == old(self)@.with_event(event@),
    {
        self.request(Effect::Publish(event));
    }
}

} // verus!
