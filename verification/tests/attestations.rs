use credence_bond::{
    Address, AddressKind, ContractError, CredenceBond, Effect, Event, Ledger, Rules, SubjectIndex,
    TierThresholds, WeightConfig,
};

fn party(n: u128) -> Address {
    Address { kind: AddressKind::Account, high: 7, low: n }
}

const ADMIN: u128 = 1;
const ATTESTER: u128 = 2;
const SUBJECT: u128 = 3;

/// A contract with an admin and a registered attester, at time 500.
fn setup() -> Ledger {
    let contract = Address { kind: AddressKind::Contract, high: 0, low: 99 };
    let rules = Rules {
        tiers: TierThresholds { silver: 1_000, gold: 5_000, platinum: 20_000 },
        default_weight_config: WeightConfig { multiplier_bps: 100, max_weight: 1_000 },
        max_attestation_weight: 10_000,
    };
    let mut e = Ledger::new(soroban_sdk::Env::default(), contract, rules);
    e.timestamp = 500;
    for n in 1..10 {
        e.auths.push(party(n));
    }
    CredenceBond::initialize(&mut e, party(ADMIN), party(8)).unwrap();
    CredenceBond::register_attester(&mut e, party(ATTESTER)).unwrap();
    e.effects.clear();
    e
}

fn ids(e: &Ledger, subject: u128) -> Vec<u64> {
    CredenceBond::get_subject_attestations(e, party(subject)).to_vec()
}

fn add(e: &mut Ledger, data: &[u8], nonce: u64) -> Result<u64, ContractError> {
    CredenceBond::add_attestation(e, party(ATTESTER), party(SUBJECT), data.to_vec(), nonce)
        .map(|a| a.id)
}

#[test]
fn attestation_is_made_and_found() {
    let mut e = setup();
    CredenceBond::set_attester_stake(&mut e, party(ADMIN), party(ATTESTER), 12_345).unwrap();
    let made = CredenceBond::add_attestation(
        &mut e,
        party(ATTESTER),
        party(SUBJECT),
        b"kyc".to_vec(),
        0,
    )
    .unwrap();
    assert_eq!(made.id, 0);
    assert_eq!(made.verifier, party(ATTESTER));
    assert_eq!(made.identity, party(SUBJECT));
    assert_eq!(made.timestamp, 500);
    assert_eq!(made.weight, 123);
    assert_eq!(made.attestation_data, b"kyc".to_vec());
    assert!(!made.revoked);

    let found = CredenceBond::get_attestation(&e, 0).unwrap();
    assert_eq!(found.weight, 123);
    assert_eq!(found.attestation_data, b"kyc".to_vec());
    assert_eq!(ids(&e, SUBJECT), vec![0]);
    assert_eq!(CredenceBond::get_subject_attestation_count(&e, party(SUBJECT)), 1);
    assert_eq!(ids(&e, 4), Vec::<u64>::new());
    assert_eq!(CredenceBond::get_nonce(&e, party(ATTESTER)), 1);
    assert!(matches!(
        e.effects.last(),
        Some(Effect::Publish(Event::AttestationAdded { id: 0, weight: 123, .. }))
    ));
}

#[test]
fn numbers_are_given_in_order_and_revoking_keeps_the_order() {
    let mut e = setup();
    assert_eq!(add(&mut e, b"a", 0), Ok(0));
    assert_eq!(add(&mut e, b"b", 1), Ok(1));
    assert_eq!(add(&mut e, b"c", 2), Ok(2));
    assert_eq!(ids(&e, SUBJECT), vec![0, 1, 2]);
    CredenceBond::revoke_attestation(&mut e, party(ATTESTER), 1, 3).unwrap();
    assert_eq!(ids(&e, SUBJECT), vec![0, 2]);
    assert_eq!(CredenceBond::get_subject_attestation_count(&e, party(SUBJECT)), 2);
    assert!(CredenceBond::get_attestation(&e, 1).unwrap().revoked);
    assert!(!CredenceBond::get_attestation(&e, 2).unwrap().revoked);
    // A number is never given out again.
    assert_eq!(add(&mut e, b"b", 4), Ok(3));
    assert_eq!(ids(&e, SUBJECT), vec![0, 2, 3]);
}

#[test]
fn revoking_undoes_making() {
    let mut e = setup();
    add(&mut e, b"a", 0).unwrap();
    add(&mut e, b"b", 1).unwrap();
    CredenceBond::revoke_attestation(&mut e, party(ATTESTER), 1, 2).unwrap();
    assert_eq!(ids(&e, SUBJECT), vec![0]);
    assert_eq!(CredenceBond::get_subject_attestation_count(&e, party(SUBJECT)), 1);
    assert!(matches!(
        e.effects.last(),
        Some(Effect::Publish(Event::AttestationRevoked { id: 1, .. }))
    ));
}

#[test]
fn nonce_cannot_be_replayed() {
    let mut e = setup();
    add(&mut e, b"a", 0).unwrap();
    assert_eq!(add(&mut e, b"b", 0), Err(ContractError::InvalidNonce));
    assert_eq!(add(&mut e, b"b", 2), Err(ContractError::InvalidNonce));
    assert_eq!(
        CredenceBond::revoke_attestation(&mut e, party(ATTESTER), 0, 0),
        Err(ContractError::InvalidNonce)
    );
    assert_eq!(CredenceBond::get_nonce(&e, party(ATTESTER)), 1);
    assert_eq!(CredenceBond::get_nonce(&e, party(SUBJECT)), 0);
    // A refused call uses up no nonce.
    assert_eq!(add(&mut e, b"a", 1), Err(ContractError::DuplicateAttestation));
    assert_eq!(CredenceBond::get_nonce(&e, party(ATTESTER)), 1);
}

#[test]
fn last_nonce_is_refused() {
    let mut e = setup();
    e.storage.nonces.set(party(ATTESTER), u64::MAX);
    assert_eq!(add(&mut e, b"a", u64::MAX), Err(ContractError::NonceOverflow));
}

#[test]
fn duplicate_is_refused_until_revoked() {
    let mut e = setup();
    add(&mut e, b"a", 0).unwrap();
    assert_eq!(add(&mut e, b"a", 1), Err(ContractError::DuplicateAttestation));
    CredenceBond::revoke_attestation(&mut e, party(ATTESTER), 0, 1).unwrap();
    assert_eq!(add(&mut e, b"a", 2), Ok(1));
}

#[test]
fn only_registered_attesters_may_attest() {
    let mut e = setup();
    assert!(CredenceBond::is_attester(&e, party(ATTESTER)));
    assert!(!CredenceBond::is_attester(&e, party(SUBJECT)));
    CredenceBond::unregister_attester(&mut e, party(ATTESTER)).unwrap();
    assert!(!CredenceBond::is_attester(&e, party(ATTESTER)));
    assert!(matches!(
        e.effects.last(),
        Some(Effect::Publish(Event::AttesterUnregistered { .. }))
    ));
    assert_eq!(add(&mut e, b"a", 0), Err(ContractError::UnauthorizedAttester));
    CredenceBond::register_attester(&mut e, party(ATTESTER)).unwrap();
    assert_eq!(add(&mut e, b"a", 0), Ok(0));
}

#[test]
fn unregistered_attester_can_still_revoke() {
    let mut e = setup();
    add(&mut e, b"a", 0).unwrap();
    CredenceBond::unregister_attester(&mut e, party(ATTESTER)).unwrap();
    CredenceBond::revoke_attestation(&mut e, party(ATTESTER), 0, 1).unwrap();
    assert_eq!(ids(&e, SUBJECT), Vec::<u64>::new());
}

#[test]
fn only_the_maker_may_revoke_and_only_once() {
    let mut e = setup();
    add(&mut e, b"a", 0).unwrap();
    assert_eq!(
        CredenceBond::revoke_attestation(&mut e, party(5), 0, 0),
        Err(ContractError::NotOriginalAttester)
    );
    assert_eq!(
        CredenceBond::revoke_attestation(&mut e, party(ATTESTER), 9, 1),
        Err(ContractError::AttestationNotFound)
    );
    assert_eq!(
        CredenceBond::get_attestation(&e, 9).unwrap_err(),
        ContractError::AttestationNotFound
    );
    CredenceBond::revoke_attestation(&mut e, party(ATTESTER), 0, 1).unwrap();
    assert_eq!(
        CredenceBond::revoke_attestation(&mut e, party(ATTESTER), 0, 2),
        Err(ContractError::AttestationAlreadyRevoked)
    );
}

#[test]
fn attester_must_authorize() {
    let mut e = setup();
    e.auths.clear();
    assert_eq!(
        add(&mut e, b"a", 0),
        Err(ContractError::NotAuthorized(party(ATTESTER)))
    );
    assert_eq!(
        CredenceBond::revoke_attestation(&mut e, party(ATTESTER), 0, 0),
        Err(ContractError::NotAuthorized(party(ATTESTER)))
    );
    assert_eq!(
        CredenceBond::register_attester(&mut e, party(5)),
        Err(ContractError::NotAuthorized(party(ADMIN)))
    );
}

#[test]
fn weights_follow_stake_and_configuration() {
    let mut e = setup();
    assert_eq!(CredenceBond::get_weight_config(&e), (100, 1_000));
    // No stake counts for nothing.
    add(&mut e, b"a", 0).unwrap();
    assert_eq!(CredenceBond::get_attestation(&e, 0).unwrap().weight, 0);
    // One percent of 99_999, rounded down.
    CredenceBond::set_attester_stake(&mut e, party(ADMIN), party(ATTESTER), 99_999).unwrap();
    add(&mut e, b"b", 1).unwrap();
    assert_eq!(CredenceBond::get_attestation(&e, 1).unwrap().weight, 999);
    // Capped at the configured maximum.
    CredenceBond::set_attester_stake(&mut e, party(ADMIN), party(ATTESTER), i128::MAX).unwrap();
    add(&mut e, b"c", 2).unwrap();
    assert_eq!(CredenceBond::get_attestation(&e, 2).unwrap().weight, 1_000);
    // A negative stake counts for nothing.
    CredenceBond::set_attester_stake(&mut e, party(ADMIN), party(ATTESTER), -5).unwrap();
    add(&mut e, b"d", 3).unwrap();
    assert_eq!(CredenceBond::get_attestation(&e, 3).unwrap().weight, 0);
    // Another configuration.
    CredenceBond::set_weight_config(&mut e, party(ADMIN), 2_500, 9_000).unwrap();
    assert_eq!(CredenceBond::get_weight_config(&e), (2_500, 9_000));
    CredenceBond::set_attester_stake(&mut e, party(ADMIN), party(ATTESTER), 10_001).unwrap();
    add(&mut e, b"e", 4).unwrap();
    assert_eq!(CredenceBond::get_attestation(&e, 4).unwrap().weight, 2_500);
}

#[test]
fn weight_above_the_absolute_limit_is_refused() {
    let mut e = setup();
    CredenceBond::set_weight_config(&mut e, party(ADMIN), 10_000, 50_000).unwrap();
    CredenceBond::set_attester_stake(&mut e, party(ADMIN), party(ATTESTER), 10_000).unwrap();
    assert_eq!(add(&mut e, b"a", 0), Ok(0));
    CredenceBond::set_attester_stake(&mut e, party(ADMIN), party(ATTESTER), 10_001).unwrap();
    assert_eq!(add(&mut e, b"b", 1), Err(ContractError::InvalidWeight));
}

#[test]
fn counters_at_their_end_are_refused() {
    let mut e = setup();
    e.storage.attestation_counter = u64::MAX;
    assert_eq!(add(&mut e, b"a", 0), Err(ContractError::AttestationCounterOverflow));
    e.storage.attestation_counter = 0;
    e.storage.subject_attestation_counts.set(party(SUBJECT), u32::MAX);
    assert_eq!(add(&mut e, b"a", 0), Err(ContractError::SubjectCountOverflow));
}

#[test]
fn broken_index_is_refused() {
    let mut e = setup();
    e.storage.subject_attestation_counts.set(party(SUBJECT), 3);
    assert_eq!(add(&mut e, b"a", 0), Err(ContractError::SubjectIndexDrift));
    e.storage.subject_attestation_counts.remove(&party(SUBJECT));
    add(&mut e, b"a", 0).unwrap();

    let host = e.host.clone();
    e.storage
        .subject_attestations
        .set(party(SUBJECT), SubjectIndex::from_ids(&host, &vec![5]));
    assert_eq!(
        CredenceBond::revoke_attestation(&mut e, party(ATTESTER), 0, 1),
        Err(ContractError::SubjectIndexMissing)
    );
    e.storage
        .subject_attestations
        .set(party(SUBJECT), SubjectIndex::from_ids(&host, &vec![5, 0]));
    assert_eq!(
        CredenceBond::revoke_attestation(&mut e, party(ATTESTER), 0, 1),
        Err(ContractError::SubjectIndexDrift)
    );
    e.storage.subject_attestation_counts.set(party(SUBJECT), 0);
    assert_eq!(
        CredenceBond::revoke_attestation(&mut e, party(ATTESTER), 0, 1),
        Err(ContractError::SubjectCountUnderflow)
    );
    assert_eq!(ids(&e, SUBJECT), vec![5, 0]);
}

#[test]
fn subject_index_keeps_order_and_removes_the_first_match() {
    let host = soroban_sdk::Env::default();
    let mut index = SubjectIndex::from_ids(&host, &vec![4, 9, 4, 7]);
    assert_eq!(index.len(), 4);
    assert!(index.remove_id(4));
    assert_eq!(index.to_vec(), vec![9, 4, 7]);
    assert!(!index.remove_id(5));
    let copy = index.clone();
    index.push(11);
    assert_eq!(index.to_vec(), vec![9, 4, 7, 11]);
    assert_eq!(copy.to_vec(), vec![9, 4, 7]);
    assert_eq!(SubjectIndex::new(&host).len(), 0);
}
