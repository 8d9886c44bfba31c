use credence_bond::{
    Address, AddressKind, ContractError, CredenceBond, Effect, Event, Hook, Ledger, Rules,
    TierThresholds, WeightConfig,
};

fn party(n: u128) -> Address {
    Address { kind: AddressKind::Account, high: 1, low: n }
}

const ADMIN: u128 = 1;
const OWNER: u128 = 2;
const CALLBACK: u128 = 7;

fn fresh() -> Ledger {
    let contract = Address { kind: AddressKind::Contract, high: 2, low: 2 };
    let rules = Rules {
        tiers: TierThresholds { silver: 1_000, gold: 5_000, platinum: 20_000 },
        default_weight_config: WeightConfig { multiplier_bps: 100, max_weight: 1_000 },
        max_attestation_weight: 10_000,
    };
    let mut e = Ledger::new(soroban_sdk::Env::default(), contract, rules);
    for n in 1..10 {
        e.auths.push(party(n));
    }
    e
}

fn setup() -> Ledger {
    let mut e = fresh();
    CredenceBond::initialize(&mut e, party(ADMIN), party(4)).unwrap();
    CredenceBond::create_bond(&mut e, party(OWNER), 10_000, 1_000).unwrap();
    e.effects.clear();
    e
}

#[test]
fn initializing_stores_admin_and_token() {
    let mut e = fresh();
    assert_eq!(CredenceBond::initialize(&mut e, party(ADMIN), party(4)), Ok(()));
    assert_eq!(e.storage.admin, Some(party(ADMIN)));
    assert_eq!(CredenceBond::get_token(&e), Ok(party(4)));
    assert!(!CredenceBond::is_paused(&e));
    assert_eq!(
        CredenceBond::initialize(&mut e, party(77), party(4)),
        Err(ContractError::NotAuthorized(party(77)))
    );
    assert_eq!(e.storage.admin, Some(party(ADMIN)));
}

#[test]
fn pausing_blocks_and_unpausing_restores() {
    let mut e = setup();
    assert_eq!(CredenceBond::pause(&mut e, party(OWNER)), Err(ContractError::NotAdmin));
    assert_eq!(
        CredenceBond::pause(&mut fresh(), party(ADMIN)),
        Err(ContractError::NotInitialized)
    );
    CredenceBond::pause(&mut e, party(ADMIN)).unwrap();
    assert!(CredenceBond::is_paused(&e));
    assert!(matches!(e.effects[0], Effect::Publish(Event::Paused { .. })));

    let paused = ContractError::ContractPaused;
    let admin = party(ADMIN);
    let owner = party(OWNER);
    assert_eq!(CredenceBond::create_bond(&mut e, owner, 1, 1).unwrap_err(), paused);
    assert_eq!(CredenceBond::top_up(&mut e, 1).unwrap_err(), paused);
    assert_eq!(CredenceBond::extend_duration(&mut e, 1).unwrap_err(), paused);
    assert_eq!(CredenceBond::request_withdrawal(&mut e).unwrap_err(), paused);
    assert_eq!(CredenceBond::renew_if_rolling(&mut e).unwrap_err(), paused);
    assert_eq!(CredenceBond::withdraw(&mut e, 1).unwrap_err(), paused);
    assert_eq!(CredenceBond::withdraw_early(&mut e, 1).unwrap_err(), paused);
    assert_eq!(CredenceBond::withdraw_bond(&mut e, owner).unwrap_err(), paused);
    assert_eq!(CredenceBond::slash_bond(&mut e, admin, 1).unwrap_err(), paused);
    assert_eq!(CredenceBond::slash(&mut e, admin, 1).unwrap_err(), paused);
    assert_eq!(CredenceBond::deposit_fees(&mut e, 1).unwrap_err(), paused);
    assert_eq!(CredenceBond::collect_fees(&mut e, admin).unwrap_err(), paused);
    assert_eq!(CredenceBond::set_callback(&mut e, owner).unwrap_err(), paused);
    assert_eq!(CredenceBond::register_attester(&mut e, owner).unwrap_err(), paused);
    assert_eq!(CredenceBond::unregister_attester(&mut e, owner).unwrap_err(), paused);
    assert_eq!(CredenceBond::set_attester_stake(&mut e, admin, owner, 1).unwrap_err(), paused);
    assert_eq!(CredenceBond::set_weight_config(&mut e, admin, 1, 1).unwrap_err(), paused);
    assert_eq!(
        CredenceBond::set_early_exit_config(&mut e, admin, owner, 1).unwrap_err(),
        paused
    );
    assert_eq!(
        CredenceBond::add_attestation(&mut e, owner, admin, vec![1], 0).unwrap_err(),
        paused
    );
    assert_eq!(CredenceBond::revoke_attestation(&mut e, owner, 0, 0).unwrap_err(), paused);
    assert_eq!(e.effects.len(), 1);

    CredenceBond::unpause(&mut e, admin).unwrap();
    assert!(!CredenceBond::is_paused(&e));
    assert!(matches!(e.effects[1], Effect::Publish(Event::Unpaused { .. })));
    assert!(CredenceBond::top_up(&mut e, 1).is_ok());
}

#[test]
fn admin_must_authorize() {
    let mut e = setup();
    e.auths.clear();
    assert_eq!(
        CredenceBond::pause(&mut e, party(ADMIN)),
        Err(ContractError::NotAuthorized(party(ADMIN)))
    );
}

#[test]
fn fees_add_up_and_are_collected_once() {
    let mut e = setup();
    CredenceBond::deposit_fees(&mut e, 30).unwrap();
    CredenceBond::deposit_fees(&mut e, 12).unwrap();
    assert_eq!(
        CredenceBond::collect_fees(&mut e, party(OWNER)),
        Err(ContractError::NotAdmin)
    );
    assert_eq!(CredenceBond::collect_fees(&mut e, party(ADMIN)), Ok(42));
    assert!(!CredenceBond::is_locked(&e));
    assert_eq!(CredenceBond::collect_fees(&mut e, party(ADMIN)), Ok(0));
    assert_eq!(
        CredenceBond::collect_fees(&mut fresh(), party(ADMIN)),
        Err(ContractError::NoAdmin)
    );
    CredenceBond::deposit_fees(&mut e, i128::MAX).unwrap();
    assert_eq!(
        CredenceBond::deposit_fees(&mut e, 1),
        Err(ContractError::ArithmeticOverflow)
    );
}

#[test]
fn callback_is_told_while_the_lock_is_held() {
    let mut e = setup();
    CredenceBond::set_callback(&mut e, party(CALLBACK)).unwrap();
    CredenceBond::deposit_fees(&mut e, 5).unwrap();

    assert_eq!(CredenceBond::slash_bond(&mut e, party(ADMIN), 100), Ok(100));
    assert!(CredenceBond::is_locked(&e));
    assert!(matches!(e.effects.last(), Some(Effect::ReleaseLock)));
    match &e.effects[e.effects.len() - 2] {
        Effect::InvokeCallback { callback, hook, amount } => {
            assert_eq!(*callback, party(CALLBACK));
            assert_eq!(hook.function_name(), "on_slash");
            assert_eq!(*amount, 100);
        }
        _ => panic!("the callback is not told"),
    }

    let reentered = ContractError::ReentrancyDetected;
    assert_eq!(CredenceBond::slash_bond(&mut e, party(ADMIN), 1).unwrap_err(), reentered);
    assert_eq!(CredenceBond::slash(&mut e, party(ADMIN), 1).unwrap_err(), reentered);
    assert_eq!(CredenceBond::withdraw_bond(&mut e, party(OWNER)).unwrap_err(), reentered);
    assert_eq!(CredenceBond::collect_fees(&mut e, party(ADMIN)).unwrap_err(), reentered);

    CredenceBond::release_lock(&mut e);
    assert!(!CredenceBond::is_locked(&e));
    assert_eq!(CredenceBond::collect_fees(&mut e, party(ADMIN)), Ok(5));
    assert!(matches!(
        e.effects[e.effects.len() - 2],
        Effect::InvokeCallback { hook: Hook::OnCollect, amount: 5, .. }
    ));
    CredenceBond::release_lock(&mut e);
    assert_eq!(CredenceBond::withdraw_bond(&mut e, party(OWNER)), Ok(9_900));
    // The owner is paid before the callback is told.
    assert!(matches!(
        e.effects[e.effects.len() - 3],
        Effect::Transfer { amount: 9_900, .. }
    ));
    assert!(matches!(
        e.effects[e.effects.len() - 2],
        Effect::InvokeCallback { hook: Hook::OnWithdraw, amount: 9_900, .. }
    ));
    assert!(matches!(e.effects.last(), Some(Effect::ReleaseLock)));
}

#[test]
fn names_of_hooks_and_topics() {
    assert_eq!(Hook::OnWithdraw.function_name(), "on_withdraw");
    assert_eq!(Hook::OnCollect.function_name(), "on_collect");
    let admin = party(ADMIN);
    assert_eq!(Event::<Vec<u8>>::Paused { admin }.topic(), "paused");
    assert_eq!(
        Event::<Vec<u8>>::AttesterRegistered { attester: admin }.topic(),
        "attester_registered"
    );
    assert_eq!(
        Event::<Vec<u8>>::BondSlashed { identity: admin, slash_amount: 1, total_slashed: 1 }
            .topic(),
        "bond_slashed"
    );
}

#[test]
fn calls_leave_other_addresses_alone() {
    let mut e = setup();
    CredenceBond::register_attester(&mut e, party(3)).unwrap();
    CredenceBond::register_attester(&mut e, party(4)).unwrap();
    CredenceBond::add_attestation(&mut e, party(3), party(5), vec![1], 0).unwrap();
    CredenceBond::add_attestation(&mut e, party(4), party(6), vec![1], 0).unwrap();
    CredenceBond::add_attestation(&mut e, party(4), party(6), vec![2], 1).unwrap();
    CredenceBond::unregister_attester(&mut e, party(4)).unwrap();
    assert!(CredenceBond::is_attester(&e, party(3)));
    assert_eq!(CredenceBond::get_nonce(&e, party(3)), 1);
    assert_eq!(CredenceBond::get_nonce(&e, party(4)), 2);
    assert_eq!(CredenceBond::get_subject_attestation_count(&e, party(5)), 1);
    assert_eq!(
        CredenceBond::get_subject_attestations(&e, party(6)).to_vec(),
        vec![1, 2]
    );
    // The same address on another kind of party is another address.
    let twin = Address { kind: AddressKind::Contract, ..party(5) };
    assert_eq!(CredenceBond::get_subject_attestation_count(&e, twin), 0);
}
