use credence_bond::early_exit_penalty::calculate_penalty;
use credence_bond::tiered_bond::get_tier_for_amount;
use credence_bond::{
    Address, AddressKind, BondTier, ContractError, CredenceBond, Effect, Ledger, Rules,
    TierThresholds, WeightConfig,
};

fn party(n: u128) -> Address {
    Address { kind: AddressKind::Account, high: 1, low: n }
}

fn contract() -> Address {
    Address { kind: AddressKind::Contract, high: 2, low: 2 }
}

const ADMIN: u128 = 1;
const OWNER: u128 = 2;
const TREASURY: u128 = 3;
const TOKEN: u128 = 4;

fn setup() -> Ledger {
    let rules = Rules {
        tiers: TierThresholds { silver: 1_000, gold: 5_000, platinum: 20_000 },
        default_weight_config: WeightConfig { multiplier_bps: 100, max_weight: 1_000 },
        max_attestation_weight: 10_000,
    };
    let mut e = Ledger::new(soroban_sdk::Env::default(), contract(), rules);
    for n in 1..10 {
        e.auths.push(party(n));
    }
    CredenceBond::initialize(&mut e, party(ADMIN), party(TOKEN)).unwrap();
    e
}

/// What the contract holds once everything asked of the ledger has been done.
fn holding(e: &Ledger) -> i128 {
    let mut held = 0;
    for effect in &e.effects {
        match effect {
            Effect::TransferFrom { to, amount, .. } if *to == contract() => held += *amount,
            Effect::Transfer { from, amount, .. } if *from == contract() => held -= *amount,
            _ => {}
        }
    }
    held
}

#[test]
fn bond_is_escrowed_at_all_times() {
    let mut e = setup();
    CredenceBond::create_bond(&mut e, party(OWNER), 10_000, 1_000).unwrap();
    CredenceBond::pull_tokens(&mut e, party(OWNER), 10_000, 10_000).unwrap();
    assert_eq!(holding(&e), 10_000);
    CredenceBond::top_up(&mut e, 500).unwrap();
    CredenceBond::pull_tokens(&mut e, party(OWNER), 500, 900).unwrap();
    assert_eq!(holding(&e), 10_500);
    CredenceBond::set_early_exit_config(&mut e, party(ADMIN), party(TREASURY), 1_000).unwrap();
    e.timestamp = 500;
    CredenceBond::withdraw_early(&mut e, 1_000).unwrap();
    assert_eq!(holding(&e), 9_500);
    CredenceBond::slash(&mut e, party(ADMIN), 2_000).unwrap();
    let left = CredenceBond::withdraw(&mut e, 7_000).unwrap();
    assert_eq!(holding(&e), 2_500);
    assert_eq!(left.bonded_amount, 2_500);
    // What is returned leaves the holding; what was slashed stays.
    assert_eq!(CredenceBond::withdraw_bond(&mut e, party(OWNER)), Ok(500));
    assert_eq!(holding(&e), 2_000);
}

#[test]
fn pool_holds_the_deposits_since_collection() {
    let mut e = setup();
    CredenceBond::deposit_fees(&mut e, 5).unwrap();
    assert_eq!(CredenceBond::collect_fees(&mut e, party(ADMIN)), Ok(5));
    CredenceBond::deposit_fees(&mut e, 7).unwrap();
    assert!(CredenceBond::collect_fees(&mut e, party(OWNER)).is_err());
    CredenceBond::pause(&mut e, party(ADMIN)).unwrap();
    assert!(CredenceBond::deposit_fees(&mut e, 100).is_err());
    CredenceBond::unpause(&mut e, party(ADMIN)).unwrap();
    CredenceBond::deposit_fees(&mut e, -2).unwrap();
    assert_eq!(e.storage.fees, 5);
    assert_eq!(CredenceBond::collect_fees(&mut e, party(ADMIN)), Ok(5));
}

#[test]
fn callback_cannot_reenter_whatever_it_does() {
    let mut e = setup();
    CredenceBond::create_bond(&mut e, party(OWNER), 900, 10).unwrap();
    CredenceBond::set_callback(&mut e, party(7)).unwrap();
    CredenceBond::slash_bond(&mut e, party(ADMIN), 100).unwrap();
    CredenceBond::initialize(&mut e, party(ADMIN), party(TOKEN)).unwrap();
    CredenceBond::set_callback(&mut e, party(8)).unwrap();
    CredenceBond::create_bond(&mut e, party(OWNER), 50, 10).unwrap();
    assert!(CredenceBond::is_locked(&e));
    assert_eq!(
        CredenceBond::withdraw_bond(&mut e, party(OWNER)),
        Err(ContractError::ReentrancyDetected)
    );
    CredenceBond::release_lock(&mut e);
    assert!(!CredenceBond::is_locked(&e));
}

#[test]
fn bond_keeps_owner_and_slashes() {
    let mut e = setup();
    CredenceBond::create_bond(&mut e, party(OWNER), 900, 10).unwrap();
    CredenceBond::slash(&mut e, party(ADMIN), 100).unwrap();
    CredenceBond::top_up(&mut e, 50).unwrap();
    CredenceBond::withdraw(&mut e, 850).unwrap();
    CredenceBond::extend_duration(&mut e, 5).unwrap();
    let kept = CredenceBond::get_identity_state(&e).unwrap();
    assert_eq!((kept.identity, kept.slashed_amount, kept.active), (party(OWNER), 100, true));
    CredenceBond::withdraw_bond(&mut e, party(OWNER)).unwrap();
    CredenceBond::top_up(&mut e, 50).unwrap();
    let closed = CredenceBond::get_identity_state(&e).unwrap();
    assert_eq!((closed.identity, closed.slashed_amount, closed.active), (party(OWNER), 100, false));
}

/// All that is pulled in, less all that is paid out.
fn net_transfers(e: &Ledger) -> i128 {
    let mut net = 0;
    for effect in &e.effects {
        match effect {
            Effect::TransferFrom { amount, .. } => net += *amount,
            Effect::Transfer { amount, .. } => net -= *amount,
            _ => {}
        }
    }
    net
}

#[test]
fn only_bond_is_all_transfers() {
    let mut e = setup();
    e.auths.push(contract());
    CredenceBond::deposit_fees(&mut e, 3).unwrap();
    assert!(CredenceBond::withdraw(&mut e, 1).is_err());
    assert_eq!(net_transfers(&e), 0);
    // The contract itself is the owner and the treasury, and the token changes on the way.
    CredenceBond::create_bond(&mut e, contract(), 10_000, 1_000).unwrap();
    CredenceBond::pull_tokens(&mut e, contract(), 10_000, 10_000).unwrap();
    assert_eq!(net_transfers(&e), 10_000);
    CredenceBond::set_early_exit_config(&mut e, party(ADMIN), contract(), 1_000).unwrap();
    assert_eq!(CredenceBond::withdraw_early(&mut e, 1_000).unwrap().bonded_amount, 9_000);
    assert_eq!(net_transfers(&e), 9_000);
    CredenceBond::initialize(&mut e, party(ADMIN), party(9)).unwrap();
    CredenceBond::top_up(&mut e, 5).unwrap();
    CredenceBond::pull_tokens(&mut e, contract(), 5, 5).unwrap();
    assert_eq!(CredenceBond::withdraw(&mut e, 4_000).unwrap().bonded_amount, 5_005);
    assert_eq!(net_transfers(&e), 5_005);
}

#[test]
fn withdrawals_add_up() {
    let mut twice = setup();
    CredenceBond::create_bond(&mut twice, party(OWNER), 900, 10).unwrap();
    CredenceBond::withdraw(&mut twice, 200).unwrap();
    let mut once = setup();
    CredenceBond::create_bond(&mut once, party(OWNER), 900, 10).unwrap();
    assert_eq!(CredenceBond::withdraw(&mut twice, 300), CredenceBond::withdraw(&mut once, 500));
}

#[test]
fn extensions_add_up() {
    let mut twice = setup();
    CredenceBond::create_bond(&mut twice, party(OWNER), 900, 10).unwrap();
    CredenceBond::extend_duration(&mut twice, 7).unwrap();
    let mut once = setup();
    CredenceBond::create_bond(&mut once, party(OWNER), 900, 10).unwrap();
    assert_eq!(
        CredenceBond::extend_duration(&mut twice, 5),
        CredenceBond::extend_duration(&mut once, 12)
    );
}

#[test]
fn penalty_follows_rate_and_remaining_time() {
    assert_eq!(calculate_penalty(1_000, 100, 100, 10_000), Ok(1_000));
    assert_eq!(calculate_penalty(1_000, 50, 100, 10_000), Ok(500));
    assert_eq!(calculate_penalty(1_000, 50, 100, 333), Ok(16));
    assert_eq!(calculate_penalty(1_000, 0, 100, 500), Ok(0));
    assert_eq!(calculate_penalty(1_000, 50, 0, 500), Ok(0));
    assert_eq!(calculate_penalty(0, 50, 100, 500), Ok(0));
    assert_eq!(calculate_penalty(i128::MAX, 1, 1, 1), Ok(i128::MAX / 10_000));
    assert_eq!(calculate_penalty(i128::MAX, 1, 1, 2), Err(ContractError::PenaltyOverflow));
}

#[test]
fn larger_bond_never_ranks_lower() {
    let tiers = TierThresholds { silver: 10, gold: 20, platinum: 30 };
    assert_eq!(get_tier_for_amount(&tiers, -1), BondTier::Bronze);
    assert_eq!(get_tier_for_amount(&tiers, 10), BondTier::Silver);
    assert_eq!(get_tier_for_amount(&tiers, 29), BondTier::Gold);
    assert_eq!(get_tier_for_amount(&tiers, i128::MAX), BondTier::Platinum);
}

#[test]
fn accepted_call_cannot_be_replayed_later() {
    let mut e = setup();
    CredenceBond::register_attester(&mut e, party(5)).unwrap();
    CredenceBond::add_attestation(&mut e, party(5), party(6), vec![1], 0).unwrap();
    CredenceBond::revoke_attestation(&mut e, party(5), 0, 1).unwrap();
    e.timestamp = 99;
    assert_eq!(
        CredenceBond::add_attestation(&mut e, party(5), party(6), vec![1], 0).unwrap_err(),
        ContractError::InvalidNonce
    );
    assert_eq!(
        CredenceBond::revoke_attestation(&mut e, party(5), 0, 1).unwrap_err(),
        ContractError::InvalidNonce
    );
}

#[test]
fn refused_call_changes_nothing() {
    let mut e = setup();
    CredenceBond::create_bond(&mut e, party(OWNER), 900, 10).unwrap();
    let bond = CredenceBond::get_identity_state(&e);
    let asked = e.effects.len();
    assert!(CredenceBond::withdraw(&mut e, 901).is_err());
    assert!(CredenceBond::top_up(&mut e, -1).is_err());
    assert!(CredenceBond::slash_bond(&mut e, party(ADMIN), 901).is_err());
    assert!(CredenceBond::withdraw_bond(&mut e, party(5)).is_err());
    assert_eq!(CredenceBond::get_identity_state(&e), bond);
    assert_eq!(e.effects.len(), asked);
    assert!(!CredenceBond::is_locked(&e));
}
