use credence_bond::{
    Address, AddressKind, BondTier, ContractError, CredenceBond, Effect, Event, IdentityBond,
    Ledger, Rules, TierThresholds, WeightConfig,
};

fn party(n: u128) -> Address {
    Address { kind: AddressKind::Account, high: 1, low: n }
}

fn contract() -> Address {
    Address { kind: AddressKind::Contract, high: 2, low: 2 }
}

const ADMIN: u128 = 1;
const OWNER: u128 = 2;
const TREASURY: u128 = 3;
const TOKEN: u128 = 4;

fn setup() -> Ledger {
    let rules = Rules {
        tiers: TierThresholds { silver: 1_000, gold: 5_000, platinum: 20_000 },
        default_weight_config: WeightConfig { multiplier_bps: 100, max_weight: 1_000 },
        max_attestation_weight: 10_000,
    };
    let mut e = Ledger::new(soroban_sdk::Env::default(), contract(), rules);
    e.timestamp = 1_000;
    for n in 1..10 {
        e.auths.push(party(n));
    }
    CredenceBond::initialize(&mut e, party(ADMIN), party(TOKEN)).unwrap();
    e
}

/// A contract with a bond of 10_000 over a period of 1_000.
fn bonded() -> Ledger {
    let mut e = setup();
    CredenceBond::create_bond(&mut e, party(OWNER), 10_000, 1_000).unwrap();
    e.effects.clear();
    e
}

fn bond(e: &Ledger) -> IdentityBond {
    CredenceBond::get_identity_state(e).unwrap()
}

#[test]
fn new_bond_is_recorded_announced_and_escrowed() {
    let mut e = setup();
    let made =
        CredenceBond::create_bond_with_rolling(&mut e, party(OWNER), 5_000, 60, true, 9).unwrap();
    assert_eq!(
        made,
        IdentityBond {
            identity: party(OWNER),
            bonded_amount: 5_000,
            bond_start: 1_000,
            bond_duration: 60,
            slashed_amount: 0,
            active: true,
            is_rolling: true,
            withdrawal_requested_at: 0,
            notice_period_duration: 9,
        }
    );
    assert_eq!(bond(&e), made);
    assert_eq!(CredenceBond::get_tier(&e), Ok(BondTier::Gold));
    assert_eq!(e.effects.len(), 2);
    assert!(matches!(
        e.effects[0],
        Effect::Publish(Event::TierChanged {
            old_tier: BondTier::Bronze,
            new_tier: BondTier::Gold,
            ..
        })
    ));
    assert!(matches!(e.effects[1], Effect::PullTokens { amount: 5_000, .. }));

    CredenceBond::pull_tokens(&mut e, party(OWNER), 5_000, 5_000).unwrap();
    match &e.effects[2] {
        Effect::TransferFrom { token, spender, from, to, amount } => {
            assert_eq!(*token, party(TOKEN));
            assert_eq!(*spender, contract());
            assert_eq!(*from, party(OWNER));
            assert_eq!(*to, contract());
            assert_eq!(*amount, 5_000);
        }
        _ => panic!("tokens are not pulled"),
    }
}

#[test]
fn lowest_tier_is_not_announced() {
    let mut e = setup();
    let made = CredenceBond::create_bond(&mut e, party(OWNER), 999, 60).unwrap();
    assert!(!made.is_rolling);
    assert_eq!(made.notice_period_duration, 0);
    assert_eq!(CredenceBond::get_tier(&e), Ok(BondTier::Bronze));
    assert_eq!(e.effects.len(), 1);
}

#[test]
fn tokens_are_pulled_only_with_token_and_allowance() {
    let mut e = setup();
    assert_eq!(
        CredenceBond::pull_tokens(&mut e, party(OWNER), 100, 99),
        Err(ContractError::InsufficientAllowance)
    );
    assert_eq!(CredenceBond::get_token(&e), Ok(party(TOKEN)));
    e.storage.token = None;
    assert_eq!(
        CredenceBond::pull_tokens(&mut e, party(OWNER), 100, 100),
        Err(ContractError::TokenNotConfigured)
    );
    assert_eq!(CredenceBond::pull_tokens(&mut e, party(OWNER), 0, 0), Ok(()));
    assert_eq!(CredenceBond::get_token(&e), Err(ContractError::TokenNotConfigured));
    assert_eq!(e.effects.len(), 0);
}

#[test]
fn bond_is_refused_for_each_reason() {
    let mut e = setup();
    assert_eq!(
        CredenceBond::create_bond(&mut e, party(OWNER), 0, 60),
        Err(ContractError::BondAmountNotPositive)
    );
    assert_eq!(
        CredenceBond::create_bond(&mut e, party(OWNER), 10, u64::MAX - 999),
        Err(ContractError::BondEndOverflow)
    );
    assert!(CredenceBond::create_bond(&mut e, party(OWNER), 10, u64::MAX - 1_000).is_ok());
    e.auths.clear();
    assert_eq!(
        CredenceBond::create_bond(&mut e, party(OWNER), 10, 60),
        Err(ContractError::NotAuthorized(party(OWNER)))
    );
}

#[test]
fn tiers_start_at_their_thresholds() {
    for (amount, tier) in [
        (999, BondTier::Bronze),
        (1_000, BondTier::Silver),
        (4_999, BondTier::Silver),
        (5_000, BondTier::Gold),
        (19_999, BondTier::Gold),
        (20_000, BondTier::Platinum),
    ] {
        let mut e = setup();
        CredenceBond::create_bond(&mut e, party(OWNER), amount, 60).unwrap();
        assert_eq!(CredenceBond::get_tier(&e), Ok(tier));
    }
    assert_eq!(CredenceBond::get_tier(&setup()), Err(ContractError::BondNotFound));
}

#[test]
fn withdrawal_pays_the_owner() {
    let mut e = bonded();
    let left = CredenceBond::withdraw(&mut e, 4_000).unwrap();
    assert_eq!(left.bonded_amount, 6_000);
    assert_eq!(bond(&e), left);
    assert_eq!(e.effects.len(), 1);
    match &e.effects[0] {
        Effect::Transfer { token, from, to, amount } => {
            assert_eq!(*token, party(TOKEN));
            assert_eq!(*from, contract());
            assert_eq!(*to, party(OWNER));
            assert_eq!(*amount, 4_000);
        }
        _ => panic!("the owner is not paid"),
    }
    assert_eq!(CredenceBond::withdraw(&mut e, 6_000).unwrap().bonded_amount, 0);
    assert_eq!(CredenceBond::withdraw(&mut e, 1), Err(ContractError::InsufficientBalance));
}

#[test]
fn withdrawal_is_refused_for_each_reason() {
    let mut e = setup();
    assert_eq!(CredenceBond::withdraw(&mut e, 1), Err(ContractError::BondNotFound));
    let mut e = bonded();
    assert_eq!(
        CredenceBond::withdraw(&mut e, 0),
        Err(ContractError::WithdrawAmountNotPositive)
    );
    assert_eq!(CredenceBond::withdraw(&mut e, 10_001), Err(ContractError::InsufficientBalance));
    e.storage.token = None;
    assert_eq!(CredenceBond::withdraw(&mut e, 1), Err(ContractError::TokenNotConfigured));
    e.auths.clear();
    assert_eq!(
        CredenceBond::withdraw(&mut e, 1),
        Err(ContractError::NotAuthorized(party(OWNER)))
    );
    let mut e = bonded();
    let broken = IdentityBond { bonded_amount: i128::MAX, slashed_amount: -1, ..bond(&e) };
    e.storage.bond = Some(broken);
    assert_eq!(CredenceBond::withdraw(&mut e, 1), Err(ContractError::SlashedExceedsBonded));
}

#[test]
fn slashed_part_cannot_be_withdrawn() {
    let mut e = bonded();
    CredenceBond::slash_bond(&mut e, party(ADMIN), 3_000).unwrap();
    assert_eq!(CredenceBond::withdraw(&mut e, 7_001), Err(ContractError::InsufficientBalance));
    assert_eq!(CredenceBond::withdraw(&mut e, 7_000).unwrap().bonded_amount, 3_000);
}

#[test]
fn early_withdrawal_splits_the_amount() {
    let mut e = bonded();
    CredenceBond::set_early_exit_config(&mut e, party(ADMIN), party(TREASURY), 500).unwrap();
    // A quarter of the period is over: 5% of 8_000, of which three quarters.
    e.timestamp = 1_250;
    let left = CredenceBond::withdraw_early(&mut e, 8_000).unwrap();
    assert_eq!(left.bonded_amount, 2_000);
    assert_eq!(e.effects.len(), 4);
    assert!(matches!(
        e.effects[0],
        Effect::Publish(Event::EarlyExitPenalty { amount: 8_000, penalty: 300, .. })
    ));
    assert!(matches!(
        e.effects[1],
        Effect::Publish(Event::TierChanged {
            old_tier: BondTier::Gold,
            new_tier: BondTier::Silver,
            ..
        })
    ));
    match (&e.effects[2], &e.effects[3]) {
        (
            Effect::Transfer { to: owner, amount: net, .. },
            Effect::Transfer { to: treasury, amount: penalty, .. },
        ) => {
            assert_eq!((*owner, *net), (party(OWNER), 7_700));
            assert_eq!((*treasury, *penalty), (party(TREASURY), 300));
        }
        _ => panic!("the amount is not split"),
    }
}

#[test]
fn early_withdrawal_without_penalty_pays_the_owner_only() {
    let mut e = bonded();
    CredenceBond::set_early_exit_config(&mut e, party(ADMIN), party(TREASURY), 0).unwrap();
    CredenceBond::withdraw_early(&mut e, 100).unwrap();
    assert_eq!(e.effects.len(), 2);
    assert!(matches!(e.effects[1], Effect::Transfer { amount: 100, .. }));
}

#[test]
fn early_withdrawal_is_refused_for_each_reason() {
    let mut e = bonded();
    assert_eq!(
        CredenceBond::withdraw_early(&mut e, 100),
        Err(ContractError::EarlyExitNotConfigured)
    );
    CredenceBond::set_early_exit_config(&mut e, party(ADMIN), party(TREASURY), 500).unwrap();
    assert_eq!(
        CredenceBond::withdraw_early(&mut e, 10_001),
        Err(ContractError::InsufficientBalance)
    );
    assert_eq!(
        CredenceBond::withdraw_early(&mut e, -1),
        Err(ContractError::WithdrawAmountNotPositive)
    );
    e.timestamp = 2_000;
    assert_eq!(CredenceBond::withdraw_early(&mut e, 100), Err(ContractError::LockupEnded));
    e.timestamp = 1_000;
    CredenceBond::set_early_exit_config(&mut e, party(ADMIN), party(TREASURY), 10_001).unwrap();
    assert_eq!(
        CredenceBond::withdraw_early(&mut e, 10_000),
        Err(ContractError::PenaltyExceedsWithdrawal)
    );
    e.storage.bond = Some(IdentityBond { bonded_amount: i128::MAX, ..bond(&e) });
    assert_eq!(
        CredenceBond::withdraw_early(&mut e, i128::MAX),
        Err(ContractError::PenaltyOverflow)
    );
}

#[test]
fn top_up_raises_the_bond_and_asks_for_tokens() {
    let mut e = bonded();
    let more = CredenceBond::top_up(&mut e, 500).unwrap();
    assert_eq!(more.bonded_amount, 10_500);
    assert_eq!(bond(&e), more);
    assert!(matches!(e.effects[0], Effect::PullTokens { amount: 500, .. }));
    assert_eq!(
        CredenceBond::top_up(&mut e, 0),
        Err(ContractError::TopUpAmountNotPositive)
    );
    assert_eq!(
        CredenceBond::top_up(&mut e, i128::MAX),
        Err(ContractError::TopUpOverflow)
    );
    // What was added can be withdrawn again.
    assert_eq!(CredenceBond::withdraw(&mut e, 500).unwrap().bonded_amount, 10_000);
}

#[test]
fn extension_lengthens_the_period() {
    let mut e = bonded();
    assert_eq!(CredenceBond::extend_duration(&mut e, 250).unwrap().bond_duration, 1_250);
    assert_eq!(
        CredenceBond::extend_duration(&mut e, u64::MAX),
        Err(ContractError::DurationOverflow)
    );
    assert_eq!(
        CredenceBond::extend_duration(&mut e, u64::MAX - 1_250),
        Err(ContractError::BondEndOverflow)
    );
    assert_eq!(bond(&e).bond_duration, 1_250);
    assert_eq!(
        CredenceBond::extend_duration(&mut setup(), 1),
        Err(ContractError::BondNotFound)
    );
}

#[test]
fn rolling_bond_renews_at_period_end() {
    let mut e = setup();
    CredenceBond::create_bond_with_rolling(&mut e, party(OWNER), 100, 60, true, 10).unwrap();
    e.effects.clear();
    e.timestamp = 1_059;
    assert_eq!(CredenceBond::renew_if_rolling(&mut e).unwrap().bond_start, 1_000);
    assert_eq!(e.effects.len(), 0);
    e.timestamp = 1_060;
    assert_eq!(CredenceBond::renew_if_rolling(&mut e).unwrap().bond_start, 1_060);
    assert!(matches!(
        e.effects[0],
        Effect::Publish(Event::BondRenewed { bond_start: 1_060, bond_duration: 60, .. })
    ));
    // The new period has only begun.
    assert_eq!(CredenceBond::renew_if_rolling(&mut e).unwrap().bond_start, 1_060);
    assert_eq!(e.effects.len(), 1);
}

#[test]
fn bond_with_requested_withdrawal_does_not_renew() {
    let mut e = setup();
    CredenceBond::create_bond_with_rolling(&mut e, party(OWNER), 100, 60, true, 10).unwrap();
    e.timestamp = 1_010;
    assert_eq!(
        CredenceBond::request_withdrawal(&mut e).unwrap().withdrawal_requested_at,
        1_010
    );
    assert!(matches!(
        e.effects.last(),
        Some(Effect::Publish(Event::WithdrawalRequested { requested_at: 1_010, .. }))
    ));
    e.timestamp = 5_000;
    assert_eq!(CredenceBond::renew_if_rolling(&mut e).unwrap().bond_start, 1_000);
    assert_eq!(CredenceBond::withdraw(&mut e, 100).unwrap().bonded_amount, 0);
}

#[test]
fn request_at_time_zero_counts_as_a_request() {
    let mut e = setup();
    e.timestamp = 0;
    CredenceBond::create_bond_with_rolling(&mut e, party(OWNER), 100, 60, true, 10).unwrap();
    assert_eq!(CredenceBond::request_withdrawal(&mut e).unwrap().withdrawal_requested_at, 1);
}

#[test]
fn bond_that_is_not_rolling_does_not_renew() {
    let mut e = bonded();
    e.timestamp = 9_000;
    assert_eq!(CredenceBond::renew_if_rolling(&mut e).unwrap().bond_start, 1_000);
    assert_eq!(
        CredenceBond::renew_if_rolling(&mut setup()),
        Err(ContractError::BondNotFound)
    );
}

#[test]
fn slash_bond_takes_what_there_is_and_no_more() {
    let mut e = bonded();
    assert_eq!(CredenceBond::slash_bond(&mut e, party(ADMIN), 4_000), Ok(4_000));
    assert!(matches!(
        e.effects[0],
        Effect::Publish(Event::BondSlashed { slash_amount: 4_000, total_slashed: 4_000, .. })
    ));
    assert_eq!(
        CredenceBond::slash_bond(&mut e, party(ADMIN), 6_001),
        Err(ContractError::SlashExceedsBond)
    );
    assert_eq!(CredenceBond::slash_bond(&mut e, party(ADMIN), 6_000), Ok(10_000));
    assert_eq!(
        CredenceBond::slash_bond(&mut e, party(ADMIN), i128::MAX),
        Err(ContractError::SlashOverflow)
    );
    assert_eq!(
        CredenceBond::slash_bond(&mut e, party(ADMIN), 0),
        Err(ContractError::SlashAmountNotPositive)
    );
    assert_eq!(
        CredenceBond::slash_bond(&mut e, party(OWNER), 1),
        Err(ContractError::NotAdmin)
    );
    assert_eq!(
        CredenceBond::slash_bond(&mut setup(), party(ADMIN), 1),
        Err(ContractError::BondNotFound)
    );
}

#[test]
fn slash_is_capped_at_the_bonded_amount() {
    let mut e = bonded();
    assert_eq!(CredenceBond::slash(&mut e, party(ADMIN), 4_000).unwrap().slashed_amount, 4_000);
    let all = CredenceBond::slash(&mut e, party(ADMIN), i128::MAX).unwrap();
    assert_eq!(all.slashed_amount, 10_000);
    assert_eq!(all.bonded_amount, 10_000);
    assert!(matches!(
        e.effects.last(),
        Some(Effect::Publish(Event::BondSlashed {
            slash_amount: 6_000,
            total_slashed: 10_000,
            ..
        }))
    ));
    assert_eq!(CredenceBond::slash(&mut e, party(ADMIN), 1).unwrap().slashed_amount, 10_000);
    assert_eq!(
        CredenceBond::slash(&mut e, party(ADMIN), -1),
        Err(ContractError::SlashAmountNotPositive)
    );
}

#[test]
fn whole_bond_is_withdrawn_once() {
    let mut e = bonded();
    CredenceBond::slash_bond(&mut e, party(ADMIN), 2_500).unwrap();
    assert_eq!(
        CredenceBond::withdraw_bond(&mut e, party(5)),
        Err(ContractError::NotBondOwner)
    );
    e.effects.clear();
    assert_eq!(CredenceBond::withdraw_bond(&mut e, party(OWNER)), Ok(7_500));
    assert_eq!(e.effects.len(), 2);
    assert!(matches!(e.effects[1], Effect::ReleaseLock));
    match &e.effects[0] {
        Effect::Transfer { token, from, to, amount } => {
            assert_eq!(*token, party(TOKEN));
            assert_eq!(*from, contract());
            assert_eq!(*to, party(OWNER));
            assert_eq!(*amount, 7_500);
        }
        _ => panic!("the owner is not paid"),
    }
    CredenceBond::release_lock(&mut e);
    let closed = bond(&e);
    assert_eq!((closed.bonded_amount, closed.slashed_amount, closed.active), (0, 2_500, false));
    assert_eq!(
        CredenceBond::withdraw_bond(&mut e, party(OWNER)),
        Err(ContractError::BondNotActive)
    );
    assert_eq!(
        CredenceBond::slash_bond(&mut e, party(ADMIN), 1),
        Err(ContractError::BondNotActive)
    );
    assert_eq!(CredenceBond::withdraw(&mut e, 1), Err(ContractError::InsufficientBalance));
    assert_eq!(
        CredenceBond::withdraw_bond(&mut setup(), party(OWNER)),
        Err(ContractError::BondNotFound)
    );
}

#[test]
fn whole_bond_without_slashes_is_paid_in_full() {
    let mut e = bonded();
    assert_eq!(CredenceBond::withdraw_bond(&mut e, party(OWNER)), Ok(10_000));
    assert!(matches!(e.effects[0], Effect::Transfer { amount: 10_000, .. }));
    // The lock is held until the transfer is over.
    assert!(CredenceBond::is_locked(&e));
    assert_eq!(
        CredenceBond::collect_fees(&mut e, party(ADMIN)),
        Err(ContractError::ReentrancyDetected)
    );
    assert!(matches!(e.effects[1], Effect::ReleaseLock));
    CredenceBond::release_lock(&mut e);
    assert_eq!(CredenceBond::collect_fees(&mut e, party(ADMIN)), Ok(0));
    assert_eq!(e.effects.len(), 2);
}

#[test]
fn whole_bond_needs_a_token_only_if_something_is_paid() {
    let mut e = bonded();
    e.storage.token = None;
    assert_eq!(
        CredenceBond::withdraw_bond(&mut e, party(OWNER)),
        Err(ContractError::TokenNotConfigured)
    );
    assert!(bond(&e).active);
    assert!(!CredenceBond::is_locked(&e));
    CredenceBond::slash_bond(&mut e, party(ADMIN), 10_000).unwrap();
    e.effects.clear();
    assert_eq!(CredenceBond::withdraw_bond(&mut e, party(OWNER)), Ok(0));
    assert_eq!(e.effects.len(), 0);
    assert!(!CredenceBond::is_locked(&e));
    assert!(!bond(&e).active);
}

#[test]
fn notice_period_bars_no_withdrawal() {
    let mut e = setup();
    CredenceBond::create_bond_with_rolling(&mut e, party(OWNER), 100, 60, true, 5_000).unwrap();
    assert_eq!(CredenceBond::withdraw(&mut e, 10).unwrap().bonded_amount, 90);
    CredenceBond::request_withdrawal(&mut e).unwrap();
    assert_eq!(CredenceBond::withdraw(&mut e, 10).unwrap().bonded_amount, 80);
    e.timestamp += 5_000;
    assert_eq!(CredenceBond::withdraw(&mut e, 80).unwrap().bonded_amount, 0);
}

#[test]
fn difference_that_does_not_fit_is_refused() {
    let mut e = bonded();
    let broken = IdentityBond { bonded_amount: i128::MAX, slashed_amount: -1, ..bond(&e) };
    e.storage.bond = Some(broken);
    assert_eq!(
        CredenceBond::withdraw_bond(&mut e, party(OWNER)),
        Err(ContractError::ArithmeticOverflow)
    );
}
