use credence_bond::{
    Address, AddressKind, ContractError, CredenceBond, Ledger, Rules, TierThresholds, WeightConfig,
};

fn party(n: u128) -> Address {
    Address { kind: AddressKind::Account, high: 0, low: n }
}

/// A fresh contract, with a few addresses that authorize every call.
fn setup() -> (Ledger, Address) {
    let contract = Address { kind: AddressKind::Contract, high: 0, low: 0 };
    let rules = Rules {
        tiers: TierThresholds { silver: 1_000, gold: 5_000, platinum: 20_000 },
        default_weight_config: WeightConfig { multiplier_bps: 100, max_weight: 1_000 },
        max_attestation_weight: 10_000,
    };
    let mut e = Ledger::new(soroban_sdk::Env::default(), contract, rules);
    for n in 1..10 {
        e.auths.push(party(n));
    }
    (e, party(1))
}

#[test]
fn test_not_initialized_errors() {
    let (mut e, _admin) = setup();
    let admin = party(2);
    let treasury = party(3);

    let err = CredenceBond::set_early_exit_config(&mut e, admin, treasury, 500_u32).unwrap_err();
    assert_eq!(err, ContractError::NotInitialized);
}

#[test]
fn test_bond_not_found_and_insufficient_balance() {
    let (mut e, _admin) = setup();

    // No bond exists yet
    let err = CredenceBond::get_identity_state(&e).unwrap_err();
    assert_eq!(err, ContractError::BondNotFound);

    // Create a small bond and attempt to withdraw more than available
    let owner = party(2);
    let _bond = CredenceBond::create_bond(&mut e, owner, 100_i128, 1000_u64).unwrap();
    let err2 = CredenceBond::withdraw(&mut e, 200_i128).unwrap_err();
    assert_eq!(err2, ContractError::InsufficientBalance);
}

#[test]
fn test_request_withdrawal_not_rolling_and_already_requested() {
    let (mut e, _admin) = setup();
    let owner = party(2);

    // Non-rolling bond -> NotRollingBond
    let _bond = CredenceBond::create_bond(&mut e, owner, 100_i128, 1000_u64).unwrap();
    let err = CredenceBond::request_withdrawal(&mut e).unwrap_err();
    assert_eq!(err, ContractError::NotRollingBond);

    // Rolling bond: first request succeeds, second fails with WithdrawalAlreadyRequested
    let _rb =
        CredenceBond::create_bond_with_rolling(&mut e, owner, 100_i128, 1000_u64, true, 10_u64)
            .unwrap();
    let _ = CredenceBond::request_withdrawal(&mut e).unwrap();
    let err2 = CredenceBond::request_withdrawal(&mut e).unwrap_err();
    assert_eq!(err2, ContractError::WithdrawalAlreadyRequested);
}

#[test]
fn messages_are_the_reported_words() {
    assert_eq!(ContractError::NotInitialized.message(), "not initialized");
    assert_eq!(ContractError::BondNotFound.message(), "no bond");
    assert_eq!(ContractError::NotAuthorized(party(1)).message(), "not authorized");
    assert_eq!(ContractError::LockupEnded.message(), "use withdraw for post lock-up");
    assert_eq!(
        ContractError::NotOriginalAttester.message(),
        "only original attester can revoke"
    );
    assert_eq!(
        ContractError::SubjectIndexDrift.message(),
        "subject attestation index drift"
    );
}

#[test]
fn positive_amounts_pass_and_others_give_the_reason() {
    let reason = ContractError::BondAmountNotPositive;
    assert_eq!(CredenceBond::require_positive_amount(1, reason), Ok(()));
    assert_eq!(CredenceBond::require_positive_amount(i128::MAX, reason), Ok(()));
    assert_eq!(CredenceBond::require_positive_amount(0, reason), Err(reason));
    assert_eq!(CredenceBond::require_positive_amount(-5, reason), Err(reason));
}
