//! Why the contract refuses a call.

use crate::address::Address;
use vstd::prelude::*;

verus! {

/// The reason for which a call is refused. A refused call changes nothing.
#[derive(Clone, Copy, Debug, PartialEq, Eq, Structural)]
pub enum ContractError {
    /// No admin has been stored yet.
    NotInitialized,
    /// Fees cannot be collected before an admin has been stored.
    NoAdmin,
    /// The address that claims to be the admin is not the stored one.
    NotAdmin,
    /// The call lacks the authorization of this address.
    NotAuthorized(Address),
    /// The contract is paused.
    ContractPaused,
    /// No custody token has been stored yet.
    TokenNotConfigured,
    /// The owner has not approved enough of the token to be pulled.
    InsufficientAllowance,
    /// A bond of nothing, or of less, was asked for.
    BondAmountNotPositive,
    /// A withdrawal of nothing, or of less, was asked for.
    WithdrawAmountNotPositive,
    /// A top-up of nothing, or of less, was asked for.
    TopUpAmountNotPositive,
    /// A slash of nothing, or of less, was asked for.
    SlashAmountNotPositive,
    /// No bond has been created.
    BondNotFound,
    /// The end of the bond's period would not fit the ledger's clock.
    BondEndOverflow,
    /// The longer duration would not fit its type.
    DurationOverflow,
    /// More was asked for than is bonded and not slashed.
    InsufficientBalance,
    /// What is bonded and not slashed does not fit its type.
    SlashedExceedsBonded,
    /// The higher bonded amount would not fit its type.
    TopUpOverflow,
    /// The lock-up period is over, so there is nothing early about the withdrawal.
    LockupEnded,
    /// The early exit penalty has not been configured.
    EarlyExitNotConfigured,
    /// The early exit penalty cannot be computed in its type.
    PenaltyOverflow,
    /// The early exit penalty is larger than the withdrawal.
    PenaltyExceedsWithdrawal,
    /// The bond does not renew itself.
    NotRollingBond,
    /// A withdrawal has been requested before.
    WithdrawalAlreadyRequested,
    /// The bond has been withdrawn.
    BondNotActive,
    /// The bond belongs to another identity.
    NotBondOwner,
    /// The higher slashed amount would not fit its type.
    SlashOverflow,
    /// More would be slashed than is bonded.
    SlashExceedsBond,
    /// A guarded call is already in progress.
    ReentrancyDetected,
    /// The attester is not registered.
    UnauthorizedAttester,
    /// The nonce is not the attester's current one.
    InvalidNonce,
    /// The attester's nonces are used up.
    NonceOverflow,
    /// The attester has a live attestation of the same subject with the same data.
    DuplicateAttestation,
    /// The attestation numbers are used up.
    AttestationCounterOverflow,
    /// The weight is above what any attestation may carry.
    InvalidWeight,
    /// The subject's count of attestations would not fit its type.
    SubjectCountOverflow,
    /// The subject's count of attestations is already zero.
    SubjectCountUnderflow,
    /// The subject's count and its list of attestations disagree.
    SubjectIndexDrift,
    /// The attestation is missing from its subject's list.
    SubjectIndexMissing,
    /// No attestation has this number.
    AttestationNotFound,
    /// The attestation was made by another attester.
    NotOriginalAttester,
    /// The attestation has been revoked before.
    AttestationAlreadyRevoked,
    /// A sum or difference of amounts would not fit its type.
    ArithmeticOverflow,
}

impl ContractError {
    /// The words in which a refusal is reported.
    pub open spec fn spec_message(self) -> Seq<char> {
        match self {
            ContractError::NotInitialized => "not initialized"@,
            ContractError::NoAdmin => "no admin"@,
            ContractError::NotAdmin => "not admin"@,
            ContractError::NotAuthorized(_) => "not authorized"@,
            ContractError::ContractPaused => "contract paused"@,
            ContractError::TokenNotConfigured => "token not configured"@,
            ContractError::InsufficientAllowance => "insufficient token allowance"@,
            ContractError::BondAmountNotPositive => "bond amount must be positive"@,
            ContractError::WithdrawAmountNotPositive => "withdraw amount must be positive"@,
            ContractError::TopUpAmountNotPositive => "top-up amount must be positive"@,
            ContractError::SlashAmountNotPositive => "slash amount must be positive"@,
            ContractError::BondNotFound => "no bond"@,
            ContractError::BondEndOverflow => "bond end timestamp would overflow"@,
            ContractError::DurationOverflow => "duration extension caused overflow"@,
            ContractError::InsufficientBalance => "insufficient balance for withdrawal"@,
            ContractError::SlashedExceedsBonded => "slashed amount exceeds bonded amount"@,
            ContractError::TopUpOverflow => "top-up caused overflow"@,
            ContractError::LockupEnded => "use withdraw for post lock-up"@,
            ContractError::EarlyExitNotConfigured => "early exit config not set"@,
            ContractError::PenaltyOverflow => "penalty calculation overflow"@,
            ContractError::PenaltyExceedsWithdrawal => "penalty exceeds withdrawal amount"@,
            ContractError::NotRollingBond => "not a rolling bond"@,
            ContractError::WithdrawalAlreadyRequested => "withdrawal already requested"@,
            ContractError::BondNotActive => "bond not active"@,
            ContractError::NotBondOwner => "not bond owner"@,
            ContractError::SlashOverflow => "slashing caused overflow"@,
            ContractError::SlashExceedsBond => "slash exceeds bond"@,
            ContractError::ReentrancyDetected => "reentrancy detected"@,
            ContractError::UnauthorizedAttester => "unauthorized attester"@,
            ContractError::InvalidNonce => "invalid nonce"@,
            ContractError::NonceOverflow => "nonce overflow"@,
            ContractError::DuplicateAttestation => "duplicate attestation"@,
            ContractError::AttestationCounterOverflow => "attestation counter overflow"@,
            ContractError::InvalidWeight => "attestation weight exceeds maximum"@,
            ContractError::SubjectCountOverflow => "subject attestation count overflow"@,
            ContractError::SubjectCountUnderflow => "subject attestation count underflow"@,
            ContractError::SubjectIndexDrift => "subject attestation index drift"@,
            ContractError::SubjectIndexMissing => "attestation index missing"@,
            ContractError::AttestationNotFound => "attestation not found"@,
            ContractError::NotOriginalAttester => "only original attester can revoke"@,
            ContractError::AttestationAlreadyRevoked => "attestation already revoked"@,
            ContractError::ArithmeticOverflow => "arithmetic overflow"@,
        }
    }

    /// The words in which a refusal is reported.
    pub fn message(&self) -> (text: &'static str)
        ensures
            text@ == self.spec_message(),
    {
        match self {
            ContractError::NotInitialized => "not initialized",
            ContractError::NoAdmin => "no admin",
            ContractError::NotAdmin => "not admin",
            ContractError::NotAuthorized(_) => "not authorized",
            ContractError::ContractPaused => "contract paused",
            ContractError::TokenNotConfigured => "token not configured",
            ContractError::InsufficientAllowance => "insufficient token allowance",
            ContractError::BondAmountNotPositive => "bond amount must be positive",
            ContractError::WithdrawAmountNotPositive => "withdraw amount must be positive",
            ContractError::TopUpAmountNotPositive => "top-up amount must be positive",
            ContractError::SlashAmountNotPositive => "slash amount must be positive",
            ContractError::BondNotFound => "no bond",
            ContractError::BondEndOverflow => "bond end timestamp would overflow",
            ContractError::DurationOverflow => "duration extension caused overflow",
            ContractError::InsufficientBalance => "insufficient balance for withdrawal",
            ContractError::SlashedExceedsBonded => "slashed amount exceeds bonded amount",
            ContractError::TopUpOverflow => "top-up caused overflow",
            ContractError::LockupEnded => "use withdraw for post lock-up",
            ContractError::EarlyExitNotConfigured => "early exit config not set",
            ContractError::PenaltyOverflow => "penalty calculation overflow",
            ContractError::PenaltyExceedsWithdrawal => "penalty exceeds withdrawal amount",
            ContractError::NotRollingBond => "not a rolling bond",
            ContractError::WithdrawalAlreadyRequested => "withdrawal already requested",
            ContractError::BondNotActive => "bond not active",
            ContractError::NotBondOwner => "not bond owner",
            ContractError::SlashOverflow => "slashing caused overflow",
            ContractError::SlashExceedsBond => "slash exceeds bond",
            ContractError::ReentrancyDetected => "reentrancy detected",
            ContractError::UnauthorizedAttester => "unauthorized attester",
            ContractError::InvalidNonce => "invalid nonce",
            ContractError::NonceOverflow => "nonce overflow",
            ContractError::DuplicateAttestation => "duplicate attestation",
            ContractError::AttestationCounterOverflow => "attestation counter overflow",
            ContractError::InvalidWeight => "attestation weight exceeds maximum",
            ContractError::SubjectCountOverflow => "subject attestation count overflow",
            ContractError::SubjectCountUnderflow => "subject attestation count underflow",
            ContractError::SubjectIndexDrift => "subject attestation index drift",
            ContractError::SubjectIndexMissing => "attestation index missing",
            ContractError::AttestationNotFound => "attestation not found",
            ContractError::NotOriginalAttester => "only original attester can revoke",
            ContractError::AttestationAlreadyRevoked => "attestation already revoked",
            ContractError::ArithmeticOverflow => "arithmetic overflow",
        }
    }
}

} // verus!
