//! What holds of the pause, of authority, of the lock and of the fee pool.

use crate::address::Address;
use crate::contract::admin::{initialize_accepted, pause_accepted, unpause_accepted};
use crate::contract::fees::{
    collect_fees_accepted, collect_fees_refusal, deposit_fees_accepted, deposit_fees_refusal,
};
use crate::effect::Effect;
use crate::error::ContractError;
use crate::laws::calls::{
    after, attestation_call_accepted, attestation_call_refusal, attester_call_accepted,
    attester_call_refusal, bond_call_accepted, bond_call_refusal, custody_call_accepted,
    custody_call_refusal, guarded_call_accepted, guarded_call_refusal, pool_call_accepted,
    pool_call_refusal, refusal, setup_call_accepted, setup_call_refusal, AttestationCall,
    AttesterCall, BondCall, Call, CustodyCall, GuardedCall, PoolCall, SetupCall,
};
use crate::ledger::LedgerView;
use vstd::prelude::*;

verus! {

/// Whether a call gets through a pause: only those that set the contract up or switch the pause,
/// and the two that finish a call which was accepted before.
pub open spec fn passes_pause(call: Call) -> bool {
    match call {
        Call::Setup(SetupCall::Initialize { .. }) => true,
        Call::Setup(SetupCall::Pause { .. }) => true,
        Call::Setup(SetupCall::Unpause { .. }) => true,
        Call::Custody(CustodyCall::PullTokens { .. }) => true,
        Call::Pool(PoolCall::ReleaseLock) => true,
        _ => false,
    }
}

/// While the contract is paused, every other call is refused for that reason, before anything else
/// about it is looked at, and changes nothing.
pub proof fn law_pause_blocks_calls(s: LedgerView, call: Call)
    requires
        s.storage.paused,
        !passes_pause(call),
    ensures
        refusal(s, call) == Some(ContractError::ContractPaused),
        after(s, call) == s,
{
    match call {
        Call::Setup(_) => {
            reveal(setup_call_refusal);
        },
        Call::Attester(_) => {
            reveal(attester_call_refusal);
        },
        Call::Attestation(_) => {
            reveal(attestation_call_refusal);
        },
        Call::Bond(_) => {
            reveal(bond_call_refusal);
        },
        Call::Custody(_) => {
            reveal(custody_call_refusal);
        },
        Call::Guarded(_) => {
            reveal(guarded_call_refusal);
        },
        Call::Pool(_) => {
            reveal(pool_call_refusal);
        },
    }
}

/// A pause blocks nothing that it does not mention: a contract that is not paused never refuses a
/// call for being paused.
pub proof fn law_unpaused_contract_never_reports_a_pause(s: LedgerView, call: Call)
    requires
        !s.storage.paused,
    ensures
        refusal(s, call) != Some(ContractError::ContractPaused),
{
    match call {
        Call::Setup(_) => {
            reveal(setup_call_refusal);
        },
        Call::Attester(_) => {
            reveal(attester_call_refusal);
        },
        Call::Attestation(_) => {
            reveal(attestation_call_refusal);
        },
        Call::Bond(_) => {
            reveal(bond_call_refusal);
        },
        Call::Custody(_) => {
            reveal(custody_call_refusal);
        },
        Call::Guarded(_) => {
            reveal(guarded_call_refusal);
        },
        Call::Pool(_) => {
            reveal(pool_call_refusal);
        },
    }
}

/// The admin can always pause and always unpause, and doing the one after the other leaves the
/// storage as it was before a pause.
pub proof fn law_unpausing_undoes_pausing(s: LedgerView, admin: Address)
    requires
        s.admin_refusal(admin) is None,
    ensures
        ({
            let paused = pause_accepted(s, admin);
            let unpaused = unpause_accepted(paused, admin);
            &&& paused.storage.paused
            &&& paused.admin_refusal(admin) is None
            &&& !unpaused.storage.paused
            &&& !s.storage.paused ==> unpaused.storage == s.storage
        }),
{
}

/// The address that a call names as the admin, for the calls that only the admin may make.
pub open spec fn claimed_admin(call: Call) -> Option<Address> {
    match call {
        Call::Setup(SetupCall::Pause { admin }) => Some(admin),
        Call::Setup(SetupCall::Unpause { admin }) => Some(admin),
        Call::Setup(SetupCall::SetEarlyExitConfig { admin, .. }) => Some(admin),
        Call::Attester(AttesterCall::SetAttesterStake { admin, .. }) => Some(admin),
        Call::Attester(AttesterCall::SetWeightConfig { admin, .. }) => Some(admin),
        Call::Guarded(GuardedCall::SlashBond { admin, .. }) => Some(admin),
        Call::Guarded(GuardedCall::Slash { admin, .. }) => Some(admin),
        Call::Guarded(GuardedCall::CollectFees { admin }) => Some(admin),
        _ => None,
    }
}

/// A call that only the admin may make is refused when it names another address, and on a contract
/// that has no admin yet. Where nothing else stands in the way, the reason is that it is not the
/// admin.
pub proof fn law_only_the_admin_may_make_admin_calls(s: LedgerView, call: Call)
    requires
        claimed_admin(call) is Some,
        s.storage.admin != claimed_admin(call),
    ensures
        refusal(s, call) is Some,
        after(s, call) == s,
        (!s.storage.paused && s.auths.contains(claimed_admin(call)->0) && !s.storage.locked
            && s.storage.admin is Some) ==> refusal(s, call) == Some(ContractError::NotAdmin),
{
    match call {
        Call::Setup(_) => {
            reveal(setup_call_refusal);
        },
        Call::Attester(_) => {
            reveal(attester_call_refusal);
        },
        Call::Attestation(_) => {
            reveal(attestation_call_refusal);
        },
        Call::Bond(_) => {
            reveal(bond_call_refusal);
        },
        Call::Custody(_) => {
            reveal(custody_call_refusal);
        },
        Call::Guarded(_) => {
            reveal(guarded_call_refusal);
        },
        Call::Pool(_) => {
            reveal(pool_call_refusal);
        },
    }
}

/// Whose authorization a call needs, if anyone's.
pub open spec fn authority(s: LedgerView, call: Call) -> Option<Address> {
    match call {
        Call::Setup(SetupCall::Initialize { admin, .. }) => Some(admin),
        Call::Attester(AttesterCall::RegisterAttester { .. }) => s.storage.admin,
        Call::Attester(AttesterCall::UnregisterAttester { .. }) => s.storage.admin,
        Call::Attestation(AttestationCall::AddAttestation { attester, .. }) => Some(attester),
        Call::Attestation(AttestationCall::RevokeAttestation { attester, .. }) => Some(attester),
        Call::Bond(BondCall::CreateBond { identity, .. }) => Some(identity),
        Call::Guarded(GuardedCall::WithdrawBond { identity }) => Some(identity),
        Call::Bond(BondCall::TopUp { .. }) => Some(s.storage.bond->0.identity),
        Call::Custody(CustodyCall::Withdraw { .. }) => Some(s.storage.bond->0.identity),
        Call::Custody(CustodyCall::WithdrawEarly { .. }) => Some(s.storage.bond->0.identity),
        _ => claimed_admin(call),
    }
}

/// No call is accepted without the authorization that it needs: the admin's for the admin's calls,
/// the attester's for its attestations, and the owner's for whatever moves the owner's tokens.
pub proof fn law_accepted_calls_are_authorized(s: LedgerView, call: Call)
    requires
        refusal(s, call) is None,
    ensures
        authority(s, call) matches Some(who) ==> s.auths.contains(who),
{
    match call {
        Call::Setup(_) => {
            reveal(setup_call_refusal);
        },
        Call::Attester(_) => {
            reveal(attester_call_refusal);
        },
        Call::Attestation(_) => {
            reveal(attestation_call_refusal);
        },
        Call::Bond(_) => {
            reveal(bond_call_refusal);
        },
        Call::Custody(_) => {
            reveal(custody_call_refusal);
        },
        Call::Guarded(_) => {
            reveal(guarded_call_refusal);
        },
        Call::Pool(_) => {
            reveal(pool_call_refusal);
        },
    }
}

/// While a guarded call is in progress, no guarded call is accepted.
pub proof fn law_lock_keeps_guarded_calls_out(s: LedgerView, call: Call)
    requires
        s.storage.locked,
        call is Guarded,
    ensures
        refusal(s, call) is Some,
        after(s, call) == s,
{
    reveal(guarded_call_refusal);
}

/// Whether something asked of the ledger is a call into another contract.
pub open spec fn is_external(effect: Effect<Seq<u8>>) -> bool {
    match effect {
        Effect::Publish(_) => false,
        Effect::ReleaseLock => false,
        _ => true,
    }
}

/// An accepted guarded call holds the lock for exactly as long as its external calls last: if it
/// asks for any, the lock is held and freeing it is the last thing asked of the ledger; if it asks
/// for none, the lock is free at once. A registered callback is always told, after everything else.
pub proof fn law_guarded_calls_hold_the_lock_for_external_calls(s: LedgerView, call: Call)
    requires
        call is Guarded,
        refusal(s, call) is None,
    ensures
        ({
            let later = after(s, call);
            let n = later.effects.len();
            &&& forall|i: int|
                s.effects.len() <= i < n && is_external(#[trigger] later.effects[i])
                    ==> later.storage.locked && i < n - 1
            &&& later.storage.locked ==> {
                &&& n >= s.effects.len() + 2
                &&& later.effects[n - 1] == Effect::<Seq<u8>>::ReleaseLock
                &&& is_external(later.effects[n - 2])
            }
            &&& s.storage.callback matches Some(callback) ==> {
                &&& later.storage.locked
                &&& later.effects[n - 2] is InvokeCallback
                &&& later.effects[n - 2]->callback == callback
            }
            &&& !after(later, Call::Pool(PoolCall::ReleaseLock)).storage.locked
        }),
{
    reveal(guarded_call_refusal);
    reveal(guarded_call_accepted);
    reveal(pool_call_refusal);
    reveal(pool_call_accepted);
}

/// No call but a guarded one takes the lock.
pub proof fn law_only_guarded_calls_take_the_lock(s: LedgerView, call: Call)
    requires
        !s.storage.locked,
        !(call is Guarded),
    ensures
        !after(s, call).storage.locked,
{
    match call {
        Call::Setup(_) => {
            reveal(setup_call_accepted);
        },
        Call::Attester(_) => {
            reveal(attester_call_accepted);
        },
        Call::Attestation(_) => {
            reveal(attestation_call_accepted);
        },
        Call::Bond(_) => {
            reveal(bond_call_accepted);
        },
        Call::Custody(_) => {
            reveal(custody_call_accepted);
        },
        Call::Guarded(_) => {
            reveal(guarded_call_accepted);
        },
        Call::Pool(_) => {
            reveal(pool_call_accepted);
        },
    }
}

/// Deposits add up in the pool, collecting what is in the pool leaves it empty, and no deposit
/// changes who may collect.
pub proof fn law_collection_returns_all_deposits(
    s: LedgerView,
    admin: Address,
    first: i128,
    second: i128,
)
    requires
        deposit_fees_refusal(s, first) is None,
        deposit_fees_refusal(deposit_fees_accepted(s, first), second) is None,
    ensures
        ({
            let pooled = deposit_fees_accepted(deposit_fees_accepted(s, first), second);
            &&& pooled.storage.fees == s.storage.fees + first + second
            &&& collect_fees_refusal(pooled, admin) == collect_fees_refusal(s, admin)
            &&& collect_fees_accepted(pooled).storage.fees == 0
        }),
{
}

/// Whether a call initializes the contract.
pub open spec fn is_initialize(call: Call) -> bool {
    call matches Call::Setup(setup) && setup is Initialize
}

/// Initializing stores the admin and the token and lifts a pause, and nothing but it changes the
/// admin or the token.
pub proof fn law_only_initializing_sets_admin_and_token(s: LedgerView, call: Call)
    ensures
        call matches Call::Setup(SetupCall::Initialize { admin, token }) ==> {
            let set_up = initialize_accepted(s, admin, token).storage;
            set_up.admin == Some(admin) && set_up.token == Some(token) && !set_up.paused
        },
        !is_initialize(call) ==> {
            &&& after(s, call).storage.admin == s.storage.admin
            &&& after(s, call).storage.token == s.storage.token
        },
{
    match call {
        Call::Setup(_) => {
            reveal(setup_call_accepted);
        },
        Call::Attester(_) => {
            reveal(attester_call_accepted);
        },
        Call::Attestation(_) => {
            reveal(attestation_call_accepted);
        },
        Call::Bond(_) => {
            reveal(bond_call_accepted);
        },
        Call::Custody(_) => {
            reveal(custody_call_accepted);
        },
        Call::Guarded(_) => {
            reveal(guarded_call_accepted);
        },
        Call::Pool(_) => {
            reveal(pool_call_accepted);
        },
    }
}

/// What has been asked of the ledger is never taken back: a call only adds to it.
pub proof fn law_effects_are_only_added(s: LedgerView, call: Call)
    ensures
        s.effects.len() <= after(s, call).effects.len(),
        after(s, call).effects.take(s.effects.len() as int) == s.effects,
        after(s, call).contract == s.contract,
        after(s, call).timestamp == s.timestamp,
        after(s, call).auths == s.auths,
        after(s, call).rules == s.rules,
{
    match call {
        Call::Setup(_) => {
            reveal(setup_call_accepted);
        },
        Call::Attester(_) => {
            reveal(attester_call_accepted);
        },
        Call::Attestation(_) => {
            reveal(attestation_call_accepted);
        },
        Call::Bond(_) => {
            reveal(bond_call_accepted);
        },
        Call::Custody(_) => {
            reveal(custody_call_accepted);
        },
        Call::Guarded(_) => {
            reveal(guarded_call_accepted);
        },
        Call::Pool(_) => {
            reveal(pool_call_accepted);
        },
    }
    assert(after(s, call).effects.take(s.effects.len() as int) =~= s.effects);
}

} // verus!
