//! What holds over any history of calls: of the fee pool, of the lock and of the bond.

use crate::laws::calls::{
    after, after_turn, after_turns, at_turn, attestation_call_accepted, attester_call_accepted,
    bond_call_accepted, custody_call_accepted, guarded_call_accepted, guarded_call_refusal,
    pool_call_accepted, pool_call_refusal, refusal, setup_call_accepted, turn_accepted, Call,
    GuardedCall, PoolCall, Turn,
};
use crate::laws::control_laws::{
    law_guarded_calls_hold_the_lock_for_external_calls, law_lock_keeps_guarded_calls_out,
    law_only_guarded_calls_take_the_lock,
};
use crate::ledger::{LedgerView, StorageView};
use vstd::prelude::*;

verus! {

/// The sum of the deposits that have been accepted since fees were last collected.
pub open spec fn deposits_since_collection(s: LedgerView, turns: Seq<Turn>) -> int
    decreases turns.len(),
{
    if turns.len() == 0 {
        0
    } else {
        let earlier = deposits_since_collection(s, turns.drop_last());
        if turn_accepted(after_turns(s, turns.drop_last()), turns.last()) {
            match turns.last().call {
                Call::Pool(PoolCall::DepositFees { amount }) => earlier + amount,
                Call::Guarded(GuardedCall::CollectFees { .. }) => 0,
                _ => earlier,
            }
        } else {
            earlier
        }
    }
}

/// One accepted call adds a deposit to the pool, empties the pool, or leaves it alone.
proof fn lemma_call_changes_fees(s: LedgerView, call: Call)
    requires
        refusal(s, call) is None,
    ensures
        after(s, call).storage.fees == (match call {
            Call::Pool(PoolCall::DepositFees { amount }) => s.storage.fees + amount,
            Call::Guarded(GuardedCall::CollectFees { .. }) => 0,
            _ => s.storage.fees as int,
        }),
{
    match call {
        Call::Setup(_) => {
            reveal(setup_call_accepted);
        },
        Call::Attester(_) => {
            reveal(attester_call_accepted);
        },
        Call::Attestation(_) => {
            reveal(attestation_call_accepted);
        },
        Call::Bond(_) => {
            reveal(bond_call_accepted);
        },
        Call::Custody(_) => {
            reveal(custody_call_accepted);
        },
        Call::Guarded(_) => {
            reveal(guarded_call_accepted);
        },
        Call::Pool(_) => {
            reveal(pool_call_refusal);
            reveal(pool_call_accepted);
        },
    }
}

/// Whatever calls a freshly deployed contract has served, its fee pool holds the sum of the
/// deposits accepted since the last accepted collection.
pub proof fn law_pool_holds_the_deposits_since_collection(s: LedgerView, turns: Seq<Turn>)
    requires
        s.storage == StorageView::initial(),
    ensures
        after_turns(s, turns).storage.fees == deposits_since_collection(s, turns),
    decreases turns.len(),
{
    if turns.len() > 0 {
        law_pool_holds_the_deposits_since_collection(s, turns.drop_last());
        let before = after_turns(s, turns.drop_last());
        let turn = turns.last();
        if turn_accepted(before, turn) {
            lemma_call_changes_fees(at_turn(before, turn), turn.call);
        }
    }
}

/// While the lock is held, nothing but freeing it frees it.
proof fn lemma_lock_stays_held(s: LedgerView, call: Call)
    requires
        s.storage.locked,
        call != Call::Pool(PoolCall::ReleaseLock),
    ensures
        after(s, call).storage.locked,
{
    match call {
        Call::Setup(_) => {
            reveal(setup_call_accepted);
        },
        Call::Attester(_) => {
            reveal(attester_call_accepted);
        },
        Call::Attestation(_) => {
            reveal(attestation_call_accepted);
        },
        Call::Bond(_) => {
            reveal(bond_call_accepted);
        },
        Call::Custody(_) => {
            reveal(custody_call_accepted);
        },
        Call::Guarded(_) => {
            law_lock_keeps_guarded_calls_out(s, call);
        },
        Call::Pool(_) => {
            reveal(pool_call_accepted);
        },
    }
}

/// Whatever the token or a callback does while the lock is held for it, the lock stays held, and a
/// guarded call is refused at any time and with any authorizations.
pub proof fn law_external_calls_cannot_reenter(s: LedgerView, during: Seq<Turn>, attempt: Turn)
    requires
        s.storage.locked,
        forall|i: int|
            0 <= i < during.len() ==> (#[trigger] during[i]).call != Call::Pool(
                PoolCall::ReleaseLock,
            ),
        attempt.call is Guarded,
    ensures
        after_turns(s, during).storage.locked,
        !turn_accepted(after_turns(s, during), attempt),
        after_turn(after_turns(s, during), attempt).storage == after_turns(s, during).storage,
    decreases during.len(),
{
    if during.len() > 0 {
        let earlier = during.drop_last();
        assert forall|i: int| 0 <= i < earlier.len() implies (#[trigger] earlier[i]).call
            != Call::Pool(PoolCall::ReleaseLock) by {
            assert(earlier[i] == during[i]);
        }
        law_external_calls_cannot_reenter(s, earlier, attempt);
        assert(during[during.len() - 1] == during.last());
        lemma_lock_stays_held(
            at_turn(after_turns(s, earlier), during.last()),
            during.last().call,
        );
    }
    law_lock_keeps_guarded_calls_out(at_turn(after_turns(s, during), attempt), attempt.call);
}

/// A call that comes from outside, together with the turns that its external calls take, if it has
/// any.
pub struct OuterCall {
    pub turn: Turn,
    pub during: Seq<Turn>,
}

/// The ledger after a call from outside has been completed: where a guarded call has been accepted
/// and has taken the lock, its external calls are over and the lock has been freed.
pub open spec fn after_outer_call(s: LedgerView, outer: OuterCall) -> LedgerView {
    let called = after_turn(s, outer.turn);
    if outer.turn.call is Guarded && turn_accepted(s, outer.turn) && called.storage.locked {
        after(after_turns(called, outer.during), Call::Pool(PoolCall::ReleaseLock))
    } else {
        called
    }
}

/// The ledger after some calls from outside, each completed before the next.
pub open spec fn after_outer_calls(s: LedgerView, calls: Seq<OuterCall>) -> LedgerView
    decreases calls.len(),
{
    if calls.len() == 0 {
        s
    } else {
        after_outer_call(after_outer_calls(s, calls.drop_last()), calls.last())
    }
}

/// After every completed call from outside the lock is free, whatever the
/// token and the callbacks did.
pub proof fn law_lock_is_free_between_calls(s: LedgerView, calls: Seq<OuterCall>)
    requires
        !s.storage.locked,
    ensures
        !after_outer_calls(s, calls).storage.locked,
    decreases calls.len(),
{
    if calls.len() > 0 {
        law_lock_is_free_between_calls(s, calls.drop_last());
        let before = after_outer_calls(s, calls.drop_last());
        let turn = calls.last().turn;
        reveal(pool_call_refusal);
        reveal(pool_call_accepted);
        if turn.call is Guarded {
            if turn_accepted(before, turn) {
                law_guarded_calls_hold_the_lock_for_external_calls(at_turn(before, turn), turn.call);
            }
        } else {
            law_only_guarded_calls_take_the_lock(at_turn(before, turn), turn.call);
        }
    }
}

/// Whether a call creates a bond.
pub open spec fn is_creation(call: Call) -> bool {
    call matches Call::Bond(bond_call) && bond_call is CreateBond
}

/// Whether a call withdraws the bond as a whole.
pub open spec fn is_closure(call: Call) -> bool {
    call matches Call::Guarded(guarded_call) && guarded_call is WithdrawBond
}

/// Whether a bond is created in some turns.
pub open spec fn bond_created(s: LedgerView, turns: Seq<Turn>) -> bool
    decreases turns.len(),
{
    turns.len() > 0 && {
        ||| bond_created(s, turns.drop_last())
        ||| is_creation(turns.last().call) && turn_accepted(
            after_turns(s, turns.drop_last()),
            turns.last(),
        )
    }
}

/// Whether the bond is withdrawn as a whole in some turns.
pub open spec fn bond_closed(s: LedgerView, turns: Seq<Turn>) -> bool
    decreases turns.len(),
{
    turns.len() > 0 && {
        ||| bond_closed(s, turns.drop_last())
        ||| is_closure(turns.last().call) && turn_accepted(
            after_turns(s, turns.drop_last()),
            turns.last(),
        )
    }
}

/// One accepted call that creates no bond keeps the owner, takes no slash back, and makes the bond
/// inactive only by withdrawing it as a whole.
proof fn lemma_call_keeps_bond(s: LedgerView, call: Call)
    requires
        s.storage.bond is Some,
        refusal(s, call) is None,
        !is_creation(call),
    ensures
        ({
            let bond = s.storage.bond->0;
            let later = after(s, call).storage.bond;
            &&& later is Some
            &&& later->0.identity == bond.identity
            &&& later->0.slashed_amount >= bond.slashed_amount
            &&& later->0.active == (bond.active && !is_closure(call))
        }),
{
    match call {
        Call::Setup(_) => {
            reveal(setup_call_accepted);
        },
        Call::Attester(_) => {
            reveal(attester_call_accepted);
        },
        Call::Attestation(_) => {
            reveal(attestation_call_accepted);
        },
        Call::Bond(_) => {
            reveal(bond_call_accepted);
        },
        Call::Custody(_) => {
            reveal(custody_call_accepted);
        },
        Call::Guarded(_) => {
            reveal(guarded_call_refusal);
            reveal(guarded_call_accepted);
        },
        Call::Pool(_) => {
            reveal(pool_call_accepted);
        },
    }
}

/// Until another bond is created, whatever calls are served, a bond keeps its owner, no slash is
/// taken back, and the bond is active as long as, and no longer than, it has not been withdrawn as
/// a whole.
pub proof fn law_bond_keeps_owner_and_slashes(s: LedgerView, turns: Seq<Turn>)
    requires
        s.storage.bond is Some,
        !bond_created(s, turns),
    ensures
        ({
            let bond = s.storage.bond->0;
            let later = after_turns(s, turns).storage.bond;
            &&& later is Some
            &&& later->0.identity == bond.identity
            &&& later->0.slashed_amount >= bond.slashed_amount
            &&& later->0.active == (bond.active && !bond_closed(s, turns))
        }),
    decreases turns.len(),
{
    if turns.len() > 0 {
        law_bond_keeps_owner_and_slashes(s, turns.drop_last());
        let before = after_turns(s, turns.drop_last());
        let turn = turns.last();
        if turn_accepted(before, turn) {
            lemma_call_keeps_bond(at_turn(before, turn), turn.call);
        }
    }
}

} // verus!
