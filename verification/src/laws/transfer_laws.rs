//! What holds of the transfers that calls ask for, whoever the owner and the treasury are and
//! whatever the token is.

use crate::contract::custody::withdraw_early_penalty;
use crate::early_exit_penalty::lemma_penalty_is_not_negative;
use crate::effect::Effect;
use crate::laws::calls::{
    at_turn, attestation_call_accepted, attester_call_accepted, bond_call_accepted,
    bond_call_refusal, custody_call_accepted, custody_call_refusal, guarded_call_accepted,
    guarded_call_refusal, pool_call_accepted, refusal, setup_call_accepted, Call, CustodyCall,
};
use crate::laws::custody_laws::{
    after_served_turn, after_served_turns, bond_stands, bonded_amount, ends_bond, ServedTurn,
};
use crate::laws::soundness::{bond_sound, lemma_calls_keep_bond_sound};
use crate::ledger::{LedgerView, StorageView};
use vstd::prelude::*;

verus! {

/// What one thing asked of the ledger pulls in, less what it pays out.
pub open spec fn transferred(effect: Effect<Seq<u8>>) -> int {
    match effect {
        Effect::TransferFrom { amount, .. } => amount as int,
        Effect::Transfer { amount, .. } => -amount,
        _ => 0,
    }
}

/// All that has been asked to be pulled in, less all that has been asked to be paid out.
pub open spec fn net_transfers(effects: Seq<Effect<Seq<u8>>>) -> int
    decreases effects.len(),
{
    if effects.len() == 0 {
        0
    } else {
        net_transfers(effects.drop_last()) + transferred(effects.last())
    }
}

/// Whether a call may come from outside: tokens are not pulled for their own sake, but only to
/// serve a call that asks for them.
pub open spec fn comes_from_outside(call: Call) -> bool {
    !(call matches Call::Custody(custody_call) && custody_call is PullTokens)
}

/// Whether some served turns all make calls that may come from outside.
pub open spec fn all_from_outside(turns: Seq<ServedTurn>) -> bool {
    forall|i: int| 0 <= i < turns.len() ==> comes_from_outside((#[trigger] turns[i]).turn.call)
}

/// One more thing asked of the ledger adds its own transfer.
proof fn lemma_transfers_push()
    ensures
        forall|effects: Seq<Effect<Seq<u8>>>, effect: Effect<Seq<u8>>| #[trigger]
            net_transfers(effects.push(effect)) == net_transfers(effects) + transferred(effect),
{
    assert forall|effects: Seq<Effect<Seq<u8>>>, effect: Effect<Seq<u8>>| #[trigger]
        net_transfers(effects.push(effect)) == net_transfers(effects) + transferred(effect) by {
        assert(effects.push(effect).drop_last() =~= effects);
    }
}

/// Leaving out the last of some turns that come from outside leaves turns that do.
proof fn lemma_earlier_turns_from_outside(turns: Seq<ServedTurn>)
    requires
        turns.len() > 0,
        all_from_outside(turns),
    ensures
        all_from_outside(turns.drop_last()),
        comes_from_outside(turns.last().turn.call),
{
    assert forall|i: int| 0 <= i < turns.drop_last().len() implies comes_from_outside(
        (#[trigger] turns.drop_last()[i]).turn.call,
    ) by {
        assert(turns.drop_last()[i] == turns[i]);
    }
    assert(turns[turns.len() - 1] == turns.last());
}

/// A served turn under which no bond is replaced or closed transfers as much as is bonded more, or
/// less; without a bond it transfers nothing.
proof fn lemma_turn_transfers_what_is_bonded(s: LedgerView, served: ServedTurn)
    requires
        comes_from_outside(served.turn.call),
        !ends_bond(s, served),
    ensures
        ({
            let later = after_served_turn(s, served);
            &&& later.storage.bond is Some == s.storage.bond is Some
            &&& bonded_amount(later.storage) - bonded_amount(s.storage) == net_transfers(
                later.effects,
            ) - net_transfers(s.effects)
        }),
{
    let now = at_turn(s, served.turn);
    let call = served.turn.call;
    lemma_transfers_push();
    if refusal(now, call) is None {
        match call {
            Call::Setup(_) => {
                reveal(setup_call_accepted);
            },
            Call::Attester(_) => {
                reveal(attester_call_accepted);
            },
            Call::Attestation(_) => {
                reveal(attestation_call_accepted);
            },
            Call::Bond(_) => {
                reveal(bond_call_refusal);
                reveal(bond_call_accepted);
            },
            Call::Custody(_) => {
                reveal(custody_call_refusal);
                reveal(custody_call_accepted);
                if let Call::Custody(CustodyCall::WithdrawEarly { amount }) = call {
                    lemma_early_penalty_is_not_negative(now, amount);
                }
            },
            Call::Guarded(_) => {
                reveal(guarded_call_refusal);
                reveal(guarded_call_accepted);
            },
            Call::Pool(_) => {
                reveal(pool_call_accepted);
            },
        }
    }
}

/// The penalty on an early withdrawal before the end of the period is not negative.
proof fn lemma_early_penalty_is_not_negative(s: LedgerView, amount: i128)
    requires
        0 < amount,
        s.timestamp < s.storage.bond->0.period_end(),
    ensures
        0 <= withdraw_early_penalty(s, amount),
{
    let bond = s.storage.bond->0;
    lemma_penalty_is_not_negative(
        amount as int,
        bond.period_end() - s.timestamp,
        bond.bond_duration as int,
        s.storage.early_exit->0.penalty_bps as int,
    );
}

/// As long as a bond is neither replaced nor closed, whatever calls are served, the bonded amount
/// changes by exactly the tokens pulled in less the tokens paid out.
pub proof fn law_bond_and_transfers_move_together(s: LedgerView, turns: Seq<ServedTurn>)
    requires
        bond_stands(s, turns),
        all_from_outside(turns),
    ensures
        ({
            let later = after_served_turns(s, turns);
            &&& later.storage.bond is Some
            &&& bonded_amount(later.storage) - bonded_amount(s.storage) == net_transfers(
                later.effects,
            ) - net_transfers(s.effects)
        }),
    decreases turns.len(),
{
    if turns.len() > 0 {
        lemma_earlier_turns_from_outside(turns);
        law_bond_and_transfers_move_together(s, turns.drop_last());
        lemma_turn_transfers_what_is_bonded(
            after_served_turns(s, turns.drop_last()),
            turns.last(),
        );
    }
}

/// Until a freshly deployed contract has a bond, no tokens are transferred.
pub proof fn law_nothing_is_transferred_without_a_bond(s: LedgerView, turns: Seq<ServedTurn>)
    requires
        s.storage == StorageView::initial(),
        s.effects.len() == 0,
        all_from_outside(turns),
        after_served_turns(s, turns).storage.bond is None,
    ensures
        net_transfers(after_served_turns(s, turns).effects) == 0,
    decreases turns.len(),
{
    if turns.len() > 0 {
        lemma_earlier_turns_from_outside(turns);
        let before = after_served_turns(s, turns.drop_last());
        let served = turns.last();
        if before.storage.bond is Some {
            lemma_bond_stays(before, served);
        }
        law_nothing_is_transferred_without_a_bond(s, turns.drop_last());
        if ends_bond(before, served) {
            reveal(bond_call_refusal);
            reveal(bond_call_accepted);
            reveal(guarded_call_refusal);
        } else {
            lemma_turn_transfers_what_is_bonded(before, served);
        }
    }
}

/// Once there is a bond, there is one ever after.
proof fn lemma_bond_stays(s: LedgerView, served: ServedTurn)
    requires
        comes_from_outside(served.turn.call),
        s.storage.bond is Some,
    ensures
        after_served_turn(s, served).storage.bond is Some,
{
    if ends_bond(s, served) {
        reveal(bond_call_refusal);
        reveal(bond_call_accepted);
        reveal(guarded_call_refusal);
        reveal(guarded_call_accepted);
    } else {
        lemma_turn_transfers_what_is_bonded(s, served);
    }
}

/// A served creation of a bond transfers exactly what it bonds.
proof fn lemma_creation_transfers_the_bond(s: LedgerView, creation: ServedTurn)
    requires
        creation.turn.call matches Call::Bond(bond_call) && bond_call is CreateBond,
        after_served_turn(s, creation) != at_turn(s, creation.turn),
    ensures
        ({
            let created = after_served_turn(s, creation);
            &&& created.storage.bond is Some
            &&& 0 < bonded_amount(created.storage)
            &&& bonded_amount(created.storage) == net_transfers(created.effects) - net_transfers(
                s.effects,
            )
        }),
{
    lemma_transfers_push();
    reveal(bond_call_refusal);
    reveal(bond_call_accepted);
}

/// From its creation on, and as long as it is neither replaced nor closed, what is bonded is
/// exactly the tokens pulled in less the tokens paid out since before the creation, whoever the
/// owner and the treasury are and whatever the token is.
pub proof fn law_standing_bond_is_the_transfers_since_its_creation(
    s: LedgerView,
    creation: ServedTurn,
    turns: Seq<ServedTurn>,
)
    requires
        creation.turn.call matches Call::Bond(bond_call) && bond_call is CreateBond,
        after_served_turn(s, creation) != at_turn(s, creation.turn),
        bond_stands(after_served_turn(s, creation), turns),
        all_from_outside(turns),
    ensures
        ({
            let later = after_served_turns(after_served_turn(s, creation), turns);
            bonded_amount(later.storage) == net_transfers(later.effects) - net_transfers(s.effects)
        }),
{
    lemma_creation_transfers_the_bond(s, creation);
    law_bond_and_transfers_move_together(after_served_turn(s, creation), turns);
}

/// With one creation and no closing since its deployment, whatever else the contract has served
/// before and after, what is bonded is exactly all tokens ever pulled in less all tokens ever paid
/// out.
pub proof fn law_only_bond_is_all_transfers(
    s: LedgerView,
    waiting: Seq<ServedTurn>,
    creation: ServedTurn,
    turns: Seq<ServedTurn>,
)
    requires
        s.storage == StorageView::initial(),
        s.effects.len() == 0,
        all_from_outside(waiting),
        after_served_turns(s, waiting).storage.bond is None,
        creation.turn.call matches Call::Bond(bond_call) && bond_call is CreateBond,
        after_served_turn(after_served_turns(s, waiting), creation) != at_turn(
            after_served_turns(s, waiting),
            creation.turn,
        ),
        bond_stands(after_served_turn(after_served_turns(s, waiting), creation), turns),
        all_from_outside(turns),
    ensures
        ({
            let created = after_served_turn(after_served_turns(s, waiting), creation);
            let later = after_served_turns(created, turns);
            bonded_amount(later.storage) == net_transfers(later.effects)
        }),
{
    law_nothing_is_transferred_without_a_bond(s, waiting);
    law_standing_bond_is_the_transfers_since_its_creation(
        after_served_turns(s, waiting),
        creation,
        turns,
    );
}

/// A served turn that replaces the bond or closes it leaves no more bonded than has been pulled in
/// and not paid out.
proof fn lemma_ending_turn_stays_covered(s: LedgerView, served: ServedTurn)
    requires
        bond_sound(s.storage),
        bonded_amount(s.storage) <= net_transfers(s.effects),
        ends_bond(s, served),
    ensures
        bonded_amount(after_served_turn(s, served).storage) <= net_transfers(
            after_served_turn(s, served).effects,
        ),
{
    lemma_transfers_push();
    if served.turn.call is Bond {
        lemma_creation_transfers_the_bond(s, served);
    } else {
        reveal(guarded_call_refusal);
        reveal(guarded_call_accepted);
    }
}

/// A served turn keeps the bond sound.
proof fn lemma_served_turn_keeps_bond_sound(s: LedgerView, served: ServedTurn)
    requires
        bond_sound(s.storage),
    ensures
        bond_sound(after_served_turn(s, served).storage),
{
    let now = at_turn(s, served.turn);
    if refusal(now, served.turn.call) is None {
        lemma_calls_keep_bond_sound(now, served.turn.call);
    }
}

/// Whatever calls a freshly deployed contract has served, no more is bonded than all tokens pulled
/// in less all tokens paid out, whoever owners and treasuries are and whatever the tokens are.
pub proof fn law_bond_is_always_covered_by_transfers(s: LedgerView, turns: Seq<ServedTurn>)
    requires
        s.storage == StorageView::initial(),
        s.effects.len() == 0,
        all_from_outside(turns),
    ensures
        ({
            let later = after_served_turns(s, turns);
            &&& bond_sound(later.storage)
            &&& bonded_amount(later.storage) <= net_transfers(later.effects)
        }),
    decreases turns.len(),
{
    if turns.len() > 0 {
        lemma_earlier_turns_from_outside(turns);
        law_bond_is_always_covered_by_transfers(s, turns.drop_last());
        let before = after_served_turns(s, turns.drop_last());
        let served = turns.last();
        lemma_served_turn_keeps_bond_sound(before, served);
        if ends_bond(before, served) {
            lemma_ending_turn_stays_covered(before, served);
        } else {
            lemma_turn_transfers_what_is_bonded(before, served);
        }
    }
}

} // verus!
