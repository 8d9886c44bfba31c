//! What holds of the tokens in the contract's custody.

use crate::address::Address;
use crate::contract::bonds::{
    create_bond_accepted, create_bond_refusal, new_bond, top_up_accepted, top_up_refusal,
};
use crate::contract::custody::{
    pull_tokens_accepted, pull_tokens_refusal, withdraw_accepted, withdraw_early_accepted,
    withdraw_early_penalty, withdraw_early_refusal, withdraw_refusal,
};
use crate::contract::guard::{withdraw_bond_accepted, withdraw_bond_refusal};
use crate::early_exit_penalty::lemma_penalty_is_not_negative;
use crate::effect::Effect;
use crate::laws::calls::{
    accepted, after, at_turn, attestation_call_accepted, attester_call_accepted, bond_call_accepted,
    bond_call_refusal, custody_call_accepted, custody_call_refusal, guarded_call_accepted,
    guarded_call_refusal, pool_call_accepted, refusal, setup_call_accepted, BondCall, Call,
    CustodyCall, GuardedCall, SetupCall, Turn,
};
use crate::laws::control_laws::law_effects_are_only_added;
use crate::laws::soundness::{bond_sound, lemma_calls_keep_bond_sound};
use crate::ledger::{LedgerView, StorageView};
use vstd::prelude::*;

verus! {

/// What moving an amount from one address to another adds to the contract's holding.
pub open spec fn moved(from: Address, to: Address, amount: int, contract: Address) -> int {
    (if to == contract {
        amount
    } else {
        0
    }) - (if from == contract {
        amount
    } else {
        0
    })
}

/// What one thing asked of the ledger adds to the contract's holding of a token.
pub open spec fn holding_change(effect: Effect<Seq<u8>>, contract: Address, token: Address) -> int {
    match effect {
        Effect::TransferFrom { token: moving, from, to, amount, .. } if moving == token => moved(
            from,
            to,
            amount as int,
            contract,
        ),
        Effect::Transfer { token: moving, from, to, amount } if moving == token => moved(
            from,
            to,
            amount as int,
            contract,
        ),
        _ => 0,
    }
}

/// What all things asked of the ledger add to the contract's holding of a token.
pub open spec fn holding(
    effects: Seq<Effect<Seq<u8>>>,
    contract: Address,
    token: Address,
) -> int
    decreases effects.len(),
{
    if effects.len() == 0 {
        0
    } else {
        holding(effects.drop_last(), contract, token) + holding_change(
            effects.last(),
            contract,
            token,
        )
    }
}

/// One more thing asked of the ledger adds its own change to the holding.
proof fn lemma_holding_push(contract: Address, token: Address)
    ensures
        forall|effects: Seq<Effect<Seq<u8>>>, effect: Effect<Seq<u8>>| #[trigger]
            holding(effects.push(effect), contract, token) == holding(effects, contract, token)
                + holding_change(effect, contract, token),
{
    assert forall|effects: Seq<Effect<Seq<u8>>>, effect: Effect<Seq<u8>>| #[trigger]
        holding(effects.push(effect), contract, token) == holding(effects, contract, token)
            + holding_change(effect, contract, token) by {
        assert(effects.push(effect).drop_last() =~= effects);
    }
}

/// Once the pull of a new bond's tokens has been accepted, the contract's holding of the configured
/// token has grown by exactly what is bonded, taken from the bond's owner.
pub proof fn law_created_bond_is_escrowed(
    s: LedgerView,
    identity: Address,
    amount: i128,
    duration: u64,
    rolling: bool,
    notice: u64,
    allowance: i128,
)
    requires
        create_bond_refusal(s, identity, amount, duration) is None,
        pull_tokens_refusal(
            create_bond_accepted(s, new_bond(s, identity, amount, duration, rolling, notice)),
            amount,
            allowance,
        ) is None,
        identity != s.contract,
    ensures
        ({
            let token = s.storage.token->0;
            let bond = new_bond(s, identity, amount, duration, rolling, notice);
            let created = create_bond_accepted(s, bond);
            let escrowed = pull_tokens_accepted(created, identity, amount);
            &&& created.effects.last() == (Effect::<Seq<u8>>::PullTokens { from: identity, amount })
            &&& escrowed.storage.bond == Some(bond)
            &&& bond.bonded_amount == amount
            &&& escrowed.effects.last() == (Effect::<Seq<u8>>::TransferFrom {
                token,
                spender: s.contract,
                from: identity,
                to: s.contract,
                amount,
            })
            &&& holding(escrowed.effects, s.contract, token) == holding(
                s.effects,
                s.contract,
                token,
            ) + amount
            &&& allowance >= amount
        }),
{
    lemma_holding_push(s.contract, s.storage.token->0);
}

/// Once the pull of a top-up's tokens has been accepted, the contract's holding has grown by as
/// much as the bonded amount.
pub proof fn law_top_up_is_escrowed(s: LedgerView, amount: i128, allowance: i128)
    requires
        top_up_refusal(s, amount) is None,
        pull_tokens_refusal(top_up_accepted(s, amount), amount, allowance) is None,
        s.storage.bond->0.identity != s.contract,
    ensures
        ({
            let token = s.storage.token->0;
            let owner = s.storage.bond->0.identity;
            let topped = top_up_accepted(s, amount);
            let escrowed = pull_tokens_accepted(topped, owner, amount);
            &&& topped.effects.last() == (Effect::<Seq<u8>>::PullTokens { from: owner, amount })
            &&& escrowed.storage.bond->0.bonded_amount - s.storage.bond->0.bonded_amount == amount
            &&& holding(escrowed.effects, s.contract, token) - holding(
                s.effects,
                s.contract,
                token,
            ) == amount
        }),
{
    lemma_holding_push(s.contract, s.storage.token->0);
}

/// Tokens are never pulled beyond the owner's allowance, nor without a configured token.
pub proof fn law_pull_needs_token_and_allowance(s: LedgerView, amount: i128, allowance: i128)
    requires
        amount > 0,
    ensures
        pull_tokens_refusal(s, amount, allowance) is None <==> s.storage.token is Some && allowance
            >= amount,
{
}

/// A withdrawal pays the owner exactly what leaves the bond, so the contract's holding and the
/// bonded amount shrink together.
pub proof fn law_withdrawal_pays_what_leaves_the_bond(s: LedgerView, amount: i128)
    requires
        withdraw_refusal(s, amount) is None,
        s.storage.bond->0.identity != s.contract,
    ensures
        ({
            let token = s.storage.token->0;
            let bond = s.storage.bond->0;
            let paid = withdraw_accepted(s, amount);
            &&& paid.effects == s.effects.push(
                Effect::Transfer { token, from: s.contract, to: bond.identity, amount },
            )
            &&& paid.storage.bond->0.bonded_amount == bond.bonded_amount - amount
            &&& holding(paid.effects, s.contract, token) == holding(s.effects, s.contract, token)
                - amount
        }),
{
    lemma_holding_push(s.contract, s.storage.token->0);
}

/// An early withdrawal splits the amount: the treasury gets the penalty and the owner the rest,
/// neither of them less than nothing. Together they are what leaves the bond, so the contract's
/// holding and the bonded amount shrink together.
pub proof fn law_early_withdrawal_pays_what_leaves_the_bond(s: LedgerView, amount: i128)
    requires
        withdraw_early_refusal(s, amount) is None,
        s.storage.bond->0.identity != s.contract,
        s.storage.early_exit->0.treasury != s.contract,
    ensures
        ({
            let token = s.storage.token->0;
            let bond = s.storage.bond->0;
            let paid = withdraw_early_accepted(s, amount);
            &&& 0 <= withdraw_early_penalty(s, amount) <= amount
            &&& paid.storage.bond->0.bonded_amount == bond.bonded_amount - amount
            &&& holding(paid.effects, s.contract, token) == holding(s.effects, s.contract, token)
                - amount
        }),
{
    let bond = s.storage.bond->0;
    lemma_penalty_is_not_negative(
        amount as int,
        bond.period_end() - s.timestamp,
        bond.bond_duration as int,
        s.storage.early_exit->0.penalty_bps as int,
    );
    lemma_holding_push(s.contract, s.storage.token->0);
}

/// Withdrawing the bond as a whole pays its owner exactly what is returned, all that is bonded and
/// not slashed, so the contract's holding shrinks by that; what has been slashed stays.
pub proof fn law_bond_withdrawal_pays_what_is_returned(s: LedgerView, identity: Address)
    requires
        withdraw_bond_refusal(s, identity) is None,
        identity != s.contract,
    ensures
        ({
            let token = s.storage.token->0;
            let bond = s.storage.bond->0;
            let paid = withdraw_bond_accepted(s);
            &&& bond.identity == identity
            &&& bond.available() != 0 ==> {
                &&& s.storage.token is Some
                &&& paid.effects[s.effects.len() as int] == (Effect::<Seq<u8>>::Transfer {
                    token,
                    from: s.contract,
                    to: identity,
                    amount: bond.available() as i128,
                })
            }
            &&& bond.slashed_amount == 0 ==> bond.available() == bond.bonded_amount
            &&& paid.storage.bond->0.bonded_amount == 0
            &&& holding(paid.effects, s.contract, token) == holding(s.effects, s.contract, token)
                - bond.available()
        }),
{
    lemma_holding_push(s.contract, s.storage.token->0);
}

/// A turn as the ledger serves it: where the call asks for tokens to be pulled, the token reports
/// an allowance, and a pull that is refused undoes the call.
pub struct ServedTurn {
    pub turn: Turn,
    pub allowance: i128,
}

/// Whether a call, once accepted, asks for tokens to be pulled.
pub open spec fn asks_for_tokens(call: Call) -> bool {
    match call {
        Call::Bond(BondCall::CreateBond { .. }) => true,
        Call::Bond(BondCall::TopUp { .. }) => true,
        _ => false,
    }
}

/// The ledger after a pull that a call has asked for last, given what it was before the call.
pub open spec fn after_pull(before: LedgerView, asked: LedgerView, allowance: i128) -> LedgerView {
    match asked.effects.last() {
        Effect::PullTokens { from, amount } => if pull_tokens_refusal(asked, amount, allowance)
            is None {
            pull_tokens_accepted(asked, from, amount)
        } else {
            before
        },
        _ => asked,
    }
}

/// The ledger after a served turn.
pub open spec fn after_served_turn(s: LedgerView, served: ServedTurn) -> LedgerView {
    let now = at_turn(s, served.turn);
    if asks_for_tokens(served.turn.call) && refusal(now, served.turn.call) is None {
        after_pull(now, accepted(now, served.turn.call), served.allowance)
    } else {
        after(now, served.turn.call)
    }
}

/// The ledger after some served turns, one after the other.
pub open spec fn after_served_turns(s: LedgerView, turns: Seq<ServedTurn>) -> LedgerView
    decreases turns.len(),
{
    if turns.len() == 0 {
        s
    } else {
        after_served_turn(after_served_turns(s, turns.drop_last()), turns.last())
    }
}

/// Whether a call may come from outside and leaves the custody in one token: tokens are not pulled
/// for their own sake, the contract does not put up a bond with itself, and it is not initialized
/// with another token.
pub open spec fn keeps_to_token(call: Call, contract: Address, token: Address) -> bool {
    match call {
        Call::Custody(CustodyCall::PullTokens { .. }) => false,
        Call::Bond(BondCall::CreateBond { identity, .. }) => identity != contract,
        Call::Setup(SetupCall::Initialize { token: chosen, .. }) => chosen == token,
        _ => true,
    }
}

/// What is bonded now.
pub open spec fn bonded_amount(storage: StorageView) -> int {
    match storage.bond {
        Some(bond) => bond.bonded_amount as int,
        None => 0,
    }
}

/// The contract holds at least what is bonded, in the token that it keeps to.
pub open spec fn escrowed(s: LedgerView, token: Address) -> bool {
    &&& bonded_amount(s.storage) <= holding(s.effects, s.contract, token)
    &&& bond_sound(s.storage)
    &&& s.storage.bond matches Some(bond) ==> bond.identity != s.contract
    &&& s.storage.token matches Some(configured) ==> configured == token
}

/// A call that is neither about the bond's upkeep nor a withdrawal from it takes no more from the
/// holding than from the bond.
proof fn lemma_other_calls_keep_escrow(s: LedgerView, call: Call, token: Address)
    requires
        escrowed(s, token),
        keeps_to_token(call, s.contract, token),
        !(call is Bond),
        !(call is Custody),
        refusal(s, call) is None,
    ensures
        escrowed(accepted(s, call), token),
{
    lemma_holding_push(s.contract, token);
    lemma_calls_keep_bond_sound(s, call);
    match call {
        Call::Setup(_) => {
            reveal(setup_call_accepted);
        },
        Call::Attester(_) => {
            reveal(attester_call_accepted);
        },
        Call::Attestation(_) => {
            reveal(attestation_call_accepted);
        },
        Call::Guarded(_) => {
            reveal(guarded_call_refusal);
            reveal(guarded_call_accepted);
        },
        Call::Pool(_) => {
            reveal(pool_call_accepted);
        },
        _ => {},
    }
}

/// A withdrawal, early or not, takes no more from the holding than from the bond.
proof fn lemma_withdrawals_keep_escrow(s: LedgerView, call: Call, token: Address)
    requires
        escrowed(s, token),
        keeps_to_token(call, s.contract, token),
        call is Custody,
        refusal(s, call) is None,
    ensures
        escrowed(accepted(s, call), token),
{
    lemma_holding_push(s.contract, token);
    lemma_calls_keep_bond_sound(s, call);
    reveal(custody_call_refusal);
    reveal(custody_call_accepted);
    if let Call::Custody(CustodyCall::WithdrawEarly { amount }) = call {
        let bond = s.storage.bond->0;
        lemma_penalty_is_not_negative(
            amount as int,
            bond.period_end() - s.timestamp,
            bond.bond_duration as int,
            s.storage.early_exit->0.penalty_bps as int,
        );
    }
}

/// A call about the bond leaves the holding ahead of it once what it asks for has been pulled.
proof fn lemma_bond_calls_keep_escrow(s: LedgerView, call: Call, allowance: i128, token: Address)
    requires
        escrowed(s, token),
        keeps_to_token(call, s.contract, token),
        call is Bond,
        refusal(s, call) is None,
    ensures
        asks_for_tokens(call) ==> escrowed(after_pull(s, accepted(s, call), allowance), token),
        !asks_for_tokens(call) ==> escrowed(accepted(s, call), token),
{
    lemma_holding_push(s.contract, token);
    lemma_calls_keep_bond_sound(s, call);
    reveal(bond_call_refusal);
    reveal(bond_call_accepted);
}

/// Whatever calls a freshly deployed contract has served, it holds at least what is bonded: the
/// tokens pulled in, less those paid out, cover the bond at all times.
///
/// The bond's owner must not be the contract itself, whose tokens would be pulled from the
/// contract's own holding, and the contract must not be initialized with another token, in which
/// nothing has been pulled yet.
pub proof fn law_bond_is_always_escrowed(s: LedgerView, turns: Seq<ServedTurn>, token: Address)
    requires
        s.storage == StorageView::initial(),
        s.effects.len() == 0,
        forall|i: int|
            0 <= i < turns.len() ==> keeps_to_token(
                (#[trigger] turns[i]).turn.call,
                s.contract,
                token,
            ),
    ensures
        escrowed(after_served_turns(s, turns), token),
        after_served_turns(s, turns).contract == s.contract,
    decreases turns.len(),
{
    if turns.len() > 0 {
        let earlier = turns.drop_last();
        assert forall|i: int| 0 <= i < earlier.len() implies keeps_to_token(
            (#[trigger] earlier[i]).turn.call,
            s.contract,
            token,
        ) by {
            assert(earlier[i] == turns[i]);
        }
        law_bond_is_always_escrowed(s, earlier, token);
        let served = turns.last();
        let before = after_served_turns(s, earlier);
        let now = at_turn(before, served.turn);
        let call = served.turn.call;
        assert(turns[turns.len() - 1] == served);
        assert(escrowed(now, token));
        law_effects_are_only_added(now, call);
        if refusal(now, call) is None {
            match call {
                Call::Bond(_) => lemma_bond_calls_keep_escrow(now, call, served.allowance, token),
                Call::Custody(_) => lemma_withdrawals_keep_escrow(now, call, token),
                _ => lemma_other_calls_keep_escrow(now, call, token),
            }
        }
    }
}

/// Whether a served turn replaces the bond or closes it.
pub open spec fn ends_bond(s: LedgerView, served: ServedTurn) -> bool {
    let ending = match served.turn.call {
        Call::Bond(BondCall::CreateBond { .. }) => true,
        Call::Guarded(GuardedCall::WithdrawBond { .. }) => true,
        _ => false,
    };
    ending && after_served_turn(s, served) != at_turn(s, served.turn)
}

/// Whether there is a bond, and it is neither replaced nor closed by any of some served turns.
pub open spec fn bond_stands(s: LedgerView, turns: Seq<ServedTurn>) -> bool
    decreases turns.len(),
{
    if turns.len() == 0 {
        s.storage.bond is Some
    } else {
        &&& bond_stands(s, turns.drop_last())
        &&& !ends_bond(after_served_turns(s, turns.drop_last()), turns.last())
    }
}

/// Whether the contract pays and is paid in one token, and pays neither owner nor treasury by
/// paying itself.
pub open spec fn pays_others(s: LedgerView, token: Address) -> bool {
    &&& s.storage.token matches Some(configured) ==> configured == token
    &&& s.storage.bond matches Some(bond) ==> bond.identity != s.contract
    &&& s.storage.early_exit matches Some(config) ==> config.treasury != s.contract
}

/// Whether a call may come from outside and leaves it so.
pub open spec fn keeps_paying_others(call: Call, contract: Address, token: Address) -> bool {
    match call {
        Call::Custody(CustodyCall::PullTokens { .. }) => false,
        Call::Setup(SetupCall::Initialize { token: chosen, .. }) => chosen == token,
        Call::Setup(SetupCall::SetEarlyExitConfig { treasury, .. }) => treasury != contract,
        _ => true,
    }
}

/// A served turn under which the bond stands changes the holding by as much as the bonded amount.
proof fn lemma_turn_moves_bond_and_holding_together(
    s: LedgerView,
    served: ServedTurn,
    token: Address,
)
    requires
        s.storage.bond is Some,
        pays_others(s, token),
        keeps_paying_others(served.turn.call, s.contract, token),
        !ends_bond(s, served),
    ensures
        ({
            let later = after_served_turn(s, served);
            &&& later.storage.bond is Some
            &&& pays_others(later, token)
            &&& later.contract == s.contract
            &&& bonded_amount(later.storage) - bonded_amount(s.storage) == holding(
                later.effects,
                s.contract,
                token,
            ) - holding(s.effects, s.contract, token)
        }),
{
    let now = at_turn(s, served.turn);
    let call = served.turn.call;
    lemma_holding_push(s.contract, token);
    if refusal(now, call) is None {
        match call {
            Call::Setup(_) => {
                reveal(setup_call_accepted);
            },
            Call::Attester(_) => {
                reveal(attester_call_accepted);
            },
            Call::Attestation(_) => {
                reveal(attestation_call_accepted);
            },
            Call::Bond(_) => {
                reveal(bond_call_refusal);
                reveal(bond_call_accepted);
            },
            Call::Custody(_) => {
                reveal(custody_call_refusal);
                reveal(custody_call_accepted);
                if let Call::Custody(CustodyCall::WithdrawEarly { amount }) = call {
                    let bond = now.storage.bond->0;
                    lemma_penalty_is_not_negative(
                        amount as int,
                        bond.period_end() - now.timestamp,
                        bond.bond_duration as int,
                        now.storage.early_exit->0.penalty_bps as int,
                    );
                }
            },
            Call::Guarded(_) => {
                reveal(guarded_call_refusal);
                reveal(guarded_call_accepted);
            },
            Call::Pool(_) => {
                reveal(pool_call_accepted);
            },
        }
    }
}

/// As long as a bond is neither replaced nor closed, the bonded amount and the contract's holding
/// move together, whatever calls are served.
///
/// Owner and treasury must not be the contract itself, which would keep what it pays, and the
/// contract must not be initialized with another token.
pub proof fn law_bond_and_holding_move_together(
    s: LedgerView,
    turns: Seq<ServedTurn>,
    token: Address,
)
    requires
        bond_stands(s, turns),
        pays_others(s, token),
        forall|i: int|
            0 <= i < turns.len() ==> keeps_paying_others(
                (#[trigger] turns[i]).turn.call,
                s.contract,
                token,
            ),
    ensures
        ({
            let later = after_served_turns(s, turns);
            &&& s.storage.bond is Some
            &&& later.storage.bond is Some
            &&& pays_others(later, token)
            &&& later.contract == s.contract
            &&& bonded_amount(later.storage) - bonded_amount(s.storage) == holding(
                later.effects,
                s.contract,
                token,
            ) - holding(s.effects, s.contract, token)
        }),
    decreases turns.len(),
{
    if turns.len() > 0 {
        let earlier = turns.drop_last();
        assert forall|i: int| 0 <= i < earlier.len() implies keeps_paying_others(
            (#[trigger] earlier[i]).turn.call,
            s.contract,
            token,
        ) by {
            assert(earlier[i] == turns[i]);
        }
        law_bond_and_holding_move_together(s, earlier, token);
        assert(turns[turns.len() - 1] == turns.last());
        lemma_turn_moves_bond_and_holding_together(
            after_served_turns(s, earlier),
            turns.last(),
            token,
        );
    }
}

/// From its creation on, and as long as it is neither replaced nor closed, what is bonded is
/// exactly the tokens pulled in less the tokens paid out since before the creation.
pub proof fn law_standing_bond_is_what_was_pulled_less_what_was_paid(
    s: LedgerView,
    creation: ServedTurn,
    turns: Seq<ServedTurn>,
    token: Address,
)
    requires
        creation.turn.call matches Call::Bond(BondCall::CreateBond { identity, .. }) && identity
            != s.contract,
        after_served_turn(s, creation) != at_turn(s, creation.turn),
        bond_stands(after_served_turn(s, creation), turns),
        s.storage.token == Some(token),
        s.storage.early_exit matches Some(config) ==> config.treasury != s.contract,
        forall|i: int|
            0 <= i < turns.len() ==> keeps_paying_others(
                (#[trigger] turns[i]).turn.call,
                s.contract,
                token,
            ),
    ensures
        ({
            let later = after_served_turns(after_served_turn(s, creation), turns);
            bonded_amount(later.storage) == holding(later.effects, s.contract, token) - holding(
                s.effects,
                s.contract,
                token,
            )
        }),
{
    let created = after_served_turn(s, creation);
    assert(pays_others(created, token) && created.contract == s.contract && bonded_amount(
        created.storage,
    ) == holding(created.effects, s.contract, token) - holding(s.effects, s.contract, token)) by {
        reveal(bond_call_refusal);
        reveal(bond_call_accepted);
        lemma_holding_push(s.contract, token);
    }
    law_bond_and_holding_move_together(created, turns, token);
}

} // verus!
