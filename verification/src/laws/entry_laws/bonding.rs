//! Creating a bond, adding to it, and its periods.

use crate::address::Address;
use crate::bond::{BondTier, IdentityBond};
use crate::contract::CredenceBond;
use crate::effect::{Effect, Event};
use crate::error::ContractError;
use crate::laws::entry_laws::shapes::{leaves, refused, tier_notice};
use crate::ledger::{Ledger, LedgerView, StorageView};
use vstd::prelude::*;

verus! {

/// Whether the creation of a bond is answered as it should be. Any positive amount can be bonded by
/// an identity that authorizes it, whether there is a bond already or not, as long as the period
/// ends within the reach of the clock.
///
/// The new bond is then active, unslashed and without a request, begins now, and is otherwise as
/// asked for; it takes the place of any other. Its tier is announced if it is not the lowest, and
/// then its tokens are asked for.
pub open spec fn creates(
    s: LedgerView,
    later: LedgerView,
    identity: Address,
    amount: i128,
    duration: u64,
    rolling: bool,
    notice: u64,
    answer: Result<IdentityBond, ContractError>,
) -> bool {
    let open = !s.storage.paused;
    let authorized = open && s.auths.contains(identity);
    let positive = authorized && 0 < amount;
    let fitting = positive && s.timestamp + duration <= u64::MAX;
    &&& refused(answer, ContractError::ContractPaused) <==> !open
    &&& refused(answer, ContractError::NotAuthorized(identity)) <==> open && !authorized
    &&& refused(answer, ContractError::BondAmountNotPositive) <==> authorized && !positive
    &&& refused(answer, ContractError::BondEndOverflow) <==> positive && !fitting
    &&& answer is Ok <==> fitting
    &&& answer is Err ==> later == s
    &&& answer matches Ok(bond) ==> {
        &&& bond == (IdentityBond {
            identity,
            bonded_amount: amount,
            bond_start: s.timestamp,
            bond_duration: duration,
            slashed_amount: 0,
            active: true,
            is_rolling: rolling,
            withdrawal_requested_at: 0,
            notice_period_duration: notice,
        })
        &&& leaves(
            s,
            later,
            StorageView { bond: Some(bond), ..s.storage },
            tier_notice(s, identity, BondTier::Bronze, amount) + seq![
                Effect::PullTokens { from: identity, amount },
            ],
        )
    }
}

/// A bond is created as `creates` says: one that renews itself if that is asked for, with the
/// notice period that is asked for.
pub proof fn law_create_bond_with_rolling(
    e: &mut Ledger,
    identity: Address,
    amount: i128,
    duration: u64,
    rolling: bool,
    notice: u64,
    answer: Result<IdentityBond, ContractError>,
)
    requires
        call_ensures(
            CredenceBond::create_bond_with_rolling,
            (e, identity, amount, duration, rolling, notice),
            answer,
        ),
    ensures
        creates(old(e)@, final(e)@, identity, amount, duration, rolling, notice, answer),
{
}

/// A bond is created as `creates` says: one that does not renew itself and has no notice period.
pub proof fn law_create_bond(
    e: &mut Ledger,
    identity: Address,
    amount: i128,
    duration: u64,
    answer: Result<IdentityBond, ContractError>,
)
    requires
        call_ensures(CredenceBond::create_bond, (e, identity, amount, duration), answer),
    ensures
        creates(old(e)@, final(e)@, identity, amount, duration, false, 0, answer),
{
}

/// Any positive amount that fits can be added to a bond with its owner's authorization. It raises
/// the bonded amount by itself, asks the owner for the tokens, and changes nothing else of the
/// bond. The bond stored is the bond returned.
pub proof fn law_top_up(
    e: &mut Ledger,
    amount: i128,
    answer: Result<IdentityBond, ContractError>,
)
    requires
        call_ensures(CredenceBond::top_up, (e, amount), answer),
    ensures
        ({
            let s = old(e)@;
            let before = s.storage.bond->0;
            let open = !s.storage.paused;
            let bonded = open && s.storage.bond is Some;
            let authorized = bonded && s.auths.contains(before.identity);
            let positive = authorized && 0 < amount;
            let fitting = positive && before.bonded_amount + amount <= i128::MAX;
            &&& refused(answer, ContractError::ContractPaused) <==> !open
            &&& refused(answer, ContractError::BondNotFound) <==> open && !bonded
            &&& bonded && !authorized ==> refused(
                answer,
                ContractError::NotAuthorized(before.identity),
            )
            &&& refused(answer, ContractError::TopUpAmountNotPositive) <==> authorized && !positive
            &&& refused(answer, ContractError::TopUpOverflow) <==> positive && !fitting
            &&& answer is Ok <==> fitting
            &&& answer is Err ==> final(e)@ == s
            &&& answer matches Ok(bond) ==> {
                &&& bond.bonded_amount - before.bonded_amount == amount
                &&& bond == (IdentityBond { bonded_amount: bond.bonded_amount, ..before })
                &&& leaves(
                    s,
                    final(e)@,
                    StorageView { bond: Some(bond), ..s.storage },
                    seq![Effect::PullTokens { from: before.identity, amount }],
                )
            }
        }),
{
}

/// A bond can be extended by any time with which its duration and the end of its period fit. Its
/// periods are then longer by it, and nothing else of the bond changes. The bond stored is the bond
/// returned.
pub proof fn law_extend_duration(
    e: &mut Ledger,
    additional_duration: u64,
    answer: Result<IdentityBond, ContractError>,
)
    requires
        call_ensures(CredenceBond::extend_duration, (e, additional_duration), answer),
    ensures
        ({
            let s = old(e)@;
            let before = s.storage.bond->0;
            let open = !s.storage.paused;
            let bonded = open && s.storage.bond is Some;
            let fitting = bonded && before.bond_duration + additional_duration <= u64::MAX;
            let ending = fitting && before.bond_start + before.bond_duration + additional_duration
                <= u64::MAX;
            &&& refused(answer, ContractError::ContractPaused) <==> !open
            &&& refused(answer, ContractError::BondNotFound) <==> open && !bonded
            &&& refused(answer, ContractError::DurationOverflow) <==> bonded && !fitting
            &&& refused(answer, ContractError::BondEndOverflow) <==> fitting && !ending
            &&& answer is Ok <==> ending
            &&& answer is Err ==> final(e)@ == s
            &&& answer matches Ok(bond) ==> {
                &&& bond.bond_duration - before.bond_duration == additional_duration
                &&& bond == (IdentityBond { bond_duration: bond.bond_duration, ..before })
                &&& leaves(
                    s,
                    final(e)@,
                    StorageView { bond: Some(bond), ..s.storage },
                    seq![],
                )
            }
        }),
{
}

/// A withdrawal can be requested of any rolling bond of which none has been. The request is
/// recorded with the time at which it comes, never with the zero that says that there is none;
/// nothing else of the bond changes. The bond stored is the bond returned, and the request is
/// announced.
pub proof fn law_request_withdrawal(e: &mut Ledger, answer: Result<IdentityBond, ContractError>)
    requires
        call_ensures(CredenceBond::request_withdrawal, (e,), answer),
    ensures
        ({
            let s = old(e)@;
            let before = s.storage.bond->0;
            let open = !s.storage.paused;
            let bonded = open && s.storage.bond is Some;
            let rolling = bonded && before.is_rolling;
            let first = rolling && before.withdrawal_requested_at == 0;
            &&& refused(answer, ContractError::ContractPaused) <==> !open
            &&& refused(answer, ContractError::BondNotFound) <==> open && !bonded
            &&& refused(answer, ContractError::NotRollingBond) <==> bonded && !rolling
            &&& refused(answer, ContractError::WithdrawalAlreadyRequested) <==> rolling && !first
            &&& answer is Ok <==> first
            &&& answer is Err ==> final(e)@ == s
            &&& answer matches Ok(bond) ==> {
                let at = bond.withdrawal_requested_at;
                &&& s.timestamp > 0 ==> at == s.timestamp
                &&& s.timestamp == 0 ==> at == 1
                &&& bond == (IdentityBond { withdrawal_requested_at: at, ..before })
                &&& leaves(
                    s,
                    final(e)@,
                    StorageView { bond: Some(bond), ..s.storage },
                    seq![
                        Effect::Publish(
                            Event::WithdrawalRequested {
                                identity: before.identity,
                                requested_at: at,
                            },
                        ),
                    ],
                )
            }
        }),
{
}

/// Renewal can be asked for whenever there is a bond, and the bond stored is the bond returned. A
/// rolling bond of which no withdrawal was requested, and whose period is over, begins anew now,
/// with every other field as it was, and the renewal is announced; in every other case nothing
/// changes.
pub proof fn law_renew_if_rolling(e: &mut Ledger, answer: Result<IdentityBond, ContractError>)
    requires
        call_ensures(CredenceBond::renew_if_rolling, (e,), answer),
    ensures
        ({
            let s = old(e)@;
            let before = s.storage.bond->0;
            let open = !s.storage.paused;
            let bonded = open && s.storage.bond is Some;
            let over = s.timestamp == u64::MAX || s.timestamp >= before.bond_start
                + before.bond_duration;
            let due = before.is_rolling && before.withdrawal_requested_at == 0 && over;
            &&& refused(answer, ContractError::ContractPaused) <==> !open
            &&& refused(answer, ContractError::BondNotFound) <==> open && !bonded
            &&& answer is Ok <==> bonded
            &&& answer is Err ==> final(e)@ == s
            &&& answer matches Ok(bond) ==> {
                &&& final(e)@.storage.bond == Some(bond)
                &&& !due ==> final(e)@ == s
                &&& due ==> {
                    &&& bond == (IdentityBond { bond_start: s.timestamp, ..before })
                    &&& leaves(
                        s,
                        final(e)@,
                        StorageView { bond: Some(bond), ..s.storage },
                        seq![
                            Effect::Publish(
                                Event::BondRenewed {
                                    identity: before.identity,
                                    bond_start: s.timestamp,
                                    bond_duration: before.bond_duration,
                                },
                            ),
                        ],
                    )
                }
            }
        }),
{
}

/// A rolling bond of which no withdrawal was requested renews again at the end of each later
/// period: after a renewal, a call that comes once another whole period is over renews it from that
/// time on.
pub proof fn law_rolling_bond_renews_again(
    first: &mut Ledger,
    first_answer: Result<IdentityBond, ContractError>,
    second: &mut Ledger,
    second_answer: Result<IdentityBond, ContractError>,
)
    requires
        old(first)@.storage.bond matches Some(bond) && bond.is_rolling
            && bond.withdrawal_requested_at == 0 && old(first)@.timestamp >= bond.bond_start
            + bond.bond_duration && old(second)@.timestamp >= old(first)@.timestamp
            + bond.bond_duration,
        !old(first)@.storage.paused,
        call_ensures(CredenceBond::renew_if_rolling, (first,), first_answer),
        old(second)@.storage == final(first)@.storage,
        call_ensures(CredenceBond::renew_if_rolling, (second,), second_answer),
    ensures
        first_answer == Ok::<IdentityBond, ContractError>(
            IdentityBond { bond_start: old(first)@.timestamp, ..old(first)@.storage.bond->0 },
        ),
        second_answer == Ok::<IdentityBond, ContractError>(
            IdentityBond { bond_start: old(second)@.timestamp, ..old(first)@.storage.bond->0 },
        ),
        final(second)@.storage.bond == Some(second_answer->Ok_0),
        final(second)@.effects.len() == old(second)@.effects.len() + 1,
{
}

} // verus!
