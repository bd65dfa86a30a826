//! What holds of the custodial royalty service whatever its state: the
//! laws of royalty payment and of gated transfer.

use vstd::prelude::*;
use crate::actions::{PurseTransfer, TokenFacts};
use crate::amount::Amount;
use crate::custodial::{CustodialError, CustodialView, RoyaltyPaymentState};
use crate::identity::{Caller, Identity, Purse};
use crate::royalty::total_royalty;
use crate::token::TokenIdentifierView;

verus! {

/// The caller and the sale pass every check that does not look at the
/// token's royalty record: seller and buyer differ, the caller is a
/// contract that the whitelist lets through and is the token's approved
/// operator, the seller owns the token, and a royalty structure is
/// installed.
pub open spec fn payment_admitted(
    state: CustodialView,
    caller: Caller,
    facts: TokenFacts,
    source_key: Identity,
    target_key: Identity,
) -> bool {
    &&& source_key != target_key
    &&& caller.is_contract()
    &&& state.whitelist_enabled ==> state.whitelisted.contains(caller->package)
    &&& facts.approved == Some(caller.identity())
    &&& facts.owner == source_key
    &&& state.royalty_shares is Some
}

/// A royalty payment for a sale to oneself is refused with
/// `SelfTransferForbidden`, whatever the state, the caller and the token.
pub proof fn lemma_self_transfer_forbidden(
    state: CustodialView,
    caller: Caller,
    facts: TokenFacts,
    token: TokenIdentifierView,
    source_purse: Purse,
    payer: Identity,
    key: Identity,
    payment_amount: nat,
)
    ensures
        state.pay_royalty(caller, facts, token, source_purse, payer, key, key, payment_amount)
            == Err::<(CustodialView, PurseTransfer), CustodialError>(
            CustodialError::SelfTransferForbidden,
        ),
{
}

/// An admitted royalty payment on an unpaid token succeeds: the token's
/// record becomes `Paid` with the payer, the seller and the royalty on the
/// payment amount, no other token's record changes, and the royalty is to
/// be moved from the source purse into the royalty purse.
pub proof fn lemma_payment_on_unpaid_token(
    state: CustodialView,
    caller: Caller,
    facts: TokenFacts,
    token: TokenIdentifierView,
    source_purse: Purse,
    payer: Identity,
    source_key: Identity,
    target_key: Identity,
    payment_amount: nat,
)
    requires
        state.payment_state(token) == RoyaltyPaymentState::Unpaid,
        payment_admitted(state, caller, facts, source_key, target_key),
    ensures
        ({
            let amount = Amount::of(total_royalty(state.royalty_shares->0, payment_amount));
            let outcome = state.pay_royalty(
                caller,
                facts,
                token,
                source_purse,
                payer,
                source_key,
                target_key,
                payment_amount,
            );
            &&& outcome is Ok
            &&& outcome->Ok_0.0.payment_state(token) == (RoyaltyPaymentState::Paid {
                payer,
                source_key,
                amount,
            })
            &&& forall|other: TokenIdentifierView|
                other != token ==> outcome->Ok_0.0.payment_state(other) == state.payment_state(
                    other,
                )
            &&& outcome->Ok_0.1 == (PurseTransfer {
                source: source_purse,
                target: state.royalty_purse,
                amount,
            })
        }),
{
}

/// An admitted royalty payment on a token that is already paid for: where
/// it names the seller on record it succeeds and its own payer, seller and
/// royalty take the record's place; where it names another seller it is
/// refused with `AlreadyPaid`.
pub proof fn lemma_payment_on_paid_token(
    state: CustodialView,
    caller: Caller,
    facts: TokenFacts,
    token: TokenIdentifierView,
    source_purse: Purse,
    payer: Identity,
    source_key: Identity,
    target_key: Identity,
    payment_amount: nat,
)
    requires
        state.payment_state(token) is Paid,
        payment_admitted(state, caller, facts, source_key, target_key),
    ensures
        ({
            let amount = Amount::of(total_royalty(state.royalty_shares->0, payment_amount));
            let outcome = state.pay_royalty(
                caller,
                facts,
                token,
                source_purse,
                payer,
                source_key,
                target_key,
                payment_amount,
            );
            if state.payment_state(token)->source_key == source_key {
                &&& outcome is Ok
                &&& outcome->Ok_0.0.payment_state(token) == (RoyaltyPaymentState::Paid {
                    payer,
                    source_key,
                    amount,
                })
            } else {
                outcome == Err::<(CustodialView, PurseTransfer), CustodialError>(
                    CustodialError::AlreadyPaid,
                )
            }
        }),
{
}

/// Two admitted payments in a row on a token that starts unpaid: the first
/// succeeds; the second succeeds and overwrites where it names the same
/// seller, and is refused with `AlreadyPaid` where it names another.
pub proof fn lemma_payment_repeated(
    state: CustodialView,
    token: TokenIdentifierView,
    caller: Caller,
    facts: TokenFacts,
    source_purse: Purse,
    payer: Identity,
    source_key: Identity,
    target_key: Identity,
    payment_amount: nat,
    next_caller: Caller,
    next_facts: TokenFacts,
    next_source_purse: Purse,
    next_payer: Identity,
    next_source_key: Identity,
    next_target_key: Identity,
    next_payment_amount: nat,
)
    requires
        state.payment_state(token) == RoyaltyPaymentState::Unpaid,
        payment_admitted(state, caller, facts, source_key, target_key),
        payment_admitted(state, next_caller, next_facts, next_source_key, next_target_key),
    ensures
        ({
            let first = state.pay_royalty(
                caller,
                facts,
                token,
                source_purse,
                payer,
                source_key,
                target_key,
                payment_amount,
            );
            let second = first->Ok_0.0.pay_royalty(
                next_caller,
                next_facts,
                token,
                next_source_purse,
                next_payer,
                next_source_key,
                next_target_key,
                next_payment_amount,
            );
            &&& first is Ok
            &&& next_source_key == source_key ==> second is Ok && second->Ok_0.0.payment_state(
                token,
            ) == (RoyaltyPaymentState::Paid {
                payer: next_payer,
                source_key: next_source_key,
                amount: Amount::of(total_royalty(state.royalty_shares->0, next_payment_amount)),
            })
            &&& next_source_key != source_key ==> second == Err::<
                (CustodialView, PurseTransfer),
                CustodialError,
            >(CustodialError::AlreadyPaid)
        }),
{
    lemma_payment_on_unpaid_token(
        state,
        caller,
        facts,
        token,
        source_purse,
        payer,
        source_key,
        target_key,
        payment_amount,
    );
}

/// A contract's transfer of a token that is not paid for is refused with
/// `MustPayRoyalties`.
pub proof fn lemma_transfer_unpaid_refused(
    state: CustodialView,
    caller: Caller,
    current_owner: Identity,
    token: TokenIdentifierView,
    source_key: Identity,
)
    requires
        caller.is_contract(),
        state.payment_state(token) == RoyaltyPaymentState::Unpaid,
    ensures
        state.transfer(caller, current_owner, token, source_key) == Err::<
            (CustodialView, bool),
            CustodialError,
        >(CustodialError::MustPayRoyalties),
{
}

/// A contract's transfer of a token that is paid for: where it names the
/// seller on record and that seller owns the token, the transfer is to be
/// made and the token is unpaid afterwards; otherwise no transfer is to be
/// made and the state is as before.
pub proof fn lemma_transfer_of_paid_token(
    state: CustodialView,
    caller: Caller,
    current_owner: Identity,
    token: TokenIdentifierView,
    source_key: Identity,
)
    requires
        caller.is_contract(),
        state.payment_state(token) is Paid,
    ensures
        ({
            let outcome = state.transfer(caller, current_owner, token, source_key);
            let paid_source_key = state.payment_state(token)->source_key;
            if source_key == paid_source_key && current_owner == source_key {
                &&& outcome is Ok
                &&& outcome->Ok_0.1
                &&& outcome->Ok_0.0.payment_state(token) == RoyaltyPaymentState::Unpaid
                &&& forall|other: TokenIdentifierView|
                    other != token ==> outcome->Ok_0.0.payment_state(other) == state.payment_state(
                        other,
                    )
            } else {
                outcome == Ok::<(CustodialView, bool), CustodialError>((state, false))
            }
        }),
{
}

/// A royalty payment and the transfer that follows it bring the token back
/// to unpaid: the record is used up by the sale it was made for.
pub proof fn lemma_payment_then_transfer(
    state: CustodialView,
    caller: Caller,
    facts: TokenFacts,
    token: TokenIdentifierView,
    source_purse: Purse,
    payer: Identity,
    source_key: Identity,
    target_key: Identity,
    payment_amount: nat,
)
    requires
        state.payment_state(token) == RoyaltyPaymentState::Unpaid,
        payment_admitted(state, caller, facts, source_key, target_key),
    ensures
        ({
            let paid = state.pay_royalty(
                caller,
                facts,
                token,
                source_purse,
                payer,
                source_key,
                target_key,
                payment_amount,
            );
            let moved = paid->Ok_0.0.transfer(caller, facts.owner, token, source_key);
            &&& paid is Ok
            &&& moved is Ok
            &&& moved->Ok_0.1
            &&& moved->Ok_0.0.payment_state(token) == RoyaltyPaymentState::Unpaid
        }),
{
}

/// The royalty on a price depends on the installed royalty structure and
/// the price alone: two states with the same structure charge the same.
pub proof fn lemma_calculate_royalty_deterministic(
    first: CustodialView,
    second: CustodialView,
    payment_amount: nat,
)
    requires
        first.royalty_shares == second.royalty_shares,
    ensures
        first.calculate_royalty(payment_amount) == second.calculate_royalty(payment_amount),
{
}

/// Two amounts that are both the royalty on one price under one structure
/// are the same amount.
pub proof fn lemma_royalty_amounts_agree(
    state: CustodialView,
    payment_amount: nat,
    first: Amount,
    second: Amount,
)
    requires
        state.calculate_royalty(payment_amount) == Ok::<nat, CustodialError>(first@),
        state.calculate_royalty(payment_amount) == Ok::<nat, CustodialError>(second@),
    ensures
        first == second,
{
    first.lemma_view_injective(second);
}

} // verus!
