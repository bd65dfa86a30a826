//! What holds of the marketplace service over its whole lifetime, stated
//! over sequences of calls.

use vstd::prelude::*;
use crate::actions::TokenFacts;
use crate::amount::Amount;
use crate::identity::{Identity, PackageHash, Purse};
use crate::marketplace::{MarketError, MarketplaceView, Settlement};
use crate::token::TokenIdentifier;

verus! {

/// One call of a state-changing entry point, with all that it is given.
pub enum Operation {
    Post {
        marketplace: Identity,
        caller: Identity,
        facts: TokenFacts,
        token_contract: PackageHash,
        token_id: TokenIdentifier,
        target_purse: Purse,
        price: Amount,
    },
    CancelPosting { caller: Identity, post_id: u64 },
    RegisterCustodialContract {
        caller: Identity,
        nft_package: PackageHash,
        custodial_package: PackageHash,
    },
    Bid {
        caller: Identity,
        source_purse: Purse,
        post_id: u64,
        amount: Amount,
        royalty_amount: Amount,
    },
}

/// The state after `operation`; a refused call leaves the state as it was.
pub open spec fn step(state: MarketplaceView, operation: Operation) -> MarketplaceView {
    match operation {
        Operation::Post {
            marketplace,
            caller,
            facts,
            token_contract,
            token_id,
            target_purse,
            price,
        } => match state.post(
            marketplace,
            caller,
            facts,
            token_contract,
            token_id,
            target_purse,
            price,
        ) {
            Ok((after, _)) => after,
            Err(_) => state,
        },
        Operation::CancelPosting { caller, post_id } => match state.cancel_posting(
            caller,
            post_id,
        ) {
            Ok(after) => after,
            Err(_) => state,
        },
        Operation::RegisterCustodialContract {
            caller,
            nft_package,
            custodial_package,
        } => match state.register_custodial_contract(caller, nft_package, custodial_package) {
            Ok(after) => after,
            Err(_) => state,
        },
        Operation::Bid { caller, source_purse, post_id, amount, royalty_amount } => match state.bid(
            caller,
            source_purse,
            post_id,
            amount,
            royalty_amount,
        ) {
            Ok((after, _)) => after,
            Err(_) => state,
        },
    }
}

/// The posting id that `operation` hands out in `state`, if it is a
/// posting that succeeds.
pub open spec fn issued(state: MarketplaceView, operation: Operation) -> Option<u64> {
    match operation {
        Operation::Post {
            marketplace,
            caller,
            facts,
            token_contract,
            token_id,
            target_purse,
            price,
        } => match state.post(
            marketplace,
            caller,
            facts,
            token_contract,
            token_id,
            target_purse,
            price,
        ) {
            Ok((_, post_id)) => Some(post_id),
            Err(_) => None,
        },
        _ => None,
    }
}

/// The state after the calls of `operations`, made in order.
pub open spec fn run(state: MarketplaceView, operations: Seq<Operation>) -> MarketplaceView
    decreases operations.len(),
{
    if operations.len() == 0 {
        state
    } else {
        step(run(state, operations.drop_last()), operations.last())
    }
}

/// The posting ids handed out by the calls of `operations`, in order.
pub open spec fn issued_ids(state: MarketplaceView, operations: Seq<Operation>) -> Seq<u64>
    decreases operations.len(),
{
    if operations.len() == 0 {
        Seq::empty()
    } else {
        let earlier = issued_ids(state, operations.drop_last());
        match issued(run(state, operations.drop_last()), operations.last()) {
            Some(post_id) => earlier.push(post_id),
            None => earlier,
        }
    }
}

/// Every open posting and every registered payout purse has an id that the
/// counter has already passed.
pub open spec fn ids_below_counter(state: MarketplaceView) -> bool {
    &&& forall|post_id: u64| #[trigger]
        state.orderbook.contains_key(post_id) ==> post_id < state.next_post_id
    &&& forall|post_id: u64| #[trigger]
        state.target_purses.contains_key(post_id) ==> post_id < state.next_post_id
}

/// One call moves the counter on by one where it hands out an id, which is
/// then the counter's old reading, and leaves it alone otherwise.
pub proof fn lemma_step_counter(state: MarketplaceView, operation: Operation)
    requires
        state.next_post_id <= u64::MAX,
    ensures
        match issued(state, operation) {
            Some(post_id) => post_id == state.next_post_id && step(state, operation).next_post_id
                == state.next_post_id + 1,
            None => step(state, operation).next_post_id == state.next_post_id,
        },
{
}

/// One call keeps every open posting's id below the counter, and an id
/// that it hands out was not in use before.
pub proof fn lemma_step_keeps_ids_below_counter(state: MarketplaceView, operation: Operation)
    requires
        state.next_post_id <= u64::MAX,
        ids_below_counter(state),
    ensures
        ids_below_counter(step(state, operation)),
        issued(state, operation) matches Some(post_id) ==> !state.orderbook.contains_key(post_id)
            && !state.target_purses.contains_key(post_id) && step(
            state,
            operation,
        ).orderbook.contains_key(post_id),
{
}

/// Over any sequence of calls the counter never goes back, and it moves on
/// by no more than one per call.
pub proof fn lemma_run_counter(state: MarketplaceView, operations: Seq<Operation>)
    requires
        state.next_post_id + operations.len() <= u64::MAX,
    ensures
        state.next_post_id <= run(state, operations).next_post_id <= state.next_post_id
            + operations.len(),
    decreases operations.len(),
{
    if operations.len() > 0 {
        lemma_run_counter(state, operations.drop_last());
        lemma_step_counter(run(state, operations.drop_last()), operations.last());
    }
}

/// Posting ids are never reused and only grow: over any sequence of
/// postings, cancellations, registrations and bids, each id handed out is
/// greater than every id handed out before it, and none is below the
/// counter's reading at the start.
pub proof fn lemma_issued_ids_increase(state: MarketplaceView, operations: Seq<Operation>)
    requires
        state.next_post_id + operations.len() <= u64::MAX,
    ensures
        forall|i: int, j: int|
            0 <= i < j < issued_ids(state, operations).len() ==> issued_ids(state, operations)[i]
                < issued_ids(state, operations)[j],
        forall|i: int|
            0 <= i < issued_ids(state, operations).len() ==> state.next_post_id <= #[trigger] issued_ids(
                state,
                operations,
            )[i] < run(state, operations).next_post_id,
    decreases operations.len(),
{
    if operations.len() > 0 {
        let earlier = operations.drop_last();
        let middle = run(state, earlier);
        let before = issued_ids(state, earlier);
        let ids = issued_ids(state, operations);
        lemma_issued_ids_increase(state, earlier);
        lemma_run_counter(state, earlier);
        lemma_step_counter(middle, operations.last());
        assert(run(state, operations) == step(middle, operations.last()));
        match issued(middle, operations.last()) {
            Some(post_id) => {
                assert(ids == before.push(post_id));
                assert forall|i: int| 0 <= i < ids.len() implies state.next_post_id
                    <= #[trigger] ids[i] < run(state, operations).next_post_id by {
                    if i < before.len() {
                        assert(ids[i] == before[i]);
                    }
                }
                assert forall|i: int, j: int| 0 <= i < j < ids.len() implies ids[i] < ids[j] by {
                    assert(ids[i] == before[i]);
                    if j < before.len() {
                        assert(ids[j] == before[j]);
                    }
                }
            },
            None => {
                assert(ids == before);
            },
        }
    }
}

/// Over any sequence of calls from a state in which every open posting's
/// id is below the counter, that stays so: a posting never gets the id of
/// a posting that is open, cancelled or settled.
pub proof fn lemma_run_keeps_ids_below_counter(state: MarketplaceView, operations: Seq<Operation>)
    requires
        state.next_post_id + operations.len() <= u64::MAX,
        ids_below_counter(state),
    ensures
        ids_below_counter(run(state, operations)),
    decreases operations.len(),
{
    if operations.len() > 0 {
        let earlier = operations.drop_last();
        lemma_run_keeps_ids_below_counter(state, earlier);
        lemma_run_counter(state, earlier);
        lemma_step_keeps_ids_below_counter(run(state, earlier), operations.last());
    }
}

/// A bid below the posting's price is refused with `InvalidPaymentAmount`,
/// whoever bids, from whatever purse and at whatever royalty quote; the
/// refusal carries no settlement, so nothing is to be moved.
pub proof fn lemma_underpaying_bid_refused(
    state: MarketplaceView,
    caller: Identity,
    source_purse: Purse,
    post_id: u64,
    amount: Amount,
    royalty_amount: Amount,
)
    requires
        state.orderbook.contains_key(post_id),
        amount@ < state.orderbook[post_id].price@,
    ensures
        state.bid(caller, source_purse, post_id, amount, royalty_amount) == Err::<
            (MarketplaceView, Settlement),
            MarketError,
        >(MarketError::InvalidPaymentAmount),
        step(state, Operation::Bid { caller, source_purse, post_id, amount, royalty_amount })
            == state,
{
}

/// Cancelling another's posting is refused with `InvalidMethodAccess`,
/// and the posting stays.
pub proof fn lemma_cancel_by_other_refused(state: MarketplaceView, caller: Identity, post_id: u64)
    requires
        state.orderbook.contains_key(post_id),
        state.orderbook[post_id].owner != caller,
    ensures
        state.cancel_posting(caller, post_id) == Err::<MarketplaceView, MarketError>(
            MarketError::InvalidMethodAccess,
        ),
        step(state, Operation::CancelPosting { caller, post_id }) == state,
{
}

/// What a settled bid pays out: with a custodial service, the royalty put
/// in escrow and the seller's payment add up to the amount bid; without
/// one, the seller's payment is the amount bid.
pub proof fn lemma_settlement_pays_out_bid(
    state: MarketplaceView,
    caller: Identity,
    source_purse: Purse,
    post_id: u64,
    amount: Amount,
    royalty_amount: Amount,
)
    requires
        state.bid(caller, source_purse, post_id, amount, royalty_amount) is Ok,
    ensures
        ({
            let settlement = state.bid(
                caller,
                source_purse,
                post_id,
                amount,
                royalty_amount,
            )->Ok_0.1;
            match settlement.royalty {
                Some(royalty) => royalty.royalty_amount@ + settlement.seller_payment.amount@
                    == amount@,
                None => settlement.seller_payment.amount == amount,
            }
        }),
{
    let rest = (amount@ - royalty_amount@) as nat;
    if state.custodial_packages.contains_key(state.orderbook[post_id].token_contract) {
        amount.lemma_view_bound();
        Amount::lemma_of_value(rest);
    }
}

} // verus!
