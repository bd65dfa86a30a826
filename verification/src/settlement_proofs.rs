//! What holds of the two services together: a bid on a token whose
//! collection is served by this custodial service settles as a whole.

use vstd::prelude::*;
use crate::actions::TokenFacts;
use crate::amount::Amount;
use crate::custodial::{CustodialView, RoyaltyPaymentState};
use crate::custodial_proofs::payment_admitted;
use crate::identity::{Caller, Identity, Purse};
use crate::marketplace::MarketplaceView;
use crate::royalty::{lemma_total_royalty_at_most_price, total_royalty, valid_shares};

verus! {

/// A bid that reaches the price, on a posting with a payout purse whose
/// collection has a custodial service, settles where the royalty quoted is
/// the one that `custodial` charges on the listed price: the quote never
/// exceeds the bid, the royalty put in escrow and the seller's payment
/// add up to the bid, and the posting is gone.
///
/// The royalty payment that the settlement asks for is then accepted by
/// `custodial`, where the marketplace is admitted and the token carries
/// no record for another seller: exactly the escrowed royalty moves on
/// into the royalty purse, and the token is on record as paid for by the
/// bidder for a sale by the posting's owner.
pub proof fn lemma_bid_settles_with_custodial(
    market: MarketplaceView,
    custodial: CustodialView,
    marketplace: Caller,
    facts: TokenFacts,
    bidder: Identity,
    source_purse: Purse,
    escrow_purse: Purse,
    post_id: u64,
    amount: Amount,
)
    requires
        market.orderbook.contains_key(post_id),
        market.target_purses.contains_key(post_id),
        market.custodial_packages.contains_key(market.orderbook[post_id].token_contract),
        amount@ >= market.orderbook[post_id].price@,
        custodial.royalty_shares is Some,
        valid_shares(custodial.royalty_shares->0),
        payment_admitted(custodial, marketplace, facts, market.orderbook[post_id].owner, bidder),
        custodial.payment_state(market.orderbook[post_id].token_id@) matches RoyaltyPaymentState::Paid {
            source_key,
            ..
        } ==> source_key == market.orderbook[post_id].owner,
    ensures
        ({
            let entry = market.orderbook[post_id];
            let quote = Amount::of(total_royalty(custodial.royalty_shares->0, entry.price@));
            let settled = market.bid(bidder, source_purse, post_id, amount, quote);
            let royalty = settled->Ok_0.1.royalty->0;
            let recorded = custodial.pay_royalty(
                marketplace,
                facts,
                royalty.token_id@,
                escrow_purse,
                royalty.payer,
                royalty.source_key,
                royalty.target_key,
                royalty.payment_amount@,
            );
            &&& custodial.calculate_royalty(entry.price@) == Ok::<
                nat,
                crate::custodial::CustodialError,
            >(quote@)
            &&& quote@ <= entry.price@
            &&& settled is Ok
            &&& !settled->Ok_0.0.orderbook.contains_key(post_id)
            &&& !settled->Ok_0.0.target_purses.contains_key(post_id)
            &&& settled->Ok_0.1.royalty is Some
            &&& royalty.royalty_amount@ + settled->Ok_0.1.seller_payment.amount@ == amount@
            &&& settled->Ok_0.1.seller_payment.target == market.target_purses[post_id]
            &&& settled->Ok_0.1.token_transfer.source == entry.owner
            &&& settled->Ok_0.1.token_transfer.target == bidder
            &&& recorded is Ok
            &&& recorded->Ok_0.1.source == escrow_purse
            &&& recorded->Ok_0.1.target == custodial.royalty_purse
            &&& recorded->Ok_0.1.amount == royalty.royalty_amount
            &&& recorded->Ok_0.0.payment_state(entry.token_id@) == (RoyaltyPaymentState::Paid {
                payer: bidder,
                source_key: entry.owner,
                amount: quote,
            })
        }),
{
    let entry = market.orderbook[post_id];
    let shares = custodial.royalty_shares->0;
    let owed = total_royalty(shares, entry.price@);
    lemma_total_royalty_at_most_price(shares, entry.price@);
    amount.lemma_view_bound();
    Amount::lemma_of_value(owed);
    Amount::lemma_of_value((amount@ - owed) as nat);
}

} // verus!
