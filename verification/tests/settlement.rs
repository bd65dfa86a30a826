use std::collections::HashMap;

use royalty_settlement::actions::{OwnershipTransfer, PurseTransfer, TokenFacts};
use royalty_settlement::amount::Amount;
use royalty_settlement::custodial::{
    self, calculate_royalty, pay_royalty, payment_state, Custodial, CustodialError,
    RoyaltyPaymentState, TransferOutcome,
};
use royalty_settlement::identity::{Address, Caller, Identity, PackageHash, Purse};
use royalty_settlement::marketplace::{
    self, bid, get_target_purse_by_post_id, post, register_custodial_contract, royalty_query,
    MarketError, Marketplace, OrderbookEntry,
};
use royalty_settlement::royalty::{RoyaltyShare, RoyaltyStructure};
use royalty_settlement::token::{TokenIdentifier, TokenIndex};

fn address(byte: u8) -> Address {
    Address::new([byte; 32])
}

fn account(byte: u8) -> Identity {
    Identity::Account(address(byte))
}

fn package(byte: u8) -> PackageHash {
    PackageHash::new([byte; 32])
}

fn purse(byte: u8) -> Purse {
    Purse { address: address(byte), access_rights: 7 }
}

const COLLECTION: u8 = 9;
const CUSTODIAL: u8 = 20;
const MARKET_PACKAGE: u8 = 30;
const MARKET_CONTRACT: u8 = 31;
const ROYALTY_PURSE: u8 = 40;
const PAYOUT_PURSE: u8 = 41;
const BID_PURSE: u8 = 42;
const ESCROW_PURSE: u8 = 43;

fn token() -> TokenIdentifier {
    TokenIdentifier { index: TokenIndex::Ordinal(5), package: package(COLLECTION) }
}

fn market_key() -> Identity {
    Identity::Contract(address(MARKET_CONTRACT))
}

fn market_caller() -> Caller {
    Caller::Contract { package: package(MARKET_PACKAGE), contract: address(MARKET_CONTRACT) }
}

fn seller() -> Identity {
    account(2)
}

fn bidder() -> Identity {
    account(3)
}

/// The outside world of these tests: who owns and may move the token, and
/// what each purse holds.
struct World {
    owner: Identity,
    approved: Option<Identity>,
    balances: HashMap<Purse, u64>,
}

impl World {
    fn new(bid_funds: u64) -> World {
        let mut balances = HashMap::new();
        balances.insert(purse(BID_PURSE), bid_funds);
        World { owner: seller(), approved: Some(market_key()), balances }
    }

    fn facts(&self) -> TokenFacts {
        TokenFacts { approved: self.approved, owner: self.owner }
    }

    fn balance(&self, purse: Purse) -> u64 {
        self.balances.get(&purse).copied().unwrap_or(0)
    }

    fn move_value(&mut self, source: Purse, target: Purse, amount: Amount) {
        let amount = amount.as_u64().unwrap();
        let held = self.balance(source);
        assert!(held >= amount);
        self.balances.insert(source, held - amount);
        let held = self.balance(target);
        self.balances.insert(target, held + amount);
    }

    fn carry_out(&mut self, transfer: PurseTransfer) {
        self.move_value(transfer.source, transfer.target, transfer.amount);
    }

    fn change_owner(&mut self, transfer: &OwnershipTransfer) {
        assert_eq!(transfer.collection, package(COLLECTION));
        assert_eq!(transfer.token, token());
        assert_eq!(transfer.source, self.owner);
        self.owner = transfer.target;
        self.approved = None;
    }
}

fn custodial_service() -> Custodial {
    let shares = vec![RoyaltyShare { beneficiary: account(70), percent: 10 }];
    custodial::install(
        vec![package(MARKET_PACKAGE)],
        RoyaltyStructure::new(shares).unwrap(),
        account(0),
        purse(ROYALTY_PURSE),
    )
}

fn market_with_posting(world: &World, price: u64) -> (Marketplace, u64) {
    let mut market = marketplace::install(account(0));
    let id = post(
        &mut market,
        market_key(),
        seller(),
        world.facts(),
        package(COLLECTION),
        token(),
        purse(PAYOUT_PURSE),
        Amount::from_u64(price),
    )
    .unwrap();
    (market, id)
}

/// Runs a whole bid as the marketplace's entry point does: asks for the
/// royalty quote where one is needed, settles, and carries out what the
/// settlement says.
fn run_bid(
    world: &mut World,
    market: &mut Marketplace,
    custodial: &mut Custodial,
    post_id: u64,
    amount: u64,
) -> Result<(), MarketError> {
    let amount = Amount::from_u64(amount);
    let royalty = match royalty_query(market, post_id, &amount)? {
        Some(query) => {
            assert_eq!(query.custodial_package, package(CUSTODIAL));
            calculate_royalty(custodial, query.token_contract, &query.token_id, query.payment_amount)
                .unwrap()
        }
        None => Amount::zero(),
    };
    let settlement = bid(market, bidder(), purse(BID_PURSE), post_id, amount, royalty)?;
    if let Some(royalty) = &settlement.royalty {
        world.move_value(purse(BID_PURSE), purse(ESCROW_PURSE), royalty.royalty_amount);
    }
    world.carry_out(settlement.seller_payment);
    if let Some(royalty) = settlement.royalty {
        let recorded = pay_royalty(
            custodial,
            market_caller(),
            world.facts(),
            royalty.token_contract,
            royalty.token_id,
            purse(ESCROW_PURSE),
            royalty.payer,
            royalty.source_key,
            royalty.target_key,
            royalty.payment_amount,
        )
        .unwrap();
        world.carry_out(recorded);
    }
    world.change_owner(&settlement.token_transfer);
    Ok(())
}

#[test]
fn bid_with_royalty_settles_all_parties() {
    let mut world = World::new(1000);
    let mut custodial = custodial_service();
    let (mut market, id) = market_with_posting(&world, 1000);
    register_custodial_contract(&mut market, account(0), package(COLLECTION), package(CUSTODIAL)).unwrap();

    run_bid(&mut world, &mut market, &mut custodial, id, 1000).unwrap();

    assert_eq!(world.balance(purse(ROYALTY_PURSE)), 100);
    assert_eq!(world.balance(purse(PAYOUT_PURSE)), 900);
    assert_eq!(world.balance(purse(BID_PURSE)), 0);
    assert_eq!(world.balance(purse(ESCROW_PURSE)), 0);
    assert_eq!(world.owner, bidder());
    assert_eq!(OrderbookEntry::by_id(&market, id), Err(MarketError::UnknownPostId));
    assert_eq!(get_target_purse_by_post_id(&market, id), None);
    assert_eq!(
        payment_state(&custodial, &token()),
        RoyaltyPaymentState::Paid { payer: bidder(), source_key: seller(), amount: Amount::from_u64(100) }
    );
}

#[test]
fn bid_above_the_price_charges_royalty_on_the_price() {
    let mut world = World::new(1500);
    let mut custodial = custodial_service();
    let (mut market, id) = market_with_posting(&world, 1000);
    register_custodial_contract(&mut market, account(0), package(COLLECTION), package(CUSTODIAL)).unwrap();

    run_bid(&mut world, &mut market, &mut custodial, id, 1500).unwrap();

    assert_eq!(world.balance(purse(ROYALTY_PURSE)), 100);
    assert_eq!(world.balance(purse(PAYOUT_PURSE)), 1400);
    assert_eq!(world.balance(purse(BID_PURSE)), 0);
    assert_eq!(world.owner, bidder());
}

#[test]
fn bid_without_custodial_service_pays_the_seller_everything() {
    let mut world = World::new(1000);
    let mut custodial = custodial_service();
    let (mut market, id) = market_with_posting(&world, 1000);

    run_bid(&mut world, &mut market, &mut custodial, id, 1000).unwrap();

    assert_eq!(world.balance(purse(PAYOUT_PURSE)), 1000);
    assert_eq!(world.balance(purse(ROYALTY_PURSE)), 0);
    assert_eq!(world.balance(purse(BID_PURSE)), 0);
    assert_eq!(world.owner, bidder());
    assert_eq!(OrderbookEntry::by_id(&market, id), Err(MarketError::UnknownPostId));
    assert_eq!(get_target_purse_by_post_id(&market, id), None);
    assert_eq!(payment_state(&custodial, &token()), RoyaltyPaymentState::Unpaid);
}

#[test]
fn underpaying_bid_moves_nothing() {
    let mut world = World::new(999);
    let mut custodial = custodial_service();
    let (mut market, id) = market_with_posting(&world, 1000);
    register_custodial_contract(&mut market, account(0), package(COLLECTION), package(CUSTODIAL)).unwrap();

    let result = run_bid(&mut world, &mut market, &mut custodial, id, 999);

    assert_eq!(result, Err(MarketError::InvalidPaymentAmount));
    assert_eq!(world.balance(purse(BID_PURSE)), 999);
    assert_eq!(world.balance(purse(PAYOUT_PURSE)), 0);
    assert_eq!(world.balance(purse(ROYALTY_PURSE)), 0);
    assert_eq!(world.owner, seller());
    assert!(OrderbookEntry::by_id(&market, id).is_ok());
    assert_eq!(get_target_purse_by_post_id(&market, id), Some(purse(PAYOUT_PURSE)));
    assert_eq!(payment_state(&custodial, &token()), RoyaltyPaymentState::Unpaid);
}

#[test]
fn paid_royalty_lets_the_token_pass_once() {
    let mut world = World::new(1000);
    let mut custodial = custodial_service();
    let recorded = pay_royalty(
        &mut custodial,
        market_caller(),
        world.facts(),
        package(COLLECTION),
        token(),
        purse(BID_PURSE),
        bidder(),
        seller(),
        bidder(),
        Amount::from_u64(1000),
    )
    .unwrap();
    world.carry_out(recorded);
    assert_eq!(world.balance(purse(ROYALTY_PURSE)), 100);

    let outcome = custodial::transfer(
        &mut custodial,
        market_caller(),
        world.owner,
        package(COLLECTION),
        token(),
        seller(),
        bidder(),
    )
    .unwrap();
    match outcome {
        TransferOutcome::Transferred(transfer) => world.change_owner(&transfer),
        TransferOutcome::NotTransferred => panic!("the transfer was due"),
    }
    assert_eq!(world.owner, bidder());
    assert_eq!(payment_state(&custodial, &token()), RoyaltyPaymentState::Unpaid);

    let again = custodial::transfer(
        &mut custodial,
        market_caller(),
        world.owner,
        package(COLLECTION),
        token(),
        bidder(),
        seller(),
    );
    assert_eq!(again, Err(CustodialError::MustPayRoyalties));
}
