use royalty_settlement::actions::{OwnershipTransfer, PurseTransfer, TokenFacts};
use royalty_settlement::amount::Amount;
use royalty_settlement::custodial::{
    calculate_royalty, init, install, pay_royalty, payment_state, transfer, Custodial,
    CustodialError, RoyaltyPaymentState, TransferOutcome,
};
use royalty_settlement::identity::{Address, Caller, Identity, PackageHash, Purse};
use royalty_settlement::royalty::{RoyaltyShare, RoyaltyStructure};
use royalty_settlement::token::{TokenIdentifier, TokenIndex};

fn address(byte: u8) -> Address {
    Address::new([byte; 32])
}

fn account(byte: u8) -> Identity {
    Identity::Account(address(byte))
}

fn package(byte: u8) -> PackageHash {
    PackageHash::new([byte; 32])
}

fn purse(byte: u8) -> Purse {
    Purse { address: address(byte), access_rights: 7 }
}

fn token(ordinal: u64) -> TokenIdentifier {
    TokenIdentifier { index: TokenIndex::Ordinal(ordinal), package: package(90) }
}

fn market() -> Caller {
    Caller::Contract { package: package(50), contract: address(51) }
}

fn market_key() -> Identity {
    Identity::Contract(address(51))
}

fn ten_percent() -> RoyaltyStructure {
    RoyaltyStructure::new(vec![RoyaltyShare { beneficiary: account(70), percent: 10 }]).unwrap()
}

fn service(whitelist: Vec<PackageHash>) -> Custodial {
    install(whitelist, ten_percent(), account(1), purse(2))
}

fn seller() -> Identity {
    account(10)
}

fn buyer() -> Identity {
    account(11)
}

fn facts() -> TokenFacts {
    TokenFacts { approved: Some(market_key()), owner: seller() }
}

fn pay(custodial: &mut Custodial, source_key: Identity, price: u64) -> Result<PurseTransfer, CustodialError> {
    let facts = TokenFacts { approved: Some(market_key()), owner: source_key };
    pay_royalty(
        custodial,
        market(),
        facts,
        package(90),
        token(1),
        purse(3),
        buyer(),
        source_key,
        buyer(),
        Amount::from_u64(price),
    )
}

#[test]
fn init_switches_the_whitelist_off_for_an_empty_list() {
    let whitelist = init(vec![]);
    assert!(!whitelist.enabled);
    assert!(whitelist.allowed.is_empty());
    assert!(!whitelist.is_marketplace_whitelisted(&package(50)));
}

#[test]
fn init_switches_the_whitelist_on_for_its_members() {
    let whitelist = init(vec![package(50), package(52)]);
    assert!(whitelist.enabled);
    assert_eq!(whitelist.allowed, vec![package(50), package(52)]);
    assert!(whitelist.is_marketplace_whitelisted(&package(50)));
    assert!(whitelist.is_marketplace_whitelisted(&package(52)));
    assert!(!whitelist.is_marketplace_whitelisted(&package(51)));
}

#[test]
fn install_starts_with_nothing_paid() {
    let custodial = service(vec![package(50)]);
    assert_eq!(custodial.manager, account(1));
    assert_eq!(custodial.royalty_purse, purse(2));
    assert_eq!(custodial.royalty_structure, Some(ten_percent()));
    assert!(custodial.whitelist.enabled);
    assert_eq!(payment_state(&custodial, &token(1)), RoyaltyPaymentState::Unpaid);
    assert_eq!(RoyaltyPaymentState::default(), RoyaltyPaymentState::Unpaid);
}

#[test]
fn calculate_royalty_applies_the_installed_structure() {
    let custodial = service(vec![]);
    let royalty = calculate_royalty(&custodial, package(90), &token(1), Amount::from_u64(1000));
    assert_eq!(royalty, Ok(Amount::from_u64(100)));
    // The token does not matter.
    let hashed = TokenIdentifier { index: TokenIndex::Hash("abc".to_string()), package: package(3) };
    let royalty = calculate_royalty(&custodial, package(3), &hashed, Amount::from_u64(1000));
    assert_eq!(royalty, Ok(Amount::from_u64(100)));
    let again = calculate_royalty(&custodial, package(90), &token(1), Amount::from_u64(1000));
    assert_eq!(again, royalty);
}

#[test]
fn calculate_royalty_without_a_structure_is_refused() {
    let mut custodial = service(vec![]);
    custodial.royalty_structure = None;
    let royalty = calculate_royalty(&custodial, package(90), &token(1), Amount::from_u64(1000));
    assert_eq!(royalty, Err(CustodialError::InvalidRoyaltyScheme));
}

#[test]
fn pay_royalty_records_the_payment() {
    let mut custodial = service(vec![package(50)]);
    let moved = pay(&mut custodial, seller(), 1000).unwrap();
    assert_eq!(moved, PurseTransfer { source: purse(3), target: purse(2), amount: Amount::from_u64(100) });
    assert_eq!(
        payment_state(&custodial, &token(1)),
        RoyaltyPaymentState::Paid { payer: buyer(), source_key: seller(), amount: Amount::from_u64(100) }
    );
    // No other token is touched.
    assert_eq!(payment_state(&custodial, &token(2)), RoyaltyPaymentState::Unpaid);
}

#[test]
fn pay_royalty_to_oneself_is_refused_whatever_else_holds() {
    let mut custodial = service(vec![package(50)]);
    let result = pay_royalty(
        &mut custodial,
        market(),
        facts(),
        package(90),
        token(1),
        purse(3),
        buyer(),
        seller(),
        seller(),
        Amount::from_u64(1000),
    );
    assert_eq!(result, Err(CustodialError::SelfTransferForbidden));
    // Also for a caller that fails every other check.
    let nobody = TokenFacts { approved: None, owner: account(99) };
    let result = pay_royalty(
        &mut custodial,
        Caller::Account(address(4)),
        nobody,
        package(90),
        token(1),
        purse(3),
        buyer(),
        seller(),
        seller(),
        Amount::from_u64(1000),
    );
    assert_eq!(result, Err(CustodialError::SelfTransferForbidden));
    assert_eq!(payment_state(&custodial, &token(1)), RoyaltyPaymentState::Unpaid);
}

#[test]
fn pay_royalty_by_an_account_is_refused() {
    let mut custodial = service(vec![]);
    let result = pay_royalty(
        &mut custodial,
        Caller::Account(address(51)),
        facts(),
        package(90),
        token(1),
        purse(3),
        buyer(),
        seller(),
        buyer(),
        Amount::from_u64(1000),
    );
    assert_eq!(result, Err(CustodialError::CallerMustBeContract));
    assert_eq!(payment_state(&custodial, &token(1)), RoyaltyPaymentState::Unpaid);
}

#[test]
fn pay_royalty_by_a_marketplace_off_the_whitelist_is_refused() {
    let mut custodial = service(vec![package(60), package(61)]);
    assert_eq!(pay(&mut custodial, seller(), 1000), Err(CustodialError::MarketplaceNotWhitelisted));
    assert_eq!(payment_state(&custodial, &token(1)), RoyaltyPaymentState::Unpaid);
    // With the whitelist switched off the same call goes through.
    let mut open = service(vec![]);
    assert!(pay(&mut open, seller(), 1000).is_ok());
}

#[test]
fn pay_royalty_by_a_caller_that_is_not_approved_is_refused() {
    let mut custodial = service(vec![package(50)]);
    for approved in [None, Some(Identity::Contract(address(52))), Some(Identity::Account(address(51)))] {
        let facts = TokenFacts { approved, owner: seller() };
        let result = pay_royalty(
            &mut custodial,
            market(),
            facts,
            package(90),
            token(1),
            purse(3),
            buyer(),
            seller(),
            buyer(),
            Amount::from_u64(1000),
        );
        assert_eq!(result, Err(CustodialError::CallerMustBeApproved));
    }
    assert_eq!(payment_state(&custodial, &token(1)), RoyaltyPaymentState::Unpaid);
}

#[test]
fn pay_royalty_for_a_seller_who_is_not_the_owner_is_refused() {
    let mut custodial = service(vec![package(50)]);
    let result = pay_royalty(
        &mut custodial,
        market(),
        facts(),
        package(90),
        token(1),
        purse(3),
        buyer(),
        account(12),
        buyer(),
        Amount::from_u64(1000),
    );
    assert_eq!(result, Err(CustodialError::SourceMustBeOwner));
    assert_eq!(payment_state(&custodial, &token(1)), RoyaltyPaymentState::Unpaid);
}

#[test]
fn pay_royalty_without_a_structure_is_refused() {
    let mut custodial = service(vec![package(50)]);
    custodial.royalty_structure = None;
    assert_eq!(pay(&mut custodial, seller(), 1000), Err(CustodialError::InvalidRoyaltyScheme));
    assert_eq!(payment_state(&custodial, &token(1)), RoyaltyPaymentState::Unpaid);
}

#[test]
fn pay_royalty_again_for_the_same_seller_overwrites() {
    let mut custodial = service(vec![package(50)]);
    pay(&mut custodial, seller(), 1000).unwrap();
    let moved = pay(&mut custodial, seller(), 5000).unwrap();
    assert_eq!(moved.amount, Amount::from_u64(500));
    assert_eq!(
        payment_state(&custodial, &token(1)),
        RoyaltyPaymentState::Paid { payer: buyer(), source_key: seller(), amount: Amount::from_u64(500) }
    );
}

#[test]
fn pay_royalty_for_another_seller_is_refused_as_already_paid() {
    let mut custodial = service(vec![package(50)]);
    pay(&mut custodial, seller(), 1000).unwrap();
    assert_eq!(pay(&mut custodial, account(12), 5000), Err(CustodialError::AlreadyPaid));
    // The first record stands.
    assert_eq!(
        payment_state(&custodial, &token(1)),
        RoyaltyPaymentState::Paid { payer: buyer(), source_key: seller(), amount: Amount::from_u64(100) }
    );
}

#[test]
fn checks_are_made_in_order() {
    // Off the whitelist, not approved, not the owner, no structure: the
    // whitelist speaks first.
    let mut custodial = service(vec![package(60)]);
    custodial.royalty_structure = None;
    let nobody = TokenFacts { approved: None, owner: account(99) };
    let call = |custodial: &mut Custodial, caller: Caller, facts: TokenFacts| {
        pay_royalty(
            custodial,
            caller,
            facts,
            package(90),
            token(1),
            purse(3),
            buyer(),
            seller(),
            buyer(),
            Amount::from_u64(1000),
        )
    };
    assert_eq!(call(&mut custodial, Caller::Account(address(51)), nobody), Err(CustodialError::CallerMustBeContract));
    assert_eq!(call(&mut custodial, market(), nobody), Err(CustodialError::MarketplaceNotWhitelisted));
    custodial.whitelist = init(vec![package(50)]);
    assert_eq!(call(&mut custodial, market(), nobody), Err(CustodialError::CallerMustBeApproved));
    let approved = TokenFacts { approved: Some(market_key()), owner: account(99) };
    assert_eq!(call(&mut custodial, market(), approved), Err(CustodialError::SourceMustBeOwner));
    assert_eq!(call(&mut custodial, market(), facts()), Err(CustodialError::InvalidRoyaltyScheme));
}

#[test]
fn transfer_of_an_unpaid_token_is_refused() {
    let mut custodial = service(vec![]);
    let result = transfer(&mut custodial, market(), seller(), package(90), token(1), seller(), buyer());
    assert_eq!(result, Err(CustodialError::MustPayRoyalties));
    assert_eq!(payment_state(&custodial, &token(1)), RoyaltyPaymentState::Unpaid);
}

#[test]
fn transfer_by_an_account_is_refused() {
    let mut custodial = service(vec![]);
    pay(&mut custodial, seller(), 1000).unwrap();
    let caller = Caller::Account(address(51));
    let result = transfer(&mut custodial, caller, seller(), package(90), token(1), seller(), buyer());
    assert_eq!(result, Err(CustodialError::CallerMustBeContract));
    assert!(matches!(payment_state(&custodial, &token(1)), RoyaltyPaymentState::Paid { .. }));
}

#[test]
fn transfer_of_a_paid_token_by_its_seller_uses_the_record_up() {
    let mut custodial = service(vec![]);
    pay(&mut custodial, seller(), 1000).unwrap();
    let result = transfer(&mut custodial, market(), seller(), package(90), token(1), seller(), buyer());
    let expected = OwnershipTransfer { collection: package(90), token: token(1), source: seller(), target: buyer() };
    assert_eq!(result, Ok(TransferOutcome::Transferred(expected)));
    assert_eq!(payment_state(&custodial, &token(1)), RoyaltyPaymentState::Unpaid);
    // The record is gone: a second transfer is refused.
    let again = transfer(&mut custodial, market(), buyer(), package(90), token(1), seller(), buyer());
    assert_eq!(again, Err(CustodialError::MustPayRoyalties));
    // And another seller may now have a royalty paid.
    assert!(pay(&mut custodial, account(12), 2000).is_ok());
}

#[test]
fn transfer_with_another_seller_or_owner_does_nothing() {
    let mut custodial = service(vec![]);
    pay(&mut custodial, seller(), 1000).unwrap();
    let paid = payment_state(&custodial, &token(1));
    // The call names a seller other than the one on record.
    let result = transfer(&mut custodial, market(), seller(), package(90), token(1), account(12), buyer());
    assert_eq!(result, Ok(TransferOutcome::NotTransferred));
    assert_eq!(payment_state(&custodial, &token(1)), paid);
    // The seller on record no longer owns the token.
    let result = transfer(&mut custodial, market(), account(12), package(90), token(1), seller(), buyer());
    assert_eq!(result, Ok(TransferOutcome::NotTransferred));
    assert_eq!(payment_state(&custodial, &token(1)), paid);
}

#[test]
fn tokens_are_told_apart_by_index_and_collection() {
    let mut custodial = service(vec![]);
    pay(&mut custodial, seller(), 1000).unwrap();
    let other_collection = TokenIdentifier { index: TokenIndex::Ordinal(1), package: package(91) };
    let hashed = TokenIdentifier { index: TokenIndex::Hash("1".to_string()), package: package(90) };
    assert_eq!(payment_state(&custodial, &other_collection), RoyaltyPaymentState::Unpaid);
    assert_eq!(payment_state(&custodial, &hashed), RoyaltyPaymentState::Unpaid);
    assert!(matches!(payment_state(&custodial, &token(1)), RoyaltyPaymentState::Paid { .. }));
}

#[test]
fn custodial_error_codes() {
    assert_eq!(CustodialError::MarketplaceNotWhitelisted.code(), 100);
    assert_eq!(CustodialError::CallerMustBeContract.code(), 101);
    assert_eq!(CustodialError::CallerMustBeApproved.code(), 102);
    assert_eq!(CustodialError::SelfTransferForbidden.code(), 103);
    assert_eq!(CustodialError::SourceMustBeOwner.code(), 104);
    assert_eq!(CustodialError::AlreadyPaid.code(), 105);
    assert_eq!(CustodialError::MustPayRoyalties.code(), 106);
    assert_eq!(CustodialError::Overflow.code(), 107);
    assert_eq!(CustodialError::InvalidRoyaltyScheme.code(), 108);
}
