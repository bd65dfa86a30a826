//! The marketplace service: an order book of postings, each offering one
//! token at a fixed price, and the settlement of bids against them.

use vstd::prelude::*;
use crate::actions::{OwnershipTransfer, PurseTransfer, TokenFacts};
use crate::amount::{u512_checked_sub, u512_lt, Amount};
use crate::identity::{Identity, PackageHash, Purse};
use crate::store::Table;
use crate::token::TokenIdentifier;

verus! {

/// Why the marketplace refused a call.
#[derive(Clone, Copy, Debug, PartialEq, Eq, Structural, Hash)]
pub enum MarketError {
    InvalidMethodAccess,
    InvalidPaymentAmount,
    MustBeApproved,
    UnsupportedNFTContract,
    UnknownPostId,
    UnknownTokenId,
    ArithmeticOverflow,
}

impl MarketError {
    /// The code under which the error is reported to users.
    pub open spec fn code_spec(self) -> u16 {
        match self {
            MarketError::InvalidMethodAccess => 201,
            MarketError::InvalidPaymentAmount => 202,
            MarketError::MustBeApproved => 203,
            MarketError::UnsupportedNFTContract => 204,
            MarketError::UnknownPostId => 205,
            MarketError::UnknownTokenId => 206,
            MarketError::ArithmeticOverflow => 207,
        }
    }

    /// The code under which the error is reported to users.
    pub fn code(self) -> (r: u16)
        ensures
            r == self.code_spec(),
    {
        match self {
            MarketError::InvalidMethodAccess => 201,
            MarketError::InvalidPaymentAmount => 202,
            MarketError::MustBeApproved => 203,
            MarketError::UnsupportedNFTContract => 204,
            MarketError::UnknownPostId => 205,
            MarketError::UnknownTokenId => 206,
            MarketError::ArithmeticOverflow => 207,
        }
    }
}

/// One posting: `owner` offers the token for `price`.
#[derive(Debug, PartialEq, Eq)]
pub struct OrderbookEntry {
    pub owner: Identity,
    pub token_contract: PackageHash,
    pub token_id: TokenIdentifier,
    pub price: Amount,
}

impl Clone for OrderbookEntry {
    fn clone(&self) -> (r: Self)
        ensures
            r == *self,
    {
        OrderbookEntry {
            owner: self.owner,
            token_contract: self.token_contract,
            token_id: self.token_id.clone(),
            price: self.price,
        }
    }
}

/// The service's counters.
#[derive(Clone, Copy, Debug, PartialEq, Eq)]
pub struct Counters {
    /// The id that the next posting gets.
    pub post_id: u64,
}

impl Default for Counters {
    fn default() -> (r: Self)
        ensures
            r.post_id == 0,
    {
        Counters { post_id: 0 }
    }
}

/// The state of the marketplace service.
pub struct Marketplace {
    /// Who may register custodial services.
    pub administrator: Identity,
    pub counters: Counters,
    /// The open postings, by id.
    pub orderbook_entry_by_id: Table<u64, OrderbookEntry>,
    /// The purse that the seller of each open posting is paid into.
    pub target_purse_by_post_id: Table<u64, Purse>,
    /// The custodial service of each collection that has one.
    pub custodial_package_by_nft_package: Table<PackageHash, PackageHash>,
}

/// The marketplace service as a mathematical value.
pub struct MarketplaceView {
    pub administrator: Identity,
    pub next_post_id: nat,
    pub orderbook: Map<u64, OrderbookEntry>,
    pub target_purses: Map<u64, Purse>,
    pub custodial_packages: Map<PackageHash, PackageHash>,
}

impl View for Marketplace {
    type V = MarketplaceView;

    open spec fn view(&self) -> MarketplaceView {
        MarketplaceView {
            administrator: self.administrator,
            next_post_id: self.counters.post_id as nat,
            orderbook: self.orderbook_entry_by_id@,
            target_purses: self.target_purse_by_post_id@,
            custodial_packages: self.custodial_package_by_nft_package@,
        }
    }
}

/// The royalty payment that settles with a bid on a token whose
/// collection has a custodial service.
#[derive(Debug, PartialEq, Eq)]
pub struct RoyaltyPayment {
    /// The custodial service to pay through.
    pub custodial_package: PackageHash,
    pub token_contract: PackageHash,
    pub token_id: TokenIdentifier,
    /// What to move from the bidder's purse into a fresh escrow purse,
    /// which is then handed to the custodial service as the source purse.
    pub royalty_amount: Amount,
    pub payer: Identity,
    pub source_key: Identity,
    pub target_key: Identity,
    /// The price on which the custodial service charges the royalty.
    pub payment_amount: Amount,
}

/// What a settled bid asks its caller to carry out, in this order: fund the
/// royalty escrow, pay the seller, have the royalty recorded, and move the
/// token to the bidder.
#[derive(Debug, PartialEq, Eq)]
pub struct Settlement {
    pub royalty: Option<RoyaltyPayment>,
    pub seller_payment: PurseTransfer,
    pub token_transfer: OwnershipTransfer,
}

/// The question to put to a custodial service before a bid is settled.
#[derive(Debug, PartialEq, Eq)]
pub struct RoyaltyQuery {
    pub custodial_package: PackageHash,
    pub token_contract: PackageHash,
    pub token_id: TokenIdentifier,
    pub payment_amount: Amount,
}

impl MarketplaceView {
    /// This state without the posting `post_id` and its payout purse.
    pub open spec fn without_posting(self, post_id: u64) -> MarketplaceView {
        MarketplaceView {
            orderbook: self.orderbook.remove(post_id),
            target_purses: self.target_purses.remove(post_id),
            ..self
        }
    }

    /// What posting a token comes to: the refusal, or the state after it
    /// and the id of the new posting.
    pub open spec fn post(
        self,
        marketplace: Identity,
        caller: Identity,
        facts: TokenFacts,
        token_contract: PackageHash,
        token_id: TokenIdentifier,
        target_purse: Purse,
        price: Amount,
    ) -> Result<(MarketplaceView, u64), MarketError> {
        if facts.approved != Some(marketplace) {
            Err(MarketError::MustBeApproved)
        } else if facts.owner != caller {
            Err(MarketError::InvalidMethodAccess)
        } else {
            let post_id = self.next_post_id as u64;
            let entry = OrderbookEntry { owner: facts.owner, token_contract, token_id, price };
            Ok(
                (
                    MarketplaceView {
                        next_post_id: self.next_post_id + 1,
                        orderbook: self.orderbook.insert(post_id, entry),
                        target_purses: self.target_purses.insert(post_id, target_purse),
                        ..self
                    },
                    post_id,
                ),
            )
        }
    }

    /// What cancelling a posting comes to: the refusal, or the state after
    /// it.
    pub open spec fn cancel_posting(self, caller: Identity, post_id: u64) -> Result<
        MarketplaceView,
        MarketError,
    > {
        if !self.orderbook.contains_key(post_id) {
            Err(MarketError::UnknownPostId)
        } else if self.orderbook[post_id].owner != caller {
            Err(MarketError::InvalidMethodAccess)
        } else {
            Ok(self.without_posting(post_id))
        }
    }

    /// What registering a custodial service comes to: the refusal, or the
    /// state after it.
    pub open spec fn register_custodial_contract(
        self,
        caller: Identity,
        nft_package: PackageHash,
        custodial_package: PackageHash,
    ) -> Result<MarketplaceView, MarketError> {
        if caller != self.administrator {
            Err(MarketError::InvalidMethodAccess)
        } else {
            Ok(
                MarketplaceView {
                    custodial_packages: self.custodial_packages.insert(
                        nft_package,
                        custodial_package,
                    ),
                    ..self
                },
            )
        }
    }

    /// Whose royalty quote a bid of `amount` on `post_id` needs before it
    /// can be settled: the refusal of the bid, the question to ask, or
    /// `None` where the collection has no custodial service.
    pub open spec fn royalty_query(self, post_id: u64, amount: nat) -> Result<
        Option<RoyaltyQuery>,
        MarketError,
    > {
        if !self.orderbook.contains_key(post_id) {
            Err(MarketError::UnknownPostId)
        } else {
            let entry = self.orderbook[post_id];
            if amount < entry.price@ {
                Err(MarketError::InvalidPaymentAmount)
            } else if self.custodial_packages.contains_key(entry.token_contract) {
                Ok(
                    Some(
                        RoyaltyQuery {
                            custodial_package: self.custodial_packages[entry.token_contract],
                            token_contract: entry.token_contract,
                            token_id: entry.token_id,
                            payment_amount: entry.price,
                        },
                    ),
                )
            } else {
                Ok(None)
            }
        }
    }

    /// The first reason, in the order in which they are examined, for
    /// which a bid is refused; `None` where it is settled.
    pub open spec fn bid_refusal(self, post_id: u64, amount: nat, royalty_amount: nat) -> Option<
        MarketError,
    > {
        if !self.orderbook.contains_key(post_id) {
            Some(MarketError::UnknownPostId)
        } else if amount < self.orderbook[post_id].price@ {
            Some(MarketError::InvalidPaymentAmount)
        } else if self.custodial_packages.contains_key(self.orderbook[post_id].token_contract)
            && amount < royalty_amount {
            Some(MarketError::ArithmeticOverflow)
        } else if !self.target_purses.contains_key(post_id) {
            Some(MarketError::UnknownPostId)
        } else {
            None
        }
    }

    /// What a settled bid asks to be carried out. With a custodial service
    /// the quoted royalty goes into escrow and the seller gets the rest of
    /// `amount`; without one the seller gets all of `amount`.
    pub open spec fn settlement(
        self,
        caller: Identity,
        source_purse: Purse,
        post_id: u64,
        amount: Amount,
        royalty_amount: Amount,
    ) -> Settlement {
        let entry = self.orderbook[post_id];
        let token_transfer = OwnershipTransfer {
            collection: entry.token_contract,
            token: entry.token_id,
            source: entry.owner,
            target: caller,
        };
        if self.custodial_packages.contains_key(entry.token_contract) {
            Settlement {
                royalty: Some(
                    RoyaltyPayment {
                        custodial_package: self.custodial_packages[entry.token_contract],
                        token_contract: entry.token_contract,
                        token_id: entry.token_id,
                        royalty_amount,
                        payer: caller,
                        source_key: entry.owner,
                        target_key: caller,
                        payment_amount: entry.price,
                    },
                ),
                seller_payment: PurseTransfer {
                    source: source_purse,
                    target: self.target_purses[post_id],
                    amount: Amount::of((amount@ - royalty_amount@) as nat),
                },
                token_transfer,
            }
        } else {
            Settlement {
                royalty: None,
                seller_payment: PurseTransfer {
                    source: source_purse,
                    target: self.target_purses[post_id],
                    amount,
                },
                token_transfer,
            }
        }
    }

    /// What a bid comes to: the refusal, or the state after it and what is
    /// to be carried out.
    pub open spec fn bid(
        self,
        caller: Identity,
        source_purse: Purse,
        post_id: u64,
        amount: Amount,
        royalty_amount: Amount,
    ) -> Result<(MarketplaceView, Settlement), MarketError> {
        match self.bid_refusal(post_id, amount@, royalty_amount@) {
            Some(error) => Err(error),
            None => Ok(
                (
                    self.without_posting(post_id),
                    self.settlement(caller, source_purse, post_id, amount, royalty_amount),
                ),
            ),
        }
    }
}

impl Counters {
    /// The counters of `market`.
    pub fn read(market: &Marketplace) -> (r: Counters)
        ensures
            r == market.counters,
    {
        market.counters
    }

    /// Makes `self` the counters of `market`.
    pub fn write(self, market: &mut Marketplace)
        ensures
            final(market)@ == (MarketplaceView {
                next_post_id: self.post_id as nat,
                ..old(market)@
            }),
    {
        market.counters = self;
    }
}

impl OrderbookEntry {
    /// The posting `id`, or `UnknownPostId` where there is none.
    pub fn by_id(market: &Marketplace, id: u64) -> (r: Result<OrderbookEntry, MarketError>)
        ensures
            market@.orderbook.contains_key(id) ==> r == Ok::<OrderbookEntry, MarketError>(
                market@.orderbook[id],
            ),
            !market@.orderbook.contains_key(id) ==> r == Err::<OrderbookEntry, MarketError>(
                MarketError::UnknownPostId,
            ),
    {
        match market.orderbook_entry_by_id.get(&id) {
            Some(entry) => Ok(entry.clone()),
            None => Err(MarketError::UnknownPostId),
        }
    }

    /// Keeps `self` as the posting `id` of `market`.
    pub fn write(self, market: &mut Marketplace, id: u64)
        ensures
            final(market)@ == (MarketplaceView {
                orderbook: old(market)@.orderbook.insert(id, self),
                ..old(market)@
            }),
    {
        market.orderbook_entry_by_id.insert(id, self);
    }

    /// Takes the posting `id` out of the order book of `market`.
    pub fn remove(market: &mut Marketplace, id: u64)
        ensures
            final(market)@ == (MarketplaceView {
                orderbook: old(market)@.orderbook.remove(id),
                ..old(market)@
            }),
    {
        market.orderbook_entry_by_id.remove(&id);
    }
}

/// Makes `custodial_package` the custodial service of `nft_package`.
pub fn set_custodial_package_by_nft_package(
    market: &mut Marketplace,
    nft_package: PackageHash,
    custodial_package: PackageHash,
)
    ensures
        final(market)@ == (MarketplaceView {
            custodial_packages: old(market)@.custodial_packages.insert(
                nft_package,
                custodial_package,
            ),
            ..old(market)@
        }),
{
    market.custodial_package_by_nft_package.insert(nft_package, custodial_package);
}

/// The custodial service of `nft_package`, if it has one.
pub fn get_custodial_package_by_nft_package(market: &Marketplace, nft_package: PackageHash) -> (r:
    Option<PackageHash>)
    ensures
        market@.custodial_packages.contains_key(nft_package) ==> r == Some(
            market@.custodial_packages[nft_package],
        ),
        !market@.custodial_packages.contains_key(nft_package) ==> r is None,
{
    match market.custodial_package_by_nft_package.get(&nft_package) {
        Some(custodial_package) => Some(*custodial_package),
        None => None,
    }
}

/// Makes `purse` the purse into which the seller of posting `post_id` is
/// paid.
pub fn set_target_purse_by_post_id(market: &mut Marketplace, post_id: u64, purse: Purse)
    ensures
        final(market)@ == (MarketplaceView {
            target_purses: old(market)@.target_purses.insert(post_id, purse),
            ..old(market)@
        }),
{
    market.target_purse_by_post_id.insert(post_id, purse);
}

/// Forgets the payout purse of posting `post_id`.
pub fn unset_target_purse_by_post_id(market: &mut Marketplace, post_id: u64)
    ensures
        final(market)@ == (MarketplaceView {
            target_purses: old(market)@.target_purses.remove(post_id),
            ..old(market)@
        }),
{
    market.target_purse_by_post_id.remove(&post_id);
}

/// The payout purse of posting `post_id`, if one is registered.
pub fn get_target_purse_by_post_id(market: &Marketplace, post_id: u64) -> (r: Option<Purse>)
    ensures
        market@.target_purses.contains_key(post_id) ==> r == Some(market@.target_purses[post_id]),
        !market@.target_purses.contains_key(post_id) ==> r is None,
{
    match market.target_purse_by_post_id.get(&post_id) {
        Some(purse) => Some(*purse),
        None => None,
    }
}

/// Installs the marketplace: no posting, no custodial service, and
/// `administrator` as the one who may register custodial services.
pub fn install(administrator: Identity) -> (r: Marketplace)
    ensures
        r@ == (MarketplaceView {
            administrator,
            next_post_id: 0,
            orderbook: Map::empty(),
            target_purses: Map::empty(),
            custodial_packages: Map::empty(),
        }),
{
    Marketplace {
        administrator,
        counters: Counters::default(),
        orderbook_entry_by_id: Table::new(),
        target_purse_by_post_id: Table::new(),
        custodial_package_by_nft_package: Table::new(),
    }
}

/// Posts `token_id` for sale at `price`, to be paid into `target_purse`.
///
/// `marketplace` is this service's own identity and `facts` is what the
/// collection's ownership service reports of the token. The service must
/// be the token's approved operator (`MustBeApproved` otherwise) and the
/// caller its owner (`InvalidMethodAccess` otherwise). A refused call
/// changes nothing.
///
/// On success the posting gets the id that the counter shows, the counter
/// moves on by one, and the id is returned.
pub fn post(
    market: &mut Marketplace,
    marketplace: Identity,
    caller: Identity,
    facts: TokenFacts,
    token_contract: PackageHash,
    token_id: TokenIdentifier,
    target_purse: Purse,
    price: Amount,
) -> (r: Result<u64, MarketError>)
    requires
        old(market).counters.post_id < u64::MAX,
    ensures
        match r {
            Ok(post_id) => old(market)@.post(
                marketplace,
                caller,
                facts,
                token_contract,
                token_id,
                target_purse,
                price,
            ) == Ok::<(MarketplaceView, u64), MarketError>((final(market)@, post_id)),
            Err(error) => old(market)@.post(
                marketplace,
                caller,
                facts,
                token_contract,
                token_id,
                target_purse,
                price,
            ) == Err::<(MarketplaceView, u64), MarketError>(error) && final(market)@ == old(
                market,
            )@,
        },
{
    let approved = match facts.approved {
        Some(approved) => approved,
        None => {
            return Err(MarketError::MustBeApproved);
        },
    };
    if approved != marketplace {
        return Err(MarketError::MustBeApproved);
    }
    let owner = facts.owner;
    if owner != caller {
        return Err(MarketError::InvalidMethodAccess);
    }
    let mut counters = Counters::read(market);
    let post_id = counters.post_id;
    counters.post_id += 1;
    counters.write(market);

    let entry = OrderbookEntry { owner, token_contract, token_id, price };
    set_target_purse_by_post_id(market, post_id, target_purse);
    entry.write(market, post_id);
    Ok(post_id)
}

/// Withdraws the posting `post_id`, together with its payout purse.
///
/// The posting must exist (`UnknownPostId` otherwise) and the caller must
/// be the one who posted it (`InvalidMethodAccess` otherwise). A refused
/// call changes nothing.
pub fn cancel_posting(market: &mut Marketplace, caller: Identity, post_id: u64) -> (r: Result<
    (),
    MarketError,
>)
    ensures
        match r {
            Ok(()) => old(market)@.cancel_posting(caller, post_id) == Ok::<
                MarketplaceView,
                MarketError,
            >(final(market)@),
            Err(error) => old(market)@.cancel_posting(caller, post_id) == Err::<
                MarketplaceView,
                MarketError,
            >(error) && final(market)@ == old(market)@,
        },
{
    let entry = match OrderbookEntry::by_id(market, post_id) {
        Ok(entry) => entry,
        Err(error) => {
            return Err(error);
        },
    };
    if entry.owner != caller {
        return Err(MarketError::InvalidMethodAccess);
    }
    unset_target_purse_by_post_id(market, post_id);
    OrderbookEntry::remove(market, post_id);
    Ok(())
}

/// Makes `custodial_package` the custodial service of the collection
/// `nft_package`. Only the administrator may do so; any other caller is
/// refused with `InvalidMethodAccess`, and nothing changes.
pub fn register_custodial_contract(
    market: &mut Marketplace,
    caller: Identity,
    nft_package: PackageHash,
    custodial_package: PackageHash,
) -> (r: Result<(), MarketError>)
    ensures
        match r {
            Ok(()) => old(market)@.register_custodial_contract(
                caller,
                nft_package,
                custodial_package,
            ) == Ok::<MarketplaceView, MarketError>(final(market)@),
            Err(error) => old(market)@.register_custodial_contract(
                caller,
                nft_package,
                custodial_package,
            ) == Err::<MarketplaceView, MarketError>(error) && final(market)@ == old(market)@,
        },
{
    if caller != market.administrator {
        return Err(MarketError::InvalidMethodAccess);
    }
    set_custodial_package_by_nft_package(market, nft_package, custodial_package);
    Ok(())
}

/// Says whose royalty quote a bid of `amount` on the posting `post_id`
/// needs before it can be settled.
///
/// The posting must exist (`UnknownPostId` otherwise) and `amount` must
/// reach its price (`InvalidPaymentAmount` otherwise). The answer is the
/// question to put to the collection's custodial service, asked on the
/// listed price, or `None` where the collection has no such service.
pub fn royalty_query(market: &Marketplace, post_id: u64, amount: &Amount) -> (r: Result<
    Option<RoyaltyQuery>,
    MarketError,
>)
    ensures
        r == market@.royalty_query(post_id, amount@),
{
    let entry = match OrderbookEntry::by_id(market, post_id) {
        Ok(entry) => entry,
        Err(error) => {
            return Err(error);
        },
    };
    if u512_lt(amount, &entry.price) {
        return Err(MarketError::InvalidPaymentAmount);
    }
    match get_custodial_package_by_nft_package(market, entry.token_contract) {
        Some(custodial_package) => Ok(
            Some(
                RoyaltyQuery {
                    custodial_package,
                    token_contract: entry.token_contract,
                    token_id: entry.token_id,
                    payment_amount: entry.price,
                },
            ),
        ),
        None => Ok(None),
    }
}

/// Settles a bid of `amount`, held in `source_purse`, on the posting
/// `post_id`. `royalty_amount` is what the collection's custodial service
/// quoted on the listed price; it is not looked at where the collection
/// has no such service.
///
/// The posting must exist (`UnknownPostId` otherwise) and `amount` must
/// reach its price (`InvalidPaymentAmount` otherwise; paying more is
/// allowed). With a custodial service, `amount` must cover the quoted
/// royalty (`ArithmeticOverflow` otherwise). The posting's payout purse
/// must be registered (`UnknownPostId` otherwise). A refused call changes
/// nothing and asks for nothing to be moved.
///
/// On success the posting and its payout purse are gone from the order
/// book, and the settlement says what to carry out: with a custodial
/// service the royalty goes into escrow and is recorded on the listed
/// price while the seller is paid the rest of `amount`; without one the
/// seller is paid all of `amount`. Either way the token goes from the
/// posting's owner to the caller.
pub fn bid(
    market: &mut Marketplace,
    caller: Identity,
    source_purse: Purse,
    post_id: u64,
    amount: Amount,
    royalty_amount: Amount,
) -> (r: Result<Settlement, MarketError>)
    ensures
        match r {
            Ok(settlement) => old(market)@.bid(
                caller,
                source_purse,
                post_id,
                amount,
                royalty_amount,
            ) == Ok::<(MarketplaceView, Settlement), MarketError>((final(market)@, settlement)),
            Err(error) => old(market)@.bid(caller, source_purse, post_id, amount, royalty_amount)
                == Err::<(MarketplaceView, Settlement), MarketError>(error) && final(market)@
                == old(market)@,
        },
{
    let entry = match OrderbookEntry::by_id(market, post_id) {
        Ok(entry) => entry,
        Err(error) => {
            return Err(error);
        },
    };
    if u512_lt(&amount, &entry.price) {
        return Err(MarketError::InvalidPaymentAmount);
    }
    let source_key = entry.owner;
    let target_key = caller;

    let custodial_package = get_custodial_package_by_nft_package(market, entry.token_contract);
    let (royalty, remaining_amount) = match custodial_package {
        Some(custodial_package) => {
            let remaining_amount = match u512_checked_sub(&amount, &royalty_amount) {
                Some(remaining_amount) => remaining_amount,
                None => {
                    return Err(MarketError::ArithmeticOverflow);
                },
            };
            proof {
                remaining_amount.lemma_of_view();
            }
            (
                Some(
                    RoyaltyPayment {
                        custodial_package,
                        token_contract: entry.token_contract,
                        token_id: entry.token_id.clone(),
                        royalty_amount,
                        payer: target_key,
                        source_key,
                        target_key,
                        payment_amount: entry.price,
                    },
                ),
                remaining_amount,
            )
        },
        None => (None, amount),
    };
    let target_purse = match get_target_purse_by_post_id(market, post_id) {
        Some(target_purse) => target_purse,
        None => {
            return Err(MarketError::UnknownPostId);
        },
    };
    let settlement = Settlement {
        royalty,
        seller_payment: PurseTransfer {
            source: source_purse,
            target: target_purse,
            amount: remaining_amount,
        },
        token_transfer: OwnershipTransfer {
            collection: entry.token_contract,
            token: entry.token_id,
            source: source_key,
            target: target_key,
        },
    };
    unset_target_purse_by_post_id(market, post_id);
    OrderbookEntry::remove(market, post_id);
    Ok(settlement)
}

} // verus!
