//! What a service asks its caller to carry out: the services decide, the
//! caller moves value and changes owners.

use vstd::prelude::*;
use crate::amount::Amount;
use crate::identity::{Identity, PackageHash, Purse};
use crate::token::TokenIdentifier;

verus! {

/// A movement of `amount` from the purse `source` to the purse `target`.
#[derive(Clone, Copy, Debug, PartialEq, Eq)]
pub struct PurseTransfer {
    pub source: Purse,
    pub target: Purse,
    pub amount: Amount,
}

/// A change of owner of `token`, from `source` to `target`, to be made by
/// the collection's ownership service.
#[derive(Debug, PartialEq, Eq)]
pub struct OwnershipTransfer {
    pub collection: PackageHash,
    pub token: TokenIdentifier,
    pub source: Identity,
    pub target: Identity,
}

/// What the ownership service of a collection reports of one token.
#[derive(Clone, Copy, Debug, PartialEq, Eq)]
pub struct TokenFacts {
    /// The operator approved to move the token, if there is one.
    pub approved: Option<Identity>,
    /// The token's current owner.
    pub owner: Identity,
}

} // verus!
