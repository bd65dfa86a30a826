//! Identities, package references and purses: the values by which
//! services, users and escrow accounts are told apart.

use vstd::prelude::*;
use vstd::std_specs::cmp::PartialEqSpecImpl;

verus! {

/// A 32-byte address.
#[derive(Clone, Copy, Debug, Eq, Hash)]
pub struct Address {
    pub bytes: [u8; 32],
}

impl PartialEq for Address {
    fn eq(&self, other: &Self) -> (r: bool) {
        let mut i: usize = 0;
        while i < 32
            invariant
                i <= 32,
                forall|j: int| 0 <= j < i ==> self.bytes[j] == other.bytes[j],
            decreases 32 - i,
        {
            if self.bytes[i] != other.bytes[i] {
                return false;
            }
            i += 1;
        }
        assert(self.bytes =~= other.bytes);
        true
    }
}

impl PartialEqSpecImpl for Address {
    open spec fn obeys_eq_spec() -> bool {
        true
    }

    open spec fn eq_spec(&self, other: &Self) -> bool {
        *self == *other
    }
}

impl Address {
    /// The address made of the given bytes.
    pub fn new(bytes: [u8; 32]) -> (r: Address)
        ensures
            r.bytes == bytes,
    {
        Address { bytes }
    }
}

/// Who owns, pays or receives: an end user's account or a contract.
#[derive(Clone, Copy, Debug, Eq, Hash)]
pub enum Identity {
    Account(Address),
    Contract(Address),
}

impl PartialEq for Identity {
    fn eq(&self, other: &Self) -> (r: bool) {
        match (self, other) {
            (Identity::Account(a), Identity::Account(b)) => a == b,
            (Identity::Contract(a), Identity::Contract(b)) => a == b,
            _ => false,
        }
    }
}

impl PartialEqSpecImpl for Identity {
    open spec fn obeys_eq_spec() -> bool {
        true
    }

    open spec fn eq_spec(&self, other: &Self) -> bool {
        *self == *other
    }
}

/// A stable reference to a contract package: a token collection, a
/// marketplace or a custodial service.
#[derive(Clone, Copy, Debug, Eq, Hash)]
pub struct PackageHash {
    pub address: Address,
}

impl PartialEq for PackageHash {
    fn eq(&self, other: &Self) -> (r: bool) {
        self.address == other.address
    }
}

impl PartialEqSpecImpl for PackageHash {
    open spec fn obeys_eq_spec() -> bool {
        true
    }

    open spec fn eq_spec(&self, other: &Self) -> bool {
        *self == *other
    }
}

impl View for PackageHash {
    type V = PackageHash;

    open spec fn view(&self) -> PackageHash {
        *self
    }
}

impl PackageHash {
    /// The package reference made of the given bytes.
    pub fn new(bytes: [u8; 32]) -> (r: PackageHash)
        ensures
            r.address.bytes == bytes,
    {
        PackageHash { address: Address { bytes } }
    }
}

/// A reference to a value-holding account. The services only pass purses
/// on; they never look inside one.
#[derive(Clone, Copy, Debug, PartialEq, Eq, Hash)]
pub struct Purse {
    pub address: Address,
    pub access_rights: u8,
}

/// The immediate caller of an entry point.
#[derive(Clone, Copy, Debug, PartialEq, Eq, Hash)]
pub enum Caller {
    /// An end user calling directly.
    Account(Address),
    /// Another contract, with the package it belongs to.
    Contract { package: PackageHash, contract: Address },
}

impl Caller {
    /// Whether the caller is a contract.
    pub open spec fn is_contract(&self) -> bool {
        *self is Contract
    }

    /// The identity under which the caller acts.
    pub open spec fn identity(&self) -> Identity {
        match *self {
            Caller::Account(account) => Identity::Account(account),
            Caller::Contract { contract, .. } => Identity::Contract(contract),
        }
    }

    /// The identity under which the caller acts: its account, or its
    /// contract address.
    pub fn key(&self) -> (r: Identity)
        ensures
            r == self.identity(),
    {
        match self {
            Caller::Account(account) => Identity::Account(*account),
            Caller::Contract { contract, .. } => Identity::Contract(*contract),
        }
    }

    /// The caller's contract address, if it is a contract.
    pub fn contract_hash(&self) -> (r: Option<Address>)
        ensures
            r == match *self {
                Caller::Account(_) => None::<Address>,
                Caller::Contract { contract, .. } => Some(contract),
            },
    {
        match self {
            Caller::Account(_) => None,
            Caller::Contract { contract, .. } => Some(*contract),
        }
    }

    /// The package the caller belongs to, if it is a contract.
    pub fn contract_package(&self) -> (r: Option<PackageHash>)
        ensures
            r == match *self {
                Caller::Account(_) => None::<PackageHash>,
                Caller::Contract { package, .. } => Some(package),
            },
    {
        match self {
            Caller::Account(_) => None,
            Caller::Contract { package, .. } => Some(*package),
        }
    }
}

} // verus!
