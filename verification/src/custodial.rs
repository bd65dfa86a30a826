//! The custodial royalty service: it records, per token, whether a royalty
//! has been set aside for a coming sale, and lets the token change owners
//! only against such a record.

use vstd::prelude::*;
use crate::actions::{OwnershipTransfer, PurseTransfer, TokenFacts};
use crate::amount::Amount;
use crate::identity::{Caller, Identity, PackageHash, Purse};
use crate::royalty::{total_royalty, RoyaltyShare, RoyaltyStructure};
use crate::store::Table;
use crate::token::{TokenIdentifier, TokenIdentifierView};

verus! {

/// Why the custodial service refused a call.
#[derive(Clone, Copy, Debug, PartialEq, Eq, Structural, Hash)]
pub enum CustodialError {
    MarketplaceNotWhitelisted,
    CallerMustBeContract,
    CallerMustBeApproved,
    SelfTransferForbidden,
    SourceMustBeOwner,
    AlreadyPaid,
    MustPayRoyalties,
    Overflow,
    InvalidRoyaltyScheme,
}

impl CustodialError {
    /// The code under which the error is reported to users.
    pub open spec fn code_spec(self) -> u16 {
        match self {
            CustodialError::MarketplaceNotWhitelisted => 100,
            CustodialError::CallerMustBeContract => 101,
            CustodialError::CallerMustBeApproved => 102,
            CustodialError::SelfTransferForbidden => 103,
            CustodialError::SourceMustBeOwner => 104,
            CustodialError::AlreadyPaid => 105,
            CustodialError::MustPayRoyalties => 106,
            CustodialError::Overflow => 107,
            CustodialError::InvalidRoyaltyScheme => 108,
        }
    }

    /// The code under which the error is reported to users.
    pub fn code(self) -> (r: u16)
        ensures
            r == self.code_spec(),
    {
        match self {
            CustodialError::MarketplaceNotWhitelisted => 100,
            CustodialError::CallerMustBeContract => 101,
            CustodialError::CallerMustBeApproved => 102,
            CustodialError::SelfTransferForbidden => 103,
            CustodialError::SourceMustBeOwner => 104,
            CustodialError::AlreadyPaid => 105,
            CustodialError::MustPayRoyalties => 106,
            CustodialError::Overflow => 107,
            CustodialError::InvalidRoyaltyScheme => 108,
        }
    }
}

/// Whether the royalty on a token's coming sale has been set aside.
#[derive(Clone, Copy, Debug, PartialEq, Eq)]
pub enum RoyaltyPaymentState {
    /// Nothing is set aside.
    Unpaid,
    /// `amount` was set aside by `payer` for a sale by `source_key`, and no
    /// transfer has used it up yet.
    Paid { payer: Identity, source_key: Identity, amount: Amount },
}

impl Default for RoyaltyPaymentState {
    fn default() -> (r: Self)
        ensures
            r == RoyaltyPaymentState::Unpaid,
    {
        RoyaltyPaymentState::Unpaid
    }
}

/// The marketplaces that may record royalty payments.
#[derive(Debug, PartialEq, Eq)]
pub struct MarketplaceWhitelist {
    /// Whether the list is enforced at all.
    pub enabled: bool,
    pub allowed: Vec<PackageHash>,
}

impl MarketplaceWhitelist {
    /// Whether `package` is on the list.
    pub fn is_marketplace_whitelisted(&self, package: &PackageHash) -> (r: bool)
        ensures
            r == self.allowed@.contains(*package),
    {
        let mut i: usize = 0;
        while i < self.allowed.len()
            invariant
                i <= self.allowed.len(),
                forall|j: int| 0 <= j < i ==> self.allowed@[j] != *package,
            decreases self.allowed.len() - i,
        {
            if self.allowed[i] == *package {
                return true;
            }
            i += 1;
        }
        false
    }
}

/// Sets up the marketplace whitelist: an empty list switches enforcement
/// off, any other list switches it on for exactly its members.
pub fn init(whitelisted_marketplaces: Vec<PackageHash>) -> (r: MarketplaceWhitelist)
    ensures
        r.enabled == (whitelisted_marketplaces@.len() > 0),
        r.allowed@ == whitelisted_marketplaces@,
{
    if whitelisted_marketplaces.is_empty() {
        MarketplaceWhitelist { enabled: false, allowed: whitelisted_marketplaces }
    } else {
        MarketplaceWhitelist { enabled: true, allowed: whitelisted_marketplaces }
    }
}

/// What a call of `transfer` came to.
#[derive(Debug, PartialEq, Eq)]
pub enum TransferOutcome {
    /// The royalty record matched: the ownership transfer is to be made,
    /// and the record has been used up.
    Transferred(OwnershipTransfer),
    /// The royalty record names another seller, or the seller does not own
    /// the token: nothing is to be done and nothing has changed.
    NotTransferred,
}

/// The state of the custodial service.
pub struct Custodial {
    /// The administrator named at installation.
    pub manager: Identity,
    /// The royalty configuration, where one is installed.
    pub royalty_structure: Option<RoyaltyStructure>,
    pub whitelist: MarketplaceWhitelist,
    /// The purse in which royalties are collected.
    pub royalty_purse: Purse,
    /// The royalty record of each token; a token without one is unpaid.
    pub royalty_payments: Table<TokenIdentifier, RoyaltyPaymentState>,
}

/// The custodial service as a mathematical value.
pub struct CustodialView {
    pub manager: Identity,
    pub royalty_shares: Option<Seq<RoyaltyShare>>,
    pub whitelist_enabled: bool,
    pub whitelisted: Set<PackageHash>,
    pub royalty_purse: Purse,
    pub royalty_payments: Map<TokenIdentifierView, RoyaltyPaymentState>,
}

impl View for Custodial {
    type V = CustodialView;

    open spec fn view(&self) -> CustodialView {
        CustodialView {
            manager: self.manager,
            royalty_shares: match self.royalty_structure {
                Some(structure) => Some(structure@),
                None => None,
            },
            whitelist_enabled: self.whitelist.enabled,
            whitelisted: self.whitelist.allowed@.to_set(),
            royalty_purse: self.royalty_purse,
            royalty_payments: self.royalty_payments@,
        }
    }
}

impl CustodialView {
    /// The royalty record of `token`: what is kept for it, or `Unpaid`.
    pub open spec fn payment_state(self, token: TokenIdentifierView) -> RoyaltyPaymentState {
        if self.royalty_payments.contains_key(token) {
            self.royalty_payments[token]
        } else {
            RoyaltyPaymentState::Unpaid
        }
    }

    /// This state with the royalty record of `token` set to `state`.
    pub open spec fn with_payment_state(
        self,
        token: TokenIdentifierView,
        state: RoyaltyPaymentState,
    ) -> CustodialView {
        CustodialView { royalty_payments: self.royalty_payments.insert(token, state), ..self }
    }

    /// The royalty owed on `payment_amount`, or the error where no royalty
    /// structure is installed.
    pub open spec fn calculate_royalty(self, payment_amount: nat) -> Result<nat, CustodialError> {
        match self.royalty_shares {
            Some(shares) => Ok(total_royalty(shares, payment_amount)),
            None => Err(CustodialError::InvalidRoyaltyScheme),
        }
    }

    /// The first reason, in the order in which they are examined, for
    /// which a royalty payment is refused; `None` where it is accepted.
    pub open spec fn pay_royalty_refusal(
        self,
        caller: Caller,
        facts: TokenFacts,
        token: TokenIdentifierView,
        source_key: Identity,
        target_key: Identity,
    ) -> Option<CustodialError> {
        if source_key == target_key {
            Some(CustodialError::SelfTransferForbidden)
        } else if !caller.is_contract() {
            Some(CustodialError::CallerMustBeContract)
        } else if self.whitelist_enabled && !self.whitelisted.contains(caller->package) {
            Some(CustodialError::MarketplaceNotWhitelisted)
        } else if facts.approved != Some(caller.identity()) {
            Some(CustodialError::CallerMustBeApproved)
        } else if facts.owner != source_key {
            Some(CustodialError::SourceMustBeOwner)
        } else if self.royalty_shares is None {
            Some(CustodialError::InvalidRoyaltyScheme)
        } else if self.payment_state(token) matches RoyaltyPaymentState::Paid {
            source_key: paid_source_key,
            ..
        } && paid_source_key != source_key {
            Some(CustodialError::AlreadyPaid)
        } else {
            None
        }
    }

    /// What a royalty payment comes to: the refusal, or the state after it
    /// together with the movement of the royalty into the royalty purse.
    pub open spec fn pay_royalty(
        self,
        caller: Caller,
        facts: TokenFacts,
        token: TokenIdentifierView,
        source_purse: Purse,
        payer: Identity,
        source_key: Identity,
        target_key: Identity,
        payment_amount: nat,
    ) -> Result<(CustodialView, PurseTransfer), CustodialError> {
        match self.pay_royalty_refusal(caller, facts, token, source_key, target_key) {
            Some(error) => Err(error),
            None => {
                let amount = Amount::of(total_royalty(self.royalty_shares->0, payment_amount));
                Ok(
                    (
                        self.with_payment_state(
                            token,
                            RoyaltyPaymentState::Paid { payer, source_key, amount },
                        ),
                        PurseTransfer { source: source_purse, target: self.royalty_purse, amount },
                    ),
                )
            },
        }
    }

    /// What a gated transfer comes to: the refusal, or the state after it
    /// and whether the ownership transfer is to be made.
    pub open spec fn transfer(
        self,
        caller: Caller,
        current_owner: Identity,
        token: TokenIdentifierView,
        source_key: Identity,
    ) -> Result<(CustodialView, bool), CustodialError> {
        if !caller.is_contract() {
            Err(CustodialError::CallerMustBeContract)
        } else {
            match self.payment_state(token) {
                RoyaltyPaymentState::Unpaid => Err(CustodialError::MustPayRoyalties),
                RoyaltyPaymentState::Paid { source_key: paid_source_key, .. } => {
                    if source_key == paid_source_key && source_key == current_owner {
                        Ok((self.with_payment_state(token, RoyaltyPaymentState::Unpaid), true))
                    } else {
                        Ok((self, false))
                    }
                },
            }
        }
    }
}

/// Installs the custodial service: nothing is paid yet.
pub fn install(
    whitelisted_marketplaces: Vec<PackageHash>,
    royalty_structure: RoyaltyStructure,
    manager: Identity,
    royalty_purse: Purse,
) -> (r: Custodial)
    ensures
        r@.manager == manager,
        r@.royalty_shares == Some(royalty_structure@),
        r@.whitelist_enabled == (whitelisted_marketplaces@.len() > 0),
        r@.whitelisted == whitelisted_marketplaces@.to_set(),
        r@.royalty_purse == royalty_purse,
        r@.royalty_payments == Map::<TokenIdentifierView, RoyaltyPaymentState>::empty(),
{
    Custodial {
        manager,
        royalty_structure: Some(royalty_structure),
        whitelist: init(whitelisted_marketplaces),
        royalty_purse,
        royalty_payments: Table::new(),
    }
}

/// The royalty owed on a sale of `token_id` at `payment_amount`. Every
/// token of every collection is charged by the one installed structure.
pub fn calculate_royalty(
    custodial: &Custodial,
    token_contract: PackageHash,
    token_id: &TokenIdentifier,
    payment_amount: Amount,
) -> (r: Result<Amount, CustodialError>)
    ensures
        match r {
            Ok(royalty) => custodial@.calculate_royalty(payment_amount@) == Ok::<
                nat,
                CustodialError,
            >(royalty@) && royalty@ <= payment_amount@,
            Err(error) => custodial@.calculate_royalty(payment_amount@) == Err::<
                nat,
                CustodialError,
            >(error),
        },
{
    match &custodial.royalty_structure {
        Some(structure) => Ok(structure.calculate_total_royalty(payment_amount)),
        None => Err(CustodialError::InvalidRoyaltyScheme),
    }
}

/// The royalty record of `token`.
pub fn payment_state(custodial: &Custodial, token: &TokenIdentifier) -> (r: RoyaltyPaymentState)
    ensures
        r == custodial@.payment_state(token@),
{
    match custodial.royalty_payments.get(token) {
        Some(state) => *state,
        None => RoyaltyPaymentState::Unpaid,
    }
}

/// Records that the royalty on a sale of `token_id` by `source_key` to
/// `target_key` is paid from `source_purse`.
///
/// The checks are made in this order: seller and buyer differ; the caller
/// is a contract; the whitelist, where enforced, holds the caller's
/// package; the caller is the token's approved operator; the seller owns
/// the token; a royalty structure is installed; no royalty is on record
/// for another seller. A refused call changes nothing.
///
/// On success the royalty on `payment_amount` is on record for the token,
/// in place of an earlier record of the same seller, and the returned
/// transfer moves it from `source_purse` into the royalty purse.
pub fn pay_royalty(
    custodial: &mut Custodial,
    caller: Caller,
    facts: TokenFacts,
    token_contract: PackageHash,
    token_id: TokenIdentifier,
    source_purse: Purse,
    payer: Identity,
    source_key: Identity,
    target_key: Identity,
    payment_amount: Amount,
) -> (r: Result<PurseTransfer, CustodialError>)
    ensures
        match r {
            Ok(transfer) => old(custodial)@.pay_royalty(
                caller,
                facts,
                token_id@,
                source_purse,
                payer,
                source_key,
                target_key,
                payment_amount@,
            ) == Ok::<(CustodialView, PurseTransfer), CustodialError>((final(custodial)@, transfer)),
            Err(error) => old(custodial)@.pay_royalty(
                caller,
                facts,
                token_id@,
                source_purse,
                payer,
                source_key,
                target_key,
                payment_amount@,
            ) == Err::<(CustodialView, PurseTransfer), CustodialError>(error) && final(custodial)@
                == old(custodial)@,
        },
{
    if source_key == target_key {
        return Err(CustodialError::SelfTransferForbidden);
    }
    let (caller_package, caller_contract) = match caller {
        Caller::Contract { package, contract } => (package, contract),
        Caller::Account(_) => {
            return Err(CustodialError::CallerMustBeContract);
        },
    };
    let is_whitelisted = !custodial.whitelist.enabled
        || custodial.whitelist.is_marketplace_whitelisted(&caller_package);
    if !is_whitelisted {
        return Err(CustodialError::MarketplaceNotWhitelisted);
    }
    let approved = match facts.approved {
        Some(approved) => approved,
        None => {
            return Err(CustodialError::CallerMustBeApproved);
        },
    };
    if Identity::Contract(caller_contract) != approved {
        return Err(CustodialError::CallerMustBeApproved);
    }
    if facts.owner != source_key {
        return Err(CustodialError::SourceMustBeOwner);
    }
    let total_royalty = match calculate_royalty(
        custodial,
        token_contract,
        &token_id,
        payment_amount,
    ) {
        Ok(total_royalty) => total_royalty,
        Err(error) => {
            return Err(error);
        },
    };
    match payment_state(custodial, &token_id) {
        RoyaltyPaymentState::Paid { source_key: paid_source_key, .. } => {
            if source_key != paid_source_key {
                return Err(CustodialError::AlreadyPaid);
            }
        },
        RoyaltyPaymentState::Unpaid => {},
    }
    proof {
        total_royalty.lemma_of_view();
    }
    let transfer = PurseTransfer {
        source: source_purse,
        target: custodial.royalty_purse,
        amount: total_royalty,
    };
    let state = RoyaltyPaymentState::Paid { payer, source_key, amount: total_royalty };
    custodial.royalty_payments.insert(token_id, state);
    Ok(transfer)
}

/// Lets `token_id` pass from `source_key` to `target_key` against its
/// royalty record.
///
/// The caller must be a contract, and a royalty must be on record for the
/// token. Where the record names `source_key` as the seller and
/// `source_key` owns the token, the ownership transfer is returned for the
/// caller to make and the record is used up. Otherwise nothing changes and
/// the outcome says that no transfer is to be made.
pub fn transfer(
    custodial: &mut Custodial,
    caller: Caller,
    current_owner: Identity,
    token_contract: PackageHash,
    token_id: TokenIdentifier,
    source_key: Identity,
    target_key: Identity,
) -> (r: Result<TransferOutcome, CustodialError>)
    ensures
        match r {
            Ok(TransferOutcome::Transferred(transfer)) => old(custodial)@.transfer(
                caller,
                current_owner,
                token_id@,
                source_key,
            ) == Ok::<(CustodialView, bool), CustodialError>((final(custodial)@, true))
                && transfer == (OwnershipTransfer {
                collection: token_contract,
                token: token_id,
                source: source_key,
                target: target_key,
            }),
            Ok(TransferOutcome::NotTransferred) => old(custodial)@.transfer(
                caller,
                current_owner,
                token_id@,
                source_key,
            ) == Ok::<(CustodialView, bool), CustodialError>((final(custodial)@, false)),
            Err(error) => old(custodial)@.transfer(caller, current_owner, token_id@, source_key)
                == Err::<(CustodialView, bool), CustodialError>(error) && final(custodial)@ == old(
                custodial,
            )@,
        },
{
    if caller.contract_package().is_none() {
        return Err(CustodialError::CallerMustBeContract);
    }
    let payment_key = match payment_state(custodial, &token_id) {
        RoyaltyPaymentState::Paid { source_key: payment_key, .. } => payment_key,
        RoyaltyPaymentState::Unpaid => {
            return Err(CustodialError::MustPayRoyalties);
        },
    };
    if source_key == payment_key && source_key == current_owner {
        custodial.royalty_payments.insert(token_id.clone(), RoyaltyPaymentState::Unpaid);
        Ok(
            TransferOutcome::Transferred(
                OwnershipTransfer {
                    collection: token_contract,
                    token: token_id,
                    source: source_key,
                    target: target_key,
                },
            ),
        )
    } else {
        Ok(TransferOutcome::NotTransferred)
    }
}

} // verus!
