//! Settlement of token sales with enforced royalties.
//!
//! Two cooperating services are modelled as explicit state values with
//! verified transitions: the custodial royalty service, which records per
//! token whether a royalty has been set aside and gates ownership transfer
//! on that record, and the marketplace service, which keeps an order book of
//! postings and settles bids against them.
//!
//! The services never perform outside work themselves. Every transition
//! takes what the outside world reported (who is calling, who owns a token,
//! what a royalty quote was) as plain arguments and returns the value
//! movements and ownership transfers that its caller must carry out.

pub mod actions;
pub mod amount;
pub mod custodial;
pub mod custodial_proofs;
pub mod encoding;
pub mod identity;
pub mod keys;
pub mod marketplace;
pub mod marketplace_proofs;
pub mod royalty;
pub mod settlement_proofs;
pub mod store;
pub mod token;

