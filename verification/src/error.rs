//! Errors of the auction operations. Every error is terminal: the
//! operation that returns one leaves the records untouched and emits no
//! transfer.

use vstd::prelude::*;

verus! {

/// Error of a state-changing operation.
#[derive(Clone, Debug, PartialEq, Eq)]
pub enum ContractError {
    /// The caller is not the owner where an owner-only action is required.
    Unauthorized { owner: String },
    /// The owner attempted to bid on their own auction.
    UnauthorizedBid { owner: String },
    /// The caller has no outstanding ledger entry to retract.
    InvalidRetract,
    /// The action requires an open auction, but it is closed.
    BiddingClosed,
    /// Retracting requires a closed auction, but it is open.
    BiddingActive,
    /// The attached funds fall below the configured minimum per bid.
    InvalidCommission { funds: u128, commission: u128 },
    /// No funds in the accepted asset were attached to the bid.
    InvalidFunds,
    /// The cumulative net bid does not exceed the current leader.
    InvalidBid { existing: u128, funds: u128, new_bid: u128, max_bid: u128 },
}

/// Error of a read-only query.
#[derive(Clone, Copy, Debug, PartialEq, Eq, Structural)]
pub enum QueryError {
    /// No highest bid yet, or no ledger entry for the queried address.
    NotFound,
    /// The winning bid was requested while the auction is still open.
    AuctionOpen,
}

} // verus!
