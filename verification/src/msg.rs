//! Requests that the hosting dispatcher hands to the auction and the
//! values the auction hands back, as plain data.

use vstd::prelude::*;

verus! {

/// A quantity of one asset, as attached to a bid.
#[derive(Clone, Debug, PartialEq, Eq)]
pub struct Coin {
    pub denom: String,
    pub amount: u128,
}

/// Creation parameters. A missing `owner` defaults to the caller; a
/// missing `commission` defaults to zero (no minimum per bid).
#[derive(Clone, Debug, PartialEq, Eq)]
pub struct InstantiateMsg {
    pub owner: Option<String>,
    pub denom: String,
    pub commission: Option<u128>,
}

/// A state-changing request.
#[derive(Clone, Debug, PartialEq, Eq)]
pub enum ExecuteMsg {
    Bid {},
    Close {},
    Retract { receiver: Option<String> },
}

/// A read-only request.
#[derive(Clone, Debug, PartialEq, Eq)]
pub enum QueryMsg {
    TotalBids { address: String },
    HighestBid {},
    BiddingCompleted {},
    WinningBid {},
}

/// An instruction to the host to move `amount` of `denom` to
/// `to_address`. The auction never moves value itself; it only returns
/// transfers for the host to carry out.
#[derive(Clone, Debug, PartialEq, Eq)]
pub struct Transfer {
    pub to_address: String,
    pub amount: u128,
    pub denom: String,
}

/// The outcome of a successful state-changing operation: at most one
/// outbound transfer.
#[derive(Clone, Debug, PartialEq, Eq)]
pub struct Response {
    pub transfer: Option<Transfer>,
}

/// The current leader and their cumulative net amount.
#[derive(Clone, Debug, PartialEq, Eq)]
pub struct BidResponse {
    pub address: String,
    pub amount: u128,
}

/// The answer to a [`QueryMsg`], variant for variant.
#[derive(Clone, Debug, PartialEq, Eq)]
pub enum QueryAnswer {
    TotalBids(u128),
    HighestBid(BidResponse),
    BiddingCompleted(bool),
    WinningBid(BidResponse),
}

} // verus!
