//! The global guarantees of the auction, stated and proved over the
//! operation contracts: leader monotonicity, net-bid accounting, the
//! owner's exclusion from bidding, single-transfer closing, and
//! retraction only after the close.

use vstd::prelude::*;

use crate::contract::bid_post;
use crate::contract::close_post;
use crate::contract::find_denom;
use crate::contract::retract_post;
use crate::contract::spec_commission;
use crate::contract::spec_max;
use crate::contract::spec_net;
use crate::error::ContractError;
use crate::msg::Coin;
use crate::msg::Response;
use crate::state::auction_wf;
use crate::state::ledger_amount;
use crate::state::Config;
use crate::state::Ledger;
use crate::state::State;
use crate::state::Status;

verus! {

/// The leading amount never decreases across a bid, and an accepted bid
/// strictly raises it; after an accepted bid the new leader's amount
/// strictly exceeds every other bidder's ledger entry.
pub proof fn lemma_leader_monotonic(
    cfg: Config,
    st0: State,
    l0: Ledger,
    sender: Seq<char>,
    funds: Seq<Coin>,
    st1: State,
    l1: Ledger,
    r: Result<Response, ContractError>,
)
    requires
        auction_wf(st0, l0@),
        bid_post(cfg, st0, l0, sender, funds, st1, l1, r),
    ensures
        spec_max(st1) >= spec_max(st0),
        r is Ok ==> spec_max(st1) > spec_max(st0),
        r is Ok ==> (st1.highest_bid matches Some(hb) && forall|k: Seq<char>|
            l1@.contains_key(k) && k != hb.0@ ==> l1@[k] < hb.1),
{
    if r is Ok {
        let hb = st1.highest_bid->Some_0;
        assert forall|k: Seq<char>|
            l1@.contains_key(k) && k != hb.0@ implies l1@[k] < hb.1 by {
            assert(l1@[k] == l0@[k]);
            match st0.highest_bid {
                Some(hb0) => {},
                None => {
                    assert(!l0@.contains_key(k));
                },
            }
        }
    }
}

/// An accepted bid of gross funds `F` adds exactly `F` minus the
/// commission to the ledger: the sender's entry and the escrowed total
/// both rise by the net amount, and nothing else changes.
pub proof fn lemma_net_bid_accounting(
    cfg: Config,
    st0: State,
    l0: Ledger,
    sender: Seq<char>,
    funds: Seq<Coin>,
    st1: State,
    l1: Ledger,
    r: Result<Response, ContractError>,
    gross: u128,
)
    requires
        bid_post(cfg, st0, l0, sender, funds, st1, l1, r),
        find_denom(funds, cfg.denom@) == Some(gross),
        r is Ok,
    ensures
        ledger_amount(l1@, sender) - ledger_amount(l0@, sender) == spec_net(gross as int),
        l1.sum() - l0.sum() == spec_net(gross as int),
        forall|k: Seq<char>| k != sender ==> ledger_amount(l1@, k) == ledger_amount(l0@, k),
{
}

/// Withholding one twentieth is exactly a five percent commission,
/// rounded down.
pub proof fn lemma_commission_is_five_percent(gross: u128)
    ensures
        spec_commission(gross as int) == (gross as int) * 5 / 100,
{
    let g = gross as int;
    vstd::arithmetic::div_mod::lemma_fundamental_div_mod(g, 20);
    vstd::arithmetic::div_mod::lemma_mod_bound(g, 20);
    assert(g * 5 == (g / 20) * 100 + (g % 20) * 5);
    vstd::arithmetic::div_mod::lemma_fundamental_div_mod_converse_div(
        g * 5,
        100,
        g / 20,
        (g % 20) * 5,
    );
}

/// While the auction is open, a bid by the owner fails with the
/// unauthorized-bid error and changes nothing, whatever funds are
/// attached.
pub proof fn lemma_owner_cannot_bid(
    cfg: Config,
    st0: State,
    l0: Ledger,
    funds: Seq<Coin>,
    st1: State,
    l1: Ledger,
    r: Result<Response, ContractError>,
)
    requires
        st0.current_status == Status::Open,
        bid_post(cfg, st0, l0, cfg.owner@, funds, st1, l1, r),
    ensures
        r matches Err(ContractError::UnauthorizedBid { owner }) && owner@ == cfg.owner@,
        st1 == st0,
        l1 == l0,
{
}

/// A bid never changes the open/closed status.
pub proof fn lemma_bid_keeps_status(
    cfg: Config,
    st0: State,
    l0: Ledger,
    sender: Seq<char>,
    funds: Seq<Coin>,
    st1: State,
    l1: Ledger,
    r: Result<Response, ContractError>,
)
    requires
        bid_post(cfg, st0, l0, sender, funds, st1, l1, r),
    ensures
        st1.current_status == st0.current_status,
{
}

/// The status moves only from open to closed, and only the owner's
/// successful close moves it: a closed auction never reopens.
pub proof fn lemma_close_monotonic(
    cfg: Config,
    st0: State,
    l0: Ledger,
    sender: Seq<char>,
    st1: State,
    l1: Ledger,
    r: Result<Response, ContractError>,
)
    requires
        close_post(cfg, st0, l0, sender, st1, l1, r),
    ensures
        st0.current_status == Status::Closed ==> st1 == st0,
        st1.current_status == Status::Closed ==> st0.current_status == Status::Closed || (
        sender == cfg.owner@ && r is Ok),
{
}

/// Closing twice succeeds exactly once: the first close transfers the
/// leader's net amount to the owner and removes the leader's ledger
/// entry; the second fails with the bidding-closed error, transfers
/// nothing and changes nothing.
pub proof fn lemma_close_once(
    cfg: Config,
    st0: State,
    l0: Ledger,
    st1: State,
    l1: Ledger,
    r1: Result<Response, ContractError>,
    st2: State,
    l2: Ledger,
    r2: Result<Response, ContractError>,
)
    requires
        st0.current_status == Status::Open,
        auction_wf(st0, l0@),
        close_post(cfg, st0, l0, cfg.owner@, st1, l1, r1),
        close_post(cfg, st1, l1, cfg.owner@, st2, l2, r2),
    ensures
        r1 is Ok,
        st0.highest_bid matches Some(hb) ==> (r1->Ok_0.transfer matches Some(t) && t.to_address@
            == cfg.owner@ && t.amount == hb.1) && !l1@.contains_key(hb.0@),
        st0.highest_bid is None ==> r1->Ok_0.transfer is None,
        r2 == Err::<Response, ContractError>(ContractError::BiddingClosed),
        st2 == st1,
        l2 == l1,
{
}

/// Before the close every retraction fails with the bidding-active error
/// and changes nothing.
pub proof fn lemma_retract_before_close(
    cfg: Config,
    st: State,
    l0: Ledger,
    sender: Seq<char>,
    receiver: Option<String>,
    l1: Ledger,
    r: Result<Response, ContractError>,
)
    requires
        st.current_status == Status::Open,
        retract_post(cfg, st, l0, sender, receiver, l1, r),
    ensures
        r == Err::<Response, ContractError>(ContractError::BiddingActive),
        l1 == l0,
{
}

/// After the close, a bidder with an outstanding entry retracts exactly
/// once: the first retraction pays out the full entry and removes it,
/// and a repeated retraction by the same bidder fails with the
/// invalid-retract error and changes nothing.
pub proof fn lemma_retract_exactly_once(
    cfg: Config,
    st: State,
    l0: Ledger,
    sender: Seq<char>,
    receiver1: Option<String>,
    receiver2: Option<String>,
    l1: Ledger,
    r1: Result<Response, ContractError>,
    l2: Ledger,
    r2: Result<Response, ContractError>,
)
    requires
        st.current_status == Status::Closed,
        l0@.contains_key(sender),
        retract_post(cfg, st, l0, sender, receiver1, l1, r1),
        retract_post(cfg, st, l1, sender, receiver2, l2, r2),
    ensures
        r1 matches Ok(resp) && resp.transfer matches Some(t) && t.amount == l0@[sender],
        !l1@.contains_key(sender),
        l1.sum() == l0.sum() - l0@[sender],
        r2 == Err::<Response, ContractError>(ContractError::InvalidRetract),
        l2 == l1,
{
}

} // verus!
