//! The auction operations: initialization, bid, close, retract, and the
//! read-only queries, each with the exact statement of what it returns
//! and how it changes the three records.
//!
//! Identity validation is the host's concern: every `String` identity
//! reaching these operations is assumed already validated.

use vstd::prelude::*;

use crate::error::ContractError;
use crate::error::QueryError;
use crate::msg::BidResponse;
use crate::msg::Coin;
use crate::msg::ExecuteMsg;
use crate::msg::InstantiateMsg;
use crate::msg::QueryAnswer;
use crate::msg::QueryMsg;
use crate::msg::Response;
use crate::msg::Transfer;
use crate::state::auction_wf;
use crate::state::ledger_amount;
use crate::state::Config;
use crate::state::Ledger;
use crate::state::State;
use crate::state::Status;

verus! {

/// The commission withheld from a gross bid: 5 percent, rounded down.
/// Dividing by 20 is exactly `floor(gross * 5 / 100)`; see
/// `lemma_commission_is_five_percent`.
pub open spec fn spec_commission(gross: int) -> int {
    gross / 20
}

/// What remains of a gross bid once the commission is withheld.
pub open spec fn spec_net(gross: int) -> int {
    gross - gross / 20
}

/// The amount of the current highest bid, zero while no bid was accepted.
pub open spec fn spec_max(st: State) -> int {
    match st.highest_bid {
        Some(hb) => hb.1 as int,
        None => 0,
    }
}

/// The amount of the first attached coin in `denom`, if any; later coins
/// in other assets are ignored.
pub open spec fn find_denom(funds: Seq<Coin>, denom: Seq<char>) -> Option<u128>
    decreases funds.len(),
{
    if funds.len() == 0 {
        None
    } else if funds[0].denom@ == denom {
        Some(funds[0].amount)
    } else {
        find_denom(funds.drop_first(), denom)
    }
}

/// The cumulative amount a bid would raise the sender's ledger entry to
/// still fits the amount type. This is the one machine limit the bid
/// operation imposes on its callers.
pub open spec fn bid_fits(l: Ledger, sender: Seq<char>, funds: Seq<Coin>, denom: Seq<char>) -> bool {
    match find_denom(funds, denom) {
        Some(gross) => ledger_amount(l@, sender) + spec_net(gross as int) <= u128::MAX,
        None => true,
    }
}

/// The commission of a successful bid on `gross` funds was forwarded to
/// the owner: the response carries that one transfer, or none when the
/// commission rounds down to zero.
pub open spec fn commission_paid(resp: Response, cfg: Config, gross: u128) -> bool {
    if spec_commission(gross as int) > 0 {
        resp.transfer matches Some(t) && t.to_address@ == cfg.owner@
            && t.amount as int == spec_commission(gross as int) && t.denom@ == cfg.denom@
    } else {
        resp.transfer is None
    }
}

/// Everything the bid operation does, for every input: which error each
/// rejected bid returns (leaving both records untouched), and how an
/// accepted bid moves the leader, the sender's ledger entry, the total
/// escrow, and the commission transfer.
pub open spec fn bid_post(
    cfg: Config,
    st0: State,
    l0: Ledger,
    sender: Seq<char>,
    funds: Seq<Coin>,
    st1: State,
    l1: Ledger,
    r: Result<Response, ContractError>,
) -> bool {
    let unchanged = st1 == st0 && l1 == l0;
    if st0.current_status == Status::Closed {
        r == Err::<Response, ContractError>(ContractError::BiddingClosed) && unchanged
    } else if sender == cfg.owner@ {
        (r matches Err(ContractError::UnauthorizedBid { owner }) && owner@ == cfg.owner@)
            && unchanged
    } else {
        match find_denom(funds, cfg.denom@) {
            None => r == Err::<Response, ContractError>(ContractError::InvalidFunds) && unchanged,
            Some(gross) => {
                if cfg.commission > 0 && gross < cfg.commission {
                    r == Err::<Response, ContractError>(
                        ContractError::InvalidCommission { funds: gross, commission: cfg.commission },
                    ) && unchanged
                } else {
                    let net = spec_net(gross as int);
                    let existing = ledger_amount(l0@, sender);
                    let new_cumulative = existing + net;
                    if new_cumulative <= spec_max(st0) {
                        (r matches Err(ContractError::InvalidBid { existing: e, funds: f, new_bid, max_bid })
                            && e as int == existing && f == gross && new_bid as int == net
                            && max_bid as int == spec_max(st0)) && unchanged
                    } else {
                        (r matches Ok(resp) && commission_paid(resp, cfg, gross))
                            && st1.current_status == Status::Open
                            && (st1.highest_bid matches Some(hb) && hb.0@ == sender
                                && hb.1 as int == new_cumulative)
                            && l1@ == l0@.insert(sender, new_cumulative as u128)
                            && l1.sum() == l0.sum() + net
                            && l1.wf()
                    }
                }
            },
        }
    }
}

/// Everything the close operation does, for every input.
pub open spec fn close_post(
    cfg: Config,
    st0: State,
    l0: Ledger,
    sender: Seq<char>,
    st1: State,
    l1: Ledger,
    r: Result<Response, ContractError>,
) -> bool {
    let unchanged = st1 == st0 && l1 == l0;
    if sender != cfg.owner@ {
        (r matches Err(ContractError::Unauthorized { owner }) && owner@ == cfg.owner@)
            && unchanged
    } else if st0.current_status == Status::Closed {
        r == Err::<Response, ContractError>(ContractError::BiddingClosed) && unchanged
    } else {
        match st0.highest_bid {
            None => (r matches Ok(resp) && resp.transfer is None)
                && st1.current_status == Status::Closed
                && st1.highest_bid is None
                && l1 == l0,
            Some(hb) => (r matches Ok(resp) && resp.transfer matches Some(t)
                    && t.to_address@ == cfg.owner@ && t.amount == hb.1 && t.denom@ == cfg.denom@)
                && st1.current_status == Status::Closed
                && st1.highest_bid == st0.highest_bid
                && l1@ == l0@.remove(hb.0@)
                && l1.sum() == l0.sum() - hb.1
                && l1.wf(),
        }
    }
}

/// Everything the retract operation does, for every input. The ledger
/// entry removed is always the caller's, whatever destination the funds
/// are sent to.
pub open spec fn retract_post(
    cfg: Config,
    st: State,
    l0: Ledger,
    sender: Seq<char>,
    receiver: Option<String>,
    l1: Ledger,
    r: Result<Response, ContractError>,
) -> bool {
    if st.current_status == Status::Open {
        r == Err::<Response, ContractError>(ContractError::BiddingActive) && l1 == l0
    } else if !l0@.contains_key(sender) {
        r == Err::<Response, ContractError>(ContractError::InvalidRetract) && l1 == l0
    } else {
        let dest = match receiver {
            Some(rcv) => rcv@,
            None => sender,
        };
        (r matches Ok(resp) && resp.transfer matches Some(t) && t.to_address@ == dest
            && t.amount == l0@[sender] && t.denom@ == cfg.denom@)
            && l1@ == l0@.remove(sender)
            && l1.sum() == l0.sum() - l0@[sender]
            && l1.wf()
    }
}

/// The commission charged on `gross` funds.
fn commission_of(gross: u128) -> (r: u128)
    ensures
        r as int == spec_commission(gross as int),
        r <= gross,
{
    gross / 20
}

/// The amount of the first attached coin in the accepted asset.
fn find_funds(funds: &Vec<Coin>, denom: &String) -> (r: Option<u128>)
    ensures
        r == find_denom(funds@, denom@),
{
    let mut i: usize = 0;
    proof {
        assert(funds@.skip(0) =~= funds@);
    }
    while i < funds.len()
        invariant
            i <= funds@.len(),
            find_denom(funds@, denom@) == find_denom(funds@.skip(i as int), denom@),
        decreases funds@.len() - i,
    {
        if funds[i].denom == *denom {
            proof {
                assert(funds@.skip(i as int)[0] == funds@[i as int]);
            }
            return Some(funds[i].amount);
        }
        proof {
            assert(funds@.skip(i as int)[0] == funds@[i as int]);
            assert(funds@.skip(i as int).drop_first() =~= funds@.skip(i as int + 1));
        }
        i = i + 1;
    }
    proof {
        assert(funds@.skip(i as int).len() == 0);
    }
    None
}

/// Creates the three records of a fresh auction: the configuration as the
/// message asks (owner defaulting to the caller, threshold to zero), an
/// open state with no bid, and an empty ledger.
pub fn instantiate(msg: InstantiateMsg, sender: String) -> (r: (Config, State, Ledger))
    ensures
        r.0.owner@ == (match msg.owner {
            Some(o) => o@,
            None => sender@,
        }),
        r.0.denom@ == msg.denom@,
        r.0.commission == (match msg.commission {
            Some(c) => c,
            None => 0u128,
        }),
        r.1.current_status == Status::Open,
        r.1.highest_bid is None,
        r.2@ == Map::<Seq<char>, u128>::empty(),
        r.2.sum() == 0,
        r.2.wf(),
        auction_wf(r.1, r.2@),
{
    let owner = match msg.owner {
        Some(o) => o,
        None => sender,
    };
    let commission = match msg.commission {
        Some(c) => c,
        None => 0,
    };
    (
        Config { owner, denom: msg.denom, commission },
        State { current_status: Status::Open, highest_bid: None },
        Ledger::new(),
    )
}

/// Accepts or rejects a bid of the attached `funds` by `sender`.
///
/// A bid is rejected while the auction is closed, when the owner bids,
/// when no funds in the accepted asset are attached, when the gross
/// amount falls below the configured minimum, and when the sender's
/// cumulative net amount would not strictly exceed the current leader; a
/// rejection changes nothing. An accepted bid makes the sender the
/// leader, raises their ledger entry by the net amount, and forwards the
/// commission to the owner.
pub fn bid(
    config: &Config,
    state: &mut State,
    bids: &mut Ledger,
    sender: String,
    funds: Vec<Coin>,
) -> (r: Result<Response, ContractError>)
    requires
        old(bids).wf(),
        auction_wf(*old(state), old(bids)@),
        bid_fits(*old(bids), sender@, funds@, config.denom@),
    ensures
        bid_post(*config, *old(state), *old(bids), sender@, funds@, *final(state), *final(bids), r),
        final(bids).wf(),
        auction_wf(*final(state), final(bids)@),
{
    if state.current_status == Status::Closed {
        return Err(ContractError::BiddingClosed);
    }
    if sender == config.owner {
        return Err(ContractError::UnauthorizedBid { owner: config.owner.clone() });
    }
    let gross = match find_funds(&funds, &config.denom) {
        Some(g) => g,
        None => {
            return Err(ContractError::InvalidFunds);
        },
    };
    if config.commission > 0 && gross < config.commission {
        return Err(ContractError::InvalidCommission { funds: gross, commission: config.commission });
    }
    let commission = commission_of(gross);
    let net_bid = gross - commission;
    let existing = match bids.get(&sender) {
        Some(v) => v,
        None => 0,
    };
    let new_bid = net_bid + existing;
    let highest_bid_amount = match &state.highest_bid {
        Some(hb) => hb.1,
        None => 0,
    };
    if new_bid <= highest_bid_amount {
        return Err(ContractError::InvalidBid {
            existing,
            funds: gross,
            new_bid: net_bid,
            max_bid: highest_bid_amount,
        });
    }
    let ghost st0 = *state;
    let ghost m0 = bids@;
    state.highest_bid = Some((sender.clone(), new_bid));
    bids.set(&sender, new_bid);
    proof {
        assert forall|k: Seq<char>|
            bids@.contains_key(k) && k != sender@ implies bids@[k] < new_bid by {
            assert(bids@[k] == m0[k]);
            match st0.highest_bid {
                Some(hb) => {},
                None => {
                    assert(!m0.contains_key(k));
                },
            }
        }
    }
    let resp = if commission > 0 {
        Response {
            transfer: Some(Transfer {
                to_address: config.owner.clone(),
                amount: commission,
                denom: config.denom.clone(),
            }),
        }
    } else {
        Response { transfer: None }
    };
    Ok(resp)
}

/// Closes the auction. Only the owner may close, and only once; the
/// winning net amount (if any bid was accepted) is transferred to the
/// owner and leaves the ledger, while the leader pair stays in the state
/// for the winning-bid query.
pub fn close(config: &Config, state: &mut State, bids: &mut Ledger, sender: String) -> (r: Result<
    Response,
    ContractError,
>)
    requires
        old(bids).wf(),
        auction_wf(*old(state), old(bids)@),
    ensures
        close_post(*config, *old(state), *old(bids), sender@, *final(state), *final(bids), r),
        final(bids).wf(),
        auction_wf(*final(state), final(bids)@),
{
    if !(sender == config.owner) {
        return Err(ContractError::Unauthorized { owner: config.owner.clone() });
    }
    if state.current_status == Status::Closed {
        return Err(ContractError::BiddingClosed);
    }
    let ghost m0 = bids@;
    let mut resp = Response { transfer: None };
    match &state.highest_bid {
        Some(hb) => {
            bids.remove(&hb.0);
            proof {
                assert forall|k: Seq<char>| bids@.contains_key(k) implies bids@[k] < hb.1 by {
                    assert(bids@[k] == m0[k]);
                }
            }
            resp = Response {
                transfer: Some(Transfer {
                    to_address: config.owner.clone(),
                    amount: hb.1,
                    denom: config.denom.clone(),
                }),
            };
        },
        None => {},
    }
    state.current_status = Status::Closed;
    Ok(resp)
}

/// Pays a non-winning bidder's outstanding ledger amount back, to the
/// caller or to a designated receiver. Only valid once the auction is
/// closed, and only once per bidder: the entry is removed with the
/// payout.
pub fn retract(
    config: &Config,
    state: &State,
    bids: &mut Ledger,
    sender: String,
    receiver: Option<String>,
) -> (r: Result<Response, ContractError>)
    requires
        old(bids).wf(),
        auction_wf(*state, old(bids)@),
    ensures
        retract_post(*config, *state, *old(bids), sender@, receiver, *final(bids), r),
        final(bids).wf(),
        auction_wf(*state, final(bids)@),
{
    if state.current_status == Status::Open {
        return Err(ContractError::BiddingActive);
    }
    let amount = match bids.get(&sender) {
        Some(a) => a,
        None => {
            return Err(ContractError::InvalidRetract);
        },
    };
    let ghost m0 = bids@;
    bids.remove(&sender);
    proof {
        match &state.highest_bid {
            Some(hb) => {
                assert forall|k: Seq<char>| bids@.contains_key(k) implies bids@[k] < hb.1 by {
                    assert(bids@[k] == m0[k]);
                }
            },
            None => {},
        }
    }
    let dest = match receiver {
        Some(rcv) => rcv,
        None => sender.clone(),
    };
    Ok(
        Response {
            transfer: Some(Transfer { to_address: dest, amount, denom: config.denom.clone() }),
        },
    )
}

/// Dispatches a state-changing request to the operation it names.
pub fn execute(
    config: &Config,
    state: &mut State,
    bids: &mut Ledger,
    sender: String,
    funds: Vec<Coin>,
    msg: ExecuteMsg,
) -> (r: Result<Response, ContractError>)
    requires
        old(bids).wf(),
        auction_wf(*old(state), old(bids)@),
        msg == (ExecuteMsg::Bid {}) ==> bid_fits(*old(bids), sender@, funds@, config.denom@),
    ensures
        msg == (ExecuteMsg::Bid {}) ==> bid_post(
            *config,
            *old(state),
            *old(bids),
            sender@,
            funds@,
            *final(state),
            *final(bids),
            r,
        ),
        msg == (ExecuteMsg::Close {}) ==> close_post(
            *config,
            *old(state),
            *old(bids),
            sender@,
            *final(state),
            *final(bids),
            r,
        ),
        (msg matches ExecuteMsg::Retract { receiver } ==> retract_post(
            *config,
            *old(state),
            *old(bids),
            sender@,
            receiver,
            *final(bids),
            r,
        ) && *final(state) == *old(state)),
        final(bids).wf(),
        auction_wf(*final(state), final(bids)@),
{
    match msg {
        ExecuteMsg::Bid {} => bid(config, state, bids, sender, funds),
        ExecuteMsg::Close {} => close(config, state, bids, sender),
        ExecuteMsg::Retract { receiver } => retract(config, state, bids, sender, receiver),
    }
}

/// The address's outstanding cumulative net amount.
pub fn total_bids(bids: &Ledger, address: String) -> (r: Result<u128, QueryError>)
    requires
        bids.wf(),
    ensures
        r == if bids@.contains_key(address@) {
            Ok::<u128, QueryError>(bids@[address@])
        } else {
            Err::<u128, QueryError>(QueryError::NotFound)
        },
{
    match bids.get(&address) {
        Some(a) => Ok(a),
        None => Err(QueryError::NotFound),
    }
}

/// The current leader and their cumulative net amount.
pub fn highest_bid(state: &State) -> (r: Result<BidResponse, QueryError>)
    ensures
        match state.highest_bid {
            Some(hb) => r matches Ok(b) && b.address@ == hb.0@ && b.amount == hb.1,
            None => r == Err::<BidResponse, QueryError>(QueryError::NotFound),
        },
{
    match &state.highest_bid {
        Some(hb) => Ok(BidResponse { address: hb.0.clone(), amount: hb.1 }),
        None => Err(QueryError::NotFound),
    }
}

/// Whether the auction has been closed.
pub fn bidding_completed(state: &State) -> (r: bool)
    ensures
        r == (state.current_status == Status::Closed),
{
    state.current_status == Status::Closed
}

/// The winner and the winning amount, available only once the auction is
/// closed.
pub fn winning_bid(state: &State) -> (r: Result<BidResponse, QueryError>)
    ensures
        state.current_status == Status::Open ==> r == Err::<BidResponse, QueryError>(
            QueryError::AuctionOpen,
        ),
        state.current_status == Status::Closed ==> match state.highest_bid {
            Some(hb) => r matches Ok(b) && b.address@ == hb.0@ && b.amount == hb.1,
            None => r == Err::<BidResponse, QueryError>(QueryError::NotFound),
        },
{
    if state.current_status == Status::Open {
        return Err(QueryError::AuctionOpen);
    }
    highest_bid(state)
}

/// Dispatches a read-only request to the query it names.
pub fn query(state: &State, bids: &Ledger, msg: QueryMsg) -> (r: Result<QueryAnswer, QueryError>)
    requires
        bids.wf(),
    ensures
        (msg matches QueryMsg::TotalBids { address } ==> r == (if bids@.contains_key(address@) {
            Ok::<QueryAnswer, QueryError>(QueryAnswer::TotalBids(bids@[address@]))
        } else {
            Err::<QueryAnswer, QueryError>(QueryError::NotFound)
        })),
        msg == (QueryMsg::HighestBid {}) ==> match state.highest_bid {
            Some(hb) => r matches Ok(QueryAnswer::HighestBid(b)) && b.address@ == hb.0@
                && b.amount == hb.1,
            None => r == Err::<QueryAnswer, QueryError>(QueryError::NotFound),
        },
        msg == (QueryMsg::BiddingCompleted {}) ==> r == Ok::<QueryAnswer, QueryError>(
            QueryAnswer::BiddingCompleted(state.current_status == Status::Closed),
        ),
        msg == (QueryMsg::WinningBid {}) ==> {
            &&& state.current_status == Status::Open ==> r == Err::<QueryAnswer, QueryError>(
                QueryError::AuctionOpen,
            )
            &&& state.current_status == Status::Closed ==> match state.highest_bid {
                Some(hb) => r matches Ok(QueryAnswer::WinningBid(b)) && b.address@ == hb.0@
                    && b.amount == hb.1,
                None => r == Err::<QueryAnswer, QueryError>(QueryError::NotFound),
            }
        },
{
    match msg {
        QueryMsg::TotalBids { address } => match total_bids(bids, address) {
            Ok(a) => Ok(QueryAnswer::TotalBids(a)),
            Err(e) => Err(e),
        },
        QueryMsg::HighestBid {} => match highest_bid(state) {
            Ok(b) => Ok(QueryAnswer::HighestBid(b)),
            Err(e) => Err(e),
        },
        QueryMsg::BiddingCompleted {} => Ok(QueryAnswer::BiddingCompleted(bidding_completed(state))),
        QueryMsg::WinningBid {} => match winning_bid(state) {
            Ok(b) => Ok(QueryAnswer::WinningBid(b)),
            Err(e) => Err(e),
        },
    }
}

} // verus!
