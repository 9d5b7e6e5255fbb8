use bidding::contract::{
    bid, close, execute, highest_bid, instantiate, query, retract, total_bids, winning_bid,
};
use bidding::error::{ContractError, QueryError};
use bidding::msg::{
    BidResponse, Coin, ExecuteMsg, InstantiateMsg, QueryAnswer, QueryMsg, Transfer,
};
use bidding::state::{Config, Ledger, State};

fn coins(amount: u128, denom: &str) -> Vec<Coin> {
    vec![Coin { denom: denom.to_string(), amount }]
}

fn open_auction(threshold: u128) -> (Config, State, Ledger) {
    instantiate(
        InstantiateMsg {
            owner: Some("owner".to_string()),
            denom: "atom".to_string(),
            commission: Some(threshold),
        },
        "anyone".to_string(),
    )
}

#[test]
fn net_bid_formula() {
    // Gross funds F net exactly F - floor(F * 5 / 100) into the ledger.
    let (config, mut state, mut bids) = open_auction(0);

    bid(&config, &mut state, &mut bids, "s".to_string(), coins(1_000_000, "atom")).unwrap();
    assert_eq!(total_bids(&bids, "s".to_string()), Ok(950_000));

    // A second bid adds its own net on top of the first.
    bid(&config, &mut state, &mut bids, "s".to_string(), coins(1_000_001, "atom")).unwrap();
    assert_eq!(total_bids(&bids, "s".to_string()), Ok(950_000 + 950_001));
}

#[test]
fn commission_rounds_down_to_zero() {
    // Below twenty units the 5 percent commission truncates to zero and
    // no commission transfer is emitted.
    let (config, mut state, mut bids) = open_auction(0);

    let resp = bid(&config, &mut state, &mut bids, "s".to_string(), coins(19, "atom")).unwrap();
    assert_eq!(resp.transfer, None);
    assert_eq!(total_bids(&bids, "s".to_string()), Ok(19));

    let resp = bid(&config, &mut state, &mut bids, "s".to_string(), coins(20, "atom")).unwrap();
    assert_eq!(
        resp.transfer,
        Some(Transfer { to_address: "owner".to_string(), amount: 1, denom: "atom".to_string() })
    );
    assert_eq!(total_bids(&bids, "s".to_string()), Ok(19 + 19));
}

#[test]
fn bid_after_close_rejected() {
    let (config, mut state, mut bids) = open_auction(0);
    close(&config, &mut state, &mut bids, "owner".to_string()).unwrap();

    let err = bid(&config, &mut state, &mut bids, "s".to_string(), coins(100, "atom"))
        .unwrap_err();
    assert_eq!(err, ContractError::BiddingClosed);
}

#[test]
fn bid_without_accepted_denom_rejected() {
    let (config, mut state, mut bids) = open_auction(0);

    let err = bid(&config, &mut state, &mut bids, "s".to_string(), coins(100, "btc"))
        .unwrap_err();
    assert_eq!(err, ContractError::InvalidFunds);

    let err = bid(&config, &mut state, &mut bids, "s".to_string(), Vec::new()).unwrap_err();
    assert_eq!(err, ContractError::InvalidFunds);
}

#[test]
fn bid_uses_only_the_accepted_denom() {
    // Coins in other assets are ignored; the one in the accepted asset
    // counts even when it is not first.
    let (config, mut state, mut bids) = open_auction(0);

    let funds = vec![
        Coin { denom: "btc".to_string(), amount: 7 },
        Coin { denom: "atom".to_string(), amount: 2_000 },
    ];
    bid(&config, &mut state, &mut bids, "s".to_string(), funds).unwrap();
    assert_eq!(total_bids(&bids, "s".to_string()), Ok(1_900));
}

#[test]
fn bid_not_exceeding_leader_rejected() {
    let (config, mut state, mut bids) = open_auction(0);

    bid(&config, &mut state, &mut bids, "s1".to_string(), coins(5_000_000, "atom")).unwrap();

    let err = bid(&config, &mut state, &mut bids, "s2".to_string(), coins(4_000_000, "atom"))
        .unwrap_err();
    assert_eq!(
        err,
        ContractError::InvalidBid {
            existing: 0,
            funds: 4_000_000,
            new_bid: 3_800_000,
            max_bid: 4_750_000,
        }
    );

    // The rejected bid left no trace in the ledger.
    assert_eq!(total_bids(&bids, "s2".to_string()), Err(QueryError::NotFound));
    assert_eq!(
        highest_bid(&state).unwrap(),
        BidResponse { address: "s1".to_string(), amount: 4_750_000 }
    );
}

#[test]
fn close_twice_transfers_once() {
    let (config, mut state, mut bids) = open_auction(0);
    bid(&config, &mut state, &mut bids, "s".to_string(), coins(1_000, "atom")).unwrap();

    let resp = close(&config, &mut state, &mut bids, "owner".to_string()).unwrap();
    assert_eq!(
        resp.transfer,
        Some(Transfer { to_address: "owner".to_string(), amount: 950, denom: "atom".to_string() })
    );
    // The winner's funds left escrow for good.
    assert_eq!(total_bids(&bids, "s".to_string()), Err(QueryError::NotFound));

    let err = close(&config, &mut state, &mut bids, "owner".to_string()).unwrap_err();
    assert_eq!(err, ContractError::BiddingClosed);
}

#[test]
fn retract_before_close_rejected() {
    let (config, mut state, mut bids) = open_auction(0);
    bid(&config, &mut state, &mut bids, "s".to_string(), coins(1_000, "atom")).unwrap();

    let err = retract(&config, &state, &mut bids, "s".to_string(), None).unwrap_err();
    assert_eq!(err, ContractError::BiddingActive);
    assert_eq!(total_bids(&bids, "s".to_string()), Ok(950));
}

#[test]
fn retract_exactly_once_after_close() {
    let (config, mut state, mut bids) = open_auction(0);
    bid(&config, &mut state, &mut bids, "s1".to_string(), coins(4_000_000, "atom")).unwrap();
    bid(&config, &mut state, &mut bids, "s2".to_string(), coins(5_000_000, "atom")).unwrap();

    close(&config, &mut state, &mut bids, "owner".to_string()).unwrap();

    // The non-winning bidder gets their full outstanding amount back.
    let resp = retract(&config, &state, &mut bids, "s1".to_string(), None).unwrap();
    assert_eq!(
        resp.transfer,
        Some(Transfer {
            to_address: "s1".to_string(),
            amount: 3_800_000,
            denom: "atom".to_string(),
        })
    );

    // A second retraction by the same bidder fails.
    let err = retract(&config, &state, &mut bids, "s1".to_string(), None).unwrap_err();
    assert_eq!(err, ContractError::InvalidRetract);

    // The winner's entry left the ledger at the close; they cannot retract.
    let err = retract(&config, &state, &mut bids, "s2".to_string(), None).unwrap_err();
    assert_eq!(err, ContractError::InvalidRetract);
}

#[test]
fn retract_to_third_party_receiver() {
    // The funds go to the designated receiver, but the entry removed is
    // the caller's; the receiver needs no ledger entry of their own.
    let (config, mut state, mut bids) = open_auction(0);
    bid(&config, &mut state, &mut bids, "s1".to_string(), coins(4_000_000, "atom")).unwrap();
    bid(&config, &mut state, &mut bids, "s2".to_string(), coins(5_000_000, "atom")).unwrap();
    close(&config, &mut state, &mut bids, "owner".to_string()).unwrap();

    let resp = retract(
        &config,
        &state,
        &mut bids,
        "s1".to_string(),
        Some("third".to_string()),
    )
    .unwrap();
    assert_eq!(
        resp.transfer,
        Some(Transfer {
            to_address: "third".to_string(),
            amount: 3_800_000,
            denom: "atom".to_string(),
        })
    );
    assert_eq!(total_bids(&bids, "s1".to_string()), Err(QueryError::NotFound));
}

#[test]
fn single_bid_escrow_lifecycle() {
    // One bidder, threshold 1,000,000: the contract escrows the net,
    // forwards the commission at once, and the close pays the net to the
    // owner and clears the winner's entry.
    let (config, mut state, mut bids) = open_auction(1_000_000);

    let resp = bid(
        &config,
        &mut state,
        &mut bids,
        "s".to_string(),
        coins(14_000_000, "atom"),
    )
    .unwrap();
    assert_eq!(
        resp.transfer,
        Some(Transfer {
            to_address: "owner".to_string(),
            amount: 700_000,
            denom: "atom".to_string(),
        })
    );
    assert_eq!(total_bids(&bids, "s".to_string()), Ok(13_300_000));
    assert_eq!(
        highest_bid(&state).unwrap(),
        BidResponse { address: "s".to_string(), amount: 13_300_000 }
    );

    let resp = close(&config, &mut state, &mut bids, "owner".to_string()).unwrap();
    assert_eq!(
        resp.transfer,
        Some(Transfer {
            to_address: "owner".to_string(),
            amount: 13_300_000,
            denom: "atom".to_string(),
        })
    );
    assert_eq!(total_bids(&bids, "s".to_string()), Err(QueryError::NotFound));
}

#[test]
fn winning_bid_requires_close() {
    let (config, mut state, mut bids) = open_auction(0);
    bid(&config, &mut state, &mut bids, "s".to_string(), coins(100, "atom")).unwrap();

    assert_eq!(winning_bid(&state), Err(QueryError::AuctionOpen));

    close(&config, &mut state, &mut bids, "owner".to_string()).unwrap();
    assert_eq!(
        winning_bid(&state).unwrap(),
        BidResponse { address: "s".to_string(), amount: 95 }
    );
}

#[test]
fn queries_without_bids_fail_not_found() {
    let (config, mut state, mut bids) = open_auction(0);

    assert_eq!(highest_bid(&state), Err(QueryError::NotFound));
    assert_eq!(total_bids(&bids, "nobody".to_string()), Err(QueryError::NotFound));

    close(&config, &mut state, &mut bids, "owner".to_string()).unwrap();
    assert_eq!(winning_bid(&state), Err(QueryError::NotFound));
}

#[test]
fn instantiate_defaults() {
    // A missing owner defaults to the caller; a missing commission
    // threshold defaults to zero, so a small bid passes.
    let (config, mut state, mut bids) = instantiate(
        InstantiateMsg { owner: None, denom: "atom".to_string(), commission: None },
        "caller".to_string(),
    );
    assert_eq!(config.owner, "caller".to_string());
    assert_eq!(config.commission, 0);

    bid(&config, &mut state, &mut bids, "s".to_string(), coins(40, "atom")).unwrap();
    assert_eq!(total_bids(&bids, "s".to_string()), Ok(38));
}

#[test]
fn execute_dispatches() {
    let (config, mut state, mut bids) = open_auction(0);

    execute(
        &config,
        &mut state,
        &mut bids,
        "s".to_string(),
        coins(1_000, "atom"),
        ExecuteMsg::Bid {},
    )
    .unwrap();

    let err = execute(
        &config,
        &mut state,
        &mut bids,
        "s".to_string(),
        Vec::new(),
        ExecuteMsg::Retract { receiver: None },
    )
    .unwrap_err();
    assert_eq!(err, ContractError::BiddingActive);

    execute(
        &config,
        &mut state,
        &mut bids,
        "owner".to_string(),
        Vec::new(),
        ExecuteMsg::Close {},
    )
    .unwrap();
    assert_eq!(bidding::contract::bidding_completed(&state), true);
}

#[test]
fn query_dispatches() {
    let (config, mut state, mut bids) = open_auction(0);
    bid(&config, &mut state, &mut bids, "s".to_string(), coins(1_000, "atom")).unwrap();

    assert_eq!(
        query(&state, &bids, QueryMsg::TotalBids { address: "s".to_string() }),
        Ok(QueryAnswer::TotalBids(950))
    );
    assert_eq!(
        query(&state, &bids, QueryMsg::HighestBid {}),
        Ok(QueryAnswer::HighestBid(BidResponse { address: "s".to_string(), amount: 950 }))
    );
    assert_eq!(
        query(&state, &bids, QueryMsg::BiddingCompleted {}),
        Ok(QueryAnswer::BiddingCompleted(false))
    );
    assert_eq!(
        query(&state, &bids, QueryMsg::WinningBid {}),
        Err(QueryError::AuctionOpen)
    );
}

#[test]
fn ledger_entries_round_trip() {
    let (config, mut state, mut bids) = open_auction(0);
    bid(&config, &mut state, &mut bids, "s1".to_string(), coins(100, "atom")).unwrap();
    bid(&config, &mut state, &mut bids, "s2".to_string(), coins(200, "atom")).unwrap();

    let stored = bids.entries().clone();
    let rebuilt = Ledger::from_entries(&stored).unwrap();
    assert_eq!(total_bids(&rebuilt, "s1".to_string()), Ok(95));
    assert_eq!(total_bids(&rebuilt, "s2".to_string()), Ok(190));

    let dup = vec![("a".to_string(), 1u128), ("a".to_string(), 2u128)];
    assert!(Ledger::from_entries(&dup).is_none());
}
