use ao::{
    determine_winner, is_auction_active_at, Auction, AuctionError, AuctionProcess, AuctionStatus,
    Bid, Timestamp,
};

const T0: i64 = 1_700_000_000;

fn at(offset: i64) -> Timestamp {
    Timestamp::new(T0 + offset, 0)
}

fn text(s: &str) -> String {
    s.to_string()
}

fn copies(bids: Vec<&Bid>) -> Vec<Bid> {
    let mut out: Vec<Bid> = Vec::new();
    for bid in bids {
        out.push(Bid {
            auction_id: bid.auction_id.clone(),
            bidder: bid.bidder.clone(),
            amount: bid.amount,
            timestamp: bid.timestamp,
        });
    }
    out
}

fn open_auction(name: &str, starting_price: u64) -> AuctionProcess {
    let mut process = AuctionProcess::new(None);
    process.create_auction(text(name), text("S"), at(0), at(3600), starting_price).unwrap();
    process.activate_auction(text(name)).unwrap();
    process
}

#[test]
fn scenario_auction_from_creation_to_winner() {
    let mut process = AuctionProcess::new(None);
    assert_eq!(process.create_auction(text("d1.ao"), text("S"), at(0), at(3600), 100), Ok(()));
    assert_eq!(process.activate_auction(text("d1.ao")), Ok(()));

    assert_eq!(process.place_bid_at(text("d1.ao"), text("B1"), 150, at(10)), Ok(()));
    assert_eq!(process.get_auction("d1.ao").unwrap().current_price, 150);

    assert_eq!(
        process.place_bid_at(text("d1.ao"), text("B2"), 150, at(20)),
        Err(AuctionError::BidTooLow)
    );
    assert_eq!(process.get_auction("d1.ao").unwrap().current_price, 150);
    assert_eq!(process.get_auction("d1.ao").unwrap().highest_bidder, Some(text("B1")));

    assert_eq!(process.place_bid_at(text("d1.ao"), text("B2"), 200, at(30)), Ok(()));
    assert_eq!(process.get_auction("d1.ao").unwrap().current_price, 200);

    assert_eq!(process.settle_auction_at(text("d1.ao"), at(3601)), Ok(()));
    let auction = process.get_auction("d1.ao").unwrap();
    assert_eq!(auction.status, AuctionStatus::Completed);
    assert_eq!(auction.highest_bidder, Some(text("B2")));
    let bids = copies(process.get_bids("d1.ao"));
    assert_eq!(determine_winner(auction, &bids), Some(text("B2")));
}

#[test]
fn new_auction_is_pending_at_its_starting_price() {
    let mut process = AuctionProcess::new(None);
    process.create_auction(text("d1.ao"), text("S"), at(5), at(50), 100).unwrap();
    let auction = process.get_auction("d1.ao").unwrap();
    assert_eq!(auction.domain_name, "d1.ao");
    assert_eq!(auction.seller, "S");
    assert_eq!(auction.start_time, at(5));
    assert_eq!(auction.end_time, at(50));
    assert_eq!(auction.starting_price, 100);
    assert_eq!(auction.current_price, 100);
    assert_eq!(auction.highest_bidder, None);
    assert_eq!(auction.status, AuctionStatus::Pending);
    assert!(process.get_bids("d1.ao").is_empty());
    assert!(process.get_auction("d2.ao").is_none());
}

#[test]
fn second_live_auction_of_an_asset_is_a_duplicate() {
    let mut process = AuctionProcess::new(None);
    process.create_auction(text("d1.ao"), text("S"), at(0), at(3600), 100).unwrap();
    assert_eq!(
        process.create_auction(text("d1.ao"), text("T"), at(1), at(2), 7),
        Err(AuctionError::DuplicateAuction)
    );
    assert_eq!(process.get_auction("d1.ao").unwrap().seller, "S");

    process.activate_auction(text("d1.ao")).unwrap();
    assert_eq!(
        process.create_auction(text("d1.ao"), text("T"), at(1), at(2), 7),
        Err(AuctionError::DuplicateAuction)
    );
    assert_eq!(process.get_auction("d1.ao").unwrap().starting_price, 100);

    assert_eq!(process.create_auction(text("d2.ao"), text("T"), at(1), at(2), 7), Ok(()));
}

#[test]
fn completed_asset_can_be_auctioned_again() {
    let mut process = open_auction("d1.ao", 100);
    process.place_bid_at(text("d1.ao"), text("B1"), 150, at(10)).unwrap();
    process.settle_auction_at(text("d1.ao"), at(3600)).unwrap();

    assert_eq!(process.create_auction(text("d1.ao"), text("B1"), at(4000), at(5000), 300), Ok(()));
    let auction = process.get_auction("d1.ao").unwrap();
    assert_eq!(auction.status, AuctionStatus::Pending);
    assert_eq!(auction.seller, "B1");
    assert_eq!(auction.current_price, 300);
    assert_eq!(process.activate_auction(text("d1.ao")), Ok(()));
    assert_eq!(process.place_bid_at(text("d1.ao"), text("B3"), 301, at(4500)), Ok(()));
    assert_eq!(process.get_auction("d1.ao").unwrap().highest_bidder, Some(text("B3")));
    assert_eq!(process.get_bids("d1.ao").len(), 2);
}

#[test]
fn unknown_asset_is_not_found() {
    let mut process = AuctionProcess::new(None);
    assert_eq!(process.activate_auction(text("none.ao")), Err(AuctionError::NotFound));
    assert_eq!(
        process.place_bid_at(text("none.ao"), text("B1"), 1, at(0)),
        Err(AuctionError::NotFound)
    );
    assert_eq!(process.settle_auction_at(text("none.ao"), at(0)), Err(AuctionError::NotFound));
    assert_eq!(process.place_bid(text("none.ao"), text("B1"), 1), Err(AuctionError::NotFound));
    assert_eq!(process.settle_auction(text("none.ao")), Err(AuctionError::NotFound));
}

#[test]
fn activation_needs_a_pending_auction() {
    let mut process = open_auction("d1.ao", 100);
    assert_eq!(process.activate_auction(text("d1.ao")), Err(AuctionError::InvalidState));
    assert_eq!(process.get_auction("d1.ao").unwrap().status, AuctionStatus::Active);

    process.place_bid_at(text("d1.ao"), text("B1"), 150, at(10)).unwrap();
    process.settle_auction_at(text("d1.ao"), at(3600)).unwrap();
    assert_eq!(process.activate_auction(text("d1.ao")), Err(AuctionError::InvalidState));
    assert_eq!(process.get_auction("d1.ao").unwrap().status, AuctionStatus::Completed);
}

#[test]
fn bid_before_activation_is_refused_for_the_state() {
    let mut process = AuctionProcess::new(None);
    process.create_auction(text("d1.ao"), text("S"), at(0), at(3600), 100).unwrap();
    let refusal = process.place_bid_at(text("d1.ao"), text("B1"), 150, at(10)).unwrap_err();
    assert_eq!(refusal, AuctionError::InvalidState);
    assert!(refusal.is_not_active());
    let auction = process.get_auction("d1.ao").unwrap();
    assert_eq!(auction.current_price, 100);
    assert_eq!(auction.highest_bidder, None);
    assert!(process.get_bids("d1.ao").is_empty());
}

#[test]
fn bid_window_includes_both_ends() {
    let mut process = open_auction("d1.ao", 100);
    let before = Timestamp::new(T0 - 1, 999_999_999);
    let after = Timestamp::new(T0 + 3600, 1);

    let early = process.place_bid_at(text("d1.ao"), text("B1"), 150, before).unwrap_err();
    assert_eq!(early, AuctionError::AuctionNotStarted);
    assert!(early.is_not_active());
    let late = process.place_bid_at(text("d1.ao"), text("B1"), 150, after).unwrap_err();
    assert_eq!(late, AuctionError::AuctionWindowClosed);
    assert!(late.is_not_active());
    assert!(process.get_bids("d1.ao").is_empty());

    assert_eq!(process.place_bid_at(text("d1.ao"), text("B1"), 150, at(0)), Ok(()));
    assert_eq!(process.place_bid_at(text("d1.ao"), text("B2"), 160, at(3600)), Ok(()));
    assert_eq!(process.get_auction("d1.ao").unwrap().current_price, 160);
}

#[test]
fn low_bid_is_refused_and_changes_nothing() {
    let mut process = open_auction("d1.ao", 100);
    for amount in [0u64, 99, 100] {
        let refusal = process.place_bid_at(text("d1.ao"), text("B1"), amount, at(10)).unwrap_err();
        assert_eq!(refusal, AuctionError::BidTooLow);
        assert!(!refusal.is_not_active());
    }
    let auction = process.get_auction("d1.ao").unwrap();
    assert_eq!(auction.current_price, 100);
    assert_eq!(auction.highest_bidder, None);
    assert_eq!(auction.status, AuctionStatus::Active);
    assert!(process.get_bids("d1.ao").is_empty());

    assert_eq!(process.place_bid_at(text("d1.ao"), text("B1"), 101, at(10)), Ok(()));
    assert_eq!(
        process.place_bid_at(text("d1.ao"), text("B2"), 101, at(11)),
        Err(AuctionError::BidTooLow)
    );
    assert_eq!(process.get_auction("d1.ao").unwrap().highest_bidder, Some(text("B1")));
    assert_eq!(process.get_bids("d1.ao").len(), 1);
}

#[test]
fn price_never_falls_and_never_lies_under_the_starting_price() {
    let mut process = open_auction("d1.ao", 100);
    let offers: [u64; 8] = [150, 120, 150, 151, 100, 400, 399, u64::MAX];
    let mut last = 100;
    let mut accepted = 0;
    for (k, amount) in offers.iter().enumerate() {
        let result = process.place_bid_at(text("d1.ao"), text("B"), *amount, at(k as i64));
        let price = process.get_auction("d1.ao").unwrap().current_price;
        assert!(price >= last);
        assert!(price >= 100);
        if result.is_ok() {
            assert_eq!(price, *amount);
            accepted += 1;
        } else {
            assert_eq!(price, last);
        }
        last = price;
    }
    assert_eq!(accepted, 4);
    assert_eq!(last, u64::MAX);
    assert_eq!(process.get_bids("d1.ao").len(), 4);
}

#[test]
fn accepted_bid_is_recorded_with_its_time() {
    let mut process = open_auction("d1.ao", 100);
    let moment = Timestamp::new(T0 + 7, 123_456_789);
    process.place_bid_at(text("d1.ao"), text("B1"), 150, moment).unwrap();
    let bids = process.get_bids("d1.ao");
    assert_eq!(bids.len(), 1);
    assert_eq!(bids[0].auction_id, "d1.ao");
    assert_eq!(bids[0].bidder, "B1");
    assert_eq!(bids[0].amount, 150);
    assert_eq!(bids[0].timestamp, moment);
}

#[test]
fn bids_are_kept_per_asset_in_order() {
    let mut process = open_auction("d1.ao", 100);
    process.create_auction(text("d2.ao"), text("S"), at(0), at(3600), 10).unwrap();
    process.activate_auction(text("d2.ao")).unwrap();
    process.place_bid_at(text("d1.ao"), text("B1"), 150, at(1)).unwrap();
    process.place_bid_at(text("d2.ao"), text("B2"), 20, at(2)).unwrap();
    process.place_bid_at(text("d1.ao"), text("B3"), 160, at(3)).unwrap();

    let first = process.get_bids("d1.ao");
    assert_eq!(first.len(), 2);
    assert_eq!((first[0].bidder.as_str(), first[0].amount), ("B1", 150));
    assert_eq!((first[1].bidder.as_str(), first[1].amount), ("B3", 160));
    let second = process.get_bids("d2.ao");
    assert_eq!(second.len(), 1);
    assert_eq!((second[0].bidder.as_str(), second[0].amount), ("B2", 20));
    assert!(process.get_bids("d3.ao").is_empty());
    assert_eq!(process.get_auction("d2.ao").unwrap().current_price, 20);
    assert_eq!(process.get_auction("d1.ao").unwrap().current_price, 160);
}

#[test]
fn settle_needs_an_active_auction() {
    let mut process = AuctionProcess::new(None);
    process.create_auction(text("d1.ao"), text("S"), at(0), at(3600), 100).unwrap();
    assert_eq!(process.settle_auction_at(text("d1.ao"), at(4000)), Err(AuctionError::InvalidState));
    assert_eq!(process.get_auction("d1.ao").unwrap().status, AuctionStatus::Pending);

    process.activate_auction(text("d1.ao")).unwrap();
    process.place_bid_at(text("d1.ao"), text("B1"), 150, at(10)).unwrap();
    assert_eq!(process.settle_auction_at(text("d1.ao"), at(4000)), Ok(()));
    assert_eq!(process.settle_auction_at(text("d1.ao"), at(4001)), Err(AuctionError::InvalidState));
    assert_eq!(
        process.place_bid_at(text("d1.ao"), text("B2"), 500, at(20)),
        Err(AuctionError::InvalidState)
    );
    assert_eq!(process.get_auction("d1.ao").unwrap().current_price, 150);
}

#[test]
fn settle_waits_for_the_end_time() {
    let mut process = open_auction("d1.ao", 100);
    process.place_bid_at(text("d1.ao"), text("B1"), 150, at(10)).unwrap();
    let just_before = Timestamp::new(T0 + 3599, 999_999_999);
    assert_eq!(process.settle_auction_at(text("d1.ao"), just_before), Err(AuctionError::NotEnded));
    assert_eq!(process.get_auction("d1.ao").unwrap().status, AuctionStatus::Active);
    assert_eq!(process.settle_auction_at(text("d1.ao"), at(3600)), Ok(()));
    assert_eq!(process.get_auction("d1.ao").unwrap().status, AuctionStatus::Completed);
}

#[test]
fn settle_without_bids_finds_no_winner() {
    let mut process = open_auction("d1.ao", 100);
    assert_eq!(process.settle_auction_at(text("d1.ao"), at(3600)), Err(AuctionError::NoWinner));
    let auction = process.get_auction("d1.ao").unwrap();
    assert_eq!(auction.status, AuctionStatus::Active);
    assert_eq!(auction.current_price, 100);
    assert_eq!(auction.highest_bidder, None);
    assert_eq!(determine_winner(auction, &[]), None);
}

#[test]
fn auction_is_active_only_inside_its_window() {
    let mut process = AuctionProcess::new(None);
    process.create_auction(text("d1.ao"), text("S"), at(0), at(3600), 100).unwrap();
    assert!(!is_auction_active_at(process.get_auction("d1.ao").unwrap(), at(10)));
    process.activate_auction(text("d1.ao")).unwrap();
    let auction = process.get_auction("d1.ao").unwrap();
    assert!(is_auction_active_at(auction, at(0)));
    assert!(is_auction_active_at(auction, at(10)));
    assert!(is_auction_active_at(auction, at(3600)));
    assert!(!is_auction_active_at(auction, at(-1)));
    assert!(!is_auction_active_at(auction, at(3601)));
    assert!(!is_auction_active_at(auction, Timestamp::new(T0 + 3600, 1)));
}

fn bid(asset: &str, bidder: &str, amount: u64, secs: i64, nanos: u32) -> Bid {
    Bid {
        auction_id: text(asset),
        bidder: text(bidder),
        amount,
        timestamp: Timestamp::new(secs, nanos),
    }
}

fn auction_of(asset: &str, status: AuctionStatus) -> Auction {
    Auction {
        domain_name: text(asset),
        seller: text("S"),
        start_time: at(0),
        end_time: at(3600),
        starting_price: 100,
        current_price: 100,
        highest_bidder: None,
        status,
    }
}

#[test]
fn winner_is_the_highest_bid_on_the_asset() {
    let bids = vec![
        bid("d1.ao", "B1", 150, 10, 0),
        bid("d2.ao", "B9", 900, 11, 0),
        bid("d1.ao", "B2", 200, 12, 0),
        bid("d1.ao", "B3", 180, 13, 0),
    ];
    assert_eq!(
        determine_winner(&auction_of("d1.ao", AuctionStatus::Completed), &bids),
        Some(text("B2"))
    );
    assert_eq!(
        determine_winner(&auction_of("d2.ao", AuctionStatus::Completed), &bids),
        Some(text("B9"))
    );
    assert_eq!(determine_winner(&auction_of("d3.ao", AuctionStatus::Completed), &bids), None);
}

#[test]
fn winner_does_not_depend_on_the_status() {
    let bids = vec![bid("d1.ao", "B1", 150, 10, 0), bid("d1.ao", "B2", 200, 12, 0)];
    for status in [
        AuctionStatus::Pending,
        AuctionStatus::Active,
        AuctionStatus::Completed,
        AuctionStatus::Cancelled,
    ] {
        assert_eq!(determine_winner(&auction_of("d1.ao", status), &bids), Some(text("B2")));
    }
}

#[test]
fn earliest_of_the_highest_bids_wins_a_tie() {
    let auction = auction_of("d1.ao", AuctionStatus::Active);
    let later_first = vec![
        bid("d1.ao", "B1", 200, 30, 0),
        bid("d1.ao", "B2", 200, 20, 5),
        bid("d1.ao", "B3", 200, 20, 4),
        bid("d1.ao", "B4", 199, 1, 0),
    ];
    assert_eq!(determine_winner(&auction, &later_first), Some(text("B3")));

    let same_instant = vec![
        bid("d1.ao", "B1", 150, 5, 0),
        bid("d1.ao", "B2", 200, 20, 7),
        bid("d1.ao", "B3", 200, 20, 7),
    ];
    assert_eq!(determine_winner(&auction, &same_instant), Some(text("B2")));

    let higher_later = vec![bid("d1.ao", "B1", 200, 1, 0), bid("d1.ao", "B2", 201, 99, 0)];
    assert_eq!(determine_winner(&auction, &higher_later), Some(text("B2")));
}

#[test]
fn auction_refusals_have_words() {
    assert_eq!(AuctionError::NotFound.message(), "Auction not found");
    assert_eq!(AuctionError::DuplicateAuction.message(), "Auction already exists for this asset");
    assert_eq!(
        AuctionError::InvalidState.message(),
        "Auction is not in the state that this needs"
    );
    assert_eq!(AuctionError::AuctionNotStarted.message(), "Auction has not started");
    assert_eq!(AuctionError::AuctionWindowClosed.message(), "Auction window has closed");
    assert_eq!(
        AuctionError::BidTooLow.message(),
        "Bid amount must be higher than current price"
    );
    assert_eq!(AuctionError::NotEnded.message(), "Auction has not ended");
    assert_eq!(AuctionError::NoWinner.message(), "No winner determined");
    assert!(!AuctionError::NotFound.is_not_active());
    assert!(!AuctionError::NoWinner.is_not_active());
    assert!(AuctionStatus::Pending.live());
    assert!(AuctionStatus::Active.live());
    assert!(!AuctionStatus::Completed.live());
    assert!(!AuctionStatus::Cancelled.live());
}
