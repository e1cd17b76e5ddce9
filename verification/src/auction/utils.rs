//! Questions about one auction and about a set of bids.

use crate::auction::laws::lemma_winning_bid_unique;
use crate::auction::model::{has_bid, is_winning_bid, outranks, winner, winning_bid};
use crate::auction::types::{bid_views, Auction, AuctionStatus, Bid};
use crate::time::{current_time, Timestamp};
use vstd::prelude::*;

verus! {

/// Whether the auction takes bids at `now`: it is active and `now` lies
/// between its start and its end, both included.
pub fn is_auction_active_at(auction: &Auction, now: Timestamp) -> (active: bool)
    ensures
        active == auction@.open_at(now),
{
    auction.status == AuctionStatus::Active && !now.is_before(&auction.start_time)
        && !auction.end_time.is_before(&now)
}

/// Whether the auction takes bids at the instant that the system clock
/// reports.
///
/// # Panics
///
/// Panics on a machine whose clock stands before 1970.
pub fn is_auction_active(auction: &Auction) -> (active: bool)
    ensures
        exists|now: Timestamp| active == #[trigger] auction@.open_at(now),
{
    let now = current_time();
    is_auction_active_at(auction, now)
}

/// Whether a bid of `bid_amount` would raise the auction's price.
pub fn validate_bid(auction: &Auction, bid_amount: u64) -> (valid: bool)
    ensures
        valid == (bid_amount > auction.current_price),
{
    bid_amount > auction.current_price
}

/// Who wins the asset of `auction`, going by `bids` alone: the bidder who
/// offered most for it, the earliest such bid winning a tie. The auction's
/// status plays no part.
pub fn determine_winner(auction: &Auction, bids: &[Bid]) -> (result: Option<String>)
    ensures
        result.deep_view() == winner(bid_views(bids@), auction@.domain_name),
        result is Some <==> has_bid(bid_views(bids@), auction@.domain_name),
{
    let ghost views = bid_views(bids@);
    let ghost name = auction@.domain_name;
    let mut best: Option<usize> = None;
    let mut k: usize = 0;
    while k < bids.len()
        invariant
            k <= bids.len(),
            views == bid_views(bids@),
            name == auction@.domain_name,
            match best {
                None => forall|j: int| 0 <= j < k ==> (#[trigger] views[j]).auction_id != name,
                Some(w) => {
                    &&& w < k
                    &&& views[w as int].auction_id == name
                    &&& forall|j: int|
                        0 <= j < k && j != w && (#[trigger] views[j]).auction_id == name
                            ==> outranks(views, w as int, j)
                },
            },
        decreases bids.len() - k,
    {
        let bid = &bids[k];
        if bid.auction_id == auction.domain_name {
            match best {
                None => {
                    best = Some(k);
                },
                Some(w) => {
                    let held = &bids[w];
                    if bid.amount > held.amount || (bid.amount == held.amount
                        && bid.timestamp.is_before(&held.timestamp)) {
                        best = Some(k);
                    }
                },
            }
        }
        k += 1;
    }
    match best {
        None => {
            assert(!has_bid(views, name));
            assert(forall|w: int| !is_winning_bid(views, name, w));
            None
        },
        Some(w) => {
            proof {
                assert(is_winning_bid(views, name, w as int));
                let chosen = winning_bid(views, name)->Some_0;
                lemma_winning_bid_unique(views, name, w as int, chosen);
            }
            Some(bids[w].bidder.clone())
        },
    }
}

} // verus!
