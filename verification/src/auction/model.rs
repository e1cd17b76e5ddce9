//! The auction engine as a state machine over sequences.
//!
//! Each operation of the engine is described by two functions of the state
//! before the call: its outcome, and the state that a successful call leaves.
//! A refused call leaves the state as it was.

use crate::auction::types::{AuctionError, AuctionStatus, AuctionView, BidView};
use crate::time::Timestamp;
use vstd::prelude::*;

verus! {

/// The mathematical state of the auction engine: the auctions in the order
/// of their creation and the accepted bids in the order of their acceptance.
pub struct AuctionStateView {
    pub auctions: Seq<AuctionView>,
    pub bids: Seq<BidView>,
}

/// Bid `a` is preferred to bid `b`: it offers more; or as much, but earlier;
/// or as much at the same instant, but was recorded first.
pub open spec fn outranks(bids: Seq<BidView>, a: int, b: int) -> bool {
    ||| bids[a].amount > bids[b].amount
    ||| bids[a].amount == bids[b].amount && bids[a].timestamp.earlier_than(bids[b].timestamp)
    ||| bids[a].amount == bids[b].amount && bids[a].timestamp == bids[b].timestamp && a < b
}

/// Some bid was recorded on the asset `name`.
pub open spec fn has_bid(bids: Seq<BidView>, name: Seq<char>) -> bool {
    exists|k: int| 0 <= k < bids.len() && (#[trigger] bids[k]).auction_id == name
}

/// `w` is the bid that wins the asset `name`: a bid on it that is preferred
/// to every other bid on it.
pub open spec fn is_winning_bid(bids: Seq<BidView>, name: Seq<char>, w: int) -> bool {
    &&& 0 <= w < bids.len()
    &&& bids[w].auction_id == name
    &&& forall|k: int|
        0 <= k < bids.len() && k != w && (#[trigger] bids[k]).auction_id == name ==> outranks(
            bids,
            w,
            k,
        )
}

/// The index of the winning bid on `name`, if the asset has any bid.
pub open spec fn winning_bid(bids: Seq<BidView>, name: Seq<char>) -> Option<int> {
    if exists|w: int| is_winning_bid(bids, name, w) {
        Some(choose|w: int| is_winning_bid(bids, name, w))
    } else {
        None
    }
}

/// Who wins the asset `name`: the bidder of its winning bid.
pub open spec fn winner(bids: Seq<BidView>, name: Seq<char>) -> Option<Seq<char>> {
    match winning_bid(bids, name) {
        Some(w) => Some(bids[w].bidder),
        None => None,
    }
}

impl AuctionView {
    /// The auction takes bids at `now`: it is active, and `now` lies between
    /// its start and its end, both included.
    pub open spec fn open_at(self, now: Timestamp) -> bool {
        &&& self.status is Active
        &&& self.start_time.not_after(now)
        &&& now.not_after(self.end_time)
    }

    /// What holds of every auction that the engine keeps: the price never
    /// lies under the starting price, there is a highest bidder exactly when
    /// a bid has raised the price, and no bid lands before activation.
    pub open spec fn well_formed(self) -> bool {
        &&& self.starting_price <= self.current_price
        &&& self.highest_bidder is Some <==> self.starting_price < self.current_price
        &&& self.status is Pending || self.status is Cancelled ==> self.highest_bidder is None
    }

    /// `next` is a later stage of the same auction: who sells what and when
    /// stays, the price does not fall, and the status stays or moves on by
    /// permitted moves.
    pub open spec fn evolves_to(self, next: AuctionView) -> bool {
        &&& next.domain_name == self.domain_name
        &&& next.seller == self.seller
        &&& next.start_time == self.start_time
        &&& next.end_time == self.end_time
        &&& next.starting_price == self.starting_price
        &&& self.current_price <= next.current_price
        &&& self.status.reaches(next.status)
    }
}

impl AuctionStateView {
    /// `i` is the auction that `name` refers to: the one most recently
    /// created for the asset.
    pub open spec fn is_current(self, name: Seq<char>, i: int) -> bool {
        &&& 0 <= i < self.auctions.len()
        &&& self.auctions[i].domain_name == name
        &&& forall|j: int|
            i < j < self.auctions.len() ==> (#[trigger] self.auctions[j]).domain_name != name
    }

    /// The index of the auction that `name` refers to, if the asset ever had
    /// an auction.
    pub open spec fn lookup(self, name: Seq<char>) -> Option<int> {
        if exists|i: int| self.is_current(name, i) {
            Some(choose|i: int| self.is_current(name, i))
        } else {
            None
        }
    }

    /// The asset has an auction that is pending or active.
    pub open spec fn has_live_auction(self, name: Seq<char>) -> bool {
        exists|i: int|
            0 <= i < self.auctions.len() && (#[trigger] self.auctions[i]).domain_name == name
                && self.auctions[i].status.is_live()
    }

    /// Every name refers in `next` to the auction that it refers to here.
    pub open spec fn refers_as(self, next: AuctionStateView) -> bool {
        forall|name: Seq<char>| #[trigger] next.lookup(name) == self.lookup(name)
    }

    /// The state with the auction at `i` replaced by `auction`.
    pub open spec fn with_auction(self, i: int, auction: AuctionView) -> AuctionStateView {
        AuctionStateView { auctions: self.auctions.update(i, auction), bids: self.bids }
    }

    /// Some auction was created for `name`.
    pub open spec fn has_auction(self, name: Seq<char>) -> bool {
        exists|i: int|
            0 <= i < self.auctions.len() && (#[trigger] self.auctions[i]).domain_name == name
    }

    /// The auction at `i` is the only one that its asset ever had.
    pub open spec fn sole_auction(self, i: int) -> bool {
        &&& 0 <= i < self.auctions.len()
        &&& forall|j: int|
            0 <= j < self.auctions.len() && (#[trigger] self.auctions[j]).domain_name
                == self.auctions[i].domain_name ==> j == i
    }

    /// The bid that set the price of the auction at `i` is on record: where
    /// the auction has a highest bidder, some bid on its asset is that
    /// bidder's and offers the current price.
    pub open spec fn price_is_on_record(self, i: int) -> bool {
        let auction = self.auctions[i];
        auction.highest_bidder matches Some(bidder) ==> exists|k: int|
            0 <= k < self.bids.len() && (#[trigger] self.bids[k]).auction_id
                == auction.domain_name && self.bids[k].amount == auction.current_price
                && self.bids[k].bidder == bidder
    }

    /// The bids on the asset of the auction at `i` are the bids that this
    /// auction took: each offers more than the one before, none offers more
    /// than the current price, and there is none while the auction has no
    /// highest bidder.
    pub open spec fn bids_belong_to(self, i: int) -> bool {
        let auction = self.auctions[i];
        let name = auction.domain_name;
        &&& forall|k: int|
            0 <= k < self.bids.len() && (#[trigger] self.bids[k]).auction_id == name
                ==> self.bids[k].amount <= auction.current_price
        &&& forall|k: int, m: int|
            0 <= k < m < self.bids.len() && (#[trigger] self.bids[k]).auction_id == name && (
            #[trigger] self.bids[m]).auction_id == name ==> self.bids[k].amount
                < self.bids[m].amount
        &&& auction.highest_bidder is None ==> !has_bid(self.bids, name)
    }

    /// What holds of every state that the engine reaches: each auction is
    /// well formed; of the auctions of one asset only the latest can be
    /// pending or active; every bid was made on an asset that has an auction;
    /// the bid that set an auction's price is on record; and where an asset
    /// had one auction only, the bids on it are that auction's.
    pub open spec fn well_formed(self) -> bool {
        &&& forall|i: int|
            0 <= i < self.auctions.len() ==> (#[trigger] self.auctions[i]).well_formed()
        &&& forall|i: int, j: int|
            0 <= i < j < self.auctions.len() && (#[trigger] self.auctions[i]).domain_name == (
            #[trigger] self.auctions[j]).domain_name ==> !self.auctions[i].status.is_live()
        &&& forall|k: int|
            0 <= k < self.bids.len() ==> self.has_auction((#[trigger] self.bids[k]).auction_id)
        &&& forall|i: int|
            0 <= i < self.auctions.len() ==> #[trigger] self.price_is_on_record(i)
        &&& forall|i: int| #[trigger] self.sole_auction(i) ==> self.bids_belong_to(i)
    }

    /// `next` is a state that the engine may reach from this one: no auction
    /// and no bid is lost, each auction is a later stage of itself, and the
    /// bids recorded so far stand as they were.
    pub open spec fn advances_to(self, next: AuctionStateView) -> bool {
        &&& self.auctions.len() <= next.auctions.len()
        &&& forall|i: int|
            0 <= i < self.auctions.len() ==> (#[trigger] self.auctions[i]).evolves_to(
                next.auctions[i],
            )
        &&& self.bids.is_prefix_of(next.bids)
    }

    /// Whether an auction can be created for `name`.
    pub open spec fn create_outcome(self, name: Seq<char>) -> Result<(), AuctionError> {
        if self.has_live_auction(name) {
            Err(AuctionError::DuplicateAuction)
        } else {
            Ok(())
        }
    }

    /// The state after an auction was created.
    pub open spec fn after_create(
        self,
        name: Seq<char>,
        seller: Seq<char>,
        start_time: Timestamp,
        end_time: Timestamp,
        starting_price: u64,
    ) -> AuctionStateView {
        AuctionStateView {
            auctions: self.auctions.push(
                AuctionView {
                    domain_name: name,
                    seller,
                    start_time,
                    end_time,
                    starting_price,
                    current_price: starting_price,
                    highest_bidder: None,
                    status: AuctionStatus::Pending,
                },
            ),
            bids: self.bids,
        }
    }

    /// Whether the auction of `name` can be activated.
    pub open spec fn activate_outcome(self, name: Seq<char>) -> Result<(), AuctionError> {
        match self.lookup(name) {
            None => Err(AuctionError::NotFound),
            Some(i) => if self.auctions[i].status is Pending {
                Ok(())
            } else {
                Err(AuctionError::InvalidState)
            },
        }
    }

    /// The state after the auction of `name` was activated.
    pub open spec fn after_activate(self, name: Seq<char>) -> AuctionStateView {
        let i = self.lookup(name)->Some_0;
        self.with_auction(
            i,
            AuctionView { status: AuctionStatus::Active, ..self.auctions[i] },
        )
    }

    /// Whether a bid of `amount` on `name` is accepted at `now`.
    pub open spec fn bid_outcome(self, name: Seq<char>, amount: u64, now: Timestamp) -> Result<
        (),
        AuctionError,
    > {
        match self.lookup(name) {
            None => Err(AuctionError::NotFound),
            Some(i) => {
                let auction = self.auctions[i];
                if !(auction.status is Active) {
                    Err(AuctionError::InvalidState)
                } else if now.earlier_than(auction.start_time) {
                    Err(AuctionError::AuctionNotStarted)
                } else if auction.end_time.earlier_than(now) {
                    Err(AuctionError::AuctionWindowClosed)
                } else if amount <= auction.current_price {
                    Err(AuctionError::BidTooLow)
                } else {
                    Ok(())
                }
            },
        }
    }

    /// The state after `bidder`'s bid of `amount` on `name` was accepted at
    /// `now`.
    pub open spec fn after_bid(
        self,
        name: Seq<char>,
        bidder: Seq<char>,
        amount: u64,
        now: Timestamp,
    ) -> AuctionStateView {
        let i = self.lookup(name)->Some_0;
        AuctionStateView {
            auctions: self.auctions.update(
                i,
                AuctionView {
                    current_price: amount,
                    highest_bidder: Some(bidder),
                    ..self.auctions[i]
                },
            ),
            bids: self.bids.push(
                BidView { auction_id: name, bidder, amount, timestamp: now },
            ),
        }
    }

    /// Whether the auction of `name` can be settled at `now`.
    pub open spec fn settle_outcome(self, name: Seq<char>, now: Timestamp) -> Result<
        (),
        AuctionError,
    > {
        match self.lookup(name) {
            None => Err(AuctionError::NotFound),
            Some(i) => {
                let auction = self.auctions[i];
                if !(auction.status is Active) {
                    Err(AuctionError::InvalidState)
                } else if now.earlier_than(auction.end_time) {
                    Err(AuctionError::NotEnded)
                } else if !has_bid(self.bids, name) {
                    Err(AuctionError::NoWinner)
                } else {
                    Ok(())
                }
            },
        }
    }

    /// The state after the auction of `name` was settled.
    pub open spec fn after_settle(self, name: Seq<char>) -> AuctionStateView {
        let i = self.lookup(name)->Some_0;
        self.with_auction(
            i,
            AuctionView { status: AuctionStatus::Completed, ..self.auctions[i] },
        )
    }
}

/// The states that an engine passes through, each advancing to the next.
pub open spec fn is_history(states: Seq<AuctionStateView>) -> bool {
    forall|t: int|
        0 <= t < states.len() - 1 ==> (#[trigger] states[t]).advances_to(states[t + 1])
}

/// The statuses that one auction passes through, each a permitted move from
/// the one before.
pub open spec fn is_status_path(path: Seq<AuctionStatus>) -> bool {
    forall|t: int| 0 <= t < path.len() - 1 ==> (#[trigger] path[t]).can_become(path[t + 1])
}

} // verus!
