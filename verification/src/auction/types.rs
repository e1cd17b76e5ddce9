//! The data that the auction engine keeps, and its mathematical view.

use crate::auction::model::AuctionStateView;
use crate::time::Timestamp;
use vstd::prelude::*;

verus! {

/// Where an auction stands in its life.
#[derive(Clone, Copy, Debug, PartialEq, Eq, Structural)]
pub enum AuctionStatus {
    Pending,
    Active,
    Completed,
    Cancelled,
}

impl AuctionStatus {
    /// A live auction is one that can still change: it is pending or active.
    pub open spec fn is_live(self) -> bool {
        self is Pending || self is Active
    }

    /// The moves that an auction's status may make: a pending auction is
    /// activated or cancelled, an active one is completed, and nothing else
    /// ever happens.
    pub open spec fn can_become(self, next: AuctionStatus) -> bool {
        ||| self is Pending && next is Active
        ||| self is Pending && next is Cancelled
        ||| self is Active && next is Completed
    }

    /// `later` is this status or one that follows it, by one move or by
    /// several.
    pub open spec fn reaches(self, later: AuctionStatus) -> bool {
        ||| later == self
        ||| self.can_become(later)
        ||| self is Pending && later is Completed
    }

    /// Whether the auction is pending or active.
    pub fn live(&self) -> (b: bool)
        ensures
            b == self.is_live(),
    {
        match self {
            AuctionStatus::Pending => true,
            AuctionStatus::Active => true,
            AuctionStatus::Completed => false,
            AuctionStatus::Cancelled => false,
        }
    }
}

/// Why an operation of the auction engine was refused.
#[derive(Clone, Copy, Debug, PartialEq, Eq, Structural)]
pub enum AuctionError {
    /// No auction was ever created for the asset.
    NotFound,
    /// The asset already has a pending or active auction.
    DuplicateAuction,
    /// The auction's status does not permit the operation.
    InvalidState,
    /// A bid arrived before the auction's start time.
    AuctionNotStarted,
    /// A bid arrived after the auction's end time.
    AuctionWindowClosed,
    /// The bid does not exceed the current price.
    BidTooLow,
    /// Settlement was asked for before the auction's end time.
    NotEnded,
    /// Settlement found no bid on the asset.
    NoWinner,
}

impl AuctionError {
    /// The refusal says that the auction was not taking bids: its status was
    /// not active, or the bid came outside its time window.
    pub open spec fn says_not_active(self) -> bool {
        self is InvalidState || self is AuctionNotStarted || self is AuctionWindowClosed
    }

    /// The refusal in words.
    pub open spec fn text(self) -> Seq<char> {
        match self {
            AuctionError::NotFound => "Auction not found"@,
            AuctionError::DuplicateAuction => "Auction already exists for this asset"@,
            AuctionError::InvalidState => "Auction is not in the state that this needs"@,
            AuctionError::AuctionNotStarted => "Auction has not started"@,
            AuctionError::AuctionWindowClosed => "Auction window has closed"@,
            AuctionError::BidTooLow => "Bid amount must be higher than current price"@,
            AuctionError::NotEnded => "Auction has not ended"@,
            AuctionError::NoWinner => "No winner determined"@,
        }
    }

    /// Whether the refusal says that the auction was not taking bids.
    pub fn is_not_active(&self) -> (b: bool)
        ensures
            b == self.says_not_active(),
    {
        match self {
            AuctionError::InvalidState => true,
            AuctionError::AuctionNotStarted => true,
            AuctionError::AuctionWindowClosed => true,
            _ => false,
        }
    }

    /// The refusal in words, for a person to read.
    pub fn message(&self) -> (words: String)
        ensures
            words@ == self.text(),
    {
        match self {
            AuctionError::NotFound => String::from_str("Auction not found"),
            AuctionError::DuplicateAuction => String::from_str(
                "Auction already exists for this asset",
            ),
            AuctionError::InvalidState => String::from_str(
                "Auction is not in the state that this needs",
            ),
            AuctionError::AuctionNotStarted => String::from_str("Auction has not started"),
            AuctionError::AuctionWindowClosed => String::from_str("Auction window has closed"),
            AuctionError::BidTooLow => String::from_str(
                "Bid amount must be higher than current price",
            ),
            AuctionError::NotEnded => String::from_str("Auction has not ended"),
            AuctionError::NoWinner => String::from_str("No winner determined"),
        }
    }
}

/// A time-boxed ascending-price sale of one named asset.
#[derive(Debug, PartialEq, Eq)]
pub struct Auction {
    pub domain_name: String,
    pub seller: String,
    pub start_time: Timestamp,
    pub end_time: Timestamp,
    pub starting_price: u64,
    pub current_price: u64,
    pub highest_bidder: Option<String>,
    pub status: AuctionStatus,
}

/// An [`Auction`] with its texts as sequences of characters.
pub struct AuctionView {
    pub domain_name: Seq<char>,
    pub seller: Seq<char>,
    pub start_time: Timestamp,
    pub end_time: Timestamp,
    pub starting_price: u64,
    pub current_price: u64,
    pub highest_bidder: Option<Seq<char>>,
    pub status: AuctionStatus,
}

impl View for Auction {
    type V = AuctionView;

    open spec fn view(&self) -> AuctionView {
        AuctionView {
            domain_name: self.domain_name@,
            seller: self.seller@,
            start_time: self.start_time,
            end_time: self.end_time,
            starting_price: self.starting_price,
            current_price: self.current_price,
            highest_bidder: match self.highest_bidder {
                Some(bidder) => Some(bidder@),
                None => None,
            },
            status: self.status,
        }
    }
}

/// An accepted offer to pay `amount` for the asset `auction_id`.
#[derive(Debug, PartialEq, Eq)]
pub struct Bid {
    pub auction_id: String,
    pub bidder: String,
    pub amount: u64,
    pub timestamp: Timestamp,
}

/// A [`Bid`] with its texts as sequences of characters.
pub struct BidView {
    pub auction_id: Seq<char>,
    pub bidder: Seq<char>,
    pub amount: u64,
    pub timestamp: Timestamp,
}

impl View for Bid {
    type V = BidView;

    open spec fn view(&self) -> BidView {
        BidView {
            auction_id: self.auction_id@,
            bidder: self.bidder@,
            amount: self.amount,
            timestamp: self.timestamp,
        }
    }
}

/// Everything the auction engine remembers: the auctions in the order of
/// their creation and the accepted bids in the order of their acceptance.
#[derive(Debug)]
pub struct AuctionState {
    pub auctions: Vec<Auction>,
    pub bids: Vec<Bid>,
}

/// The auctions of a sequence, each by its view.
pub open spec fn auction_views(auctions: Seq<Auction>) -> Seq<AuctionView> {
    auctions.map_values(|a: Auction| a@)
}

/// The bids of a sequence, each by its view.
pub open spec fn bid_views(bids: Seq<Bid>) -> Seq<BidView> {
    bids.map_values(|b: Bid| b@)
}

impl View for AuctionState {
    type V = AuctionStateView;

    open spec fn view(&self) -> AuctionStateView {
        AuctionStateView { auctions: auction_views(self.auctions@), bids: bid_views(self.bids@) }
    }
}

} // verus!
