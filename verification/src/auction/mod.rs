//! The auction engine.

pub mod auction;
pub mod laws;
pub mod model;
pub mod types;
pub mod utils;

pub use auction::AuctionProcess;
pub use types::{Auction, AuctionError, AuctionState, AuctionStatus, Bid};
pub use utils::{
    determine_winner, is_auction_active, is_auction_active_at, validate_bid,
};
