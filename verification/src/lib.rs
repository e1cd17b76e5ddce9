//! Auction and escrow engines for the sale of named assets.
//!
//! Two independent in-memory state machines: [`AuctionProcess`] runs
//! ascending-price auctions and [`EscrowProcess`] runs two-party escrow with
//! settlement. Every operation carries a contract over the mathematical view
//! of the engine, proved by Verus.
//!
//! The engines read the clock only in the operations that take no time; each
//! of these has a twin, named with `_at`, that takes the time as an argument
//! and says exactly what it does with it.
//!
//! # Panics
//!
//! The operations that read the clock do so through `chrono::Utc::now`,
//! which panics on a machine whose clock stands before 1970. They are
//! [`AuctionProcess::place_bid`], [`AuctionProcess::settle_auction`],
//! [`is_auction_active`], [`EscrowProcess::create_escrow`],
//! [`EscrowProcess::fund_escrow`], [`EscrowProcess::release_escrow`],
//! [`EscrowProcess::cancel_escrow`] and [`settle_transaction`]. No other
//! function of the library panics, and the `_at` twins never do.

pub mod auction;
pub mod escrow;
pub mod time;

pub use auction::{
    determine_winner, is_auction_active, is_auction_active_at, validate_bid, Auction,
    AuctionError, AuctionProcess, AuctionState, AuctionStatus, Bid,
};
pub use escrow::{
    settle_transaction, settle_transaction_at, verify_settlement, verify_settlement_with,
    EscrowError, EscrowProcess, EscrowState, EscrowStatus, EscrowTransaction, SettlementRecord,
};
pub use time::Timestamp;
