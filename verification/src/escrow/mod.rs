//! The escrow engine.

pub mod escrow;
pub mod ids;
pub mod laws;
pub mod model;
pub mod settlement;
pub mod types;

pub use escrow::EscrowProcess;
pub use settlement::{
    settle_transaction, settle_transaction_at, verify_settlement, verify_settlement_with,
};
pub use types::{EscrowError, EscrowState, EscrowStatus, EscrowTransaction, SettlementRecord};
