//! The data that the escrow engine keeps, and its mathematical view.

use crate::escrow::model::EscrowStateView;
use crate::time::Timestamp;
use vstd::prelude::*;

verus! {

/// Where an escrow transaction stands in its life.
#[derive(Clone, Copy, Debug, PartialEq, Eq, Structural)]
pub enum EscrowStatus {
    Pending,
    Funded,
    Released,
    Cancelled,
    Completed,
}

impl EscrowStatus {
    /// The moves that a transaction's status may make: pending to funded,
    /// funded to released, released to completed, and pending to cancelled.
    pub open spec fn can_become(self, next: EscrowStatus) -> bool {
        ||| self is Pending && next is Funded
        ||| self is Funded && next is Released
        ||| self is Released && next is Completed
        ||| self is Pending && next is Cancelled
    }

    /// `later` is this status or one that follows it, by one move or by
    /// several.
    pub open spec fn reaches(self, later: EscrowStatus) -> bool {
        ||| later == self
        ||| self is Pending
        ||| self is Funded && (later is Released || later is Completed)
        ||| self is Released && later is Completed
    }
}

/// Why an operation of the escrow engine was refused.
#[derive(Clone, Copy, Debug, PartialEq, Eq, Structural)]
pub enum EscrowError {
    /// No transaction has the identifier.
    NotFound,
    /// The transaction's status does not permit the operation.
    InvalidState,
}

impl EscrowError {
    /// The refusal in words.
    pub open spec fn text(self) -> Seq<char> {
        match self {
            EscrowError::NotFound => "Escrow not found"@,
            EscrowError::InvalidState => "Escrow is not in the state that this needs"@,
        }
    }

    /// The refusal in words, for a person to read.
    pub fn message(&self) -> (words: String)
        ensures
            words@ == self.text(),
    {
        match self {
            EscrowError::NotFound => String::from_str("Escrow not found"),
            EscrowError::InvalidState => String::from_str(
                "Escrow is not in the state that this needs",
            ),
        }
    }
}

/// Funds and an asset held between a seller and a buyer.
#[derive(Debug)]
pub struct EscrowTransaction {
    pub id: String,
    pub domain_name: String,
    pub seller: String,
    pub buyer: String,
    pub amount: u64,
    pub status: EscrowStatus,
    pub created_at: Timestamp,
    pub updated_at: Timestamp,
}

/// An [`EscrowTransaction`] with its texts as sequences of characters.
pub struct EscrowTransactionView {
    pub id: Seq<char>,
    pub domain_name: Seq<char>,
    pub seller: Seq<char>,
    pub buyer: Seq<char>,
    pub amount: u64,
    pub status: EscrowStatus,
    pub created_at: Timestamp,
    pub updated_at: Timestamp,
}

impl View for EscrowTransaction {
    type V = EscrowTransactionView;

    open spec fn view(&self) -> EscrowTransactionView {
        EscrowTransactionView {
            id: self.id@,
            domain_name: self.domain_name@,
            seller: self.seller@,
            buyer: self.buyer@,
            amount: self.amount,
            status: self.status,
            created_at: self.created_at,
            updated_at: self.updated_at,
        }
    }
}

impl Clone for EscrowTransaction {
    fn clone(&self) -> (copy: Self)
        ensures
            copy@ == self@,
    {
        EscrowTransaction {
            id: self.id.clone(),
            domain_name: self.domain_name.clone(),
            seller: self.seller.clone(),
            buyer: self.buyer.clone(),
            amount: self.amount,
            status: self.status,
            created_at: self.created_at,
            updated_at: self.updated_at,
        }
    }
}

/// The lasting record that an escrow was completed: the terms of the
/// transaction, the outside proof of the transfer, and when it was settled.
#[derive(Debug)]
pub struct SettlementRecord {
    pub escrow_id: String,
    pub domain_name: String,
    pub seller: String,
    pub buyer: String,
    pub amount: u64,
    pub settled_at: Timestamp,
    pub transaction_hash: String,
}

/// A [`SettlementRecord`] with its texts as sequences of characters.
pub struct SettlementRecordView {
    pub escrow_id: Seq<char>,
    pub domain_name: Seq<char>,
    pub seller: Seq<char>,
    pub buyer: Seq<char>,
    pub amount: u64,
    pub settled_at: Timestamp,
    pub transaction_hash: Seq<char>,
}

impl View for SettlementRecord {
    type V = SettlementRecordView;

    open spec fn view(&self) -> SettlementRecordView {
        SettlementRecordView {
            escrow_id: self.escrow_id@,
            domain_name: self.domain_name@,
            seller: self.seller@,
            buyer: self.buyer@,
            amount: self.amount,
            settled_at: self.settled_at,
            transaction_hash: self.transaction_hash@,
        }
    }
}

/// Everything the escrow engine remembers: the transactions in the order of
/// their creation, and the settlement records in its keeping.
#[derive(Debug)]
pub struct EscrowState {
    pub transactions: Vec<EscrowTransaction>,
    pub settlements: Vec<SettlementRecord>,
}

/// The transactions of a sequence, each by its view.
pub open spec fn transaction_views(transactions: Seq<EscrowTransaction>) -> Seq<
    EscrowTransactionView,
> {
    transactions.map_values(|t: EscrowTransaction| t@)
}

/// The settlement records of a sequence, each by its view.
pub open spec fn settlement_views(settlements: Seq<SettlementRecord>) -> Seq<SettlementRecordView> {
    settlements.map_values(|s: SettlementRecord| s@)
}

impl View for EscrowState {
    type V = EscrowStateView;

    open spec fn view(&self) -> EscrowStateView {
        EscrowStateView {
            transactions: transaction_views(self.transactions@),
            settlements: settlement_views(self.settlements@),
        }
    }
}

} // verus!
