//! The escrow engine as a state machine over sequences.
//!
//! Each operation of the engine is described by two functions of the state
//! before the call: its outcome, and the state that a successful call leaves.
//! A refused call leaves the state as it was.

use crate::escrow::ids::escrow_id_text;
use crate::escrow::types::{
    EscrowError, EscrowStatus, EscrowTransactionView, SettlementRecordView,
};
use crate::time::Timestamp;
use vstd::prelude::*;

verus! {

/// The mathematical state of the escrow engine: the transactions in the
/// order of their creation, and the settlement records in its keeping.
pub struct EscrowStateView {
    pub transactions: Seq<EscrowTransactionView>,
    pub settlements: Seq<SettlementRecordView>,
}

impl EscrowTransactionView {
    /// What holds of every transaction that the engine keeps: it was not
    /// updated before it was created.
    pub open spec fn well_formed(self) -> bool {
        self.created_at.not_after(self.updated_at)
    }

    /// The time of the last update once the transaction was touched at
    /// `now`: it is `now`, unless `now` lies before the transaction's
    /// creation, where it stays what it was.
    pub open spec fn updated_at_after(self, now: Timestamp) -> Timestamp {
        if self.created_at.not_after(now) {
            now
        } else {
            self.updated_at
        }
    }

    /// The transaction moved to the status `to` at `now`.
    pub open spec fn moved(self, to: EscrowStatus, now: Timestamp) -> EscrowTransactionView {
        EscrowTransactionView { status: to, updated_at: self.updated_at_after(now), ..self }
    }

    /// `next` is a later stage of the same transaction: its identifier, its
    /// terms and its time of creation stay, and the status stays or moves on
    /// by permitted moves.
    pub open spec fn evolves_to(self, next: EscrowTransactionView) -> bool {
        &&& next.id == self.id
        &&& next.domain_name == self.domain_name
        &&& next.seller == self.seller
        &&& next.buyer == self.buyer
        &&& next.amount == self.amount
        &&& next.created_at == self.created_at
        &&& self.status.reaches(next.status)
    }

    /// Whether the transaction can be settled: only a released one can.
    pub open spec fn settle_outcome(self) -> Result<(), EscrowError> {
        if self.status is Released {
            Ok(())
        } else {
            Err(EscrowError::InvalidState)
        }
    }

    /// The record of this transaction's settlement at `now`, on the outside
    /// proof `transaction_hash`.
    pub open spec fn settlement(
        self,
        transaction_hash: Seq<char>,
        now: Timestamp,
    ) -> SettlementRecordView {
        SettlementRecordView {
            escrow_id: self.id,
            domain_name: self.domain_name,
            seller: self.seller,
            buyer: self.buyer,
            amount: self.amount,
            settled_at: now,
            transaction_hash,
        }
    }
}

impl EscrowStateView {
    /// `i` is the transaction that `id` refers to: the first one that has
    /// the identifier.
    pub open spec fn is_position(self, id: Seq<char>, i: int) -> bool {
        &&& 0 <= i < self.transactions.len()
        &&& self.transactions[i].id == id
        &&& forall|j: int| 0 <= j < i ==> (#[trigger] self.transactions[j]).id != id
    }

    /// The index of the transaction that `id` refers to, if there is one.
    pub open spec fn position(self, id: Seq<char>) -> Option<int> {
        if exists|i: int| self.is_position(id, i) {
            Some(choose|i: int| self.is_position(id, i))
        } else {
            None
        }
    }

    /// Some transaction has the identifier `id`.
    pub open spec fn has_transaction(self, id: Seq<char>) -> bool {
        exists|i: int|
            0 <= i < self.transactions.len() && (#[trigger] self.transactions[i]).id == id
    }

    /// What holds of every state that the engine reaches, as long as no
    /// caller has tampered with a transaction that it was handed: each
    /// transaction is well formed and has the identifier that its serial
    /// number and its second of creation give.
    pub open spec fn well_formed(self) -> bool {
        forall|i: int|
            0 <= i < self.transactions.len() ==> {
                &&& (#[trigger] self.transactions[i]).well_formed()
                &&& self.transactions[i].id == escrow_id_text(
                    self.transactions[i].created_at.secs as int,
                    i as nat,
                )
            }
    }

    /// Every identifier refers in `next` to the transaction that it refers
    /// to here.
    pub open spec fn refers_as(self, next: EscrowStateView) -> bool {
        forall|id: Seq<char>| #[trigger] next.position(id) == self.position(id)
    }

    /// The state with the transaction at `i` replaced by `transaction`.
    pub open spec fn with_transaction(
        self,
        i: int,
        transaction: EscrowTransactionView,
    ) -> EscrowStateView {
        EscrowStateView {
            transactions: self.transactions.update(i, transaction),
            settlements: self.settlements,
        }
    }

    /// `next` is a state that the engine may reach from this one: no
    /// transaction is lost, each is a later stage of itself, and the
    /// settlement records stand as they were.
    pub open spec fn advances_to(self, next: EscrowStateView) -> bool {
        &&& self.transactions.len() <= next.transactions.len()
        &&& forall|i: int|
            0 <= i < self.transactions.len() ==> (#[trigger] self.transactions[i]).evolves_to(
                next.transactions[i],
            )
        &&& self.settlements.is_prefix_of(next.settlements)
    }

    /// The identifier that the next transaction gets when it is created at
    /// `now`.
    pub open spec fn next_id(self, now: Timestamp) -> Seq<char> {
        escrow_id_text(now.secs as int, self.transactions.len())
    }

    /// The state after a transaction was created at `now`.
    pub open spec fn after_create(
        self,
        domain_name: Seq<char>,
        seller: Seq<char>,
        buyer: Seq<char>,
        amount: u64,
        now: Timestamp,
    ) -> EscrowStateView {
        EscrowStateView {
            transactions: self.transactions.push(
                EscrowTransactionView {
                    id: self.next_id(now),
                    domain_name,
                    seller,
                    buyer,
                    amount,
                    status: EscrowStatus::Pending,
                    created_at: now,
                    updated_at: now,
                },
            ),
            settlements: self.settlements,
        }
    }

    /// Whether the transaction `id` can leave the status `from`.
    pub open spec fn move_outcome(self, id: Seq<char>, from: EscrowStatus) -> Result<
        (),
        EscrowError,
    > {
        match self.position(id) {
            None => Err(EscrowError::NotFound),
            Some(i) => if self.transactions[i].status == from {
                Ok(())
            } else {
                Err(EscrowError::InvalidState)
            },
        }
    }

    /// The state after the transaction `id` moved to the status `to` at
    /// `now`.
    pub open spec fn after_move(
        self,
        id: Seq<char>,
        to: EscrowStatus,
        now: Timestamp,
    ) -> EscrowStateView {
        let i = self.position(id)->Some_0;
        self.with_transaction(i, self.transactions[i].moved(to, now))
    }
}

/// The states that an engine passes through, each advancing to the next.
pub open spec fn is_history(states: Seq<EscrowStateView>) -> bool {
    forall|t: int|
        0 <= t < states.len() - 1 ==> (#[trigger] states[t]).advances_to(states[t + 1])
}

/// The statuses that one transaction passes through, each a permitted move
/// from the one before.
pub open spec fn is_status_path(path: Seq<EscrowStatus>) -> bool {
    forall|t: int| 0 <= t < path.len() - 1 ==> (#[trigger] path[t]).can_become(path[t + 1])
}

} // verus!
