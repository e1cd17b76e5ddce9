//! The escrow engine.

use crate::escrow::ids::escrow_id;
use crate::escrow::laws::{lemma_create, lemma_move, lemma_replace};
use crate::escrow::model::EscrowStateView;
use crate::escrow::types::{
    transaction_views, EscrowError, EscrowState, EscrowStatus, EscrowTransaction,
    EscrowTransactionView,
};
use crate::time::{current_time, Timestamp};
use vstd::prelude::*;

verus! {

/// Owns the escrow transactions and runs each through its life.
pub struct EscrowProcess {
    state: EscrowState,
}

impl View for EscrowProcess {
    type V = EscrowStateView;

    closed spec fn view(&self) -> EscrowStateView {
        self.state@
    }
}

impl EscrowProcess {
    /// An engine without transactions.
    pub fn new() -> (process: Self)
        ensures
            process@.transactions.len() == 0,
            process@.settlements.len() == 0,
            process@.well_formed(),
    {
        EscrowProcess { state: EscrowState { transactions: Vec::new(), settlements: Vec::new() } }
    }

    /// The index of the transaction that `id` refers to.
    fn find(&self, id: &String) -> (found: Option<usize>)
        ensures
            match found {
                Some(i) => self@.position(id@) == Some(i as int) && i < self@.transactions.len(),
                None => self@.position(id@) is None,
            },
    {
        let mut i: usize = 0;
        while i < self.state.transactions.len()
            invariant
                i <= self.state.transactions.len(),
                forall|j: int| 0 <= j < i ==> (#[trigger] self@.transactions[j]).id != id@,
            decreases self.state.transactions.len() - i,
        {
            if self.state.transactions[i].id == *id {
                proof {
                    assert(self@.is_position(id@, i as int));
                    let chosen = self@.position(id@)->Some_0;
                    assert(self@.is_position(id@, chosen));
                }
                return Some(i);
            }
            i += 1;
        }
        assert(forall|j: int| !self@.is_position(id@, j));
        None
    }

    /// Opens a pending transaction between `seller` and `buyer` on the
    /// asset `domain_name`, created at `now`, and returns its identifier.
    ///
    /// The call always succeeds. The identifier holds the transaction's
    /// serial number, so that no two transactions of an engine share one,
    /// however close in time they were created.
    pub fn create_escrow_at(
        &mut self,
        domain_name: String,
        seller: String,
        buyer: String,
        amount: u64,
        now: Timestamp,
    ) -> (result: Result<String, EscrowError>)
        ensures
            result matches Ok(id) && id@ == old(self)@.next_id(now),
            final(self)@ == old(self)@.after_create(domain_name@, seller@, buyer@, amount, now),
            old(self)@.advances_to(final(self)@),
            old(self)@.well_formed() ==> {
                &&& final(self)@.well_formed()
                &&& !old(self)@.has_transaction(old(self)@.next_id(now))
                &&& final(self)@.position(old(self)@.next_id(now)) == Some(
                    old(self)@.transactions.len() as int,
                )
            },
            forall|id: Seq<char>|
                old(self)@.has_transaction(id) ==> #[trigger] final(self)@.position(id)
                    == old(self)@.position(id),
    {
        let id = escrow_id(now.secs, self.state.transactions.len() as u64);
        let transaction = EscrowTransaction {
            id: id.clone(),
            domain_name,
            seller,
            buyer,
            amount,
            status: EscrowStatus::Pending,
            created_at: now,
            updated_at: now,
        };
        self.state.transactions.push(transaction);
        proof {
            let before = old(self)@;
            let after = before.after_create(domain_name@, seller@, buyer@, amount, now);
            assert(self@.transactions =~= after.transactions);
            lemma_create(before, domain_name@, seller@, buyer@, amount, now);
        }
        Ok(id)
    }

    /// Opens a transaction at the instant that the system clock reports: see
    /// [`EscrowProcess::create_escrow_at`].
    ///
    /// # Panics
    ///
    /// Panics on a machine whose clock stands before 1970.
    pub fn create_escrow(
        &mut self,
        domain_name: String,
        seller: String,
        buyer: String,
        amount: u64,
    ) -> (result: Result<String, EscrowError>)
        ensures
            result is Ok,
            exists|now: Timestamp|
                {
                    &&& result matches Ok(id) && id@ == #[trigger] old(self)@.next_id(now)
                    &&& final(self)@ == old(self)@.after_create(
                        domain_name@,
                        seller@,
                        buyer@,
                        amount,
                        now,
                    )
                    &&& old(self)@.well_formed() ==> !old(self)@.has_transaction(
                        old(self)@.next_id(now),
                    )
                },
            old(self)@.advances_to(final(self)@),
            old(self)@.well_formed() ==> {
                &&& final(self)@.well_formed()
                &&& result matches Ok(id) && final(self)@.position(id@) == Some(
                    old(self)@.transactions.len() as int,
                )
            },
            forall|id: Seq<char>|
                old(self)@.has_transaction(id) ==> #[trigger] final(self)@.position(id)
                    == old(self)@.position(id),
    {
        let now = current_time();
        self.create_escrow_at(domain_name, seller, buyer, amount, now)
    }

    /// Moves the transaction `escrow_id` from the status `from` to the
    /// status `to` at `now`.
    fn move_at(
        &mut self,
        escrow_id: String,
        from: EscrowStatus,
        to: EscrowStatus,
        now: Timestamp,
    ) -> (result: Result<(), EscrowError>)
        requires
            from.can_become(to),
        ensures
            result == old(self)@.move_outcome(escrow_id@, from),
            final(self)@ == if result is Ok {
                old(self)@.after_move(escrow_id@, to, now)
            } else {
                old(self)@
            },
            old(self)@.advances_to(final(self)@),
            old(self)@.refers_as(final(self)@),
            old(self)@.well_formed() ==> final(self)@.well_formed(),
    {
        let i = match self.find(&escrow_id) {
            Some(i) => i,
            None => {
                return Err(EscrowError::NotFound);
            },
        };
        if self.state.transactions[i].status != from {
            return Err(EscrowError::InvalidState);
        }
        self.state.transactions[i].status = to;
        if !now.is_before(&self.state.transactions[i].created_at) {
            self.state.transactions[i].updated_at = now;
        }
        proof {
            let before = old(self)@;
            assert(self@.transactions =~= before.after_move(escrow_id@, to, now).transactions);
            lemma_move(before, escrow_id@, from, to, now);
        }
        Ok(())
    }

    /// Marks the pending transaction `escrow_id` as funded at `now`.
    ///
    /// Refused as [`EscrowError::NotFound`] where no transaction has the
    /// identifier and as [`EscrowError::InvalidState`] where the transaction
    /// is not pending; a refused call changes nothing.
    pub fn fund_escrow_at(&mut self, escrow_id: String, now: Timestamp) -> (result: Result<
        (),
        EscrowError,
    >)
        ensures
            result == old(self)@.move_outcome(escrow_id@, EscrowStatus::Pending),
            final(self)@ == if result is Ok {
                old(self)@.after_move(escrow_id@, EscrowStatus::Funded, now)
            } else {
                old(self)@
            },
            old(self)@.advances_to(final(self)@),
            old(self)@.refers_as(final(self)@),
            old(self)@.well_formed() ==> final(self)@.well_formed(),
    {
        self.move_at(escrow_id, EscrowStatus::Pending, EscrowStatus::Funded, now)
    }

    /// Marks a transaction as funded at the instant that the system clock
    /// reports: see [`EscrowProcess::fund_escrow_at`].
    ///
    /// # Panics
    ///
    /// Panics on a machine whose clock stands before 1970.
    pub fn fund_escrow(&mut self, escrow_id: String) -> (result: Result<(), EscrowError>)
        ensures
            result == old(self)@.move_outcome(escrow_id@, EscrowStatus::Pending),
            match result {
                Ok(_) => exists|now: Timestamp|
                    final(self)@ == #[trigger] old(self)@.after_move(
                        escrow_id@,
                        EscrowStatus::Funded,
                        now,
                    ),
                Err(_) => final(self)@ == old(self)@,
            },
            old(self)@.advances_to(final(self)@),
            old(self)@.refers_as(final(self)@),
            old(self)@.well_formed() ==> final(self)@.well_formed(),
    {
        let now = current_time();
        self.fund_escrow_at(escrow_id, now)
    }

    /// Marks the funded transaction `escrow_id` as released at `now`.
    ///
    /// Refused as [`EscrowError::NotFound`] where no transaction has the
    /// identifier and as [`EscrowError::InvalidState`] where the transaction
    /// is not funded; a refused call changes nothing.
    pub fn release_escrow_at(&mut self, escrow_id: String, now: Timestamp) -> (result: Result<
        (),
        EscrowError,
    >)
        ensures
            result == old(self)@.move_outcome(escrow_id@, EscrowStatus::Funded),
            final(self)@ == if result is Ok {
                old(self)@.after_move(escrow_id@, EscrowStatus::Released, now)
            } else {
                old(self)@
            },
            old(self)@.advances_to(final(self)@),
            old(self)@.refers_as(final(self)@),
            old(self)@.well_formed() ==> final(self)@.well_formed(),
    {
        self.move_at(escrow_id, EscrowStatus::Funded, EscrowStatus::Released, now)
    }

    /// Marks a transaction as released at the instant that the system clock
    /// reports: see [`EscrowProcess::release_escrow_at`].
    ///
    /// # Panics
    ///
    /// Panics on a machine whose clock stands before 1970.
    pub fn release_escrow(&mut self, escrow_id: String) -> (result: Result<(), EscrowError>)
        ensures
            result == old(self)@.move_outcome(escrow_id@, EscrowStatus::Funded),
            match result {
                Ok(_) => exists|now: Timestamp|
                    final(self)@ == #[trigger] old(self)@.after_move(
                        escrow_id@,
                        EscrowStatus::Released,
                        now,
                    ),
                Err(_) => final(self)@ == old(self)@,
            },
            old(self)@.advances_to(final(self)@),
            old(self)@.refers_as(final(self)@),
            old(self)@.well_formed() ==> final(self)@.well_formed(),
    {
        let now = current_time();
        self.release_escrow_at(escrow_id, now)
    }

    /// Cancels the pending transaction `escrow_id` at `now`. Once a
    /// transaction is funded it can no longer be cancelled.
    ///
    /// Refused as [`EscrowError::NotFound`] where no transaction has the
    /// identifier and as [`EscrowError::InvalidState`] where the transaction
    /// is not pending; a refused call changes nothing.
    pub fn cancel_escrow_at(&mut self, escrow_id: String, now: Timestamp) -> (result: Result<
        (),
        EscrowError,
    >)
        ensures
            result == old(self)@.move_outcome(escrow_id@, EscrowStatus::Pending),
            final(self)@ == if result is Ok {
                old(self)@.after_move(escrow_id@, EscrowStatus::Cancelled, now)
            } else {
                old(self)@
            },
            old(self)@.advances_to(final(self)@),
            old(self)@.refers_as(final(self)@),
            old(self)@.well_formed() ==> final(self)@.well_formed(),
    {
        self.move_at(escrow_id, EscrowStatus::Pending, EscrowStatus::Cancelled, now)
    }

    /// Cancels a transaction at the instant that the system clock reports:
    /// see [`EscrowProcess::cancel_escrow_at`].
    ///
    /// # Panics
    ///
    /// Panics on a machine whose clock stands before 1970.
    pub fn cancel_escrow(&mut self, escrow_id: String) -> (result: Result<(), EscrowError>)
        ensures
            result == old(self)@.move_outcome(escrow_id@, EscrowStatus::Pending),
            match result {
                Ok(_) => exists|now: Timestamp|
                    final(self)@ == #[trigger] old(self)@.after_move(
                        escrow_id@,
                        EscrowStatus::Cancelled,
                        now,
                    ),
                Err(_) => final(self)@ == old(self)@,
            },
            old(self)@.advances_to(final(self)@),
            old(self)@.refers_as(final(self)@),
            old(self)@.well_formed() ==> final(self)@.well_formed(),
    {
        let now = current_time();
        self.cancel_escrow_at(escrow_id, now)
    }

    /// Hands out the transaction that `escrow_id` refers to, to be settled.
    ///
    /// What the caller leaves in the transaction is what the engine then
    /// holds in its place; nothing else changes.
    pub fn get_transaction(&mut self, escrow_id: &str) -> (found: Option<&mut EscrowTransaction>)
        ensures
            match found {
                Some(transaction) => {
                    &&& old(self)@.position(escrow_id@) is Some
                    &&& transaction@ == old(self)@.transactions[old(self)@.position(
                        escrow_id@,
                    )->Some_0]
                    &&& final(self)@ == old(self)@.with_transaction(
                        old(self)@.position(escrow_id@)->Some_0,
                        final(transaction)@,
                    )
                    &&& transaction@.evolves_to(final(transaction)@) ==> {
                        &&& old(self)@.advances_to(final(self)@)
                        &&& old(self)@.refers_as(final(self)@)
                        &&& old(self)@.well_formed() && final(transaction)@.well_formed()
                            ==> final(self)@.well_formed()
                    }
                },
                None => old(self)@.position(escrow_id@) is None && final(self)@ == old(self)@,
            },
    {
        let id = escrow_id.to_owned();
        match self.find(&id) {
            Some(i) => {
                proof {
                    let before = self@;
                    assert forall|t: EscrowTransactionView|
                        before.transactions[i as int].evolves_to(t) implies {
                        &&& before.advances_to(#[trigger] before.with_transaction(i as int, t))
                        &&& before.refers_as(before.with_transaction(i as int, t))
                        &&& before.well_formed() && t.well_formed() ==> before.with_transaction(
                            i as int,
                            t,
                        ).well_formed()
                    } by {
                        lemma_replace(before, i as int, t);
                    }
                    let held = self.state.transactions@;
                    assert forall|t: EscrowTransaction|
                        transaction_views(#[trigger] held.update(i as int, t))
                            == transaction_views(held).update(i as int, t@) by {
                        assert(transaction_views(held.update(i as int, t)) =~= transaction_views(
                            held,
                        ).update(i as int, t@));
                    }
                }
                Some(&mut self.state.transactions[i])
            },
            None => None,
        }
    }
}

} // verus!
