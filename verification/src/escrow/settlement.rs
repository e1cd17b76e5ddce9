//! Settling a released escrow transaction, and checking the record of it.

use crate::escrow::types::{EscrowError, EscrowStatus, EscrowTransaction, SettlementRecord};
use crate::time::{current_time, Timestamp};
use vstd::prelude::*;

verus! {

/// Completes the released transaction `escrow` at `now` and hands out the
/// record of its settlement: the terms of the transaction, the outside proof
/// `transaction_hash`, and `now`.
///
/// A transaction that is not released is refused as
/// [`EscrowError::InvalidState`] and stays as it was. The status and the
/// record come in one step: there is a record exactly when the transaction
/// was completed by this call.
pub fn settle_transaction_at(
    escrow: &mut EscrowTransaction,
    transaction_hash: String,
    now: Timestamp,
) -> (result: Result<SettlementRecord, EscrowError>)
    ensures
        match result {
            Ok(record) => {
                &&& old(escrow)@.settle_outcome() is Ok
                &&& record@ == old(escrow)@.settlement(transaction_hash@, now)
                &&& final(escrow)@ == old(escrow)@.moved(EscrowStatus::Completed, now)
            },
            Err(refusal) => {
                &&& old(escrow)@.settle_outcome() == Err::<(), EscrowError>(refusal)
                &&& final(escrow)@ == old(escrow)@
            },
        },
        old(escrow)@.evolves_to(final(escrow)@),
        old(escrow)@.well_formed() ==> final(escrow)@.well_formed(),
{
    if escrow.status != EscrowStatus::Released {
        return Err(EscrowError::InvalidState);
    }
    let settlement = SettlementRecord {
        escrow_id: escrow.id.clone(),
        domain_name: escrow.domain_name.clone(),
        seller: escrow.seller.clone(),
        buyer: escrow.buyer.clone(),
        amount: escrow.amount,
        settled_at: now,
        transaction_hash,
    };
    escrow.status = EscrowStatus::Completed;
    if !now.is_before(&escrow.created_at) {
        escrow.updated_at = now;
    }
    Ok(settlement)
}

/// Settles a transaction at the instant that the system clock reports: see
/// [`settle_transaction_at`].
///
/// # Panics
///
/// Panics on a machine whose clock stands before 1970.
pub fn settle_transaction(escrow: &mut EscrowTransaction, transaction_hash: String) -> (result:
    Result<SettlementRecord, EscrowError>)
    ensures
        match result {
            Ok(record) => exists|now: Timestamp|
                {
                    &&& old(escrow)@.settle_outcome() is Ok
                    &&& record@ == #[trigger] old(escrow)@.settlement(transaction_hash@, now)
                    &&& final(escrow)@ == old(escrow)@.moved(EscrowStatus::Completed, now)
                },
            Err(refusal) => {
                &&& old(escrow)@.settle_outcome() == Err::<(), EscrowError>(refusal)
                &&& final(escrow)@ == old(escrow)@
            },
        },
        old(escrow)@.evolves_to(final(escrow)@),
        old(escrow)@.well_formed() ==> final(escrow)@.well_formed(),
{
    let now = current_time();
    settle_transaction_at(escrow, transaction_hash, now)
}

/// Checks a settlement record with the check that the caller brings, be it
/// a test of the proof's format or a question to an outside ledger, and
/// returns what that check found.
pub fn verify_settlement_with<F: Fn(&SettlementRecord) -> bool>(
    settlement: &SettlementRecord,
    verifier: F,
) -> (valid: bool)
    requires
        call_requires(verifier, (settlement,)),
    ensures
        call_ensures(verifier, (settlement,), valid),
{
    verifier(settlement)
}

/// Checks a settlement record where no outside check is at hand: every
/// record is taken as valid.
pub fn verify_settlement(settlement: &SettlementRecord) -> (valid: bool)
    ensures
        valid,
{
    let accept = |record: &SettlementRecord| -> (accepted: bool)
        ensures
            accepted,
        { true };
    verify_settlement_with(settlement, accept)
}

} // verus!
