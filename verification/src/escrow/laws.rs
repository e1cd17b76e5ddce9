//! What holds of the escrow engine whatever is asked of it.

use crate::escrow::ids::lemma_id_tells_serial;
use crate::escrow::model::{is_history, is_status_path, EscrowStateView};
use crate::escrow::types::{EscrowError, EscrowStatus, EscrowTransactionView};
use crate::time::Timestamp;
use vstd::prelude::*;

verus! {

/// Helper of `lemma_position`: if none of the first `upto` transactions has
/// the identifier and the identifier refers to none, no transaction has it.
proof fn lemma_no_position_no_transaction(state: EscrowStateView, id: Seq<char>, upto: int)
    requires
        0 <= upto <= state.transactions.len(),
        forall|i: int| !state.is_position(id, i),
        forall|j: int| 0 <= j < upto ==> (#[trigger] state.transactions[j]).id != id,
    ensures
        !state.has_transaction(id),
    decreases state.transactions.len() - upto,
{
    if upto < state.transactions.len() {
        if state.transactions[upto].id == id {
            assert(state.is_position(id, upto));
        } else {
            lemma_no_position_no_transaction(state, id, upto + 1);
        }
    }
}

/// An identifier refers to the first transaction that has it, and to none
/// only where no transaction has it.
pub proof fn lemma_position(state: EscrowStateView, id: Seq<char>)
    ensures
        match state.position(id) {
            Some(i) => state.is_position(id, i),
            None => !state.has_transaction(id),
        },
        state.position(id) is Some <==> state.has_transaction(id),
{
    if state.position(id) is None {
        lemma_no_position_no_transaction(state, id, 0);
    } else {
        let i = state.position(id)->Some_0;
        assert(state.is_position(id, i));
        assert(state.transactions[i].id == id);
    }
}

/// Where `i` is the first transaction with the identifier `id`, the
/// identifier refers to it.
pub proof fn lemma_position_is(state: EscrowStateView, id: Seq<char>, i: int)
    requires
        state.is_position(id, i),
    ensures
        state.position(id) == Some(i),
{
    lemma_position(state, id);
}

/// Two states whose transactions have the same identifiers, one by one,
/// refer to the same transaction by every identifier.
pub proof fn lemma_same_ids_refer_alike(state: EscrowStateView, next: EscrowStateView)
    requires
        state.transactions.len() == next.transactions.len(),
        forall|i: int|
            0 <= i < state.transactions.len() ==> (#[trigger] next.transactions[i]).id
                == state.transactions[i].id,
    ensures
        state.refers_as(next),
{
    assert forall|id: Seq<char>| #[trigger] next.position(id) == state.position(id) by {
        lemma_position(state, id);
        lemma_position(next, id);
        match state.position(id) {
            Some(i) => {
                assert(next.transactions[i].id == id);
                assert(next.is_position(id, i));
            },
            None => {
                if next.position(id) is Some {
                    let j = next.position(id)->Some_0;
                    assert(next.transactions[j].id == id);
                    assert(state.transactions[j].id == id);
                }
            },
        }
    }
}

/// In a well-formed state no two transactions have the same identifier.
pub proof fn lemma_ids_unique(state: EscrowStateView, a: int, b: int)
    requires
        state.well_formed(),
        0 <= a < state.transactions.len(),
        0 <= b < state.transactions.len(),
        state.transactions[a].id == state.transactions[b].id,
    ensures
        a == b,
{
    lemma_id_tells_serial(
        state.transactions[a].created_at.secs as int,
        a as nat,
        state.transactions[b].created_at.secs as int,
        b as nat,
    );
}

/// A transaction created in a well-formed state gets an identifier that no
/// transaction has yet, and the state stays well formed and advances.
pub proof fn lemma_create(
    state: EscrowStateView,
    domain_name: Seq<char>,
    seller: Seq<char>,
    buyer: Seq<char>,
    amount: u64,
    now: Timestamp,
)
    ensures
        state.advances_to(state.after_create(domain_name, seller, buyer, amount, now)),
        state.well_formed() ==> !state.has_transaction(state.next_id(now)),
        state.well_formed() ==> state.after_create(
            domain_name,
            seller,
            buyer,
            amount,
            now,
        ).well_formed(),
        ({
            let after = state.after_create(domain_name, seller, buyer, amount, now);
            &&& !state.has_transaction(state.next_id(now)) ==> after.position(state.next_id(now))
                == Some(state.transactions.len() as int)
            &&& forall|id: Seq<char>|
                id != state.next_id(now) || state.has_transaction(id) ==> #[trigger] after.position(
                    id,
                ) == state.position(id)
        }),
{
    let after = state.after_create(domain_name, seller, buyer, amount, now);
    let n = state.transactions.len() as int;
    assert(after.transactions[n].id == state.next_id(now));
    if !state.has_transaction(state.next_id(now)) {
        assert forall|j: int| 0 <= j < n implies (#[trigger] after.transactions[j]).id
            != state.next_id(now) by {
            assert(state.transactions[j].id != state.next_id(now));
        }
        lemma_position_is(after, state.next_id(now), n);
    }
    assert forall|id: Seq<char>|
        id != state.next_id(now) || state.has_transaction(id) implies #[trigger] after.position(id)
            == state.position(id) by {
        lemma_position(state, id);
        lemma_position(after, id);
        match state.position(id) {
            Some(i) => {
                assert(after.transactions[i].id == id);
                assert forall|j: int| 0 <= j < i implies (#[trigger] after.transactions[j]).id
                    != id by {
                    assert(state.transactions[j].id != id);
                }
                lemma_position_is(after, id, i);
            },
            None => {
                if after.position(id) is Some {
                    let j = after.position(id)->Some_0;
                    assert(after.transactions[j].id == id);
                    if j < n {
                        assert(state.transactions[j].id == id);
                    }
                }
            },
        }
    }
    assert forall|i: int| 0 <= i < state.transactions.len() implies (
    #[trigger] state.transactions[i]).evolves_to(after.transactions[i]) by {}
    if state.well_formed() {
        assert forall|i: int| 0 <= i < state.transactions.len() implies (
        #[trigger] state.transactions[i]).id != state.next_id(now) by {
            if state.transactions[i].id == state.next_id(now) {
                lemma_id_tells_serial(
                    state.transactions[i].created_at.secs as int,
                    i as nat,
                    now.secs as int,
                    n as nat,
                );
            }
        }
        assert forall|i: int| 0 <= i < after.transactions.len() implies {
            &&& (#[trigger] after.transactions[i]).well_formed()
            &&& after.transactions[i].id == escrow_id_text_at(after, i)
        } by {
            if i < n {
                assert(state.transactions[i].well_formed());
            }
        }
    }
}

/// The identifier that the transaction at `i` should have.
spec fn escrow_id_text_at(state: EscrowStateView, i: int) -> Seq<char> {
    crate::escrow::ids::escrow_id_text(state.transactions[i].created_at.secs as int, i as nat)
}

/// A permitted move of a transaction's status advances the state, and keeps
/// a well-formed state well formed.
pub proof fn lemma_move(
    state: EscrowStateView,
    id: Seq<char>,
    from: EscrowStatus,
    to: EscrowStatus,
    now: Timestamp,
)
    requires
        state.move_outcome(id, from) is Ok,
        from.can_become(to),
    ensures
        state.advances_to(state.after_move(id, to, now)),
        state.refers_as(state.after_move(id, to, now)),
        state.well_formed() ==> state.after_move(id, to, now).well_formed(),
{
    lemma_position(state, id);
    let i = state.position(id)->Some_0;
    let after = state.after_move(id, to, now);
    lemma_same_ids_refer_alike(state, after);
    assert forall|a: int| 0 <= a < state.transactions.len() implies (
    #[trigger] state.transactions[a]).evolves_to(after.transactions[a]) by {}
    if state.well_formed() {
        assert forall|a: int| 0 <= a < after.transactions.len() implies {
            &&& (#[trigger] after.transactions[a]).well_formed()
            &&& after.transactions[a].id == escrow_id_text_at(after, a)
        } by {
            assert(state.transactions[a].well_formed());
        }
    }
}

/// Whatever a caller does with a transaction that the engine handed out, as
/// long as what it leaves is a later stage of the same transaction and well
/// formed, the engine's state advances, stays well formed, and refers to the
/// same transactions by the same identifiers.
pub proof fn lemma_replace(state: EscrowStateView, i: int, transaction: EscrowTransactionView)
    requires
        0 <= i < state.transactions.len(),
        state.transactions[i].evolves_to(transaction),
    ensures
        state.advances_to(state.with_transaction(i, transaction)),
        state.refers_as(state.with_transaction(i, transaction)),
        state.well_formed() && transaction.well_formed() ==> state.with_transaction(
            i,
            transaction,
        ).well_formed(),
{
    let after = state.with_transaction(i, transaction);
    lemma_same_ids_refer_alike(state, after);
    assert forall|a: int| 0 <= a < state.transactions.len() implies (
    #[trigger] state.transactions[a]).evolves_to(after.transactions[a]) by {}
    if state.well_formed() && transaction.well_formed() {
        assert forall|a: int| 0 <= a < after.transactions.len() implies {
            &&& (#[trigger] after.transactions[a]).well_formed()
            &&& after.transactions[a].id == escrow_id_text_at(after, a)
        } by {
            assert(state.transactions[a].well_formed());
        }
    }
}

/// A status reaches exactly itself and what one, two or three permitted
/// moves lead to; what is reached from a reached status is reached; and no
/// move leads back.
pub proof fn lemma_status_reach(from: EscrowStatus, mid: EscrowStatus, to: EscrowStatus)
    ensures
        from.reaches(to) <==> (from == to || from.can_become(to) || (exists|via: EscrowStatus|
            from.can_become(via) && #[trigger] via.can_become(to)) || (exists|
            via: EscrowStatus,
            then: EscrowStatus,
        |
            from.can_become(via) && #[trigger] via.can_become(then) && #[trigger] then.can_become(
                to,
            ))),
        from.reaches(mid) && mid.reaches(to) ==> from.reaches(to),
        from.reaches(to) && to.reaches(from) ==> from == to,
        from is Completed || from is Cancelled ==> (from.reaches(to) <==> to == from),
{
    let funded = EscrowStatus::Funded;
    let released = EscrowStatus::Released;
    if from is Pending && to is Released {
        assert(from.can_become(funded) && funded.can_become(to));
    }
    if from is Funded && to is Completed {
        assert(from.can_become(released) && released.can_become(to));
    }
    if from is Pending && to is Completed {
        assert(from.can_become(funded) && funded.can_become(released) && released.can_become(to));
    }
}

/// The statuses that a transaction passes through, from pending on, are the
/// start of `Pending`, `Funded`, `Released`, `Completed` or the start of
/// `Pending`, `Cancelled`.
pub proof fn lemma_status_paths(path: Seq<EscrowStatus>)
    requires
        is_status_path(path),
        path.len() >= 1,
        path[0] is Pending,
    ensures
        path.is_prefix_of(
            seq![
                EscrowStatus::Pending,
                EscrowStatus::Funded,
                EscrowStatus::Released,
                EscrowStatus::Completed,
            ],
        ) || path.is_prefix_of(seq![EscrowStatus::Pending, EscrowStatus::Cancelled]),
{
    let full = seq![
        EscrowStatus::Pending,
        EscrowStatus::Funded,
        EscrowStatus::Released,
        EscrowStatus::Completed,
    ];
    let short = seq![EscrowStatus::Pending, EscrowStatus::Cancelled];
    if path.len() >= 2 {
        assert(path[0].can_become(path[1]));
        if path[1] is Cancelled {
            if path.len() >= 3 {
                assert(path[1].can_become(path[2]));
            }
            assert(path =~= short.subrange(0, path.len() as int));
        } else {
            if path.len() >= 3 {
                assert(path[1].can_become(path[2]));
                if path.len() >= 4 {
                    assert(path[2].can_become(path[3]));
                    if path.len() >= 5 {
                        assert(path[3].can_become(path[4]));
                    }
                }
            }
            assert(path =~= full.subrange(0, path.len() as int));
        }
    } else {
        assert(path =~= full.subrange(0, path.len() as int));
    }
}

/// Advancing is transitive: what holds between one state and the next holds
/// between any state and every later one.
pub proof fn lemma_advances_transitive(a: EscrowStateView, b: EscrowStateView, c: EscrowStateView)
    requires
        a.advances_to(b),
        b.advances_to(c),
    ensures
        a.advances_to(c),
{
    assert forall|i: int| 0 <= i < a.transactions.len() implies (
    #[trigger] a.transactions[i]).evolves_to(c.transactions[i]) by {
        assert(a.transactions[i].evolves_to(b.transactions[i]));
        assert(b.transactions[i].evolves_to(c.transactions[i]));
    }
}

/// Over any run of the engine, the status of a transaction at a later state
/// is reached from its status at an earlier one: it never goes back and
/// never leaves the two paths.
pub proof fn lemma_history_advances(states: Seq<EscrowStateView>, s: int, t: int)
    requires
        is_history(states),
        0 <= s <= t < states.len(),
    ensures
        states[s].advances_to(states[t]),
        forall|i: int|
            0 <= i < states[s].transactions.len() ==> (
            #[trigger] states[s].transactions[i]).status.reaches(states[t].transactions[i].status),
    decreases t - s,
{
    if s < t {
        lemma_history_advances(states, s, t - 1);
        assert(states[t - 1].advances_to(states[t - 1 + 1]));
        lemma_advances_transitive(states[s], states[t - 1], states[t]);
    }
    assert forall|i: int| 0 <= i < states[s].transactions.len() implies (
    #[trigger] states[s].transactions[i]).status.reaches(states[t].transactions[i].status) by {
        assert(states[s].transactions[i].evolves_to(states[t].transactions[i]));
    }
}

/// A move at `now` sets the time of the last update to `now`, unless `now`
/// lies before the transaction's creation; either way a transaction that
/// was not updated before its creation is not so afterwards.
pub proof fn lemma_update_time(transaction: EscrowTransactionView, to: EscrowStatus, now: Timestamp)
    ensures
        transaction.created_at.not_after(now) ==> transaction.moved(to, now).updated_at == now,
        transaction.well_formed() ==> transaction.moved(to, now).well_formed(),
        transaction.moved(to, now).created_at == transaction.created_at,
{
}

/// A transaction is settled at most once: once a settlement has succeeded,
/// the transaction is completed, and settling it again is refused for its
/// state.
pub proof fn lemma_settle_once(transaction: EscrowTransactionView, now: Timestamp)
    requires
        transaction.settle_outcome() is Ok,
    ensures
        transaction.moved(EscrowStatus::Completed, now).status is Completed,
        transaction.moved(EscrowStatus::Completed, now).settle_outcome() == Err::<
            (),
            EscrowError,
        >(EscrowError::InvalidState),
{
}

/// Only a pending transaction can be cancelled: once it is funded,
/// cancelling it is refused for its state, and so it is ever after.
pub proof fn lemma_no_cancel_after_funding(state: EscrowStateView, id: Seq<char>)
    requires
        state.position(id) is Some,
        EscrowStatus::Funded.reaches(state.transactions[state.position(id)->Some_0].status),
    ensures
        state.move_outcome(id, EscrowStatus::Pending) == Err::<(), EscrowError>(
            EscrowError::InvalidState,
        ),
{
}

} // verus!
