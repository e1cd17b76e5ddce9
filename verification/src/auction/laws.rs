//! What holds of the auction engine whatever is asked of it.

use crate::auction::model::{
    has_bid, is_history, is_status_path, is_winning_bid, outranks, winner, winning_bid,
    AuctionStateView,
};
use crate::auction::types::{AuctionError, AuctionStatus, AuctionView, BidView};
use crate::time::Timestamp;
use vstd::prelude::*;

verus! {

/// No asset has two winning bids.
pub proof fn lemma_winning_bid_unique(bids: Seq<BidView>, name: Seq<char>, a: int, b: int)
    requires
        is_winning_bid(bids, name, a),
        is_winning_bid(bids, name, b),
    ensures
        a == b,
{
    if a != b {
        assert(outranks(bids, a, b));
        assert(outranks(bids, b, a));
    }
}

/// Helper of `lemma_lookup`: if no auction from `upto` on has the name and
/// the name refers to none, no auction has it.
proof fn lemma_no_current_no_auction(state: AuctionStateView, name: Seq<char>, upto: int)
    requires
        0 <= upto <= state.auctions.len(),
        forall|i: int| !state.is_current(name, i),
        forall|j: int|
            upto <= j < state.auctions.len() ==> (#[trigger] state.auctions[j]).domain_name
                != name,
    ensures
        !state.has_auction(name),
    decreases upto,
{
    if upto > 0 {
        if state.auctions[upto - 1].domain_name == name {
            assert(state.is_current(name, upto - 1));
        } else {
            lemma_no_current_no_auction(state, name, upto - 1);
        }
    }
}

/// A name refers to the latest auction of its asset, and to none only where
/// the asset never had one.
pub proof fn lemma_lookup(state: AuctionStateView, name: Seq<char>)
    ensures
        match state.lookup(name) {
            Some(i) => state.is_current(name, i),
            None => !state.has_auction(name),
        },
        state.lookup(name) is Some <==> state.has_auction(name),
{
    if state.lookup(name) is None {
        lemma_no_current_no_auction(state, name, state.auctions.len() as int);
    } else {
        let i = state.lookup(name)->Some_0;
        assert(state.is_current(name, i));
        assert(state.auctions[i].domain_name == name);
    }
}

/// Where `i` is the latest auction of the asset `name`, the name refers to
/// it.
pub proof fn lemma_lookup_is(state: AuctionStateView, name: Seq<char>, i: int)
    requires
        state.is_current(name, i),
    ensures
        state.lookup(name) == Some(i),
{
    lemma_lookup(state, name);
}

/// Two states whose auctions have the same names, one by one, refer to the
/// same auction by every name.
pub proof fn lemma_same_names_refer_alike(state: AuctionStateView, next: AuctionStateView)
    requires
        state.auctions.len() == next.auctions.len(),
        forall|i: int|
            0 <= i < state.auctions.len() ==> (#[trigger] next.auctions[i]).domain_name
                == state.auctions[i].domain_name,
    ensures
        state.refers_as(next),
{
    assert forall|name: Seq<char>| #[trigger] next.lookup(name) == state.lookup(name) by {
        lemma_lookup(state, name);
        lemma_lookup(next, name);
        match state.lookup(name) {
            Some(i) => {
                assert(next.auctions[i].domain_name == name);
                assert(next.is_current(name, i));
            },
            None => {
                if next.lookup(name) is Some {
                    let j = next.lookup(name)->Some_0;
                    assert(next.auctions[j].domain_name == name);
                    assert(state.auctions[j].domain_name == name);
                }
            },
        }
    }
}

/// After an auction was created, its name refers to it, and every other
/// name refers to what it referred to before.
pub proof fn lemma_lookup_after_create(
    state: AuctionStateView,
    name: Seq<char>,
    seller: Seq<char>,
    start_time: Timestamp,
    end_time: Timestamp,
    starting_price: u64,
)
    ensures
        ({
            let after = state.after_create(name, seller, start_time, end_time, starting_price);
            &&& after.lookup(name) == Some(state.auctions.len() as int)
            &&& forall|other: Seq<char>|
                other != name ==> #[trigger] after.lookup(other) == state.lookup(other)
        }),
{
    let after = state.after_create(name, seller, start_time, end_time, starting_price);
    let n = state.auctions.len() as int;
    assert(after.auctions[n].domain_name == name);
    lemma_lookup_is(after, name, n);
    assert forall|other: Seq<char>| other != name implies #[trigger] after.lookup(other)
        == state.lookup(other) by {
        lemma_lookup(state, other);
        lemma_lookup(after, other);
        match state.lookup(other) {
            Some(i) => {
                assert(after.auctions[i].domain_name == other);
                assert forall|j: int| i < j < after.auctions.len() implies (
                #[trigger] after.auctions[j]).domain_name != other by {
                    if j < n {
                        assert(state.auctions[j].domain_name != other);
                    }
                }
                assert(after.is_current(other, i));
            },
            None => {
                if after.lookup(other) is Some {
                    let j = after.lookup(other)->Some_0;
                    assert(after.auctions[j].domain_name == other);
                    assert(state.auctions[j].domain_name == other);
                }
            },
        }
    }
}

/// In a well-formed state an asset has a pending or active auction exactly
/// when the auction that its name refers to is pending or active.
pub proof fn lemma_live_auction_is_current(state: AuctionStateView, name: Seq<char>)
    requires
        state.well_formed(),
    ensures
        state.has_live_auction(name) <==> (state.lookup(name) matches Some(i)
            && state.auctions[i].status.is_live()),
{
    lemma_lookup(state, name);
    if state.has_live_auction(name) {
        let j = choose|j: int|
            0 <= j < state.auctions.len() && (#[trigger] state.auctions[j]).domain_name == name
                && state.auctions[j].status.is_live();
        assert(state.has_auction(name));
        let i = state.lookup(name)->Some_0;
        assert(state.is_current(name, i));
        if j < i {
            assert(state.auctions[j].domain_name == state.auctions[i].domain_name);
        }
    }
}

/// A status reaches exactly itself and what one or two permitted moves lead
/// to, and a permitted move from a status that was reached leads to a status
/// that is reached. So an auction's status runs along `Pending`, `Active`,
/// `Completed` or along `Pending`, `Cancelled`, and never back.
pub proof fn lemma_status_path(from: AuctionStatus, mid: AuctionStatus, to: AuctionStatus)
    ensures
        from.reaches(to) <==> (from == to || from.can_become(to) || exists|via: AuctionStatus|
            from.can_become(via) && #[trigger] via.can_become(to)),
        from.reaches(mid) && mid.reaches(to) ==> from.reaches(to),
        from.reaches(to) && to.reaches(from) ==> from == to,
        from is Completed || from is Cancelled ==> (from.reaches(to) <==> to == from),
{
    if from is Pending && to is Completed {
        assert(from.can_become(AuctionStatus::Active) && AuctionStatus::Active.can_become(to));
    }
}

/// The statuses that an auction passes through, from pending on, are the
/// start of `Pending`, `Active`, `Completed` or the start of `Pending`,
/// `Cancelled`.
pub proof fn lemma_status_paths(path: Seq<AuctionStatus>)
    requires
        is_status_path(path),
        path.len() >= 1,
        path[0] is Pending,
    ensures
        path.is_prefix_of(
            seq![AuctionStatus::Pending, AuctionStatus::Active, AuctionStatus::Completed],
        ) || path.is_prefix_of(seq![AuctionStatus::Pending, AuctionStatus::Cancelled]),
{
    let full = seq![AuctionStatus::Pending, AuctionStatus::Active, AuctionStatus::Completed];
    let short = seq![AuctionStatus::Pending, AuctionStatus::Cancelled];
    if path.len() >= 2 {
        assert(path[0].can_become(path[1]));
        if path.len() >= 3 {
            assert(path[1].can_become(path[2]));
            if path.len() >= 4 {
                assert(path[2].can_become(path[3]));
            }
        }
        if path[1] is Cancelled {
            assert(path =~= short.subrange(0, path.len() as int));
        } else {
            assert(path =~= full.subrange(0, path.len() as int));
        }
    } else {
        assert(path =~= full.subrange(0, path.len() as int));
    }
}

/// Advancing is transitive: what holds between one state and the next holds
/// between any state and every later one.
pub proof fn lemma_advances_transitive(
    a: AuctionStateView,
    b: AuctionStateView,
    c: AuctionStateView,
)
    requires
        a.advances_to(b),
        b.advances_to(c),
    ensures
        a.advances_to(c),
{
    assert forall|i: int| 0 <= i < a.auctions.len() implies (#[trigger] a.auctions[i]).evolves_to(
        c.auctions[i],
    ) by {
        assert(a.auctions[i].evolves_to(b.auctions[i]));
        assert(b.auctions[i].evolves_to(c.auctions[i]));
    }
}

/// Over any run of the engine, an auction's price at a later state is at
/// least its price at an earlier one, its status at the later state is
/// reached from its status at the earlier one, and every bid recorded at the
/// earlier state stands unchanged at the later one.
pub proof fn lemma_history_advances(states: Seq<AuctionStateView>, s: int, t: int)
    requires
        is_history(states),
        0 <= s <= t < states.len(),
    ensures
        states[s].advances_to(states[t]),
        forall|i: int|
            0 <= i < states[s].auctions.len() ==> (#[trigger] states[s].auctions[i]).current_price
                <= states[t].auctions[i].current_price && states[s].auctions[i].status.reaches(
                states[t].auctions[i].status,
            ),
        forall|k: int| 0 <= k < states[s].bids.len() ==> states[t].bids[k] == states[s].bids[k],
    decreases t - s,
{
    if s < t {
        lemma_history_advances(states, s, t - 1);
        assert(states[t - 1].advances_to(states[t - 1 + 1]));
        lemma_advances_transitive(states[s], states[t - 1], states[t]);
    }
    assert forall|i: int| 0 <= i < states[s].auctions.len() implies (
    #[trigger] states[s].auctions[i]).current_price <= states[t].auctions[i].current_price
        && states[s].auctions[i].status.reaches(states[t].auctions[i].status) by {
        assert(states[s].auctions[i].evolves_to(states[t].auctions[i]));
    }
}

/// No auction of `state` is lost in `after`, and each keeps its name.
spec fn keeps_names(state: AuctionStateView, after: AuctionStateView) -> bool {
    &&& state.auctions.len() <= after.auctions.len()
    &&& forall|i: int|
        0 <= i < state.auctions.len() ==> (#[trigger] after.auctions[i]).domain_name
            == state.auctions[i].domain_name
}

/// Where the auctions keep their names, an asset that had an auction still
/// has one.
proof fn lemma_auction_stays(state: AuctionStateView, after: AuctionStateView, name: Seq<char>)
    requires
        keeps_names(state, after),
        state.has_auction(name),
    ensures
        after.has_auction(name),
{
    let held = choose|i: int|
        0 <= i < state.auctions.len() && (#[trigger] state.auctions[i]).domain_name == name;
    assert(after.auctions[held].domain_name == name);
}

/// Where the auctions keep their names, an auction that is the only one of
/// its asset was the only one before.
proof fn lemma_sole_before(state: AuctionStateView, after: AuctionStateView, i: int)
    requires
        keeps_names(state, after),
        0 <= i < state.auctions.len(),
        after.sole_auction(i),
    ensures
        state.sole_auction(i),
{
    assert forall|j: int|
        0 <= j < state.auctions.len() && (#[trigger] state.auctions[j]).domain_name
            == state.auctions[i].domain_name implies j == i by {
        assert(after.auctions[j].domain_name == after.auctions[i].domain_name);
    }
}

/// Where an auction's name, price and bidder stay and no bid is lost, the
/// bid that set its price stays on record.
proof fn lemma_record_stays(state: AuctionStateView, after: AuctionStateView, i: int)
    requires
        0 <= i < state.auctions.len(),
        0 <= i < after.auctions.len(),
        state.price_is_on_record(i),
        after.auctions[i].domain_name == state.auctions[i].domain_name,
        after.auctions[i].current_price == state.auctions[i].current_price,
        after.auctions[i].highest_bidder == state.auctions[i].highest_bidder,
        state.bids.is_prefix_of(after.bids),
    ensures
        after.price_is_on_record(i),
{
    if let Some(bidder) = state.auctions[i].highest_bidder {
        let top = choose|k: int|
            0 <= k < state.bids.len() && (#[trigger] state.bids[k]).auction_id
                == state.auctions[i].domain_name && state.bids[k].amount
                == state.auctions[i].current_price && state.bids[k].bidder == bidder;
        assert(after.bids[top] == state.bids[top]);
    }
}

/// Creating an auction keeps the state well formed and advances it.
pub proof fn lemma_create(
    state: AuctionStateView,
    name: Seq<char>,
    seller: Seq<char>,
    start_time: Timestamp,
    end_time: Timestamp,
    starting_price: u64,
)
    requires
        state.well_formed(),
        state.create_outcome(name) is Ok,
    ensures
        state.after_create(name, seller, start_time, end_time, starting_price).well_formed(),
        state.advances_to(state.after_create(name, seller, start_time, end_time, starting_price)),
{
    let after = state.after_create(name, seller, start_time, end_time, starting_price);
    let n = state.auctions.len() as int;
    assert forall|i: int| 0 <= i < after.auctions.len() implies (
    #[trigger] after.auctions[i]).well_formed() by {
        if i < n {
            assert(state.auctions[i].well_formed());
        }
    }
    assert forall|i: int, j: int|
        0 <= i < j < after.auctions.len() && (#[trigger] after.auctions[i]).domain_name == (
        #[trigger] after.auctions[j]).domain_name implies !after.auctions[i].status.is_live() by {
        if j < n {
            assert(state.auctions[i].domain_name == state.auctions[j].domain_name);
        } else {
            assert(state.auctions[i].domain_name == name);
        }
    }
    assert(keeps_names(state, after));
    assert forall|k: int| 0 <= k < after.bids.len() implies after.has_auction(
        (#[trigger] after.bids[k]).auction_id,
    ) by {
        lemma_auction_stays(state, after, state.bids[k].auction_id);
    }
    assert forall|i: int| 0 <= i < after.auctions.len() implies #[trigger] after.price_is_on_record(
        i,
    ) by {
        if i < n {
            lemma_record_stays(state, after, i);
        }
    }
    assert forall|i: int| #[trigger] after.sole_auction(i) implies after.bids_belong_to(i) by {
        if i < n {
            lemma_sole_before(state, after, i);
            assert(state.bids_belong_to(i));
        } else {
            assert forall|k: int| 0 <= k < after.bids.len() implies (
            #[trigger] after.bids[k]).auction_id != name by {
                let asset = state.bids[k].auction_id;
                let held = choose|w: int|
                    0 <= w < state.auctions.len() && (#[trigger] state.auctions[w]).domain_name
                        == asset;
                assert(after.auctions[held].domain_name == asset);
            }
        }
    }
    assert forall|i: int| 0 <= i < state.auctions.len() implies (
    #[trigger] state.auctions[i]).evolves_to(after.auctions[i]) by {}
}

/// Replacing the status of the auction that `name` refers to by one that it
/// may move to, with no later auction of the asset in the way, keeps the
/// state well formed and advances it.
proof fn lemma_status_move(state: AuctionStateView, name: Seq<char>, next: AuctionStatus)
    requires
        state.well_formed(),
        state.lookup(name) is Some,
        state.auctions[state.lookup(name)->Some_0].status.can_become(next),
        next is Active || next is Completed,
    ensures
        ({
            let i = state.lookup(name)->Some_0;
            let after = state.with_auction(i, AuctionView { status: next, ..state.auctions[i] });
            after.well_formed() && state.advances_to(after) && state.refers_as(after)
        }),
{
    lemma_lookup(state, name);
    let i = state.lookup(name)->Some_0;
    let after = state.with_auction(i, AuctionView { status: next, ..state.auctions[i] });
    lemma_same_names_refer_alike(state, after);
    assert forall|a: int| 0 <= a < after.auctions.len() implies (
    #[trigger] after.auctions[a]).well_formed() by {
        assert(state.auctions[a].well_formed());
    }
    assert forall|a: int, b: int|
        0 <= a < b < after.auctions.len() && (#[trigger] after.auctions[a]).domain_name == (
        #[trigger] after.auctions[b]).domain_name implies !after.auctions[a].status.is_live() by {
        assert(state.auctions[a].domain_name == state.auctions[b].domain_name);
    }
    assert(keeps_names(state, after));
    assert forall|k: int| 0 <= k < after.bids.len() implies after.has_auction(
        (#[trigger] after.bids[k]).auction_id,
    ) by {
        lemma_auction_stays(state, after, state.bids[k].auction_id);
    }
    assert forall|a: int| 0 <= a < after.auctions.len() implies #[trigger] after.price_is_on_record(
        a,
    ) by {
        lemma_record_stays(state, after, a);
    }
    assert forall|a: int| #[trigger] after.sole_auction(a) implies after.bids_belong_to(a) by {
        lemma_sole_before(state, after, a);
        assert(state.bids_belong_to(a));
    }
    assert forall|a: int| 0 <= a < state.auctions.len() implies (
    #[trigger] state.auctions[a]).evolves_to(after.auctions[a]) by {}
}

/// Activating an auction keeps the state well formed and advances it.
pub proof fn lemma_activate(state: AuctionStateView, name: Seq<char>)
    requires
        state.well_formed(),
        state.activate_outcome(name) is Ok,
    ensures
        state.after_activate(name).well_formed(),
        state.advances_to(state.after_activate(name)),
        state.refers_as(state.after_activate(name)),
{
    lemma_status_move(state, name, AuctionStatus::Active);
}

/// Settling an auction keeps the state well formed and advances it.
pub proof fn lemma_settle(state: AuctionStateView, name: Seq<char>, now: Timestamp)
    requires
        state.well_formed(),
        state.settle_outcome(name, now) is Ok,
    ensures
        state.after_settle(name).well_formed(),
        state.advances_to(state.after_settle(name)),
        state.refers_as(state.after_settle(name)),
{
    lemma_status_move(state, name, AuctionStatus::Completed);
}

/// Accepting a bid keeps the state well formed and advances it.
pub proof fn lemma_bid(
    state: AuctionStateView,
    name: Seq<char>,
    bidder: Seq<char>,
    amount: u64,
    now: Timestamp,
)
    requires
        state.well_formed(),
        state.bid_outcome(name, amount, now) is Ok,
    ensures
        state.after_bid(name, bidder, amount, now).well_formed(),
        state.advances_to(state.after_bid(name, bidder, amount, now)),
        state.refers_as(state.after_bid(name, bidder, amount, now)),
{
    lemma_lookup(state, name);
    let i = state.lookup(name)->Some_0;
    let after = state.after_bid(name, bidder, amount, now);
    lemma_same_names_refer_alike(state, after);
    let last = state.bids.len() as int;
    assert(keeps_names(state, after));
    assert(state.auctions[i].well_formed());
    assert forall|a: int| 0 <= a < after.auctions.len() implies (
    #[trigger] after.auctions[a]).well_formed() by {
        assert(state.auctions[a].well_formed());
    }
    assert forall|a: int, b: int|
        0 <= a < b < after.auctions.len() && (#[trigger] after.auctions[a]).domain_name == (
        #[trigger] after.auctions[b]).domain_name implies !after.auctions[a].status.is_live() by {
        assert(state.auctions[a].domain_name == state.auctions[b].domain_name);
    }
    assert forall|k: int| 0 <= k < after.bids.len() implies after.has_auction(
        (#[trigger] after.bids[k]).auction_id,
    ) by {
        if k < last {
            lemma_auction_stays(state, after, state.bids[k].auction_id);
        } else {
            assert(after.auctions[i].domain_name == name);
        }
    }
    assert forall|a: int| 0 <= a < after.auctions.len() implies #[trigger] after.price_is_on_record(
        a,
    ) by {
        if a == i {
            assert(after.bids[last].auction_id == name);
        } else {
            lemma_record_stays(state, after, a);
        }
    }
    assert forall|a: int| #[trigger] after.sole_auction(a) implies after.bids_belong_to(a) by {
        lemma_sole_before(state, after, a);
        assert(state.bids_belong_to(a));
        let asset = state.auctions[a].domain_name;
        if a == i {
            assert(after.bids[last].auction_id == asset);
            assert forall|k: int|
                0 <= k < after.bids.len() && (#[trigger] after.bids[k]).auction_id == asset
                    implies after.bids[k].amount <= after.auctions[a].current_price by {
                if k < last {
                    assert(state.bids[k].auction_id == asset);
                }
            }
            assert forall|k: int, m: int|
                0 <= k < m < after.bids.len() && (#[trigger] after.bids[k]).auction_id == asset && (
                #[trigger] after.bids[m]).auction_id == asset implies after.bids[k].amount
                    < after.bids[m].amount by {
                assert(state.bids[k].auction_id == asset);
                if m < last {
                    assert(state.bids[m].auction_id == asset);
                }
            }
        } else {
            assert(after.auctions[i].domain_name != after.auctions[a].domain_name);
            assert forall|k: int|
                0 <= k < after.bids.len() && (#[trigger] after.bids[k]).auction_id == asset
                    implies after.bids[k].amount <= after.auctions[a].current_price by {
                assert(state.bids[k].auction_id == asset);
            }
            assert forall|k: int, m: int|
                0 <= k < m < after.bids.len() && (#[trigger] after.bids[k]).auction_id == asset && (
                #[trigger] after.bids[m]).auction_id == asset implies after.bids[k].amount
                    < after.bids[m].amount by {
                assert(state.bids[k].auction_id == asset);
                assert(state.bids[m].auction_id == asset);
            }
            if state.auctions[a].highest_bidder is None {
                assert forall|k: int| 0 <= k < after.bids.len() implies (
                #[trigger] after.bids[k]).auction_id != asset by {
                    if k < last {
                        assert(state.bids[k].auction_id != asset);
                    }
                }
            }
        }
    }
    assert forall|a: int| 0 <= a < state.auctions.len() implies (
    #[trigger] state.auctions[a]).evolves_to(after.auctions[a]) by {}
}

/// Among the first `n` bids, one on the asset `name` is preferred to every
/// other one on it, once there is any.
proof fn lemma_best_bid(bids: Seq<BidView>, name: Seq<char>, n: int) -> (w: int)
    requires
        0 <= n <= bids.len(),
        exists|k: int| 0 <= k < n && (#[trigger] bids[k]).auction_id == name,
    ensures
        0 <= w < n,
        bids[w].auction_id == name,
        forall|k: int|
            0 <= k < n && k != w && (#[trigger] bids[k]).auction_id == name ==> outranks(
                bids,
                w,
                k,
            ),
    decreases n,
{
    let last = n - 1;
    if exists|k: int| 0 <= k < last && (#[trigger] bids[k]).auction_id == name {
        let held = lemma_best_bid(bids, name, last);
        if bids[last].auction_id == name && outranks(bids, last, held) {
            last
        } else {
            held
        }
    } else {
        last
    }
}

/// Where `w` is the winning bid on `name`, its bidder is the winner.
pub proof fn lemma_winner_is(bids: Seq<BidView>, name: Seq<char>, w: int)
    requires
        is_winning_bid(bids, name, w),
    ensures
        winning_bid(bids, name) == Some(w),
        winner(bids, name) == Some(bids[w].bidder),
{
    lemma_winning_bid_unique(bids, name, w, winning_bid(bids, name)->Some_0);
}

/// An asset has a winning bid exactly when a bid was recorded on it.
pub proof fn lemma_winner_exists(bids: Seq<BidView>, name: Seq<char>)
    ensures
        winning_bid(bids, name) is Some <==> has_bid(bids, name),
        winner(bids, name) is Some <==> has_bid(bids, name),
        winning_bid(bids, name) matches Some(w) ==> is_winning_bid(bids, name, w),
{
    if has_bid(bids, name) {
        let w = lemma_best_bid(bids, name, bids.len() as int);
        assert(is_winning_bid(bids, name, w));
    }
}

/// A bid that does not exceed the current price of an auction that is open
/// is refused as too low.
pub proof fn lemma_low_bid_refused(
    state: AuctionStateView,
    name: Seq<char>,
    amount: u64,
    now: Timestamp,
)
    requires
        state.lookup(name) is Some,
        state.auctions[state.lookup(name)->Some_0].open_at(now),
        amount <= state.auctions[state.lookup(name)->Some_0].current_price,
    ensures
        state.bid_outcome(name, amount, now) == Err::<(), AuctionError>(AuctionError::BidTooLow),
{
}

/// A bid on an asset that has an auction is refused for the auction not
/// taking bids exactly when the auction is not open at the time of the bid:
/// its status is not active, or the time lies outside its window.
pub proof fn lemma_closed_auction_refuses_bids(
    state: AuctionStateView,
    name: Seq<char>,
    amount: u64,
    now: Timestamp,
)
    requires
        state.lookup(name) is Some,
    ensures
        (state.bid_outcome(name, amount, now) matches Err(refusal) && refusal.says_not_active())
            <==> !state.auctions[state.lookup(name)->Some_0].open_at(now),
{
}

/// A call that comes out of order is refused, and always in the same way:
/// activating what is not pending, bidding on or settling what is not
/// active, bidding outside the time window, settling before the end.
pub proof fn lemma_out_of_order_refused(
    state: AuctionStateView,
    name: Seq<char>,
    amount: u64,
    now: Timestamp,
)
    requires
        state.lookup(name) is Some,
    ensures
        ({
            let auction = state.auctions[state.lookup(name)->Some_0];
            let refused = Err::<(), AuctionError>(AuctionError::InvalidState);
            &&& !(auction.status is Pending) ==> state.activate_outcome(name) == refused
            &&& !(auction.status is Active) ==> state.bid_outcome(name, amount, now) == refused
                && state.settle_outcome(name, now) == refused
            &&& auction.status is Active && now.earlier_than(auction.start_time)
                ==> state.bid_outcome(name, amount, now) == Err::<(), AuctionError>(
                AuctionError::AuctionNotStarted,
            )
            &&& auction.status is Active && !now.earlier_than(auction.start_time)
                && auction.end_time.earlier_than(now) ==> state.bid_outcome(name, amount, now) == Err::<(), AuctionError>(
                AuctionError::AuctionWindowClosed,
            )
            &&& auction.status is Active && now.earlier_than(auction.end_time)
                ==> state.settle_outcome(name, now) == Err::<(), AuctionError>(
                AuctionError::NotEnded,
            )
        }),
{
}

/// Settling an active auction whose end has come succeeds exactly when a bid
/// was recorded on its asset, and is refused for want of a winner otherwise.
pub proof fn lemma_settle_needs_bid(state: AuctionStateView, name: Seq<char>, now: Timestamp)
    requires
        state.lookup(name) is Some,
        state.auctions[state.lookup(name)->Some_0].status is Active,
        !now.earlier_than(state.auctions[state.lookup(name)->Some_0].end_time),
    ensures
        state.settle_outcome(name, now) == if has_bid(state.bids, name) {
            Ok::<(), AuctionError>(())
        } else {
            Err::<(), AuctionError>(AuctionError::NoWinner)
        },
        state.settle_outcome(name, now) is Ok <==> winner(state.bids, name) is Some,
{
    lemma_winner_exists(state.bids, name);
}

/// Where an asset had one auction only, the winner that its bids determine
/// is that auction's highest bidder, and the auction has a highest bidder
/// exactly when a bid on the asset was accepted.
pub proof fn lemma_winner_is_highest_bidder(state: AuctionStateView, i: int)
    requires
        state.well_formed(),
        state.sole_auction(i),
    ensures
        winner(state.bids, state.auctions[i].domain_name) == state.auctions[i].highest_bidder,
        state.auctions[i].highest_bidder is Some <==> has_bid(
            state.bids,
            state.auctions[i].domain_name,
        ),
{
    let auction = state.auctions[i];
    let name = auction.domain_name;
    assert(state.bids_belong_to(i));
    assert(state.price_is_on_record(i));
    lemma_winner_exists(state.bids, name);
    match auction.highest_bidder {
        None => {},
        Some(bidder) => {
            let top = choose|k: int|
                0 <= k < state.bids.len() && (#[trigger] state.bids[k]).auction_id == name
                    && state.bids[k].amount == auction.current_price && state.bids[k].bidder
                    == bidder;
            assert(is_winning_bid(state.bids, name, top));
            lemma_winner_is(state.bids, name, top);
        },
    }
}

} // verus!
