//! The auction engine.

use crate::auction::laws::{
    lemma_activate, lemma_bid, lemma_create, lemma_live_auction_is_current,
    lemma_lookup_after_create, lemma_settle,
};
use crate::auction::model::{winner, AuctionStateView};
use crate::auction::types::{Auction, AuctionError, AuctionState, AuctionStatus, Bid, BidView};
use crate::auction::utils::{determine_winner, validate_bid};
use crate::time::{current_time, Timestamp};
use rusty_ao::ao::Ao;
use vstd::prelude::*;

verus! {

/// The `rusty_ao` client of the AO network. The engine keeps the client that
/// it was made with and never looks inside it.
#[verifier::external_type_specification]
#[verifier::external_body]
pub struct ExAo(Ao);

/// Owns the auctions and the accepted bids, and runs every auction through
/// its life.
///
/// The state of an engine is well formed at all times, in the sense of
/// [`AuctionStateView::well_formed`].
pub struct AuctionProcess {
    state: AuctionState,
    ao_client: Option<Ao>,
}

impl View for AuctionProcess {
    type V = AuctionStateView;

    closed spec fn view(&self) -> AuctionStateView {
        self.state@
    }
}

impl AuctionProcess {
    #[verifier::type_invariant]
    spec fn inv(self) -> bool {
        self.state@.well_formed()
    }

    /// The client of the AO network that the engine was made with.
    pub closed spec fn client(&self) -> Option<Ao> {
        self.ao_client
    }

    /// An engine without auctions or bids, which keeps `ao_client` as its
    /// client of the AO network.
    pub fn new(ao_client: Option<Ao>) -> (process: Self)
        ensures
            process@.auctions.len() == 0,
            process@.bids.len() == 0,
            process@.well_formed(),
            process.client() == ao_client,
    {
        AuctionProcess { state: AuctionState { auctions: Vec::new(), bids: Vec::new() }, ao_client }
    }

    /// Moves the state out of the engine and leaves an empty one in its
    /// place.
    fn take_state(&mut self) -> (state: AuctionState)
        ensures
            state@ == old(self)@,
            state@.well_formed(),
            final(self).client() == old(self).client(),
    {
        proof {
            use_type_invariant(&*self);
        }
        let mut state = AuctionState { auctions: Vec::new(), bids: Vec::new() };
        std::mem::swap(&mut state, &mut self.state);
        state
    }

    /// The index of the auction that `name` refers to.
    fn find(&self, name: &String) -> (found: Option<usize>)
        ensures
            match found {
                Some(i) => self@.lookup(name@) == Some(i as int) && i < self@.auctions.len(),
                None => self@.lookup(name@) is None,
            },
    {
        let mut i = self.state.auctions.len();
        while i > 0
            invariant
                i <= self.state.auctions.len(),
                forall|j: int|
                    i <= j < self.state.auctions.len() ==> (#[trigger] self@.auctions[j]).domain_name
                        != name@,
            decreases i,
        {
            i -= 1;
            if self.state.auctions[i].domain_name == *name {
                proof {
                    assert(self@.is_current(name@, i as int));
                    let chosen = self@.lookup(name@)->Some_0;
                    assert(self@.is_current(name@, chosen));
                }
                return Some(i);
            }
        }
        assert(forall|j: int| !self@.is_current(name@, j));
        None
    }

    /// Opens a pending auction of the asset `domain_name`, at the starting
    /// price and without a bidder.
    ///
    /// An asset has at most one pending or active auction: while it has one,
    /// the call is refused as [`AuctionError::DuplicateAuction`] and changes
    /// nothing.
    pub fn create_auction(
        &mut self,
        domain_name: String,
        seller: String,
        start_time: Timestamp,
        end_time: Timestamp,
        starting_price: u64,
    ) -> (result: Result<(), AuctionError>)
        ensures
            result == old(self)@.create_outcome(domain_name@),
            final(self)@ == if result is Ok {
                old(self)@.after_create(
                    domain_name@,
                    seller@,
                    start_time,
                    end_time,
                    starting_price,
                )
            } else {
                old(self)@
            },
            final(self)@.well_formed(),
            old(self)@.advances_to(final(self)@),
            final(self).client() == old(self).client(),
            result is Ok ==> final(self)@.lookup(domain_name@) == Some(
                old(self)@.auctions.len() as int,
            ),
            forall|other: Seq<char>|
                other != domain_name@ ==> #[trigger] final(self)@.lookup(other)
                    == old(self)@.lookup(other),
    {
        proof {
            use_type_invariant(&*self);
            lemma_live_auction_is_current(self@, domain_name@);
        }
        match self.find(&domain_name) {
            Some(i) => {
                if self.state.auctions[i].status.live() {
                    return Err(AuctionError::DuplicateAuction);
                }
            },
            None => {},
        }
        let auction = Auction {
            domain_name,
            seller,
            start_time,
            end_time,
            starting_price,
            current_price: starting_price,
            highest_bidder: None,
            status: AuctionStatus::Pending,
        };
        let mut state = self.take_state();
        state.auctions.push(auction);
        proof {
            let before = old(self)@;
            let after = before.after_create(
                domain_name@,
                seller@,
                start_time,
                end_time,
                starting_price,
            );
            assert(state@.auctions =~= after.auctions);
            lemma_create(before, domain_name@, seller@, start_time, end_time, starting_price);
            lemma_lookup_after_create(
                before,
                domain_name@,
                seller@,
                start_time,
                end_time,
                starting_price,
            );
        }
        self.state = state;
        Ok(())
    }

    /// Moves the pending auction of `domain_name` to active.
    ///
    /// Refused as [`AuctionError::NotFound`] where the asset never had an
    /// auction and as [`AuctionError::InvalidState`] where its auction is not
    /// pending; a refused call changes nothing.
    pub fn activate_auction(&mut self, domain_name: String) -> (result: Result<(), AuctionError>)
        ensures
            result == old(self)@.activate_outcome(domain_name@),
            final(self)@ == if result is Ok {
                old(self)@.after_activate(domain_name@)
            } else {
                old(self)@
            },
            final(self)@.well_formed(),
            old(self)@.advances_to(final(self)@),
            final(self).client() == old(self).client(),
            old(self)@.refers_as(final(self)@),
    {
        proof {
            use_type_invariant(&*self);
        }
        let i = match self.find(&domain_name) {
            Some(i) => i,
            None => {
                return Err(AuctionError::NotFound);
            },
        };
        if self.state.auctions[i].status != AuctionStatus::Pending {
            return Err(AuctionError::InvalidState);
        }
        let mut state = self.take_state();
        state.auctions[i].status = AuctionStatus::Active;
        proof {
            let before = old(self)@;
            assert(state@.auctions =~= before.after_activate(domain_name@).auctions);
            lemma_activate(before, domain_name@);
        }
        self.state = state;
        Ok(())
    }

    /// Records `bidder`'s bid of `amount` on the asset `auction_id`, made at
    /// `now`.
    ///
    /// The bid is accepted when the asset's auction is active, `now` lies in
    /// its time window, both ends included, and `amount` exceeds the current
    /// price. It then becomes the current price, `bidder` becomes the highest
    /// bidder, and a bid stamped `now` is added to the record. Otherwise the
    /// first of these that fails names the error: [`AuctionError::NotFound`],
    /// [`AuctionError::InvalidState`], [`AuctionError::AuctionNotStarted`] or
    /// [`AuctionError::AuctionWindowClosed`], [`AuctionError::BidTooLow`]. A
    /// refused bid changes nothing.
    pub fn place_bid_at(
        &mut self,
        auction_id: String,
        bidder: String,
        amount: u64,
        now: Timestamp,
    ) -> (result: Result<(), AuctionError>)
        ensures
            result == old(self)@.bid_outcome(auction_id@, amount, now),
            final(self)@ == if result is Ok {
                old(self)@.after_bid(auction_id@, bidder@, amount, now)
            } else {
                old(self)@
            },
            final(self)@.well_formed(),
            old(self)@.advances_to(final(self)@),
            final(self).client() == old(self).client(),
            old(self)@.refers_as(final(self)@),
    {
        proof {
            use_type_invariant(&*self);
        }
        let i = match self.find(&auction_id) {
            Some(i) => i,
            None => {
                return Err(AuctionError::NotFound);
            },
        };
        let auction = &self.state.auctions[i];
        if auction.status != AuctionStatus::Active {
            return Err(AuctionError::InvalidState);
        }
        if now.is_before(&auction.start_time) {
            return Err(AuctionError::AuctionNotStarted);
        }
        if auction.end_time.is_before(&now) {
            return Err(AuctionError::AuctionWindowClosed);
        }
        if !validate_bid(auction, amount) {
            return Err(AuctionError::BidTooLow);
        }
        let bid = Bid { auction_id, bidder: bidder.clone(), amount, timestamp: now };
        let mut state = self.take_state();
        state.auctions[i].current_price = amount;
        state.auctions[i].highest_bidder = Some(bidder);
        state.bids.push(bid);
        proof {
            let before = old(self)@;
            let after = before.after_bid(auction_id@, bidder@, amount, now);
            assert(state@.auctions =~= after.auctions);
            assert(state@.bids =~= after.bids);
            lemma_bid(before, auction_id@, bidder@, amount, now);
        }
        self.state = state;
        Ok(())
    }

    /// Records a bid made at the instant that the system clock reports: see
    /// [`AuctionProcess::place_bid_at`].
    ///
    /// # Panics
    ///
    /// Panics on a machine whose clock stands before 1970.
    pub fn place_bid(&mut self, auction_id: String, bidder: String, amount: u64) -> (result: Result<
        (),
        AuctionError,
    >)
        ensures
            exists|now: Timestamp|
                {
                    &&& result == #[trigger] old(self)@.bid_outcome(auction_id@, amount, now)
                    &&& final(self)@ == if result is Ok {
                        old(self)@.after_bid(auction_id@, bidder@, amount, now)
                    } else {
                        old(self)@
                    }
                },
            final(self)@.well_formed(),
            old(self)@.advances_to(final(self)@),
            final(self).client() == old(self).client(),
            old(self)@.refers_as(final(self)@),
    {
        let now = current_time();
        self.place_bid_at(auction_id, bidder, amount, now)
    }

    /// Completes the active auction of `auction_id` at `now`, once its end
    /// time has come and a bid on the asset decides the winner.
    ///
    /// Refused, in this order, as [`AuctionError::NotFound`], as
    /// [`AuctionError::InvalidState`] where the auction is not active, as
    /// [`AuctionError::NotEnded`] where `now` lies before its end, and as
    /// [`AuctionError::NoWinner`] where no bid was recorded on the asset. A
    /// refused call changes nothing.
    pub fn settle_auction_at(&mut self, auction_id: String, now: Timestamp) -> (result: Result<
        (),
        AuctionError,
    >)
        ensures
            result == old(self)@.settle_outcome(auction_id@, now),
            final(self)@ == if result is Ok {
                old(self)@.after_settle(auction_id@)
            } else {
                old(self)@
            },
            result is Ok ==> winner(final(self)@.bids, auction_id@) is Some,
            final(self)@.well_formed(),
            old(self)@.advances_to(final(self)@),
            final(self).client() == old(self).client(),
            old(self)@.refers_as(final(self)@),
    {
        proof {
            use_type_invariant(&*self);
        }
        let i = match self.find(&auction_id) {
            Some(i) => i,
            None => {
                return Err(AuctionError::NotFound);
            },
        };
        let auction = &self.state.auctions[i];
        if auction.status != AuctionStatus::Active {
            return Err(AuctionError::InvalidState);
        }
        if now.is_before(&auction.end_time) {
            return Err(AuctionError::NotEnded);
        }
        if determine_winner(auction, self.state.bids.as_slice()).is_none() {
            return Err(AuctionError::NoWinner);
        }
        let mut state = self.take_state();
        state.auctions[i].status = AuctionStatus::Completed;
        proof {
            let before = old(self)@;
            assert(state@.auctions =~= before.after_settle(auction_id@).auctions);
            lemma_settle(before, auction_id@, now);
        }
        self.state = state;
        Ok(())
    }

    /// Completes an auction at the instant that the system clock reports: see
    /// [`AuctionProcess::settle_auction_at`].
    ///
    /// # Panics
    ///
    /// Panics on a machine whose clock stands before 1970.
    pub fn settle_auction(&mut self, auction_id: String) -> (result: Result<(), AuctionError>)
        ensures
            exists|now: Timestamp|
                result == #[trigger] old(self)@.settle_outcome(auction_id@, now),
            final(self)@ == if result is Ok {
                old(self)@.after_settle(auction_id@)
            } else {
                old(self)@
            },
            result is Ok ==> winner(final(self)@.bids, auction_id@) is Some,
            final(self)@.well_formed(),
            old(self)@.advances_to(final(self)@),
            final(self).client() == old(self).client(),
            old(self)@.refers_as(final(self)@),
    {
        let now = current_time();
        self.settle_auction_at(auction_id, now)
    }

    /// The auction that `domain_name` refers to: the latest one of the asset.
    pub fn get_auction(&self, domain_name: &str) -> (found: Option<&Auction>)
        ensures
            self@.well_formed(),
            match found {
                Some(auction) => self@.lookup(domain_name@) is Some && auction@
                    == self@.auctions[self@.lookup(domain_name@)->Some_0],
                None => self@.lookup(domain_name@) is None,
            },
    {
        proof {
            use_type_invariant(self);
        }
        let name = domain_name.to_owned();
        match self.find(&name) {
            Some(i) => Some(&self.state.auctions[i]),
            None => None,
        }
    }

    /// The bids recorded on the asset `auction_id`, in the order of their
    /// acceptance.
    pub fn get_bids(&self, auction_id: &str) -> (found: Vec<&Bid>)
        ensures
            found@.map_values(|b: &Bid| b@) == self@.bids.filter(
                |b: BidView| b.auction_id == auction_id@,
            ),
    {
        let name = auction_id.to_owned();
        let ghost wanted = |b: BidView| b.auction_id == auction_id@;
        let mut found: Vec<&Bid> = Vec::new();
        let mut k: usize = 0;
        proof {
            reveal(Seq::filter);
            assert(self@.bids.take(0) =~= Seq::<BidView>::empty());
        }
        while k < self.state.bids.len()
            invariant
                k <= self.state.bids.len(),
                name@ == auction_id@,
                wanted == |b: BidView| b.auction_id == auction_id@,
                found@.map_values(|b: &Bid| b@) == self@.bids.take(k as int).filter(wanted),
            decreases self.state.bids.len() - k,
        {
            let bid = &self.state.bids[k];
            proof {
                let seen = self@.bids.take(k as int);
                seen.lemma_filter_push(bid@, wanted);
                assert(seen.push(bid@) =~= self@.bids.take(k + 1));
            }
            if bid.auction_id == name {
                let ghost earlier = found@.map_values(|b: &Bid| b@);
                found.push(bid);
                assert(found@.map_values(|b: &Bid| b@) =~= earlier.push(bid@));
            }
            k += 1;
        }
        assert(self@.bids.take(k as int) =~= self@.bids);
        found
    }
}

} // verus!
