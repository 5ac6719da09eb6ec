use vstd::prelude::*;

use crate::error::AuctionError;
use crate::state::{applied, Auction, AuctionView, Bid, Phase};
use crate::types::{Address, Comparison, Handle};

verus! {

impl AuctionView {
    /// Whether a bid may be admitted, or why not.
    pub open spec fn bid_check(self, bidder: Address, deposit_amount: u64, now: i64) -> Result<(), AuctionError> {
        if self.phase == Phase::Closed {
            Err(AuctionError::AuctionClosed)
        } else if now >= self.end_time {
            Err(AuctionError::AuctionEnded)
        } else if deposit_amount < self.minimum_bid {
            Err(AuctionError::BidTooLow)
        } else if self.has_bid(bidder) {
            Err(AuctionError::DuplicateBid)
        } else {
            Ok(())
        }
    }

    /// The running maximum after folding in a new bid: the bid itself when it
    /// is the first, else the coprocessor's selection.
    pub open spec fn next_highest(self, bid_amount: Handle, comparison: Option<Comparison>) -> Option<Handle> {
        match self.highest_bid {
            None => Some(bid_amount),
            Some(current) => match comparison {
                Some(c) => Some(c.selected),
                None => Some(current),
            },
        }
    }

    /// The state after a bid is admitted: the bid is recorded, unchecked,
    /// and folded into the running maximum.
    pub open spec fn place_bid_outcome(
        self,
        bidder: Address,
        deposit_amount: u64,
        now: i64,
        bid_amount: Handle,
        comparison: Option<Comparison>,
    ) -> Result<AuctionView, AuctionError> {
        match self.bid_check(bidder, deposit_amount, now) {
            Err(e) => Err(e),
            Ok(_) => Ok(
                AuctionView {
                    bids: self.bids.push(
                        Bid {
                            bidder,
                            deposit_amount,
                            bid_amount,
                            is_winner: None,
                            checked: false,
                            withdrawn: false,
                        },
                    ),
                    highest_bid: self.next_highest(bid_amount, comparison),
                    ..self
                },
            ),
        }
    }
}

impl AuctionView {
    /// An admitted bid keeps the invariant.
    pub proof fn lemma_place_bid_wf(
        self,
        bidder: Address,
        deposit_amount: u64,
        now: i64,
        bid_amount: Handle,
        comparison: Option<Comparison>,
    )
        requires
            self.wf(),
        ensures
            self.place_bid_outcome(bidder, deposit_amount, now, bid_amount, comparison) matches Ok(v) ==> v.wf(),
    {
        if let Ok(v) = self.place_bid_outcome(bidder, deposit_amount, now, bid_amount, comparison) {
            assert forall|i: int, j: int| 0 <= i < j < v.bids.len() implies #[trigger] v.bids[i].bidder@
                != #[trigger] v.bids[j].bidder@ by {
                if j == self.bids.len() {
                    assert(self.bids[i] == v.bids[i]);
                } else {
                    assert(self.bids[i].bidder@ != self.bids[j].bidder@);
                }
            }
            assert forall|i: int| 0 <= i < v.bids.len() implies #[trigger] v.bids[i].flags_consistent() by {
                if i < self.bids.len() {
                    assert(self.bids[i].flags_consistent());
                }
            }
        }
    }
}

impl Auction {
    /// Decides whether the bidder may bid `deposit_amount` at time `now`;
    /// the host calls it before it moves the deposit.
    pub fn check_bid(&self, bidder: &Address, deposit_amount: u64, now: i64) -> (r: Result<(), AuctionError>)
        requires
            self.wf(),
        ensures
            r == self@.bid_check(*bidder, deposit_amount, now),
    {
        if self.phase == Phase::Closed {
            Err(AuctionError::AuctionClosed)
        } else if now >= self.end_time {
            Err(AuctionError::AuctionEnded)
        } else if deposit_amount < self.minimum_bid {
            Err(AuctionError::BidTooLow)
        } else if self.find_bid(bidder).is_some() {
            Err(AuctionError::DuplicateBid)
        } else {
            Ok(())
        }
    }

    /// Admits a bid. `bid_amount` is the coprocessor's handle for the
    /// bidder's ciphertext; `comparison` is its answer to comparing that
    /// handle with `highest_bid`, needed whenever `highest_bid` is set.
    pub fn place_bid(
        &mut self,
        bidder: Address,
        deposit_amount: u64,
        now: i64,
        bid_amount: Handle,
        comparison: Option<Comparison>,
    ) -> (r: Result<(), AuctionError>)
        requires
            old(self).wf(),
        ensures
            final(self).wf(),
            applied(
                r,
                old(self)@,
                final(self)@,
                old(self)@.place_bid_outcome(bidder, deposit_amount, now, bid_amount, comparison),
            ),
            final(self).metadata == old(self).metadata,
    {
        match self.check_bid(&bidder, deposit_amount, now) {
            Err(e) => return Err(e),
            Ok(()) => {},
        }
        let ghost before = self@;
        let bid = Bid {
            bidder,
            deposit_amount,
            bid_amount,
            is_winner: None,
            checked: false,
            withdrawn: false,
        };
        let next = match self.highest_bid {
            None => Some(bid_amount),
            Some(current) => match comparison {
                Some(c) => Some(c.selected),
                None => Some(current),
            },
        };
        self.bids.push(bid);
        self.highest_bid = next;
        proof {
            before.lemma_place_bid_wf(bidder, deposit_amount, now, bid_amount, comparison);
            assert(self@ =~= before.place_bid_outcome(bidder, deposit_amount, now, bid_amount, comparison)->Ok_0);
        }
        Ok(())
    }
}

} // verus!
