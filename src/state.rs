use vstd::prelude::*;

use crate::error::AuctionError;
use crate::types::{Address, Handle};

verus! {

/// The public phase of an auction.
#[derive(Clone, Copy, Debug, PartialEq, Eq, Structural)]
pub enum Phase {
    Open,
    Closed,
}

/// Free-text description of an auction.
#[derive(Debug)]
pub struct Metadata {
    pub title: String,
    pub description: String,
    pub category: String,
    pub image_url: String,
    pub tags: Vec<String>,
}

/// One bidder's sealed bid in one auction.
#[derive(Clone, Copy, Debug)]
pub struct Bid {
    pub bidder: Address,
    /// Plaintext collateral moved into the vault.
    pub deposit_amount: u64,
    /// The encrypted bid amount; it need not equal the deposit.
    pub bid_amount: Handle,
    /// The encrypted flag `bid_amount >= highest bid`, once computed.
    pub is_winner: Option<Handle>,
    pub checked: bool,
    pub withdrawn: bool,
}

/// A comment attached to an auction.
#[derive(Debug)]
pub struct Comment {
    pub auction_id: u64,
    pub comment_id: u64,
    pub commenter: Address,
    pub comment: String,
    pub timestamp: i64,
}

/// An auction together with its ledger of bids.
pub struct Auction {
    pub authority: Address,
    pub auction_id: u64,
    pub minimum_bid: u64,
    pub end_time: i64,
    pub phase: Phase,
    /// The encrypted running maximum of all bid amounts; `None` before the first bid.
    pub highest_bid: Option<Handle>,
    /// The bids, at most one per bidder, in order of arrival.
    pub bids: Vec<Bid>,
    pub metadata: Metadata,
}

/// The state of an auction that its operations read and change.
pub ghost struct AuctionView {
    pub authority: Address,
    pub auction_id: u64,
    pub minimum_bid: u64,
    pub end_time: i64,
    pub phase: Phase,
    pub highest_bid: Option<Handle>,
    pub bids: Seq<Bid>,
}

impl View for Auction {
    type V = AuctionView;

    open spec fn view(&self) -> AuctionView {
        AuctionView {
            authority: self.authority,
            auction_id: self.auction_id,
            minimum_bid: self.minimum_bid,
            end_time: self.end_time,
            phase: self.phase,
            highest_bid: self.highest_bid,
            bids: self.bids@,
        }
    }
}

/// The operation returned `expected`'s error and left the state as it was,
/// or succeeded and left the state that `expected` holds.
pub open spec fn applied(
    r: Result<(), AuctionError>,
    before: AuctionView,
    after: AuctionView,
    expected: Result<AuctionView, AuctionError>,
) -> bool {
    match expected {
        Ok(v) => r is Ok && after == v,
        Err(e) => r == Err::<(), AuctionError>(e) && after == before,
    }
}

/// A position found by an exec search, read as an integer.
pub open spec fn index_result(r: Result<usize, AuctionError>) -> Result<int, AuctionError> {
    match r {
        Ok(i) => Ok(i as int),
        Err(e) => Err(e),
    }
}

impl AuctionView {
    /// The same state with the bid at position `i` replaced.
    pub open spec fn with_bid(self, i: int, bid: Bid) -> AuctionView {
        AuctionView { bids: self.bids.update(i, bid), ..self }
    }

    /// The bidder holds a bid in this auction.
    pub open spec fn has_bid(self, bidder: Address) -> bool {
        exists|i: int| 0 <= i < self.bids.len() && #[trigger] self.bids[i].bidder@ == bidder@
    }

    /// The position of the bidder's bid, where there is one.
    pub open spec fn bid_index(self, bidder: Address) -> int {
        choose|i: int| 0 <= i < self.bids.len() && #[trigger] self.bids[i].bidder@ == bidder@
    }

    /// No two bids share a bidder.
    pub open spec fn unique_bidders(self) -> bool {
        forall|i: int, j: int|
            0 <= i < j < self.bids.len() ==> #[trigger] self.bids[i].bidder@ != #[trigger] self.bids[j].bidder@
    }

    /// The invariant that every operation keeps.
    pub open spec fn wf(self) -> bool {
        &&& self.unique_bidders()
        &&& (self.highest_bid is Some <==> self.bids.len() > 0)
        &&& (self.phase == Phase::Closed ==> self.bids.len() > 0)
        &&& forall|i: int| 0 <= i < self.bids.len() ==> #[trigger] self.bids[i].flags_consistent()
    }

    /// Replacing a bid by one of the same bidder and amount, whose flags are
    /// consistent, keeps the invariant.
    pub proof fn lemma_with_bid_wf(self, i: int, bid: Bid)
        requires
            self.wf(),
            0 <= i < self.bids.len(),
            bid.bidder@ == self.bids[i].bidder@,
            bid.bid_amount == self.bids[i].bid_amount,
            bid.flags_consistent(),
        ensures
            self.with_bid(i, bid).wf(),
    {
        let v = self.with_bid(i, bid);
        assert(v.bids.len() == self.bids.len());
        assert forall|j: int| 0 <= j < v.bids.len() implies #[trigger] v.bids[j].bidder@
            == self.bids[j].bidder@ by {
            if j == i {
                assert(v.bids[j] == bid);
            }
        }
        assert forall|j: int, k: int| 0 <= j < k < v.bids.len() implies #[trigger] v.bids[j].bidder@
            != #[trigger] v.bids[k].bidder@ by {
            assert(self.bids[j].bidder@ != self.bids[k].bidder@);
            assert(v.bids[j].bidder@ == self.bids[j].bidder@);
            assert(v.bids[k].bidder@ == self.bids[k].bidder@);
        }
        assert forall|j: int| 0 <= j < v.bids.len() implies #[trigger] v.bids[j].flags_consistent() by {
            assert(self.bids[j].flags_consistent());
        }
    }

    /// Where the bidder holds a bid, `bid_index` finds it.
    pub proof fn lemma_bid_index(self, bidder: Address, i: int)
        requires
            self.unique_bidders(),
            0 <= i < self.bids.len(),
            self.bids[i].bidder@ == bidder@,
        ensures
            self.has_bid(bidder),
            self.bid_index(bidder) == i,
    {
        assert(self.has_bid(bidder));
        let j = self.bid_index(bidder);
        if j < i {
            assert(self.bids[j].bidder@ != self.bids[i].bidder@);
        } else if i < j {
            assert(self.bids[i].bidder@ != self.bids[j].bidder@);
        }
    }
}

impl Bid {
    /// A withdrawn bid was checked, and a checked bid holds its win flag.
    pub open spec fn flags_consistent(self) -> bool {
        &&& (self.withdrawn ==> self.checked)
        &&& (self.checked ==> self.is_winner is Some)
    }
}

impl Auction {
    pub open spec fn wf(&self) -> bool {
        self@.wf()
    }

    /// Finds the bid that the bidder holds.
    pub fn find_bid(&self, bidder: &Address) -> (r: Option<usize>)
        requires
            self.wf(),
        ensures
            r is Some <==> self@.has_bid(*bidder),
            r matches Some(i) ==> i == self@.bid_index(*bidder) && i < self.bids.len(),
    {
        let mut i: usize = 0;
        while i < self.bids.len()
            invariant
                self.wf(),
                0 <= i <= self.bids.len(),
                forall|j: int| 0 <= j < i ==> #[trigger] self.bids@[j].bidder@ != bidder@,
            decreases self.bids.len() - i,
        {
            if self.bids[i].bidder == *bidder {
                proof {
                    self@.lemma_bid_index(*bidder, i as int);
                }
                return Some(i);
            }
            i = i + 1;
        }
        None
    }

    /// Checks the invariant, for a state that was stored and loaded again.
    pub fn is_well_formed(&self) -> (r: bool)
        ensures
            r == self.wf(),
    {
        let n = self.bids.len();
        if self.highest_bid.is_some() != (n > 0) {
            return false;
        }
        if self.phase == Phase::Closed && n == 0 {
            return false;
        }
        let mut i: usize = 0;
        while i < n
            invariant
                n == self.bids.len(),
                0 <= i <= n,
                forall|a: int, b: int| 0 <= a < i && a < b < n ==> #[trigger] self.bids@[a].bidder@
                    != #[trigger] self.bids@[b].bidder@,
                forall|a: int| 0 <= a < i ==> #[trigger] self.bids@[a].flags_consistent(),
            decreases n - i,
        {
            let b = self.bids[i];
            if (b.withdrawn && !b.checked) || (b.checked && b.is_winner.is_none()) {
                assert(!self.bids@[i as int].flags_consistent());
                return false;
            }
            let mut j: usize = i + 1;
            while j < n
                invariant
                    n == self.bids.len(),
                    0 <= i < n,
                    i < j <= n,
                    b == self.bids@[i as int],
                    forall|c: int| i < c < j ==> self.bids@[i as int].bidder@ != #[trigger] self.bids@[c].bidder@,
                decreases n - j,
            {
                if self.bids[j].bidder == b.bidder {
                    return false;
                }
                j = j + 1;
            }
            i = i + 1;
        }
        true
    }

    /// The number of bids placed so far.
    pub fn bidder_count(&self) -> (r: usize)
        ensures
            r == self.bids.len(),
    {
        self.bids.len()
    }

    pub fn is_open(&self) -> (r: bool)
        ensures
            r == (self.phase == Phase::Open),
    {
        self.phase == Phase::Open
    }

    pub fn is_closed(&self) -> (r: bool)
        ensures
            r == (self.phase == Phase::Closed),
    {
        self.phase == Phase::Closed
    }
}

} // verus!
