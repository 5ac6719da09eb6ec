use vstd::prelude::*;

use crate::error::AuctionError;
use crate::settlement::plaintext_to_bool;
use crate::state::{AuctionView, Phase};
use crate::types::{Address, Comparison, Handle};

verus! {

/// One call of `place_bid`, with the coprocessor's answers that came with it.
pub ghost struct BidEvent {
    pub bidder: Address,
    pub deposit_amount: u64,
    pub now: i64,
    pub bid_amount: Handle,
    pub comparison: Option<Comparison>,
}

impl AuctionView {
    /// The state after one call of `place_bid`; a refused call changes nothing.
    pub open spec fn after_bid(self, e: BidEvent) -> AuctionView {
        match self.place_bid_outcome(e.bidder, e.deposit_amount, e.now, e.bid_amount, e.comparison) {
            Ok(v) => v,
            Err(_) => self,
        }
    }

    /// Reading handles as plaintexts through `dec`, the highest bid is the
    /// largest bid amount: no bid exceeds it and some bid equals it.
    pub open spec fn highest_is_maximum(self, dec: spec_fn(Handle) -> int) -> bool {
        self.highest_bid matches Some(m) ==> {
            &&& forall|i: int| 0 <= i < self.bids.len() ==> dec(#[trigger] self.bids[i].bid_amount) <= dec(m)
            &&& exists|i: int| 0 <= i < self.bids.len() && dec(#[trigger] self.bids[i].bid_amount) == dec(m)
        }
    }
}

/// The state after a sequence of calls of `place_bid`.
pub open spec fn replay(start: AuctionView, events: Seq<BidEvent>) -> AuctionView
    decreases events.len(),
{
    if events.len() == 0 {
        start
    } else {
        replay(start, events.drop_last()).after_bid(events.last())
    }
}

/// The coprocessor answered the comparison that came with `e` as its two
/// operations are defined, reading handles as plaintexts through `dec`: the
/// flag is set exactly when the new bid is at least the current maximum, and
/// the selection is the new bid when the flag is set and the current maximum
/// otherwise.
pub open spec fn answered_faithfully(s: AuctionView, e: BidEvent, dec: spec_fn(Handle) -> int) -> bool {
    match s.highest_bid {
        None => true,
        Some(current) => match e.comparison {
            None => false,
            Some(c) => {
                &&& (dec(c.is_higher) != 0 <==> dec(e.bid_amount) >= dec(current))
                &&& dec(c.selected) == if dec(c.is_higher) != 0 {
                    dec(e.bid_amount)
                } else {
                    dec(current)
                }
            },
        },
    }
}

/// Every call in the sequence came with faithful answers.
pub open spec fn faithful(start: AuctionView, events: Seq<BidEvent>, dec: spec_fn(Handle) -> int) -> bool {
    forall|k: int|
        0 <= k < events.len() ==> #[trigger] answered_faithfully(replay(start, events.take(k)), events[k], dec)
}

/// For every sequence of bids on an auction that starts without bids, where
/// the coprocessor answers faithfully, the encrypted highest bid decrypts
/// after each bid to the largest amount placed so far, whatever the order of
/// arrival.
pub proof fn lemma_highest_bid_is_maximum(start: AuctionView, events: Seq<BidEvent>, dec: spec_fn(Handle) -> int)
    requires
        start.wf(),
        start.bids.len() == 0,
        faithful(start, events, dec),
    ensures
        replay(start, events).wf(),
        replay(start, events).highest_is_maximum(dec),
    decreases events.len(),
{
    if events.len() == 0 {
        return;
    }
    let n = events.len() - 1;
    let prefix = events.drop_last();
    assert forall|k: int| 0 <= k < prefix.len() implies #[trigger] answered_faithfully(
        replay(start, prefix.take(k)),
        prefix[k],
        dec,
    ) by {
        assert(prefix.take(k) =~= events.take(k));
        assert(answered_faithfully(replay(start, events.take(k)), events[k], dec));
    }
    lemma_highest_bid_is_maximum(start, prefix, dec);
    let s = replay(start, prefix);
    let e = events[n];
    assert(events.take(n) =~= prefix);
    assert(answered_faithfully(s, e, dec));
    s.lemma_place_bid_wf(e.bidder, e.deposit_amount, e.now, e.bid_amount, e.comparison);
    if let Ok(v) = s.place_bid_outcome(e.bidder, e.deposit_amount, e.now, e.bid_amount, e.comparison) {
        let m = v.highest_bid->0;
        match s.highest_bid {
            None => {
                assert(v.bids.len() == 1);
                assert(dec(v.bids[0].bid_amount) == dec(m));
            },
            Some(current) => {
                let c = e.comparison->0;
                assert(m == c.selected);
                assert forall|i: int| 0 <= i < v.bids.len() implies dec(#[trigger] v.bids[i].bid_amount) <= dec(m) by {
                    if i < s.bids.len() {
                        assert(v.bids[i] == s.bids[i]);
                    }
                }
                if dec(c.is_higher) != 0 {
                    let last = s.bids.len() as int;
                    assert(dec(v.bids[last].bid_amount) == dec(m));
                } else {
                    let j = choose|j: int| 0 <= j < s.bids.len() && dec(#[trigger] s.bids[j].bid_amount) == dec(current);
                    assert(v.bids[j] == s.bids[j]);
                    assert(dec(v.bids[j].bid_amount) == dec(m));
                }
            },
        }
    }
}

/// A bidder who already holds a bid in an auction cannot place another, and
/// every admitted bid leaves at most one bid per bidder.
pub proof fn lemma_one_bid_per_bidder(
    a: AuctionView,
    bidder: Address,
    deposit_amount: u64,
    now: i64,
    bid_amount: Handle,
    comparison: Option<Comparison>,
)
    requires
        a.wf(),
    ensures
        a.has_bid(bidder) ==> a.place_bid_outcome(bidder, deposit_amount, now, bid_amount, comparison) is Err,
        a.place_bid_outcome(bidder, deposit_amount, now, bid_amount, comparison) matches Ok(v) ==> v.unique_bidders(),
{
    a.lemma_place_bid_wf(bidder, deposit_amount, now, bid_amount, comparison);
}

/// Closing never succeeds before the end time or without bids; when it
/// succeeds it turns an open auction into a closed one, and no later close
/// succeeds.
pub proof fn lemma_close_once(a: AuctionView, by: Address, now: i64, later_by: Address, later_now: i64)
    requires
        a.wf(),
    ensures
        now < a.end_time ==> a.close_outcome(by, now) is Err,
        a.bids.len() == 0 ==> a.close_outcome(by, now) is Err,
        a.close_outcome(by, now) matches Ok(v) ==> {
            &&& a.phase == Phase::Open
            &&& v.phase == Phase::Closed
            &&& v.close_outcome(later_by, later_now) is Err
        },
{
}

/// Once closed, an auction refuses every bid as closed, whatever the time.
pub proof fn lemma_closed_refuses_bids(
    a: AuctionView,
    bidder: Address,
    deposit_amount: u64,
    now: i64,
    bid_amount: Handle,
    comparison: Option<Comparison>,
)
    requires
        a.phase == Phase::Closed,
    ensures
        a.place_bid_outcome(bidder, deposit_amount, now, bid_amount, comparison) == Err::<AuctionView, AuctionError>(
            AuctionError::AuctionClosed,
        ),
{
}

/// A withdrawal pays a loser back exactly the deposit and a winner nothing,
/// and after it succeeds no further withdrawal of the same bid succeeds.
pub proof fn lemma_withdraw_once(
    a: AuctionView,
    bidder: Address,
    caller: Address,
    plaintext: Seq<u8>,
    verified: bool,
    later_caller: Address,
    later_plaintext: Seq<u8>,
    later_verified: bool,
)
    requires
        a.wf(),
    ensures
        a.withdraw_outcome(bidder, caller, plaintext, verified) matches Ok((v, amount)) ==> {
            &&& amount == if plaintext_to_bool(plaintext) {
                0
            } else {
                a.bids[a.bid_index(bidder)].deposit_amount
            }
            &&& v.withdraw_outcome(bidder, later_caller, later_plaintext, later_verified) is Err
        },
{
    if let Ok((v, amount)) = a.withdraw_outcome(bidder, caller, plaintext, verified) {
        let i = a.bid_index(bidder);
        assert(v.bids[i].bidder@ == bidder@);
        assert(v.unique_bidders()) by {
            assert forall|j: int, k: int| 0 <= j < k < v.bids.len() implies #[trigger] v.bids[j].bidder@
                != #[trigger] v.bids[k].bidder@ by {
                assert(a.bids[j].bidder@ != a.bids[k].bidder@);
                if j == i {
                    assert(v.bids[j].bidder@ == a.bids[j].bidder@);
                }
                if k == i {
                    assert(v.bids[k].bidder@ == a.bids[k].bidder@);
                }
            }
        }
        v.lemma_bid_index(bidder, i);
    }
}

/// A settled bid stays settled: no operation on the auction, whatever its
/// arguments, turns a withdrawn bid back into one that can be withdrawn.
pub proof fn lemma_withdrawal_is_final(
    a: AuctionView,
    i: int,
    e: BidEvent,
    by: Address,
    now: i64,
    bidder: Address,
    caller: Address,
    is_winner: Handle,
    plaintext: Seq<u8>,
    verified: bool,
)
    requires
        a.wf(),
        0 <= i < a.bids.len(),
        a.bids[i].withdrawn,
    ensures
        a.after_bid(e).bids[i].withdrawn,
        a.close_outcome(by, now) matches Ok(v) ==> v.bids[i].withdrawn,
        a.check_win_outcome(bidder, caller, is_winner) matches Ok(v) ==> v.bids[i].withdrawn,
        a.determine_winner_outcome(bidder, is_winner) matches Ok(v) ==> v.bids[i].withdrawn,
        a.withdraw_outcome(bidder, caller, plaintext, verified) matches Ok((v, _)) ==> v.bids[i].withdrawn,
{
    assert(a.bids[i].flags_consistent());
    if let Ok(v) = a.place_bid_outcome(e.bidder, e.deposit_amount, e.now, e.bid_amount, e.comparison) {
        assert(v.bids[i] == a.bids[i]);
    }
}

/// A withdrawal that passes every other check fails as an invalid proof
/// whenever the verifier does not accept the claimed decryption.
pub proof fn lemma_unverified_claim_rejected(a: AuctionView, bidder: Address, caller: Address, plaintext: Seq<u8>)
    requires
        a.withdrawal_check(bidder, caller) is Ok,
    ensures
        a.withdraw_outcome(bidder, caller, plaintext, false) == Err::<(AuctionView, u64), AuctionError>(
            AuctionError::InvalidProof,
        ),
{
}

} // verus!
