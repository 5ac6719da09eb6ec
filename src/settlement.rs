use vstd::prelude::*;

use crate::error::AuctionError;
use crate::state::{applied, index_result, Auction, AuctionView, Bid, Phase};
use crate::types::{Address, Handle};

verus! {

/// How a verified decryption of a win flag reads as an outcome: empty is a
/// loss, the texts `0` and `false` are a loss, `1` and `true` a win, and any
/// other bytes a win exactly when one of them is neither zero nor the digit `0`.
pub open spec fn plaintext_to_bool(p: Seq<u8>) -> bool {
    if p.len() == 0 {
        false
    } else if p == seq![48u8] || p == seq![102u8, 97u8, 108u8, 115u8, 101u8] {
        false
    } else if p == seq![49u8] || p == seq![116u8, 114u8, 117u8, 101u8] {
        true
    } else {
        exists|i: int| 0 <= i < p.len() && #[trigger] p[i] != 0 && p[i] != 48
    }
}

/// The operation returned `expected`'s error and left the state as it was,
/// or succeeded with the amount and the state that `expected` holds.
pub open spec fn settled(
    r: Result<u64, AuctionError>,
    before: AuctionView,
    after: AuctionView,
    expected: Result<(AuctionView, u64), AuctionError>,
) -> bool {
    match expected {
        Ok((v, amount)) => r == Ok::<u64, AuctionError>(amount) && after == v,
        Err(e) => r == Err::<u64, AuctionError>(e) && after == before,
    }
}

/// Reads the plaintext of a verified win flag as an outcome.
pub fn parse_plaintext_to_bool(plaintext: &[u8]) -> (r: bool)
    ensures
        r == plaintext_to_bool(plaintext@),
{
    let p = plaintext;
    let n = p.len();
    if n == 0 {
        return false;
    }
    if n == 1 && p[0] == 48 {
        assert(p@ =~= seq![48u8]);
        return false;
    }
    if n == 5 && p[0] == 102 && p[1] == 97 && p[2] == 108 && p[3] == 115 && p[4] == 101 {
        assert(p@ =~= seq![102u8, 97u8, 108u8, 115u8, 101u8]);
        return false;
    }
    if n == 1 && p[0] == 49 {
        assert(p@ =~= seq![49u8]);
        assert(p@ != seq![48u8]);
        assert(p@.len() != 5);
        return true;
    }
    if n == 4 && p[0] == 116 && p[1] == 114 && p[2] == 117 && p[3] == 101 {
        assert(p@ =~= seq![116u8, 114u8, 117u8, 101u8]);
        return true;
    }
    assert(p@ != seq![48u8]) by {
        if n == 1 {
            assert(seq![48u8][0] == 48);
        }
    }
    assert(p@ != seq![102u8, 97u8, 108u8, 115u8, 101u8]) by {
        if n == 5 {
            let w = seq![102u8, 97u8, 108u8, 115u8, 101u8];
            assert(w[0] == 102 && w[1] == 97 && w[2] == 108 && w[3] == 115 && w[4] == 101);
        }
    }
    assert(p@ != seq![49u8]) by {
        if n == 1 {
            assert(seq![49u8][0] == 49);
        }
    }
    assert(p@ != seq![116u8, 114u8, 117u8, 101u8]) by {
        if n == 4 {
            let w = seq![116u8, 114u8, 117u8, 101u8];
            assert(w[0] == 116 && w[1] == 114 && w[2] == 117 && w[3] == 101);
        }
    }
    any_nonzero(p)
}

/// Some byte is neither zero nor the digit `0`.
fn any_nonzero(p: &[u8]) -> (r: bool)
    ensures
        r == exists|i: int| 0 <= i < p@.len() && #[trigger] p@[i] != 0 && p@[i] != 48,
{
    let n = p.len();
    let mut i: usize = 0;
    while i < n
        invariant
            n == p@.len(),
            0 <= i <= n,
            forall|j: int| 0 <= j < i ==> #[trigger] p@[j] == 0 || p@[j] == 48,
        decreases n - i,
    {
        if p[i] != 0 && p[i] != 48 {
            assert(p@[i as int] != 0 && p@[i as int] != 48);
            return true;
        }
        i = i + 1;
    }
    false
}

impl AuctionView {
    /// Which bid a bidder's own request for the win flag is about, or why
    /// the request is refused.
    pub open spec fn win_check(self, bidder: Address, caller: Address) -> Result<int, AuctionError> {
        if !self.has_bid(bidder) || caller@ != bidder@ {
            Err(AuctionError::NotBidder)
        } else if self.phase == Phase::Open {
            Err(AuctionError::AuctionStillOpen)
        } else if self.bids[self.bid_index(bidder)].checked {
            Err(AuctionError::AlreadyChecked)
        } else {
            Ok(self.bid_index(bidder))
        }
    }

    /// The state after the bidder stores the coprocessor's flag
    /// `bid amount >= highest bid` on their own bid.
    pub open spec fn check_win_outcome(self, bidder: Address, caller: Address, is_winner: Handle) -> Result<
        AuctionView,
        AuctionError,
    > {
        match self.win_check(bidder, caller) {
            Err(e) => Err(e),
            Ok(i) => Ok(self.with_bid(i, Bid { is_winner: Some(is_winner), checked: true, ..self.bids[i] })),
        }
    }

    /// Which bid a third party's determination is about, or why it is refused.
    pub open spec fn winner_check(self, bidder: Address) -> Result<int, AuctionError> {
        if self.phase == Phase::Open {
            Err(AuctionError::AuctionStillOpen)
        } else if !self.has_bid(bidder) {
            Err(AuctionError::NotBidder)
        } else {
            Ok(self.bid_index(bidder))
        }
    }

    /// The state after anyone stores the coprocessor's flag on a bid; the
    /// bid's `checked` flag is left alone.
    pub open spec fn determine_winner_outcome(self, bidder: Address, is_winner: Handle) -> Result<
        AuctionView,
        AuctionError,
    > {
        match self.winner_check(bidder) {
            Err(e) => Err(e),
            Ok(i) => Ok(self.with_bid(i, Bid { is_winner: Some(is_winner), ..self.bids[i] })),
        }
    }

    /// Which bid a withdrawal is about, or why it is refused before any proof is read.
    pub open spec fn withdrawal_check(self, bidder: Address, caller: Address) -> Result<int, AuctionError> {
        if !self.has_bid(bidder) || caller@ != bidder@ {
            Err(AuctionError::NotBidder)
        } else if !self.bids[self.bid_index(bidder)].checked {
            Err(AuctionError::NotChecked)
        } else if self.bids[self.bid_index(bidder)].withdrawn {
            Err(AuctionError::AlreadyWithdrawn)
        } else if self.phase == Phase::Open {
            Err(AuctionError::AuctionStillOpen)
        } else {
            Ok(self.bid_index(bidder))
        }
    }

    /// The state after a withdrawal, and the amount that the vault pays back
    /// to the bidder: nothing for a winner, whose deposit stays as payment,
    /// and the whole deposit for a loser.
    pub open spec fn withdraw_outcome(
        self,
        bidder: Address,
        caller: Address,
        plaintext: Seq<u8>,
        verified: bool,
    ) -> Result<(AuctionView, u64), AuctionError> {
        match self.withdrawal_check(bidder, caller) {
            Err(e) => Err(e),
            Ok(i) => {
                let b = self.bids[i];
                let after = self.with_bid(i, Bid { withdrawn: true, ..b });
                if !verified {
                    Err(AuctionError::InvalidProof)
                } else if plaintext_to_bool(plaintext) {
                    Ok((after, 0))
                } else if b.deposit_amount == 0 {
                    Err(AuctionError::NoFunds)
                } else {
                    Ok((after, b.deposit_amount))
                }
            },
        }
    }
}

impl Auction {
    fn win_index(&self, bidder: &Address, caller: &Address) -> (r: Result<usize, AuctionError>)
        requires
            self.wf(),
        ensures
            index_result(r) == self@.win_check(*bidder, *caller),
            r matches Ok(i) ==> i < self.bids.len(),
    {
        match self.find_bid(bidder) {
            None => Err(AuctionError::NotBidder),
            Some(i) => {
                if *caller != *bidder {
                    Err(AuctionError::NotBidder)
                } else if self.phase == Phase::Open {
                    Err(AuctionError::AuctionStillOpen)
                } else if self.bids[i].checked {
                    Err(AuctionError::AlreadyChecked)
                } else {
                    Ok(i)
                }
            },
        }
    }

    /// The operands of the comparison that decides whether the bidder won:
    /// their encrypted amount and the encrypted highest bid.
    pub fn win_comparison(&self, bidder: &Address, caller: &Address) -> (r: Result<(Handle, Handle), AuctionError>)
        requires
            self.wf(),
        ensures
            match self@.win_check(*bidder, *caller) {
                Ok(i) => r == Ok::<(Handle, Handle), AuctionError>(
                    (self@.bids[i].bid_amount, self@.highest_bid->0),
                ),
                Err(e) => r == Err::<(Handle, Handle), AuctionError>(e),
            },
    {
        match self.win_index(bidder, caller) {
            Ok(i) => {
                let highest = self.highest_bid.unwrap();
                Ok((self.bids[i].bid_amount, highest))
            },
            Err(e) => Err(e),
        }
    }

    /// The bidder stores the coprocessor's answer `is_winner` to the
    /// comparison of `win_comparison` on their bid, which marks it checked.
    pub fn check_win(&mut self, bidder: &Address, caller: &Address, is_winner: Handle) -> (r: Result<(), AuctionError>)
        requires
            old(self).wf(),
        ensures
            final(self).wf(),
            applied(r, old(self)@, final(self)@, old(self)@.check_win_outcome(*bidder, *caller, is_winner)),
            final(self).metadata == old(self).metadata,
    {
        match self.win_index(bidder, caller) {
            Ok(i) => {
                let mut b = self.bids[i];
                b.is_winner = Some(is_winner);
                b.checked = true;
                proof {
                    assert(old(self)@.bids[i as int].flags_consistent());
            old(self)@.lemma_with_bid_wf(i as int, b);
                }
                self.bids.set(i, b);
                assert(self@ == old(self)@.with_bid(i as int, b));
                Ok(())
            },
            Err(e) => Err(e),
        }
    }

    fn winner_index(&self, bidder: &Address) -> (r: Result<usize, AuctionError>)
        requires
            self.wf(),
        ensures
            index_result(r) == self@.winner_check(*bidder),
            r matches Ok(i) ==> i < self.bids.len(),
    {
        if self.phase == Phase::Open {
            return Err(AuctionError::AuctionStillOpen);
        }
        match self.find_bid(bidder) {
            None => Err(AuctionError::NotBidder),
            Some(i) => Ok(i),
        }
    }

    /// The operands of the comparison that decides whether a bid won, for a
    /// determination made by anyone.
    pub fn winner_comparison(&self, bidder: &Address) -> (r: Result<(Handle, Handle), AuctionError>)
        requires
            self.wf(),
        ensures
            match self@.winner_check(*bidder) {
                Ok(i) => r == Ok::<(Handle, Handle), AuctionError>(
                    (self@.bids[i].bid_amount, self@.highest_bid->0),
                ),
                Err(e) => r == Err::<(Handle, Handle), AuctionError>(e),
            },
    {
        match self.winner_index(bidder) {
            Ok(i) => {
                let highest = self.highest_bid.unwrap();
                Ok((self.bids[i].bid_amount, highest))
            },
            Err(e) => Err(e),
        }
    }

    /// Anyone stores the coprocessor's answer `is_winner` to the comparison
    /// of `winner_comparison` on a bid; the bid is not marked checked.
    pub fn determine_winner(&mut self, bidder: &Address, is_winner: Handle) -> (r: Result<(), AuctionError>)
        requires
            old(self).wf(),
        ensures
            final(self).wf(),
            applied(r, old(self)@, final(self)@, old(self)@.determine_winner_outcome(*bidder, is_winner)),
            final(self).metadata == old(self).metadata,
    {
        match self.winner_index(bidder) {
            Ok(i) => {
                let mut b = self.bids[i];
                b.is_winner = Some(is_winner);
                proof {
                    assert(old(self)@.bids[i as int].flags_consistent());
            old(self)@.lemma_with_bid_wf(i as int, b);
                }
                self.bids.set(i, b);
                assert(self@ == old(self)@.with_bid(i as int, b));
                Ok(())
            },
            Err(e) => Err(e),
        }
    }

    fn withdrawal_index(&self, bidder: &Address, caller: &Address) -> (r: Result<usize, AuctionError>)
        requires
            self.wf(),
        ensures
            index_result(r) == self@.withdrawal_check(*bidder, *caller),
            r matches Ok(i) ==> i < self.bids.len(),
    {
        match self.find_bid(bidder) {
            None => Err(AuctionError::NotBidder),
            Some(i) => {
                if *caller != *bidder {
                    Err(AuctionError::NotBidder)
                } else if !self.bids[i].checked {
                    Err(AuctionError::NotChecked)
                } else if self.bids[i].withdrawn {
                    Err(AuctionError::AlreadyWithdrawn)
                } else if self.phase == Phase::Open {
                    Err(AuctionError::AuctionStillOpen)
                } else {
                    Ok(i)
                }
            },
        }
    }

    /// The encrypted win flag whose decryption the bidder must prove before
    /// a withdrawal.
    pub fn withdrawal_claim(&self, bidder: &Address, caller: &Address) -> (r: Result<Handle, AuctionError>)
        requires
            self.wf(),
        ensures
            match self@.withdrawal_check(*bidder, *caller) {
                Ok(i) => r == Ok::<Handle, AuctionError>(self@.bids[i].is_winner->0),
                Err(e) => r == Err::<Handle, AuctionError>(e),
            },
    {
        match self.withdrawal_index(bidder, caller) {
            Ok(i) => {
                assert(self@.bids[i as int].flags_consistent());
                Ok(self.bids[i].is_winner.unwrap())
            },
            Err(e) => Err(e),
        }
    }

    /// Settles the bidder's bid once. `plaintext` is the claimed decryption
    /// of the flag from `withdrawal_claim`, and `verified` the verifier's
    /// answer on that flag and plaintext. Returns the amount that the vault
    /// must pay back to the bidder.
    pub fn withdraw_bid(&mut self, bidder: &Address, caller: &Address, plaintext: &[u8], verified: bool) -> (r: Result<
        u64,
        AuctionError,
    >)
        requires
            old(self).wf(),
        ensures
            final(self).wf(),
            settled(r, old(self)@, final(self)@, old(self)@.withdraw_outcome(*bidder, *caller, plaintext@, verified)),
            final(self).metadata == old(self).metadata,
    {
        let i = match self.withdrawal_index(bidder, caller) {
            Ok(i) => i,
            Err(e) => return Err(e),
        };
        if !verified {
            return Err(AuctionError::InvalidProof);
        }
        let is_winner = parse_plaintext_to_bool(plaintext);
        let mut b = self.bids[i];
        let amount: u64 = if is_winner {
            0
        } else {
            if b.deposit_amount == 0 {
                return Err(AuctionError::NoFunds);
            }
            b.deposit_amount
        };
        b.withdrawn = true;
        proof {
            assert(old(self)@.bids[i as int].flags_consistent());
            old(self)@.lemma_with_bid_wf(i as int, b);
        }
        self.bids.set(i, b);
        assert(self@ == old(self)@.with_bid(i as int, b));
        Ok(amount)
    }
}

} // verus!
