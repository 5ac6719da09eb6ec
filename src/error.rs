use vstd::prelude::*;

verus! {

/// Every way in which an auction operation can be rejected.
#[derive(Clone, Copy, Debug, PartialEq, Eq, Structural)]
pub enum AuctionError {
    /// The signer is not the party the operation needs.
    Unauthorized,
    /// The end time of a new auction is not in the future.
    InvalidSchedule,
    /// A metadata field of a new auction is over its length bound.
    InvalidMetadata,
    /// A comment is empty or too long.
    InvalidInput,
    /// The auction has been closed and takes no more bids.
    AuctionClosed,
    /// The operation needs a closed auction, or the deadline has not passed.
    AuctionStillOpen,
    /// The bidding deadline has passed.
    AuctionEnded,
    /// The auction was closed before.
    AuctionAlreadyClosed,
    /// The auction has no bids and cannot be closed.
    NoBidders,
    /// The deposit is below the minimum bid.
    BidTooLow,
    /// The bidder already holds a bid in this auction.
    DuplicateBid,
    /// The caller is not the bidder, or the bid is not in this auction.
    NotBidder,
    /// The bidder has already asked for the win flag.
    AlreadyChecked,
    /// The win flag has not been computed for the bidder yet.
    NotChecked,
    /// The bid has already been settled.
    AlreadyWithdrawn,
    /// A losing bid with a zero deposit has nothing to refund.
    NoFunds,
    /// The winner of the auction has already been determined.
    WinnerAlreadyDetermined,
    /// The decryption proof does not support the claimed outcome.
    InvalidProof,
    /// The ledger could not move the funds.
    InsufficientFunds,
}

} // verus!
