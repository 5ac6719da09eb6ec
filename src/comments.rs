use vstd::prelude::*;

use crate::error::AuctionError;
use crate::lifecycle::{byte_len, text_len};
use crate::state::{Auction, Comment};
use crate::types::Address;

verus! {

pub const MAX_COMMENT_LEN: usize = 500;

/// Writes a comment on an auction. The text must hold between one and
/// `MAX_COMMENT_LEN` bytes; `now` is the current time of the host's clock.
pub fn add_comment(auction: &Auction, commenter: Address, comment_id: u64, text: String, now: i64) -> (r: Result<
    Comment,
    AuctionError,
>)
    ensures
        byte_len(text@) == 0 || byte_len(text@) > MAX_COMMENT_LEN ==> r == Err::<Comment, AuctionError>(
            AuctionError::InvalidInput,
        ),
        0 < byte_len(text@) <= MAX_COMMENT_LEN ==> r is Ok,
        r matches Ok(c) ==> {
            &&& c.auction_id == auction.auction_id
            &&& c.comment_id == comment_id
            &&& c.commenter == commenter
            &&& c.comment == text
            &&& c.timestamp == now
        },
{
    let n = text_len(&text);
    if n > MAX_COMMENT_LEN || n == 0 {
        return Err(AuctionError::InvalidInput);
    }
    Ok(Comment { auction_id: auction.auction_id, comment_id, commenter, comment: text, timestamp: now })
}

} // verus!
