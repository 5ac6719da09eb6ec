use vstd::prelude::*;

use crate::error::AuctionError;
use crate::state::{applied, Auction, AuctionView, Metadata, Phase};
use crate::types::Address;

verus! {

pub const MAX_TITLE_LEN: usize = 100;

pub const MAX_DESCRIPTION_LEN: usize = 1000;

pub const MAX_CATEGORY_LEN: usize = 50;

pub const MAX_IMAGE_URL_LEN: usize = 200;

pub const MAX_TAGS: usize = 10;

pub const MAX_TAG_LEN: usize = 30;

/// The length of a text in bytes of UTF-8.
pub open spec fn byte_len(s: Seq<char>) -> nat {
    vstd::utf8::encode_utf8(s).len()
}

/// Every metadata field is within its length bound.
pub open spec fn metadata_ok(
    title: String,
    description: String,
    category: String,
    image_url: String,
    tags: Seq<String>,
) -> bool {
    &&& byte_len(title@) <= MAX_TITLE_LEN
    &&& byte_len(description@) <= MAX_DESCRIPTION_LEN
    &&& byte_len(category@) <= MAX_CATEGORY_LEN
    &&& byte_len(image_url@) <= MAX_IMAGE_URL_LEN
    &&& tags.len() <= MAX_TAGS
    &&& forall|i: int| 0 <= i < tags.len() ==> byte_len(#[trigger] tags[i]@) <= MAX_TAG_LEN
}

/// A new auction: open, without bids, and without a running maximum.
pub open spec fn fresh_auction(authority: Address, auction_id: u64, minimum_bid: u64, end_time: i64) -> AuctionView {
    AuctionView {
        authority,
        auction_id,
        minimum_bid,
        end_time,
        phase: Phase::Open,
        highest_bid: None,
        bids: Seq::empty(),
    }
}

/// The length of a text in bytes.
pub fn text_len(s: &String) -> (r: usize)
    ensures
        r == byte_len(s@),
{
    s.as_str().as_bytes().len()
}

/// Checks each metadata field against its bound.
pub fn validate_metadata(
    title: &String,
    description: &String,
    category: &String,
    image_url: &String,
    tags: &Vec<String>,
) -> (r: bool)
    ensures
        r == metadata_ok(*title, *description, *category, *image_url, tags@),
{
    if text_len(title) > MAX_TITLE_LEN || text_len(description) > MAX_DESCRIPTION_LEN || text_len(category)
        > MAX_CATEGORY_LEN || text_len(image_url) > MAX_IMAGE_URL_LEN || tags.len() > MAX_TAGS {
        return false;
    }
    let mut i: usize = 0;
    while i < tags.len()
        invariant
            0 <= i <= tags.len(),
            forall|j: int| 0 <= j < i ==> byte_len(#[trigger] tags@[j]@) <= MAX_TAG_LEN,
        decreases tags.len() - i,
    {
        if text_len(&tags[i]) > MAX_TAG_LEN {
            return false;
        }
        i = i + 1;
    }
    true
}

/// Creates an auction owned by `authority` that takes bids until `end_time`.
/// `now` is the current time of the host's clock.
pub fn create_auction(
    authority: Address,
    auction_id: u64,
    minimum_bid: u64,
    end_time: i64,
    now: i64,
    title: String,
    description: String,
    category: String,
    image_url: String,
    tags: Vec<String>,
) -> (r: Result<Auction, AuctionError>)
    ensures
        end_time <= now ==> r == Err::<Auction, AuctionError>(AuctionError::InvalidSchedule),
        end_time > now && !metadata_ok(title, description, category, image_url, tags@) ==> r == Err::<
            Auction,
            AuctionError,
        >(AuctionError::InvalidMetadata),
        end_time > now && metadata_ok(title, description, category, image_url, tags@) ==> r is Ok,
        r matches Ok(a) ==> {
            &&& a.wf()
            &&& a@ == fresh_auction(authority, auction_id, minimum_bid, end_time)
            &&& a.metadata.title == title
            &&& a.metadata.description == description
            &&& a.metadata.category == category
            &&& a.metadata.image_url == image_url
            &&& a.metadata.tags == tags
        },
{
    if end_time <= now {
        return Err(AuctionError::InvalidSchedule);
    }
    if !validate_metadata(&title, &description, &category, &image_url, &tags) {
        return Err(AuctionError::InvalidMetadata);
    }
    let a = Auction {
        authority,
        auction_id,
        minimum_bid,
        end_time,
        phase: Phase::Open,
        highest_bid: None,
        bids: Vec::new(),
        metadata: Metadata { title, description, category, image_url, tags },
    };
    assert(a@ =~= fresh_auction(authority, auction_id, minimum_bid, end_time));
    Ok(a)
}

impl AuctionView {
    /// The state after the authority closes the auction at time `now`, or
    /// why it cannot.
    pub open spec fn close_outcome(self, by: Address, now: i64) -> Result<AuctionView, AuctionError> {
        if by@ != self.authority@ {
            Err(AuctionError::Unauthorized)
        } else if self.phase == Phase::Closed {
            Err(AuctionError::AuctionAlreadyClosed)
        } else if now < self.end_time {
            Err(AuctionError::AuctionStillOpen)
        } else if self.bids.len() == 0 {
            Err(AuctionError::NoBidders)
        } else {
            Ok(AuctionView { phase: Phase::Closed, ..self })
        }
    }
}

impl Auction {
    /// Closes the auction for good; `by` is the signer and `now` the
    /// current time of the host's clock.
    pub fn close_auction(&mut self, by: &Address, now: i64) -> (r: Result<(), AuctionError>)
        requires
            old(self).wf(),
        ensures
            final(self).wf(),
            applied(r, old(self)@, final(self)@, old(self)@.close_outcome(*by, now)),
            final(self).metadata == old(self).metadata,
    {
        if *by != self.authority {
            return Err(AuctionError::Unauthorized);
        }
        if self.phase == Phase::Closed {
            return Err(AuctionError::AuctionAlreadyClosed);
        }
        if now < self.end_time {
            return Err(AuctionError::AuctionStillOpen);
        }
        if self.bids.len() == 0 {
            return Err(AuctionError::NoBidders);
        }
        self.phase = Phase::Closed;
        Ok(())
    }
}

} // verus!
