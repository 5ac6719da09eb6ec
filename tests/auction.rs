use blind_auction::comments::add_comment;
use blind_auction::error::AuctionError;
use blind_auction::lifecycle::{create_auction, text_len, validate_metadata};
use blind_auction::settlement::parse_plaintext_to_bool;
use blind_auction::state::{Auction, Phase};
use blind_auction::types::{Address, Comparison, Handle};

/// Plays the coprocessor: handle `h` holds `values[h - 1]` in the clear.
struct Coprocessor {
    values: Vec<u128>,
}

impl Coprocessor {
    fn new() -> Coprocessor {
        Coprocessor { values: Vec::new() }
    }

    fn encrypt(&mut self, v: u128) -> Handle {
        self.values.push(v);
        Handle(self.values.len() as u128)
    }

    fn decrypt(&self, h: Handle) -> u128 {
        self.values[(h.0 - 1) as usize]
    }

    fn ge(&mut self, a: Handle, b: Handle) -> Handle {
        let r = if self.decrypt(a) >= self.decrypt(b) { 1 } else { 0 };
        self.encrypt(r)
    }

    fn select(&mut self, c: Handle, a: Handle, b: Handle) -> Handle {
        let r = if self.decrypt(c) != 0 { self.decrypt(a) } else { self.decrypt(b) };
        self.encrypt(r)
    }
}

fn addr(n: u8) -> Address {
    Address([n; 32])
}

const AUTHORITY: u8 = 1;
const NOW: i64 = 1_000;
const END: i64 = 2_000;

fn new_auction(minimum_bid: u64) -> Auction {
    create_auction(
        addr(AUTHORITY),
        7,
        minimum_bid,
        END,
        NOW,
        "Painting".to_string(),
        "Oil on canvas".to_string(),
        "art".to_string(),
        "https://example.org/p.png".to_string(),
        vec!["oil".to_string(), "canvas".to_string()],
    )
    .unwrap()
}

/// Runs the host's side of a bid: validation, encryption, and the
/// comparison with the running maximum.
fn bid(a: &mut Auction, cp: &mut Coprocessor, bidder: u8, deposit: u64, amount: u128, now: i64) -> Result<Handle, AuctionError> {
    a.check_bid(&addr(bidder), deposit, now)?;
    let h = cp.encrypt(amount);
    let comparison = match a.highest_bid {
        None => None,
        Some(current) => {
            let is_higher = cp.ge(h, current);
            let selected = cp.select(is_higher, h, current);
            Some(Comparison { is_higher, selected })
        }
    };
    a.place_bid(addr(bidder), deposit, now, h, comparison)?;
    Ok(h)
}

fn check(a: &mut Auction, cp: &mut Coprocessor, bidder: u8) -> Result<Handle, AuctionError> {
    let (amount, highest) = a.win_comparison(&addr(bidder), &addr(bidder))?;
    let flag = cp.ge(amount, highest);
    a.check_win(&addr(bidder), &addr(bidder), flag)?;
    Ok(flag)
}

fn claim(cp: &Coprocessor, flag: Handle) -> Vec<u8> {
    if cp.decrypt(flag) != 0 { b"1".to_vec() } else { b"0".to_vec() }
}

#[test]
fn create_auction_starts_open_and_empty() {
    let a = new_auction(100);
    assert_eq!(a.phase, Phase::Open);
    assert!(a.is_open());
    assert!(!a.is_closed());
    assert_eq!(a.bidder_count(), 0);
    assert_eq!(a.highest_bid, None);
    assert_eq!(a.minimum_bid, 100);
    assert_eq!(a.end_time, END);
    assert_eq!(a.auction_id, 7);
    assert_eq!(a.metadata.title, "Painting");
    assert_eq!(a.metadata.tags.len(), 2);
}

#[test]
fn create_auction_rejects_past_end_time() {
    let r = create_auction(addr(1), 1, 0, NOW, NOW, String::new(), String::new(), String::new(), String::new(), vec![]);
    assert!(matches!(r, Err(AuctionError::InvalidSchedule)));
    let r = create_auction(addr(1), 1, 0, NOW - 1, NOW, String::new(), String::new(), String::new(), String::new(), vec![]);
    assert!(matches!(r, Err(AuctionError::InvalidSchedule)));
    let r = create_auction(addr(1), 1, 0, NOW + 1, NOW, String::new(), String::new(), String::new(), String::new(), vec![]);
    assert!(r.is_ok());
}

#[test]
fn create_auction_checks_metadata_bounds() {
    let make = |title: usize, description: usize, category: usize, url: usize, tags: usize, tag: usize| {
        create_auction(
            addr(1),
            1,
            0,
            END,
            NOW,
            "t".repeat(title),
            "d".repeat(description),
            "c".repeat(category),
            "u".repeat(url),
            vec!["g".repeat(tag); tags],
        )
    };
    assert!(make(100, 1000, 50, 200, 10, 30).is_ok());
    assert!(matches!(make(101, 0, 0, 0, 0, 0), Err(AuctionError::InvalidMetadata)));
    assert!(matches!(make(0, 1001, 0, 0, 0, 0), Err(AuctionError::InvalidMetadata)));
    assert!(matches!(make(0, 0, 51, 0, 0, 0), Err(AuctionError::InvalidMetadata)));
    assert!(matches!(make(0, 0, 0, 201, 0, 0), Err(AuctionError::InvalidMetadata)));
    assert!(matches!(make(0, 0, 0, 0, 11, 0), Err(AuctionError::InvalidMetadata)));
    assert!(matches!(make(0, 0, 0, 0, 1, 31), Err(AuctionError::InvalidMetadata)));
    // The schedule is checked before the metadata.
    let r = create_auction(addr(1), 1, 0, NOW, NOW, "t".repeat(101), String::new(), String::new(), String::new(), vec![]);
    assert!(matches!(r, Err(AuctionError::InvalidSchedule)));
}

#[test]
fn text_length_counts_bytes() {
    assert_eq!(text_len(&String::new()), 0);
    assert_eq!(text_len(&"abc".to_string()), 3);
    assert_eq!(text_len(&"é".to_string()), 2);
    assert!(validate_metadata(&"é".repeat(50), &String::new(), &String::new(), &String::new(), &vec![]));
    assert!(!validate_metadata(&"é".repeat(51), &String::new(), &String::new(), &String::new(), &vec![]));
}

#[test]
fn place_bid_records_bid_and_counts() {
    let mut a = new_auction(100);
    let mut cp = Coprocessor::new();
    let h = bid(&mut a, &mut cp, 2, 150, 150, NOW).unwrap();
    assert_eq!(a.bidder_count(), 1);
    assert_eq!(a.highest_bid, Some(h));
    let b = a.bids[0];
    assert_eq!(b.bidder, addr(2));
    assert_eq!(b.deposit_amount, 150);
    assert_eq!(b.bid_amount, h);
    assert_eq!(b.is_winner, None);
    assert!(!b.checked);
    assert!(!b.withdrawn);
    assert_eq!(a.find_bid(&addr(2)), Some(0));
    assert!(a.is_well_formed());
    assert_eq!(a.find_bid(&addr(3)), None);
}

#[test]
fn place_bid_rejects_low_deposit() {
    let mut a = new_auction(100);
    let mut cp = Coprocessor::new();
    assert!(matches!(bid(&mut a, &mut cp, 2, 99, 500, NOW), Err(AuctionError::BidTooLow)));
    assert!(bid(&mut a, &mut cp, 2, 100, 500, NOW).is_ok());
}

#[test]
fn place_bid_rejects_second_bid_of_same_bidder() {
    let mut a = new_auction(100);
    let mut cp = Coprocessor::new();
    bid(&mut a, &mut cp, 2, 150, 150, NOW).unwrap();
    assert!(matches!(bid(&mut a, &mut cp, 2, 300, 300, NOW), Err(AuctionError::DuplicateBid)));
    let r = a.place_bid(addr(2), 300, NOW, Handle(99), None);
    assert!(matches!(r, Err(AuctionError::DuplicateBid)));
    assert_eq!(a.bidder_count(), 1);
}

#[test]
fn place_bid_rejects_after_deadline() {
    let mut a = new_auction(100);
    let mut cp = Coprocessor::new();
    assert!(matches!(bid(&mut a, &mut cp, 2, 150, 150, END), Err(AuctionError::AuctionEnded)));
    assert!(bid(&mut a, &mut cp, 2, 150, 150, END - 1).is_ok());
}

#[test]
fn place_bid_after_close_fails_as_closed() {
    let mut a = new_auction(100);
    let mut cp = Coprocessor::new();
    bid(&mut a, &mut cp, 2, 150, 150, NOW).unwrap();
    a.close_auction(&addr(AUTHORITY), END).unwrap();
    for now in [0, NOW, END - 1, END, END + 1000] {
        let r = a.place_bid(addr(3), 500, now, Handle(99), None);
        assert!(matches!(r, Err(AuctionError::AuctionClosed)));
        assert!(matches!(a.check_bid(&addr(3), 500, now), Err(AuctionError::AuctionClosed)));
    }
    assert_eq!(a.bidder_count(), 1);
}

#[test]
fn running_maximum_tracks_largest_amount_in_any_order() {
    let orders: [[u128; 4]; 4] = [[10, 20, 30, 40], [40, 30, 20, 10], [20, 40, 10, 30], [30, 10, 40, 20]];
    for amounts in orders {
        let mut a = new_auction(1);
        let mut cp = Coprocessor::new();
        let mut seen: u128 = 0;
        for (k, amount) in amounts.iter().enumerate() {
            bid(&mut a, &mut cp, 10 + k as u8, 1, *amount, NOW).unwrap();
            seen = seen.max(*amount);
            assert_eq!(cp.decrypt(a.highest_bid.unwrap()), seen);
        }
        assert_eq!(seen, 40);
    }
}

#[test]
fn running_maximum_keeps_first_bid_verbatim() {
    let mut a = new_auction(1);
    let mut cp = Coprocessor::new();
    let h = cp.encrypt(5);
    a.place_bid(addr(2), 1, NOW, h, Some(Comparison { is_higher: Handle(77), selected: Handle(78) })).unwrap();
    assert_eq!(a.highest_bid, Some(h));
    let r = a.place_bid(addr(3), 1, NOW, Handle(80), Some(Comparison { is_higher: Handle(81), selected: Handle(82) }));
    assert!(r.is_ok());
    assert_eq!(a.highest_bid, Some(Handle(82)));
}

#[test]
fn close_auction_checks_signer_time_and_bids() {
    let mut a = new_auction(100);
    let mut cp = Coprocessor::new();
    assert!(matches!(a.close_auction(&addr(AUTHORITY), END), Err(AuctionError::NoBidders)));
    bid(&mut a, &mut cp, 2, 150, 150, NOW).unwrap();
    assert!(matches!(a.close_auction(&addr(9), END), Err(AuctionError::Unauthorized)));
    assert!(matches!(a.close_auction(&addr(AUTHORITY), END - 1), Err(AuctionError::AuctionStillOpen)));
    assert_eq!(a.phase, Phase::Open);
    assert!(a.close_auction(&addr(AUTHORITY), END).is_ok());
    assert_eq!(a.phase, Phase::Closed);
    assert!(a.is_closed());
    assert!(!a.is_open());
    assert!(matches!(a.close_auction(&addr(AUTHORITY), END + 1), Err(AuctionError::AuctionAlreadyClosed)));
    assert_eq!(a.phase, Phase::Closed);
}

#[test]
fn check_win_errors() {
    let mut a = new_auction(100);
    let mut cp = Coprocessor::new();
    bid(&mut a, &mut cp, 2, 150, 150, NOW).unwrap();
    assert!(matches!(a.win_comparison(&addr(2), &addr(2)), Err(AuctionError::AuctionStillOpen)));
    assert!(matches!(a.check_win(&addr(2), &addr(2), Handle(50)), Err(AuctionError::AuctionStillOpen)));
    a.close_auction(&addr(AUTHORITY), END).unwrap();
    assert!(matches!(a.check_win(&addr(2), &addr(3), Handle(50)), Err(AuctionError::NotBidder)));
    assert!(matches!(a.check_win(&addr(3), &addr(3), Handle(50)), Err(AuctionError::NotBidder)));
    let (amount, highest) = a.win_comparison(&addr(2), &addr(2)).unwrap();
    assert_eq!(amount, a.bids[0].bid_amount);
    assert_eq!(Some(highest), a.highest_bid);
    assert!(a.check_win(&addr(2), &addr(2), Handle(50)).is_ok());
    assert_eq!(a.bids[0].is_winner, Some(Handle(50)));
    assert!(a.bids[0].checked);
    assert!(matches!(a.check_win(&addr(2), &addr(2), Handle(51)), Err(AuctionError::AlreadyChecked)));
    assert_eq!(a.bids[0].is_winner, Some(Handle(50)));
}

#[test]
fn determine_winner_stores_flag_without_checking() {
    let mut a = new_auction(100);
    let mut cp = Coprocessor::new();
    bid(&mut a, &mut cp, 2, 150, 150, NOW).unwrap();
    assert!(matches!(a.determine_winner(&addr(2), Handle(50)), Err(AuctionError::AuctionStillOpen)));
    assert!(matches!(a.winner_comparison(&addr(2)), Err(AuctionError::AuctionStillOpen)));
    a.close_auction(&addr(AUTHORITY), END).unwrap();
    assert!(matches!(a.determine_winner(&addr(3), Handle(50)), Err(AuctionError::NotBidder)));
    let (amount, highest) = a.winner_comparison(&addr(2)).unwrap();
    let flag = cp.ge(amount, highest);
    assert!(a.determine_winner(&addr(2), flag).is_ok());
    assert_eq!(a.bids[0].is_winner, Some(flag));
    assert!(!a.bids[0].checked);
    assert!(a.determine_winner(&addr(2), flag).is_ok());
    assert!(matches!(a.withdrawal_claim(&addr(2), &addr(2)), Err(AuctionError::NotChecked)));
}

#[test]
fn withdraw_errors() {
    let mut a = new_auction(100);
    let mut cp = Coprocessor::new();
    bid(&mut a, &mut cp, 2, 150, 150, NOW).unwrap();
    bid(&mut a, &mut cp, 3, 200, 200, NOW).unwrap();
    a.close_auction(&addr(AUTHORITY), END).unwrap();
    assert!(matches!(a.withdraw_bid(&addr(2), &addr(2), b"0", true), Err(AuctionError::NotChecked)));
    let flag = check(&mut a, &mut cp, 2).unwrap();
    assert!(matches!(a.withdraw_bid(&addr(2), &addr(3), b"0", true), Err(AuctionError::NotBidder)));
    assert!(matches!(a.withdraw_bid(&addr(4), &addr(4), b"0", true), Err(AuctionError::NotBidder)));
    assert_eq!(a.withdrawal_claim(&addr(2), &addr(2)), Ok(flag));
    assert!(matches!(a.withdraw_bid(&addr(2), &addr(2), b"0", false), Err(AuctionError::InvalidProof)));
    assert!(!a.bids[0].withdrawn);
    assert_eq!(a.withdraw_bid(&addr(2), &addr(2), b"0", true), Ok(150));
    assert!(a.bids[0].withdrawn);
    assert!(matches!(a.withdraw_bid(&addr(2), &addr(2), b"0", true), Err(AuctionError::AlreadyWithdrawn)));
    assert!(matches!(a.withdraw_bid(&addr(2), &addr(2), b"1", true), Err(AuctionError::AlreadyWithdrawn)));
    assert!(matches!(a.withdrawal_claim(&addr(2), &addr(2)), Err(AuctionError::AlreadyWithdrawn)));
}

#[test]
fn withdraw_false_claim_rejected_by_verifier() {
    let mut a = new_auction(100);
    let mut cp = Coprocessor::new();
    bid(&mut a, &mut cp, 2, 150, 150, NOW).unwrap();
    bid(&mut a, &mut cp, 3, 200, 200, NOW).unwrap();
    a.close_auction(&addr(AUTHORITY), END).unwrap();
    let flag = check(&mut a, &mut cp, 3).unwrap();
    assert_eq!(claim(&cp, flag), b"1".to_vec());
    // The winner claims to have lost; the verifier refuses the faked proof.
    let faked = b"0".to_vec();
    let verified = faked == claim(&cp, flag);
    assert!(matches!(a.withdraw_bid(&addr(3), &addr(3), &faked, verified), Err(AuctionError::InvalidProof)));
    assert!(!a.bids[1].withdrawn);
}

#[test]
fn withdraw_loser_with_zero_deposit_has_no_funds() {
    let mut a = new_auction(0);
    let mut cp = Coprocessor::new();
    bid(&mut a, &mut cp, 2, 0, 10, NOW).unwrap();
    bid(&mut a, &mut cp, 3, 0, 20, NOW).unwrap();
    a.close_auction(&addr(AUTHORITY), END).unwrap();
    let flag = check(&mut a, &mut cp, 2).unwrap();
    assert_eq!(cp.decrypt(flag), 0);
    assert!(matches!(a.withdraw_bid(&addr(2), &addr(2), &claim(&cp, flag), true), Err(AuctionError::NoFunds)));
    assert!(!a.bids[0].withdrawn);
    let flag = check(&mut a, &mut cp, 3).unwrap();
    assert_eq!(a.withdraw_bid(&addr(3), &addr(3), &claim(&cp, flag), true), Ok(0));
}

#[test]
fn two_bidders_higher_wins_lower_refunded() {
    let mut a = new_auction(100);
    let mut cp = Coprocessor::new();
    bid(&mut a, &mut cp, 2, 150, 150, NOW).unwrap();
    bid(&mut a, &mut cp, 3, 200, 200, NOW).unwrap();
    a.close_auction(&addr(AUTHORITY), END).unwrap();
    let first = check(&mut a, &mut cp, 2).unwrap();
    let second = check(&mut a, &mut cp, 3).unwrap();
    assert_eq!(cp.decrypt(first), 0);
    assert_eq!(cp.decrypt(second), 1);
    let mut vault: u64 = 350;
    let refund = a.withdraw_bid(&addr(2), &addr(2), &claim(&cp, first), true).unwrap();
    vault -= refund;
    assert_eq!(refund, 150);
    let refund = a.withdraw_bid(&addr(3), &addr(3), &claim(&cp, second), true).unwrap();
    vault -= refund;
    assert_eq!(refund, 0);
    assert_eq!(vault, 200);
}

#[test]
fn tie_makes_both_bidders_winners() {
    let mut a = new_auction(100);
    let mut cp = Coprocessor::new();
    bid(&mut a, &mut cp, 2, 100, 100, NOW).unwrap();
    bid(&mut a, &mut cp, 3, 100, 100, NOW).unwrap();
    a.close_auction(&addr(AUTHORITY), END).unwrap();
    let first = check(&mut a, &mut cp, 2).unwrap();
    let second = check(&mut a, &mut cp, 3).unwrap();
    assert_eq!(cp.decrypt(first), 1);
    assert_eq!(cp.decrypt(second), 1);
    assert_eq!(a.withdraw_bid(&addr(2), &addr(2), &claim(&cp, first), true), Ok(0));
    assert_eq!(a.withdraw_bid(&addr(3), &addr(3), &claim(&cp, second), true), Ok(0));
}

#[test]
fn withdraw_reads_textual_outcomes() {
    let mut a = new_auction(100);
    let mut cp = Coprocessor::new();
    bid(&mut a, &mut cp, 2, 150, 150, NOW).unwrap();
    bid(&mut a, &mut cp, 3, 120, 120, NOW).unwrap();
    a.close_auction(&addr(AUTHORITY), END).unwrap();
    check(&mut a, &mut cp, 2).unwrap();
    check(&mut a, &mut cp, 3).unwrap();
    assert_eq!(a.withdraw_bid(&addr(2), &addr(2), b"true", true), Ok(0));
    assert_eq!(a.withdraw_bid(&addr(3), &addr(3), b"false", true), Ok(120));
}

#[test]
fn plaintext_outcomes() {
    assert!(!parse_plaintext_to_bool(b""));
    assert!(!parse_plaintext_to_bool(b"0"));
    assert!(!parse_plaintext_to_bool(b"false"));
    assert!(parse_plaintext_to_bool(b"1"));
    assert!(parse_plaintext_to_bool(b"true"));
    assert!(!parse_plaintext_to_bool(&[0]));
    assert!(!parse_plaintext_to_bool(&[0, 0, 0]));
    assert!(!parse_plaintext_to_bool(b"000"));
    assert!(!parse_plaintext_to_bool(&[0, b'0']));
    assert!(parse_plaintext_to_bool(&[1]));
    assert!(parse_plaintext_to_bool(&[0, 0, 2]));
    assert!(parse_plaintext_to_bool(b"yes"));
    assert!(parse_plaintext_to_bool(b"False"));
}

#[test]
fn comment_length_bounds() {
    let a = new_auction(100);
    assert!(matches!(add_comment(&a, addr(5), 1, "x".repeat(501), NOW), Err(AuctionError::InvalidInput)));
    assert!(matches!(add_comment(&a, addr(5), 1, String::new(), NOW), Err(AuctionError::InvalidInput)));
    assert!(matches!(add_comment(&a, addr(5), 1, "é".repeat(251), NOW), Err(AuctionError::InvalidInput)));
    let c = add_comment(&a, addr(5), 3, "x".repeat(500), NOW).unwrap();
    assert_eq!(c.auction_id, 7);
    assert_eq!(c.comment_id, 3);
    assert_eq!(c.commenter, addr(5));
    assert_eq!(c.comment.len(), 500);
    assert_eq!(c.timestamp, NOW);
    assert!(add_comment(&a, addr(5), 4, "a".to_string(), NOW).is_ok());
}

#[test]
fn address_equality_compares_all_bytes() {
    let mut k = [7u8; 32];
    assert_eq!(Address(k), Address(k));
    k[31] = 8;
    assert_ne!(Address(k), Address([7u8; 32]));
    k[31] = 7;
    k[0] = 0;
    assert_ne!(Address(k), Address([7u8; 32]));
}

#[test]
fn well_formedness_of_loaded_state() {
    let mut a = new_auction(100);
    let mut cp = Coprocessor::new();
    assert!(a.is_well_formed());
    bid(&mut a, &mut cp, 2, 150, 150, NOW).unwrap();
    bid(&mut a, &mut cp, 3, 150, 150, NOW).unwrap();
    assert!(a.is_well_formed());
    a.bids[1].bidder = addr(2);
    assert!(!a.is_well_formed());
    a.bids[1].bidder = addr(3);
    a.bids[1].withdrawn = true;
    assert!(!a.is_well_formed());
    a.bids[1].withdrawn = false;
    a.bids[1].checked = true;
    assert!(!a.is_well_formed());
    a.bids[1].checked = false;
    a.highest_bid = None;
    assert!(!a.is_well_formed());
    let mut empty = new_auction(100);
    empty.phase = Phase::Closed;
    assert!(!empty.is_well_formed());
}
