use auction::{
    auction_address, bid_address, cancel_auction, create_auction, submit_bid, AccountId, Auction,
    AuctionError, AuctionStatus,
};

fn id(tag: u8) -> AccountId {
    AccountId::new([tag; 32])
}

fn open_auction() -> Auction {
    create_auction(id(1), b"lot".to_vec(), b"first lot".to_vec(), 100, 5_000, [7u8; 32], 1_000)
        .unwrap()
}

#[test]
fn submit_accepts_valid_bid() {
    let mut a = open_auction();
    let (bid, addr) = submit_bid(&mut a, id(2), vec![9u8; 32], vec![8u8; 32], vec![6u8; 16], 2_000)
        .unwrap();
    assert_eq!(a.bid_count, 1);
    assert_eq!(a.status, AuctionStatus::Active);
    assert_eq!(bid.auction, auction_address(&id(1), &b"lot".to_vec()));
    assert_eq!(bid.bidder, id(2));
    assert_eq!(bid.commitment, vec![9u8; 32]);
    assert_eq!(bid.ephemeral_key, vec![8u8; 32]);
    assert_eq!(bid.nonce, vec![6u8; 16]);
    assert_eq!(bid.submitted_at, 2_000);
    assert_eq!(addr, bid_address(&auction_address(&id(1), &b"lot".to_vec()), &id(2), 0));
}

#[test]
fn submit_counts_and_separates_three_bids() {
    let mut a = open_auction();
    let (_, addr0) = submit_bid(&mut a, id(2), vec![1u8; 32], vec![0u8; 32], vec![0u8; 16], 1_500)
        .unwrap();
    let (_, addr1) = submit_bid(&mut a, id(3), vec![2u8; 32], vec![0u8; 32], vec![0u8; 16], 2_000)
        .unwrap();
    // The same bidder again: the sequence number keeps the address fresh.
    let (_, addr2) = submit_bid(&mut a, id(2), vec![3u8; 32], vec![0u8; 32], vec![0u8; 16], 2_500)
        .unwrap();
    assert_eq!(a.bid_count, 3);
    assert_ne!(addr0, addr1);
    assert_ne!(addr0, addr2);
    assert_ne!(addr1, addr2);
    let parent = auction_address(&id(1), &b"lot".to_vec());
    assert_eq!(addr0, bid_address(&parent, &id(2), 0));
    assert_eq!(addr1, bid_address(&parent, &id(3), 1));
    assert_eq!(addr2, bid_address(&parent, &id(2), 2));
}

#[test]
fn submit_rejects_short_commitment() {
    let mut a = open_auction();
    let r = submit_bid(&mut a, id(2), vec![9u8; 31], vec![8u8; 32], vec![6u8; 16], 2_000);
    assert_eq!(r.unwrap_err(), AuctionError::InvalidEncryptedData);
    assert_eq!(a.bid_count, 0);
}

#[test]
fn submit_rejects_long_commitment() {
    let mut a = open_auction();
    let r = submit_bid(&mut a, id(2), vec![9u8; 33], vec![8u8; 32], vec![6u8; 16], 2_000);
    assert_eq!(r.unwrap_err(), AuctionError::InvalidEncryptedData);
    assert_eq!(a.bid_count, 0);
}

#[test]
fn submit_with_bad_commitment_fails_in_every_state() {
    // Even once the auction is no longer active, a malformed commitment is
    // still rejected; the state check merely reports first.
    let mut a = open_auction();
    cancel_auction(&mut a, id(1)).unwrap();
    let r = submit_bid(&mut a, id(2), vec![9u8; 31], vec![8u8; 32], vec![6u8; 16], 2_000);
    assert!(r.is_err());
    assert_eq!(a.bid_count, 0);
}

#[test]
fn submit_rejects_bad_ephemeral_key_length() {
    let mut a = open_auction();
    let r = submit_bid(&mut a, id(2), vec![9u8; 32], vec![8u8; 31], vec![6u8; 16], 2_000);
    assert_eq!(r.unwrap_err(), AuctionError::InvalidPublicKey);
    assert_eq!(a.bid_count, 0);
}

#[test]
fn submit_rejects_bad_nonce_length() {
    let mut a = open_auction();
    let r = submit_bid(&mut a, id(2), vec![9u8; 32], vec![8u8; 32], vec![6u8; 17], 2_000);
    assert_eq!(r.unwrap_err(), AuctionError::InvalidNonce);
    assert_eq!(a.bid_count, 0);
}

#[test]
fn submit_rejects_at_deadline() {
    let mut a = open_auction();
    let r = submit_bid(&mut a, id(2), vec![9u8; 32], vec![8u8; 32], vec![6u8; 16], 5_000);
    assert_eq!(r.unwrap_err(), AuctionError::AuctionEnded);
    assert_eq!(a.bid_count, 0);
}

#[test]
fn submit_rejects_cancelled_auction() {
    let mut a = open_auction();
    cancel_auction(&mut a, id(1)).unwrap();
    let before = a.clone();
    let r = submit_bid(&mut a, id(2), vec![9u8; 32], vec![8u8; 32], vec![6u8; 16], 2_000);
    assert_eq!(r.unwrap_err(), AuctionError::AuctionNotActive);
    assert_eq!(a, before);
}

#[test]
fn submit_rejects_on_counter_overflow() {
    let mut a = open_auction();
    a.bid_count = u64::MAX;
    let r = submit_bid(&mut a, id(2), vec![9u8; 32], vec![8u8; 32], vec![6u8; 16], 2_000);
    assert_eq!(r.unwrap_err(), AuctionError::BidCountOverflow);
    assert_eq!(a.bid_count, u64::MAX);
}
