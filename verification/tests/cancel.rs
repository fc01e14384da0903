use auction::{
    cancel_auction, create_auction, finalize_auction, submit_bid, AccountId, Auction,
    AuctionError, AuctionStatus,
};

fn id(tag: u8) -> AccountId {
    AccountId::new([tag; 32])
}

fn open_auction() -> Auction {
    create_auction(id(1), b"lot".to_vec(), b"first lot".to_vec(), 100, 5_000, [7u8; 32], 1_000)
        .unwrap()
}

#[test]
fn cancel_closes_bid_free_auction() {
    let mut a = open_auction();
    cancel_auction(&mut a, id(1)).unwrap();
    assert_eq!(a.status, AuctionStatus::Cancelled);
    // Everything else is untouched, and no winner is ever revealed.
    assert_eq!(a.creator, id(1));
    assert_eq!(a.bid_count, 0);
    assert_eq!(a.winner, None);
    assert_eq!(a.winning_bid, None);
    assert_eq!(a.computation_ref, None);
    assert_eq!(a.finalized_at, None);
}

#[test]
fn cancel_rejects_wrong_caller() {
    let mut a = open_auction();
    let before = a.clone();
    let r = cancel_auction(&mut a, id(2));
    assert_eq!(r.unwrap_err(), AuctionError::UnauthorizedCancellation);
    assert_eq!(a, before);
}

#[test]
fn cancel_rejects_once_a_bid_exists() {
    let mut a = open_auction();
    submit_bid(&mut a, id(2), vec![9u8; 32], vec![8u8; 32], vec![6u8; 16], 2_000).unwrap();
    let before = a.clone();
    let r = cancel_auction(&mut a, id(1));
    assert_eq!(r.unwrap_err(), AuctionError::CannotCancelWithBids);
    assert_eq!(a, before);
    assert_eq!(a.status, AuctionStatus::Active);
}

#[test]
fn cancel_rejects_second_cancellation() {
    let mut a = open_auction();
    cancel_auction(&mut a, id(1)).unwrap();
    let before = a.clone();
    let r = cancel_auction(&mut a, id(1));
    assert_eq!(r.unwrap_err(), AuctionError::AuctionNotActive);
    assert_eq!(a, before);
}

#[test]
fn cancel_rejects_finalized_auction() {
    let mut a = open_auction();
    finalize_auction(&mut a, id(1), id(9), 150, Vec::new(), 5_000).unwrap();
    let before = a.clone();
    let r = cancel_auction(&mut a, id(1));
    assert_eq!(r.unwrap_err(), AuctionError::AuctionNotActive);
    assert_eq!(a, before);
}
