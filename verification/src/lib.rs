//! A sealed-bid auction core: the lifecycle state machine for auctions whose
//! bid amounts stay confidential until a single authorized finalization event
//! reveals the winner and the winning amount.
//!
//! The library holds the rules only: which operations are allowed in which
//! state, how bid commitments are validated and counted, and how records are
//! addressed so that they never collide. Ledger account allocation, clock
//! reads and transport live outside, in the host program; every operation here
//! takes the current time and the caller's identity as plain values.

pub mod addressing;
pub mod errors;
pub mod identity;
pub mod laws;
pub mod lifecycle;
pub mod records;

pub use addressing::{AuctionAddress, BidAddress, auction_address, bid_address};
pub use errors::AuctionError;
pub use identity::AccountId;
pub use lifecycle::{
    cancel_allowed, cancel_auction, cancel_error, create_allowed, create_auction, create_error,
    finalize_allowed, finalize_auction, finalize_error, submit_allowed, submit_bid, submit_error,
};
pub use records::{
    Auction, AuctionStatus, Bid, COMMITMENT_LEN, EPHEMERAL_KEY_LEN, MAX_DESCRIPTION_LEN,
    MAX_ITEM_NAME_LEN, NONCE_LEN,
};
