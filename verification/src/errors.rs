//! The error kinds of the lifecycle operations. Every precondition violation
//! maps to exactly one kind, so a caller can tell a wrong time window from a
//! wrong caller identity from a malformed payload without reading any state.

use vstd::prelude::*;

verus! {

/// One distinct kind per rejected precondition, plus the counter-overflow
/// failure of bid submission. No operation ever reports a generic catch-all.
#[derive(Clone, Copy, Debug, PartialEq, Eq, Structural)]
pub enum AuctionError {
    /// Create: the requested deadline is not strictly in the future.
    InvalidEndTime,
    /// Create: the minimum bid is zero.
    InvalidMinBid,
    /// Create: the item name is longer than `MAX_ITEM_NAME_LEN` bytes.
    ItemNameTooLong,
    /// Create: the description is longer than `MAX_DESCRIPTION_LEN` bytes.
    DescriptionTooLong,
    /// Submit, finalize or cancel: the auction is no longer `Active`.
    AuctionNotActive,
    /// Submit: the deadline has already passed.
    AuctionEnded,
    /// Finalize: the deadline has not been reached yet.
    AuctionNotEnded,
    /// Submit: the commitment ciphertext is not exactly `COMMITMENT_LEN` bytes.
    InvalidEncryptedData,
    /// Submit: the ephemeral public key is not exactly `EPHEMERAL_KEY_LEN` bytes.
    InvalidPublicKey,
    /// Submit: the nonce is not exactly `NONCE_LEN` bytes.
    InvalidNonce,
    /// Finalize: the caller is not the auction's creator.
    UnauthorizedFinalizer,
    /// Finalize: the asserted winning amount is below the auction's floor.
    WinningBidTooLow,
    /// Cancel: the caller is not the auction's creator.
    UnauthorizedCancellation,
    /// Cancel: at least one binding commitment already exists.
    CannotCancelWithBids,
    /// Submit: accepting the bid would overflow the bid counter.
    BidCountOverflow,
}

} // verus!
