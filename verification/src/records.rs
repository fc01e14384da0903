//! The two persisted record kinds — the auction registry entry and the bid
//! commitment — together with the protocol's fixed payload lengths and each
//! record's well-formedness invariant.

use vstd::prelude::*;
use crate::addressing::AuctionAddress;
use crate::identity::AccountId;

verus! {

/// Length in bytes of a bid commitment ciphertext. A protocol parameter: every
/// commitment is rejected unless it is exactly this long.
pub const COMMITMENT_LEN: usize = 32;

/// Length in bytes of the ephemeral public key a bidder used in the key
/// exchange that produced the commitment.
pub const EPHEMERAL_KEY_LEN: usize = 32;

/// Length in bytes of the nonce used in forming the commitment.
pub const NONCE_LEN: usize = 16;

/// Longest accepted item name, in bytes.
pub const MAX_ITEM_NAME_LEN: usize = 64;

/// Longest accepted item description, in bytes.
pub const MAX_DESCRIPTION_LEN: usize = 256;

/// The lifecycle state of an auction. `Active` is the only initial state;
/// `Finalized` and `Cancelled` are terminal, and no transition ever returns
/// to `Active`.
#[derive(Clone, Copy, Debug, PartialEq, Eq, Structural)]
pub enum AuctionStatus {
    Active,
    Finalized,
    Cancelled,
}

/// One auction registry entry. All fields but `status`, `bid_count` and the
/// four reveal fields are fixed at creation; the reveal fields are set
/// together, exactly once, by finalization.
#[derive(Clone, Debug, PartialEq, Eq)]
pub struct Auction {
    /// Identity of the account that opened the auction.
    pub creator: AccountId,
    /// Opaque descriptive text, at most `MAX_ITEM_NAME_LEN` bytes.
    pub item_name: Vec<u8>,
    /// Opaque descriptive text, at most `MAX_DESCRIPTION_LEN` bytes.
    pub description: Vec<u8>,
    /// Positive floor on the winning amount.
    pub min_bid: u64,
    /// Absolute deadline; bids close strictly before it, finalization opens
    /// at it.
    pub end_time: i64,
    /// Timestamp at creation, strictly before `end_time`.
    pub created_at: i64,
    /// Lifecycle state.
    pub status: AuctionStatus,
    /// Number of accepted bids; incremented exactly once per accepted bid and
    /// never decremented.
    pub bid_count: u64,
    /// Public encryption parameter fixed at creation; every bidder uses it to
    /// form commitments for this auction.
    pub commitment_key: [u8; 32],
    /// Winner identity; absent until finalization.
    pub winner: Option<AccountId>,
    /// Winning amount; absent until finalization.
    pub winning_bid: Option<u64>,
    /// Opaque reference to the off-core computation that produced the winner;
    /// absent until finalization.
    pub computation_ref: Option<Vec<u8>>,
    /// Timestamp of finalization; absent until finalization.
    pub finalized_at: Option<i64>,
}

impl Auction {
    /// The auction record's invariant: creation established it and every
    /// operation preserves it. The reveal fields are jointly present exactly
    /// in the `Finalized` state, and what they hold respects the auction's
    /// own floor and deadline.
    pub open spec fn wf(self) -> bool {
        &&& self.min_bid > 0
        &&& self.item_name@.len() <= MAX_ITEM_NAME_LEN
        &&& self.description@.len() <= MAX_DESCRIPTION_LEN
        &&& self.created_at < self.end_time
        &&& (self.status is Finalized <==> self.winner is Some)
        &&& (self.winner is Some <==> self.winning_bid is Some)
        &&& (self.winner is Some <==> self.computation_ref is Some)
        &&& (self.winner is Some <==> self.finalized_at is Some)
        &&& (self.winning_bid matches Some(w) ==> w >= self.min_bid)
        &&& (self.finalized_at matches Some(t) ==> t >= self.end_time)
    }
}

/// One bid commitment record. Written once by bid submission and never
/// mutated or deleted afterwards: its immutability is what makes the
/// commitment binding without revealing the amount.
#[derive(Clone, Debug, PartialEq, Eq)]
pub struct Bid {
    /// Address of the parent auction.
    pub auction: AuctionAddress,
    /// Identity of the submitting account.
    pub bidder: AccountId,
    /// Opaque ciphertext of the bid amount, exactly `COMMITMENT_LEN` bytes.
    pub commitment: Vec<u8>,
    /// Ephemeral public key of the key exchange, exactly `EPHEMERAL_KEY_LEN`
    /// bytes.
    pub ephemeral_key: Vec<u8>,
    /// Nonce of the commitment, exactly `NONCE_LEN` bytes.
    pub nonce: Vec<u8>,
    /// Timestamp of acceptance, strictly before the parent's deadline.
    pub submitted_at: i64,
}

impl Bid {
    /// The bid record's invariant: the three payload fields have exactly the
    /// protocol's fixed lengths.
    pub open spec fn wf(self) -> bool {
        &&& self.commitment@.len() == COMMITMENT_LEN
        &&& self.ephemeral_key@.len() == EPHEMERAL_KEY_LEN
        &&& self.nonce@.len() == NONCE_LEN
    }
}

} // verus!
