//! The lifecycle controller: the four operations of the auction state
//! machine. Each operation takes the caller's identity and the current time
//! as plain values, validates every precondition, and either applies its
//! whole effect or returns one distinct error kind and leaves every record
//! unchanged. The `*_allowed` spec functions say exactly when an operation
//! succeeds; the `*_error` spec functions say exactly which kind it reports
//! when it does not.

use vstd::prelude::*;
use crate::addressing::{AuctionAddress, BidAddress, auction_address, bid_address};
use crate::errors::AuctionError;
use crate::identity::AccountId;
use crate::records::{
    Auction, AuctionStatus, Bid, COMMITMENT_LEN, EPHEMERAL_KEY_LEN, MAX_DESCRIPTION_LEN,
    MAX_ITEM_NAME_LEN, NONCE_LEN,
};

verus! {

/// When creation succeeds: the deadline is strictly in the future, the floor
/// is positive, and both text fields fit their bounds.
pub open spec fn create_allowed(
    item_name: Seq<u8>,
    description: Seq<u8>,
    min_bid: u64,
    end_time: i64,
    now: i64,
) -> bool {
    &&& now < end_time
    &&& min_bid > 0
    &&& item_name.len() <= MAX_ITEM_NAME_LEN
    &&& description.len() <= MAX_DESCRIPTION_LEN
}

/// The kind creation reports when it fails: the first violated precondition,
/// checked in this order.
pub open spec fn create_error(
    item_name: Seq<u8>,
    description: Seq<u8>,
    min_bid: u64,
    end_time: i64,
    now: i64,
) -> AuctionError
    recommends
        !create_allowed(item_name, description, min_bid, end_time, now),
{
    if end_time <= now {
        AuctionError::InvalidEndTime
    } else if min_bid == 0 {
        AuctionError::InvalidMinBid
    } else if item_name.len() > MAX_ITEM_NAME_LEN {
        AuctionError::ItemNameTooLong
    } else {
        AuctionError::DescriptionTooLong
    }
}

/// Opens a new auction on behalf of `creator` at time `now`.
///
/// Succeeds exactly on the inputs that `create_allowed` admits, and then
/// returns the one record that a well-formed fresh auction can be: `Active`,
/// no bids, every reveal field absent, every immutable field taken verbatim
/// from the inputs. On failure nothing is created and the error names the
/// first violated precondition.
pub fn create_auction(
    creator: AccountId,
    item_name: Vec<u8>,
    description: Vec<u8>,
    min_bid: u64,
    end_time: i64,
    commitment_key: [u8; 32],
    now: i64,
) -> (r: Result<Auction, AuctionError>)
    ensures
        r is Ok <==> create_allowed(item_name@, description@, min_bid, end_time, now),
        r matches Ok(a) ==> {
            &&& a.creator == creator
            &&& a.item_name@ == item_name@
            &&& a.description@ == description@
            &&& a.min_bid == min_bid
            &&& a.end_time == end_time
            &&& a.created_at == now
            &&& a.status is Active
            &&& a.bid_count == 0
            &&& a.commitment_key == commitment_key
            &&& a.winner is None
            &&& a.winning_bid is None
            &&& a.computation_ref is None
            &&& a.finalized_at is None
            &&& a.wf()
        },
        r matches Err(e) ==> e == create_error(item_name@, description@, min_bid, end_time, now),
{
    if end_time <= now {
        return Err(AuctionError::InvalidEndTime);
    }
    if min_bid == 0 {
        return Err(AuctionError::InvalidMinBid);
    }
    if item_name.len() > MAX_ITEM_NAME_LEN {
        return Err(AuctionError::ItemNameTooLong);
    }
    if description.len() > MAX_DESCRIPTION_LEN {
        return Err(AuctionError::DescriptionTooLong);
    }
    Ok(
        Auction {
            creator,
            item_name,
            description,
            min_bid,
            end_time,
            created_at: now,
            status: AuctionStatus::Active,
            bid_count: 0,
            commitment_key,
            winner: None,
            winning_bid: None,
            computation_ref: None,
            finalized_at: None,
        },
    )
}

/// When bid submission succeeds: the auction is `Active`, the deadline has
/// not been reached, all three payload fields have exactly the protocol's
/// lengths, and the bid counter has room for one more.
pub open spec fn submit_allowed(
    a: Auction,
    commitment: Seq<u8>,
    ephemeral_key: Seq<u8>,
    nonce: Seq<u8>,
    now: i64,
) -> bool {
    &&& a.status is Active
    &&& now < a.end_time
    &&& commitment.len() == COMMITMENT_LEN
    &&& ephemeral_key.len() == EPHEMERAL_KEY_LEN
    &&& nonce.len() == NONCE_LEN
    &&& a.bid_count < u64::MAX
}

/// The kind bid submission reports when it fails: the first violated
/// precondition, checked in this order.
pub open spec fn submit_error(
    a: Auction,
    commitment: Seq<u8>,
    ephemeral_key: Seq<u8>,
    nonce: Seq<u8>,
    now: i64,
) -> AuctionError
    recommends
        !submit_allowed(a, commitment, ephemeral_key, nonce, now),
{
    if !(a.status is Active) {
        AuctionError::AuctionNotActive
    } else if now >= a.end_time {
        AuctionError::AuctionEnded
    } else if commitment.len() != COMMITMENT_LEN {
        AuctionError::InvalidEncryptedData
    } else if ephemeral_key.len() != EPHEMERAL_KEY_LEN {
        AuctionError::InvalidPublicKey
    } else if nonce.len() != NONCE_LEN {
        AuctionError::InvalidNonce
    } else {
        AuctionError::BidCountOverflow
    }
}

/// Submits a sealed bid by `bidder` at time `now`.
///
/// On success the auction's bid counter grows by exactly one and nothing
/// else about the auction changes; the new bid record carries the payload
/// verbatim, and its address is derived from the parent auction, the bidder,
/// and the counter value the bid was accepted under — so no two accepted
/// bids ever share an address. On failure the auction is left completely
/// unchanged and the error names the first violated precondition; counter
/// overflow fails the operation rather than wrapping.
pub fn submit_bid(
    auction: &mut Auction,
    bidder: AccountId,
    commitment: Vec<u8>,
    ephemeral_key: Vec<u8>,
    nonce: Vec<u8>,
    now: i64,
) -> (r: Result<(Bid, BidAddress), AuctionError>)
    ensures
        r is Ok <==> submit_allowed(*old(auction), commitment@, ephemeral_key@, nonce@, now),
        r is Ok ==> *final(auction) == (Auction {
            bid_count: (old(auction).bid_count + 1) as u64,
            ..*old(auction)
        }),
        r matches Ok((b, addr)) ==> {
            &&& b.auction.creator == old(auction).creator
            &&& b.auction.item_name@ == old(auction).item_name@
            &&& b.bidder == bidder
            &&& b.commitment@ == commitment@
            &&& b.ephemeral_key@ == ephemeral_key@
            &&& b.nonce@ == nonce@
            &&& b.submitted_at == now
            &&& b.wf()
            &&& addr.auction.creator == old(auction).creator
            &&& addr.auction.item_name@ == old(auction).item_name@
            &&& addr.bidder == bidder
            &&& addr.sequence == old(auction).bid_count
        },
        r is Err ==> *final(auction) == *old(auction),
        r matches Err(e) ==> e == submit_error(
            *old(auction),
            commitment@,
            ephemeral_key@,
            nonce@,
            now,
        ),
        old(auction).wf() ==> final(auction).wf(),
{
    if !(auction.status == AuctionStatus::Active) {
        return Err(AuctionError::AuctionNotActive);
    }
    if now >= auction.end_time {
        return Err(AuctionError::AuctionEnded);
    }
    if commitment.len() != COMMITMENT_LEN {
        return Err(AuctionError::InvalidEncryptedData);
    }
    if ephemeral_key.len() != EPHEMERAL_KEY_LEN {
        return Err(AuctionError::InvalidPublicKey);
    }
    if nonce.len() != NONCE_LEN {
        return Err(AuctionError::InvalidNonce);
    }
    if auction.bid_count == u64::MAX {
        return Err(AuctionError::BidCountOverflow);
    }
    let parent = auction_address(&auction.creator, &auction.item_name);
    let addr = bid_address(&parent, &bidder, auction.bid_count);
    let bid = Bid {
        auction: parent,
        bidder,
        commitment,
        ephemeral_key,
        nonce,
        submitted_at: now,
    };
    auction.bid_count = auction.bid_count + 1;
    Ok((bid, addr))
}

/// When finalization succeeds: the auction is `Active`, the deadline has been
/// reached, the caller is the recorded creator, and the asserted winning
/// amount is at least the auction's floor.
pub open spec fn finalize_allowed(a: Auction, caller: AccountId, winning_bid: u64, now: i64) -> bool {
    &&& a.status is Active
    &&& now >= a.end_time
    &&& caller == a.creator
    &&& winning_bid >= a.min_bid
}

/// The kind finalization reports when it fails: the first violated
/// precondition, checked in this order.
pub open spec fn finalize_error(a: Auction, caller: AccountId, winning_bid: u64, now: i64) -> AuctionError
    recommends
        !finalize_allowed(a, caller, winning_bid, now),
{
    if !(a.status is Active) {
        AuctionError::AuctionNotActive
    } else if now < a.end_time {
        AuctionError::AuctionNotEnded
    } else if caller != a.creator {
        AuctionError::UnauthorizedFinalizer
    } else {
        AuctionError::WinningBidTooLow
    }
}

/// Records the externally computed winner and transitions the auction to its
/// terminal `Finalized` state, at most once, at or after the deadline, and
/// only on behalf of the recorded creator.
///
/// On success all four reveal fields become present together — winner,
/// winning amount, the reference to the off-core computation, and the
/// finalization time — and every other field keeps its value. On failure the
/// auction is left completely unchanged. The asserted winner and amount are
/// trusted from the off-core computation; this operation only guards when,
/// by whom, and how often they may be recorded.
pub fn finalize_auction(
    auction: &mut Auction,
    caller: AccountId,
    winner: AccountId,
    winning_bid: u64,
    computation_ref: Vec<u8>,
    now: i64,
) -> (r: Result<(), AuctionError>)
    ensures
        r is Ok <==> finalize_allowed(*old(auction), caller, winning_bid, now),
        r is Ok ==> *final(auction) == (Auction {
            status: AuctionStatus::Finalized,
            winner: Some(winner),
            winning_bid: Some(winning_bid),
            computation_ref: Some(computation_ref),
            finalized_at: Some(now),
            ..*old(auction)
        }),
        r is Err ==> *final(auction) == *old(auction),
        r matches Err(e) ==> e == finalize_error(*old(auction), caller, winning_bid, now),
        old(auction).wf() ==> final(auction).wf(),
{
    if !(auction.status == AuctionStatus::Active) {
        return Err(AuctionError::AuctionNotActive);
    }
    if now < auction.end_time {
        return Err(AuctionError::AuctionNotEnded);
    }
    if !(caller == auction.creator) {
        return Err(AuctionError::UnauthorizedFinalizer);
    }
    if winning_bid < auction.min_bid {
        return Err(AuctionError::WinningBidTooLow);
    }
    auction.status = AuctionStatus::Finalized;
    auction.winner = Some(winner);
    auction.winning_bid = Some(winning_bid);
    auction.computation_ref = Some(computation_ref);
    auction.finalized_at = Some(now);
    Ok(())
}

/// When cancellation succeeds: the caller is the recorded creator, the
/// auction is `Active`, and no bid has been accepted — once any binding
/// commitment exists, the creator can no longer void the auction.
pub open spec fn cancel_allowed(a: Auction, caller: AccountId) -> bool {
    &&& caller == a.creator
    &&& a.status is Active
    &&& a.bid_count == 0
}

/// The kind cancellation reports when it fails: the first violated
/// precondition, checked in this order.
pub open spec fn cancel_error(a: Auction, caller: AccountId) -> AuctionError
    recommends
        !cancel_allowed(a, caller),
{
    if caller != a.creator {
        AuctionError::UnauthorizedCancellation
    } else if !(a.status is Active) {
        AuctionError::AuctionNotActive
    } else {
        AuctionError::CannotCancelWithBids
    }
}

/// Transitions a bid-free auction to its terminal `Cancelled` state on behalf
/// of its creator.
///
/// On success only the status changes; every other field keeps its value. On
/// failure the auction is left completely unchanged.
pub fn cancel_auction(auction: &mut Auction, caller: AccountId) -> (r: Result<(), AuctionError>)
    ensures
        r is Ok <==> cancel_allowed(*old(auction), caller),
        r is Ok ==> *final(auction) == (Auction {
            status: AuctionStatus::Cancelled,
            ..*old(auction)
        }),
        r is Err ==> *final(auction) == *old(auction),
        r matches Err(e) ==> e == cancel_error(*old(auction), caller),
        old(auction).wf() ==> final(auction).wf(),
{
    if !(caller == auction.creator) {
        return Err(AuctionError::UnauthorizedCancellation);
    }
    if !(auction.status == AuctionStatus::Active) {
        return Err(AuctionError::AuctionNotActive);
    }
    if auction.bid_count != 0 {
        return Err(AuctionError::CannotCancelWithBids);
    }
    auction.status = AuctionStatus::Cancelled;
    Ok(())
}

} // verus!
