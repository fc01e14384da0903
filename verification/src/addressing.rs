//! Deterministic record addressing. In place of a central registry, every
//! record's location is computed from its identifying fields: an auction from
//! `(creator, item_name)`, a bid from `(auction, bidder, sequence)`. The
//! collision-freedom lemmas below are the addressing contract: distinct
//! identifying fields always give distinct addresses, so no record can ever
//! overwrite another. The host ledger allocates with create-if-absent
//! semantics, which is what rejects a second auction for the same
//! `(creator, item_name)` pair.

use vstd::prelude::*;
use crate::identity::AccountId;

verus! {

/// The address of an auction record: a deterministic function of the creator
/// and the auctioned item's name.
#[derive(Clone, Debug, PartialEq, Eq)]
pub struct AuctionAddress {
    pub creator: AccountId,
    pub item_name: Vec<u8>,
}

/// The address of a bid record: a deterministic function of the parent
/// auction's address, the bidder, and the bid's sequence number (the parent's
/// `bid_count` at the moment the bid was accepted). The sequence number lets
/// one bidder place several bids on one auction without any collision.
#[derive(Clone, Debug, PartialEq, Eq)]
pub struct BidAddress {
    pub auction: AuctionAddress,
    pub bidder: AccountId,
    pub sequence: u64,
}

/// Copies a byte string; the copy holds exactly the same bytes.
fn clone_bytes(v: &Vec<u8>) -> (r: Vec<u8>)
    ensures
        r@ == v@,
{
    let r = v.clone();
    proof {
        assert forall|i: int| 0 <= i < v@.len() implies r@[i] == v@[i] by {
            assert(cloned(v@[i], r@[i]));
        }
        assert(r@ =~= v@);
    }
    r
}

/// Computes the address at which the auction `(creator, item_name)` lives.
pub fn auction_address(creator: &AccountId, item_name: &Vec<u8>) -> (r: AuctionAddress)
    ensures
        r.creator == *creator,
        r.item_name@ == item_name@,
{
    AuctionAddress { creator: *creator, item_name: clone_bytes(item_name) }
}

/// Computes the address of the bid with the given sequence number by `bidder`
/// on the auction at `auction`.
pub fn bid_address(auction: &AuctionAddress, bidder: &AccountId, sequence: u64) -> (r: BidAddress)
    ensures
        r.auction.creator == auction.creator,
        r.auction.item_name@ == auction.item_name@,
        r.bidder == *bidder,
        r.sequence == sequence,
{
    BidAddress {
        auction: AuctionAddress {
            creator: auction.creator,
            item_name: clone_bytes(&auction.item_name),
        },
        bidder: *bidder,
        sequence,
    }
}

/// Auction addressing is collision-free: two auctions that differ in their
/// creator or in their item name live at distinct addresses.
pub proof fn lemma_auction_addresses_distinct(x: AuctionAddress, y: AuctionAddress)
    requires
        x.creator != y.creator || x.item_name@ != y.item_name@,
    ensures
        x != y,
{
}

/// Bid addressing is collision-free: two bids that differ in their parent
/// auction's identifying fields, in their bidder, or in their sequence number
/// live at distinct addresses.
pub proof fn lemma_bid_addresses_distinct(x: BidAddress, y: BidAddress)
    requires
        x.auction.creator != y.auction.creator || x.auction.item_name@ != y.auction.item_name@
            || x.bidder != y.bidder || x.sequence != y.sequence,
    ensures
        x != y,
{
}

} // verus!
