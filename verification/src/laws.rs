//! The library's laws: properties of the lifecycle that hold across
//! operations, stated over the same spec functions the operations' contracts
//! use and proved once and for all.

use vstd::prelude::*;
use crate::addressing::BidAddress;
use crate::identity::AccountId;
use crate::lifecycle::{cancel_allowed, finalize_allowed, submit_allowed};
use crate::records::{Auction, COMMITMENT_LEN};

verus! {

/// A bid whose commitment is not exactly the protocol's fixed ciphertext
/// length is never accepted, whatever the auction's state, the clock, or the
/// rest of the payload.
pub proof fn lemma_bad_commitment_never_accepted(
    a: Auction,
    commitment: Seq<u8>,
    ephemeral_key: Seq<u8>,
    nonce: Seq<u8>,
    now: i64,
)
    requires
        commitment.len() != COMMITMENT_LEN,
    ensures
        !submit_allowed(a, commitment, ephemeral_key, nonce, now),
{
}

/// A closed auction accepts no bid: once the deadline has been reached, or in
/// any state but `Active`, submission is never allowed — and its contract
/// then leaves the auction, its bid counter included, unchanged.
pub proof fn lemma_closed_auction_accepts_no_bid(
    a: Auction,
    commitment: Seq<u8>,
    ephemeral_key: Seq<u8>,
    nonce: Seq<u8>,
    now: i64,
)
    requires
        now >= a.end_time || !(a.status is Active),
    ensures
        !submit_allowed(a, commitment, ephemeral_key, nonce, now),
{
}

/// Once any binding commitment exists, the creator can no longer void the
/// auction: cancellation is not allowed for any caller while `bid_count > 0`.
pub proof fn lemma_no_cancellation_once_bid_exists(a: Auction, caller: AccountId)
    requires
        a.bid_count > 0,
    ensures
        !cancel_allowed(a, caller),
{
}

/// Terminal states are forever: a `Finalized` or `Cancelled` auction rejects
/// every further finalization and every further cancellation, regardless of
/// caller, amount or time — and the operations' contracts then leave it
/// unchanged, so no sequence of calls ever leaves a terminal state.
pub proof fn lemma_terminal_state_rejects_every_transition(
    a: Auction,
    caller: AccountId,
    winning_bid: u64,
    now: i64,
)
    requires
        a.status is Finalized || a.status is Cancelled,
    ensures
        !finalize_allowed(a, caller, winning_bid, now),
        !cancel_allowed(a, caller),
{
}

/// In a run of accepted bids the counter equals the number of steps taken:
/// it starts at zero and each accepted bid raises it by exactly one.
proof fn lemma_run_count(states: Seq<Auction>, k: int)
    requires
        0 <= k < states.len(),
        states[0].bid_count == 0,
        forall|j: int|
            0 <= j < states.len() - 1 ==> #[trigger] states[j + 1].bid_count == states[j].bid_count
                + 1,
    ensures
        states[k].bid_count == k,
    decreases k,
{
    if k > 0 {
        lemma_run_count(states, k - 1);
        assert(states[(k - 1) + 1].bid_count == states[k - 1].bid_count + 1);
    }
}

/// Over any run of accepted bids on one auction — the counter starting at
/// zero, each accepted bid raising it by exactly one and taking the counter
/// value it observed as its address's sequence number, which is what
/// `submit_bid` ensures — an auction that accepts N bids ends with
/// `bid_count == N`, and the N bid addresses are pairwise distinct.
pub proof fn lemma_bid_run_counts_and_addresses(states: Seq<Auction>, addrs: Seq<BidAddress>)
    requires
        states.len() == addrs.len() + 1,
        states[0].bid_count == 0,
        forall|k: int|
            0 <= k < addrs.len() ==> #[trigger] states[k + 1].bid_count == states[k].bid_count + 1,
        forall|k: int| 0 <= k < addrs.len() ==> #[trigger] addrs[k].sequence == states[k].bid_count,
    ensures
        states[addrs.len() as int].bid_count == addrs.len(),
        forall|i: int, j: int| 0 <= i < j < addrs.len() ==> addrs[i] != addrs[j],
{
    lemma_run_count(states, addrs.len() as int);
    assert forall|i: int, j: int| 0 <= i < j < addrs.len() implies addrs[i] != addrs[j] by {
        lemma_run_count(states, i);
        lemma_run_count(states, j);
        assert(addrs[i].sequence == i);
        assert(addrs[j].sequence == j);
    }
}

} // verus!
