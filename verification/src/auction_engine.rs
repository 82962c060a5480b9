use vstd::prelude::*;
use crate::error::SettlementError;
use crate::escrow_manager::{lemma_net_funds_concat, net_funds, transfer_in, transfer_out, EscrowLedger, Movement};
use crate::security::frontrun_protection::{commitment_of, compute_commitment, same_digest};
use crate::types::{Address, AuctionTransaction, AuctionView, Bid, TransactionState};
use crate::utils::math_utils::fits_i128;
use crate::{EngineView, MarketplaceSettlement};

verus! {

broadcast use vstd::std_specs::hash::group_hash_axioms;

/// Whether `now` lies within the auction's bidding time, both ends included.
pub open spec fn in_window(a: AuctionView, now: u64) -> bool {
    a.start_time <= now <= a.end_time
}

/// The verdict on an amount offered as the new highest bid: it must reach the
/// starting price, outbid a standing highest bid by the increment, and reach
/// the reserve where one is set.
pub open spec fn bid_check(a: AuctionView, amount: i128) -> Result<(), SettlementError> {
    if amount < a.starting_price {
        Err(SettlementError::BidTooLow)
    } else if a.highest_bid > 0 && !fits_i128(a.highest_bid + a.bid_increment) {
        Err(SettlementError::Overflow)
    } else if a.highest_bid > 0 && amount < a.highest_bid + a.bid_increment {
        Err(SettlementError::BidTooLow)
    } else if a.reserve_price > 0 && amount < a.reserve_price {
        Err(SettlementError::BidTooLow)
    } else {
        Ok(())
    }
}

/// Whether a bid at `now` lands in the trailing window that extends the
/// auction.
pub open spec fn extends(a: AuctionView, now: u64) -> bool {
    a.end_time >= now && a.end_time - now <= a.extension_window
}

/// Whether the end time after a bid at `now` can be held in a `u64`.
pub open spec fn extension_fits(a: AuctionView, now: u64) -> bool {
    extends(a, now) ==> a.end_time + a.extension_window <= u64::MAX
}

/// The end time after a bid at `now`.
pub open spec fn extended_end(a: AuctionView, now: u64) -> u64 {
    if extends(a, now) {
        (a.end_time + a.extension_window) as u64
    } else {
        a.end_time
    }
}

/// The refund that an accepted bid owes the bidder it displaces.
pub open spec fn refund_movements(a: AuctionView) -> Seq<Movement> {
    if a.highest_bidder is Some && a.highest_bid > 0 {
        seq![Movement::FundsOut { asset: a.currency, to: a.highest_bidder->0, amount: a.highest_bid }]
    } else {
        Seq::empty()
    }
}

/// The movements of an accepted bid: the new amount comes in, the displaced
/// bidder is paid back in full.
pub open spec fn acceptance_movements(a: AuctionView, bidder: Address, amount: i128) -> Seq<Movement> {
    seq![Movement::FundsIn { asset: a.currency, from: bidder, amount }] + refund_movements(a)
}

/// The auction after `amount` from `bidder` became its highest bid at `now`.
pub open spec fn with_accepted_bid(a: AuctionView, bidder: Address, amount: i128, now: u64) -> AuctionView {
    AuctionView { highest_bid: amount, highest_bidder: Some(bidder), end_time: extended_end(a, now), ..a }
}

/// The entry that a bid leaves in the history. A sealed bid shows its
/// commitment and no amount.
pub open spec fn bid_entry(bidder: Address, amount: i128, commitment: Option<[u8; 32]>, now: u64) -> Bid {
    Bid {
        bidder,
        amount: if commitment is Some { 0 } else { amount },
        placed_at: now,
        is_committed: commitment is Some,
        commitment_hash: commitment,
    }
}

/// The verdict on a bid placed at `now`. A sealed bid passes on state and
/// time alone.
pub open spec fn place_bid_check(a: AuctionView, amount: i128, sealed: bool, now: u64) -> Result<(), SettlementError> {
    if a.state != TransactionState::Pending {
        Err(SettlementError::InvalidState)
    } else if !in_window(a, now) {
        Err(SettlementError::InvalidTime)
    } else if sealed {
        Ok(())
    } else if amount <= 0 {
        Err(SettlementError::InvalidAmount)
    } else if bid_check(a, amount) is Err {
        bid_check(a, amount)
    } else if !extension_fits(a, now) {
        Err(SettlementError::Overflow)
    } else {
        Ok(())
    }
}

/// The auction after a bid that passed `place_bid_check`.
pub open spec fn with_placed_bid(
    a: AuctionView,
    bidder: Address,
    amount: i128,
    commitment: Option<[u8; 32]>,
    now: u64,
) -> AuctionView {
    let entry = bid_entry(bidder, amount, commitment, now);
    if commitment is Some {
        AuctionView { bids: a.bids.push(entry), ..a }
    } else {
        AuctionView { bids: a.bids.push(entry), ..with_accepted_bid(a, bidder, amount, now) }
    }
}

/// The movements of a bid that passed `place_bid_check`: none for a sealed
/// bid.
pub open spec fn placed_bid_movements(a: AuctionView, bidder: Address, amount: i128, sealed: bool) -> Seq<Movement> {
    if sealed {
        Seq::empty()
    } else {
        acceptance_movements(a, bidder, amount)
    }
}

/// The commitment of the bidder's latest sealed bid, if they made one.
pub open spec fn stored_commitment(bids: Seq<Bid>, bidder: Address) -> Option<[u8; 32]>
    decreases bids.len(),
{
    if bids.len() == 0 {
        None
    } else {
        let latest = bids.last();
        if latest.is_committed && latest.bidder == bidder {
            latest.commitment_hash
        } else {
            stored_commitment(bids.drop_last(), bidder)
        }
    }
}

/// The verdict on the disclosure of a sealed bid, given the digest computed
/// from the disclosed amount and salt.
pub open spec fn reveal_check(a: AuctionView, bidder: Address, amount: i128, computed: Seq<u8>, now: u64) -> Result<
    (),
    SettlementError,
> {
    if a.state != TransactionState::Pending {
        Err(SettlementError::InvalidState)
    } else if !in_window(a, now) {
        Err(SettlementError::InvalidTime)
    } else if bid_check(a, amount) is Err {
        bid_check(a, amount)
    } else if stored_commitment(a.bids, bidder) is None {
        Err(SettlementError::NotFound)
    } else if stored_commitment(a.bids, bidder)->0@ != computed {
        Err(SettlementError::CommitmentMismatch)
    } else if amount <= 0 {
        Err(SettlementError::InvalidAmount)
    } else if !extension_fits(a, now) {
        Err(SettlementError::Overflow)
    } else {
        Ok(())
    }
}

/// Checks an amount offered as the new highest bid.
pub fn ensure_valid_bid(auction: &AuctionTransaction, bid_amount: i128) -> (r: Result<(), SettlementError>)
    ensures
        r == bid_check(auction@, bid_amount),
{
    if bid_amount < auction.starting_price {
        return Err(SettlementError::BidTooLow);
    }
    if auction.highest_bid > 0 {
        let min_bid = match auction.highest_bid.checked_add(auction.bid_increment) {
            Some(v) => v,
            None => { return Err(SettlementError::Overflow); },
        };
        if bid_amount < min_bid {
            return Err(SettlementError::BidTooLow);
        }
    }
    if auction.reserve_price > 0 && bid_amount < auction.reserve_price {
        return Err(SettlementError::BidTooLow);
    }
    Ok(())
}

/// Pushes the end of the auction back by its extension window when `now`
/// falls within that window before the end, the end itself included. An end
/// that would leave `u64` is an `Overflow` and leaves the auction as it was.
pub fn maybe_extend_auction(auction: &mut AuctionTransaction, now: u64) -> (r: Result<(), SettlementError>)
    ensures
        extension_fits(old(auction)@, now) ==> r == Ok::<(), SettlementError>(()) && final(auction)@ == (AuctionView {
            end_time: extended_end(old(auction)@, now),
            ..old(auction)@
        }),
        !extension_fits(old(auction)@, now) ==> r == Err::<(), SettlementError>(SettlementError::Overflow)
            && final(auction)@ == old(auction)@,
{
    if auction.end_time >= now && auction.end_time - now <= auction.extension_window {
        match auction.end_time.checked_add(auction.extension_window) {
            Some(end) => { auction.end_time = end; },
            None => { return Err(SettlementError::Overflow); },
        }
    }
    Ok(())
}

/// Whether the end time after a bid at `now` can be held.
fn extension_in_range(auction: &AuctionTransaction, now: u64) -> (r: bool)
    ensures
        r == extension_fits(auction@, now),
{
    if auction.end_time >= now && auction.end_time - now <= auction.extension_window {
        auction.end_time.checked_add(auction.extension_window).is_some()
    } else {
        true
    }
}

/// Makes `amount` from `bidder` the highest bid: the amount comes into
/// escrow, the displaced bidder is refunded, the end time is extended where
/// the bid lands late.
fn accept_bid(auction: &mut AuctionTransaction, ledger: &mut EscrowLedger, bidder: Address, amount: i128, now: u64)
    requires
        amount > 0,
        extension_fits(old(auction)@, now),
    ensures
        final(auction)@ == with_accepted_bid(old(auction)@, bidder, amount, now),
        final(ledger)@ == old(ledger)@ + acceptance_movements(old(auction)@, bidder, amount),
{
    let _ = transfer_in(ledger, &auction.currency, &bidder, amount);
    if let Some(prev_bidder) = auction.highest_bidder {
        if auction.highest_bid > 0 {
            let _ = transfer_out(ledger, &auction.currency, &prev_bidder, auction.highest_bid);
        }
    }
    auction.highest_bid = amount;
    auction.highest_bidder = Some(bidder);
    let _ = maybe_extend_auction(auction, now);
    assert(ledger@ =~= old(ledger)@ + acceptance_movements(old(auction)@, bidder, amount));
}

/// Checks a bid against the auction's state, time and price rules.
fn check_placed_bid(auction: &AuctionTransaction, amount: i128, sealed: bool, now: u64) -> (r: Result<(), SettlementError>)
    ensures
        r == place_bid_check(auction@, amount, sealed, now),
{
    if auction.state != TransactionState::Pending {
        return Err(SettlementError::InvalidState);
    }
    if now < auction.start_time || now > auction.end_time {
        return Err(SettlementError::InvalidTime);
    }
    if sealed {
        return Ok(());
    }
    if amount <= 0 {
        return Err(SettlementError::InvalidAmount);
    }
    ensure_valid_bid(auction, amount)?;
    if !extension_in_range(auction, now) {
        return Err(SettlementError::Overflow);
    }
    Ok(())
}

/// What `place_bid` returns.
pub open spec fn place_bid_outcome(engine: EngineView, auction_id: u64, amount: i128, sealed: bool, now: u64) -> Result<
    (),
    SettlementError,
> {
    if !engine.auctions.contains_key(auction_id) {
        Err(SettlementError::NotFound)
    } else {
        place_bid_check(engine.auctions[auction_id], amount, sealed, now)
    }
}

/// Places a bid at time `now`. An open bid must pass the price rules; it then
/// becomes the highest bid, its funds come into escrow and the bidder it
/// displaces is refunded. A sealed bid moves nothing and shows no amount.
/// Either way the bid joins the history. A refused bid changes nothing.
pub fn place_bid(
    engine: &mut MarketplaceSettlement,
    auction_id: u64,
    bidder: Address,
    bid_amount: i128,
    commitment_hash: Option<[u8; 32]>,
    now: u64,
) -> (r: Result<(), SettlementError>)
    ensures
        r == place_bid_outcome(old(engine)@, auction_id, bid_amount, commitment_hash is Some, now),
        r is Err ==> final(engine)@ == old(engine)@,
        r is Ok ==> final(engine)@ == (EngineView {
            auctions: old(engine)@.auctions.insert(
                auction_id,
                with_placed_bid(old(engine)@.auctions[auction_id], bidder, bid_amount, commitment_hash, now),
            ),
            escrow: old(engine)@.escrow + placed_bid_movements(
                old(engine)@.auctions[auction_id],
                bidder,
                bid_amount,
                commitment_hash is Some,
            ),
            ..old(engine)@
        }),
{
    let is_committed = commitment_hash.is_some();
    match engine.auctions.get(&auction_id) {
        None => { return Err(SettlementError::NotFound); },
        Some(auction) => { check_placed_bid(auction, bid_amount, is_committed, now)?; },
    }
    let mut auction = engine.auctions.remove(&auction_id).unwrap();
    if !is_committed {
        accept_bid(&mut auction, &mut engine.escrow, bidder, bid_amount, now);
    }
    auction.bids.push(
        Bid {
            bidder,
            amount: if is_committed { 0 } else { bid_amount },
            placed_at: now,
            is_committed,
            commitment_hash,
        },
    );
    engine.auctions.insert(auction_id, auction);
    assert(engine@.auctions =~= old(engine)@.auctions.insert(
        auction_id,
        with_placed_bid(old(engine)@.auctions[auction_id], bidder, bid_amount, commitment_hash, now),
    ));
    assert(engine@.escrow =~= old(engine)@.escrow + placed_bid_movements(
        old(engine)@.auctions[auction_id],
        bidder,
        bid_amount,
        commitment_hash is Some,
    ));
    Ok(())
}

/// The commitment of the bidder's latest sealed bid.
pub fn find_commitment(bids: &Vec<Bid>, bidder: &Address) -> (r: Option<[u8; 32]>)
    ensures
        r == stored_commitment(bids@, *bidder),
{
    let mut commitment: Option<[u8; 32]> = None;
    let mut i: usize = 0;
    while i < bids.len()
        invariant
            i <= bids.len(),
            commitment == stored_commitment(bids@.subrange(0, i as int), *bidder),
        decreases bids.len() - i,
    {
        let bid = bids[i];
        assert(bids@.subrange(0, i + 1).drop_last() =~= bids@.subrange(0, i as int));
        if bid.is_committed && bid.bidder == *bidder {
            commitment = bid.commitment_hash;
        }
        i = i + 1;
    }
    assert(bids@.subrange(0, i as int) =~= bids@);
    commitment
}

/// Checks the disclosure of a sealed bid against the auction.
fn check_reveal(auction: &AuctionTransaction, bidder: &Address, amount: i128, computed: &[u8; 32], now: u64) -> (r:
    Result<(), SettlementError>)
    ensures
        r == reveal_check(auction@, *bidder, amount, computed@, now),
{
    if auction.state != TransactionState::Pending {
        return Err(SettlementError::InvalidState);
    }
    if now < auction.start_time || now > auction.end_time {
        return Err(SettlementError::InvalidTime);
    }
    ensure_valid_bid(auction, amount)?;
    let stored = match find_commitment(&auction.bids, bidder) {
        Some(c) => c,
        None => { return Err(SettlementError::NotFound); },
    };
    if !same_digest(&stored, computed) {
        return Err(SettlementError::CommitmentMismatch);
    }
    if amount <= 0 {
        return Err(SettlementError::InvalidAmount);
    }
    if !extension_in_range(auction, now) {
        return Err(SettlementError::Overflow);
    }
    Ok(())
}

/// What a disclosure returns, given the digest computed from it.
pub open spec fn reveal_outcome(
    engine: EngineView,
    auction_id: u64,
    bidder: Address,
    amount: i128,
    computed: Seq<u8>,
    now: u64,
) -> Result<(), SettlementError> {
    if !engine.auctions.contains_key(auction_id) {
        Err(SettlementError::NotFound)
    } else {
        reveal_check(engine.auctions[auction_id], bidder, amount, computed, now)
    }
}

/// The engine after an accepted disclosure.
pub open spec fn engine_after_reveal(engine: EngineView, auction_id: u64, bidder: Address, amount: i128, now: u64) -> EngineView {
    EngineView {
        auctions: engine.auctions.insert(
            auction_id,
            with_accepted_bid(engine.auctions[auction_id], bidder, amount, now),
        ),
        escrow: engine.escrow + acceptance_movements(engine.auctions[auction_id], bidder, amount),
        ..engine
    }
}

/// Settles the disclosure of a sealed bid once the digest of the disclosed
/// amount and salt is known: the digest must equal the commitment of the
/// bidder's latest sealed bid, and the amount must pass the price rules. An
/// accepted disclosure acts as an accepted open bid does. A refused one
/// changes nothing.
pub fn reveal_with_commitment(
    engine: &mut MarketplaceSettlement,
    auction_id: u64,
    bidder: Address,
    bid_amount: i128,
    computed: &[u8; 32],
    now: u64,
) -> (r: Result<(), SettlementError>)
    ensures
        r == reveal_outcome(old(engine)@, auction_id, bidder, bid_amount, computed@, now),
        r is Err ==> final(engine)@ == old(engine)@,
        r is Ok ==> final(engine)@ == engine_after_reveal(old(engine)@, auction_id, bidder, bid_amount, now),
{
    match engine.auctions.get(&auction_id) {
        None => { return Err(SettlementError::NotFound); },
        Some(auction) => { check_reveal(auction, &bidder, bid_amount, computed, now)?; },
    }
    let mut auction = engine.auctions.remove(&auction_id).unwrap();
    accept_bid(&mut auction, &mut engine.escrow, bidder, bid_amount, now);
    engine.auctions.insert(auction_id, auction);
    assert(engine@.auctions =~= old(engine)@.auctions.insert(
        auction_id,
        with_accepted_bid(old(engine)@.auctions[auction_id], bidder, bid_amount, now),
    ));
    Ok(())
}

/// Discloses a sealed bid at time `now`: computes the commitment of the
/// amount and salt and settles the disclosure with it.
pub fn reveal_bid(
    engine: &mut MarketplaceSettlement,
    auction_id: u64,
    bidder: Address,
    bid_amount: i128,
    salt: [u8; 32],
    now: u64,
) -> (r: Result<(), SettlementError>)
    ensures
        r == reveal_outcome(old(engine)@, auction_id, bidder, bid_amount, commitment_of(bid_amount, salt@), now),
        r is Err ==> final(engine)@ == old(engine)@,
        r is Ok ==> final(engine)@ == engine_after_reveal(old(engine)@, auction_id, bidder, bid_amount, now),
{
    let computed = compute_commitment(&bidder, bid_amount, &salt);
    reveal_with_commitment(engine, auction_id, bidder, bid_amount, &computed, now)
}

/// What `finalize_auction` decides.
pub open spec fn finalize_check(engine: EngineView, auction_id: u64, now: u64) -> Result<(), SettlementError> {
    if !engine.auctions.contains_key(auction_id) {
        Err(SettlementError::NotFound)
    } else if engine.auctions[auction_id].state != TransactionState::Pending {
        Err(SettlementError::InvalidState)
    } else if now < engine.auctions[auction_id].end_time {
        Err(SettlementError::AuctionNotEnded)
    } else {
        Ok(())
    }
}

/// Ends a pending auction whose end time has come. The auction is marked
/// executed and returned; whether the reserve was met, and who is paid, is
/// left to the caller.
pub fn finalize_auction(engine: &mut MarketplaceSettlement, auction_id: u64, now: u64) -> (r: Result<
    AuctionTransaction,
    SettlementError,
>)
    ensures
        match r {
            Ok(ended) => finalize_check(old(engine)@, auction_id, now) is Ok && ended@ == (AuctionView {
                state: TransactionState::Executed,
                ..old(engine)@.auctions[auction_id]
            }) && final(engine)@ == (EngineView {
                auctions: old(engine)@.auctions.insert(auction_id, ended@),
                ..old(engine)@
            }),
            Err(e) => finalize_check(old(engine)@, auction_id, now) == Err::<(), SettlementError>(e) && final(engine)@
                == old(engine)@,
        },
{
    match engine.auctions.get(&auction_id) {
        None => { return Err(SettlementError::NotFound); },
        Some(auction) => {
            if auction.state != TransactionState::Pending {
                return Err(SettlementError::InvalidState);
            }
            if now < auction.end_time {
                return Err(SettlementError::AuctionNotEnded);
            }
        },
    }
    let mut auction = engine.auctions.remove(&auction_id).unwrap();
    auction.state = TransactionState::Executed;
    let ended = auction.clone();
    engine.auctions.insert(auction_id, auction);
    assert(engine@.auctions =~= old(engine)@.auctions.insert(auction_id, ended@));
    Ok(ended)
}

/// Moves a stored auction to `state`.
pub(crate) fn set_auction_state(engine: &mut MarketplaceSettlement, auction_id: u64, state: TransactionState)
    requires
        old(engine)@.auctions.contains_key(auction_id),
    ensures
        final(engine)@ == (EngineView {
            auctions: old(engine)@.auctions.insert(
                auction_id,
                AuctionView { state, ..old(engine)@.auctions[auction_id] },
            ),
            ..old(engine)@
        }),
{
    let mut auction = engine.auctions.remove(&auction_id).unwrap();
    auction.state = state;
    engine.auctions.insert(auction_id, auction);
    assert(engine@.auctions =~= old(engine)@.auctions.insert(
        auction_id,
        AuctionView { state, ..old(engine)@.auctions[auction_id] },
    ));
}

/// What `cancel_auction` decides.
pub open spec fn cancel_check(engine: EngineView, auction_id: u64) -> Result<(), SettlementError> {
    if !engine.auctions.contains_key(auction_id) {
        Err(SettlementError::NotFound)
    } else if engine.auctions[auction_id].state != TransactionState::Pending {
        Err(SettlementError::InvalidState)
    } else {
        Ok(())
    }
}

/// Cancels a pending auction. Funds escrowed for its highest bid stay where
/// they are: returning them is the caller's part.
pub fn cancel_auction(engine: &mut MarketplaceSettlement, auction_id: u64) -> (r: Result<
    AuctionTransaction,
    SettlementError,
>)
    ensures
        match r {
            Ok(cancelled) => cancel_check(old(engine)@, auction_id) is Ok && cancelled@ == (AuctionView {
                state: TransactionState::Cancelled,
                ..old(engine)@.auctions[auction_id]
            }) && final(engine)@ == (EngineView {
                auctions: old(engine)@.auctions.insert(auction_id, cancelled@),
                ..old(engine)@
            }),
            Err(e) => cancel_check(old(engine)@, auction_id) == Err::<(), SettlementError>(e) && final(engine)@
                == old(engine)@,
        },
{
    match engine.auctions.get(&auction_id) {
        None => { return Err(SettlementError::NotFound); },
        Some(auction) => {
            if auction.state != TransactionState::Pending {
                return Err(SettlementError::InvalidState);
            }
        },
    }
    let mut auction = engine.auctions.remove(&auction_id).unwrap();
    auction.state = TransactionState::Cancelled;
    let cancelled = auction.clone();
    engine.auctions.insert(auction_id, auction);
    assert(engine@.auctions =~= old(engine)@.auctions.insert(auction_id, cancelled@));
    Ok(cancelled)
}

/// What creation gives every auction and every accepted bid keeps: the
/// starting price and the increment are positive, and the auction has a
/// highest bidder exactly when it has a highest bid, which then reaches the
/// starting price.
pub open spec fn auction_sound(a: AuctionView) -> bool {
    &&& a.starting_price > 0
    &&& a.bid_increment > 0
    &&& if a.highest_bidder is None {
        a.highest_bid == 0
    } else {
        a.highest_bid >= a.starting_price
    }
}

/// One step in the bidding of an auction: an open bid, a sealed bid, or the
/// disclosure of a sealed bid.
pub enum BidStep {
    Open { bidder: Address, amount: i128, now: u64 },
    Sealed { bidder: Address, commitment: [u8; 32], now: u64 },
    Revealed { bidder: Address, amount: i128, now: u64 },
}

/// Whether a step passes the price rules of the auction it meets. A sealed
/// bid has none to pass.
pub open spec fn step_valid(a: AuctionView, step: BidStep) -> bool {
    match step {
        BidStep::Open { amount, .. } => bid_check(a, amount) is Ok,
        BidStep::Sealed { .. } => true,
        BidStep::Revealed { amount, .. } => bid_check(a, amount) is Ok,
    }
}

/// The auction after a step that was accepted.
pub open spec fn after_step(a: AuctionView, step: BidStep) -> AuctionView {
    match step {
        BidStep::Open { bidder, amount, now } => with_placed_bid(a, bidder, amount, None, now),
        BidStep::Sealed { bidder, commitment, now } => with_placed_bid(a, bidder, 0, Some(commitment), now),
        BidStep::Revealed { bidder, amount, now } => with_accepted_bid(a, bidder, amount, now),
    }
}

/// The movements that an accepted step orders.
pub open spec fn step_movements(a: AuctionView, step: BidStep) -> Seq<Movement> {
    match step {
        BidStep::Open { bidder, amount, .. } => placed_bid_movements(a, bidder, amount, false),
        BidStep::Sealed { bidder, .. } => placed_bid_movements(a, bidder, 0, true),
        BidStep::Revealed { bidder, amount, .. } => acceptance_movements(a, bidder, amount),
    }
}

/// The auction after each of `steps` was accepted in turn.
pub open spec fn after_steps(a: AuctionView, steps: Seq<BidStep>) -> AuctionView
    decreases steps.len(),
{
    if steps.len() == 0 {
        a
    } else {
        after_step(after_steps(a, steps.drop_last()), steps.last())
    }
}

/// Whether each of `steps` passes the price rules of the auction as the
/// steps before it have left it.
pub open spec fn steps_valid(a: AuctionView, steps: Seq<BidStep>) -> bool
    decreases steps.len(),
{
    steps.len() == 0 || (steps_valid(a, steps.drop_last()) && step_valid(
        after_steps(a, steps.drop_last()),
        steps.last(),
    ))
}

/// The movements that `steps` order, one accepted step after the other.
pub open spec fn movements_of_steps(a: AuctionView, steps: Seq<BidStep>) -> Seq<Movement>
    decreases steps.len(),
{
    if steps.len() == 0 {
        Seq::empty()
    } else {
        movements_of_steps(a, steps.drop_last()) + step_movements(after_steps(a, steps.drop_last()), steps.last())
    }
}

/// A bid that passes the price rules reaches the starting price, outbids a
/// standing highest bid by at least the increment, and leaves the highest bid
/// strictly higher than it was.
pub proof fn lemma_accepted_bid_raises(a: AuctionView, bidder: Address, amount: i128, now: u64)
    requires
        auction_sound(a),
        bid_check(a, amount) is Ok,
    ensures
        amount >= a.starting_price,
        a.highest_bid > 0 ==> amount >= a.highest_bid + a.bid_increment,
        with_accepted_bid(a, bidder, amount, now).highest_bid > a.highest_bid,
        auction_sound(with_accepted_bid(a, bidder, amount, now)),
{
}

/// An accepted bid changes what escrow holds in the auction's currency by
/// exactly the rise of the highest bid: the whole of the displaced bid goes
/// back, the whole of the new one comes in.
pub proof fn lemma_accepted_bid_escrow(a: AuctionView, bidder: Address, amount: i128, now: u64)
    requires
        auction_sound(a),
    ensures
        net_funds(acceptance_movements(a, bidder, amount), a.currency) == amount - a.highest_bid,
{
    let moves = acceptance_movements(a, bidder, amount);
    let coming = Movement::FundsIn { asset: a.currency, from: bidder, amount };
    if a.highest_bidder is Some && a.highest_bid > 0 {
        let going = Movement::FundsOut { asset: a.currency, to: a.highest_bidder->0, amount: a.highest_bid };
        assert(moves =~= seq![coming, going]);
        assert(moves.drop_last() =~= seq![coming]);
        assert(moves.drop_last().drop_last() =~= Seq::<Movement>::empty());
        assert(net_funds(moves.drop_last().drop_last(), a.currency) == 0);
        assert(net_funds(moves.drop_last(), a.currency) == amount);
    } else {
        assert(moves =~= seq![coming]);
        assert(moves.drop_last() =~= Seq::<Movement>::empty());
        assert(net_funds(moves.drop_last(), a.currency) == 0);
    }
}

/// An accepted step never lowers the highest bid: an open bid and a
/// disclosure raise it, a sealed bid leaves it alone. What the step leaves in
/// escrow is exactly the rise.
pub proof fn lemma_step_raises_and_escrow_follows(a: AuctionView, step: BidStep)
    requires
        auction_sound(a),
        step_valid(a, step),
    ensures
        auction_sound(after_step(a, step)),
        after_step(a, step).currency == a.currency,
        after_step(a, step).highest_bid >= a.highest_bid,
        step !is Sealed ==> after_step(a, step).highest_bid > a.highest_bid,
        net_funds(step_movements(a, step), a.currency) == after_step(a, step).highest_bid - a.highest_bid,
{
    match step {
        BidStep::Open { bidder, amount, now } => {
            lemma_accepted_bid_raises(a, bidder, amount, now);
            lemma_accepted_bid_escrow(a, bidder, amount, now);
        },
        BidStep::Sealed { .. } => {},
        BidStep::Revealed { bidder, amount, now } => {
            lemma_accepted_bid_raises(a, bidder, amount, now);
            lemma_accepted_bid_escrow(a, bidder, amount, now);
        },
    }
}

/// Across any run of accepted steps the highest bid only rises, and what the
/// run leaves in escrow is exactly the rise: for an auction that began
/// without a bid, exactly the current highest bid.
pub proof fn lemma_bids_raise_and_escrow_follows(a: AuctionView, steps: Seq<BidStep>)
    requires
        auction_sound(a),
        steps_valid(a, steps),
    ensures
        auction_sound(after_steps(a, steps)),
        after_steps(a, steps).currency == a.currency,
        after_steps(a, steps).highest_bid >= a.highest_bid,
        net_funds(movements_of_steps(a, steps), a.currency) == after_steps(a, steps).highest_bid - a.highest_bid,
    decreases steps.len(),
{
    if steps.len() > 0 {
        let earlier = steps.drop_last();
        lemma_bids_raise_and_escrow_follows(a, earlier);
        let before = after_steps(a, earlier);
        lemma_step_raises_and_escrow_follows(before, steps.last());
        lemma_net_funds_concat(movements_of_steps(a, earlier), step_movements(before, steps.last()), a.currency);
    }
}

/// The amount that a step offers as the new highest bid; a sealed bid offers
/// none.
pub open spec fn offered_amount(step: BidStep) -> Option<i128> {
    match step {
        BidStep::Open { amount, .. } => Some(amount),
        BidStep::Sealed { .. } => None,
        BidStep::Revealed { amount, .. } => Some(amount),
    }
}

/// In any run of accepted steps, every amount that became the highest bid
/// reached the starting price and outbid the highest bid that stood before it
/// by at least the increment.
pub proof fn lemma_every_acceptance_outbids(a: AuctionView, steps: Seq<BidStep>, i: int)
    requires
        auction_sound(a),
        steps_valid(a, steps),
        0 <= i < steps.len(),
        offered_amount(steps[i]) is Some,
    ensures
        ({
            let before = after_steps(a, steps.take(i));
            let amount = offered_amount(steps[i])->0;
            &&& amount >= a.starting_price
            &&& amount > before.highest_bid
            &&& before.highest_bid > 0 ==> amount >= before.highest_bid + a.bid_increment
            &&& after_steps(a, steps.take(i + 1)).highest_bid == amount
        }),
    decreases steps.len(),
{
    let earlier = steps.drop_last();
    if i == steps.len() - 1 {
        assert(steps.take(i) =~= earlier);
        assert(steps.take(i + 1) =~= steps);
        lemma_bids_raise_and_escrow_follows(a, earlier);
        lemma_starting_terms_stay(a, earlier);
        lemma_step_raises_and_escrow_follows(after_steps(a, earlier), steps.last());
    } else {
        assert(steps.take(i) =~= earlier.take(i));
        assert(steps.take(i + 1) =~= earlier.take(i + 1));
        assert(earlier[i] == steps[i]);
        lemma_every_acceptance_outbids(a, earlier, i);
    }
}

/// No step changes the starting price or the increment of an auction.
pub proof fn lemma_starting_terms_stay(a: AuctionView, steps: Seq<BidStep>)
    ensures
        after_steps(a, steps).starting_price == a.starting_price,
        after_steps(a, steps).bid_increment == a.bid_increment,
        after_steps(a, steps).reserve_price == a.reserve_price,
    decreases steps.len(),
{
    if steps.len() > 0 {
        lemma_starting_terms_stay(a, steps.drop_last());
    }
}

/// An auction as `create_auction` opens it is sound, so that all of the above
/// holds of every auction from its first bid on.
pub proof fn lemma_new_auction_sound(a: AuctionView)
    requires
        a.starting_price > 0,
        a.bid_increment > 0,
        a.highest_bid == 0,
        a.highest_bidder is None,
    ensures
        auction_sound(a),
        forall|steps: Seq<BidStep>| #[trigger]
            steps_valid(a, steps) ==> net_funds(movements_of_steps(a, steps), a.currency) == after_steps(
                a,
                steps,
            ).highest_bid,
{
    assert forall|steps: Seq<BidStep>| #[trigger] steps_valid(a, steps) implies net_funds(
        movements_of_steps(a, steps),
        a.currency,
    ) == after_steps(a, steps).highest_bid by {
        lemma_bids_raise_and_escrow_follows(a, steps);
    }
}

/// Once an amount has been reached by the highest bid, neither it nor
/// anything lower is accepted again: a commitment that was disclosed cannot
/// bring its funds into escrow a second time.
pub proof fn lemma_disclosed_amount_is_spent(a: AuctionView, amount: i128)
    requires
        auction_sound(a),
        a.highest_bid > 0,
        amount <= a.highest_bid,
    ensures
        bid_check(a, amount) is Err,
{
}

/// A disclosure is accepted only against the commitment that the bidder's
/// latest sealed bid left; and where state, time, price and end time would
/// let it pass, it is accepted exactly when the digest equals that
/// commitment, and refused with `CommitmentMismatch` when it does not.
pub proof fn lemma_reveal_needs_commitment(a: AuctionView, bidder: Address, amount: i128, computed: Seq<u8>, now: u64)
    ensures
        reveal_check(a, bidder, amount, computed, now) is Ok ==> stored_commitment(a.bids, bidder) is Some
            && stored_commitment(a.bids, bidder)->0@ == computed,
        a.state == TransactionState::Pending && in_window(a, now) && bid_check(a, amount) is Ok && amount > 0
            && extension_fits(a, now) && stored_commitment(a.bids, bidder) is Some ==> (reveal_check(
            a,
            bidder,
            amount,
            computed,
            now,
        ) is Ok <==> stored_commitment(a.bids, bidder)->0@ == computed) && (stored_commitment(a.bids, bidder)->0@
            != computed ==> reveal_check(a, bidder, amount, computed, now) == Err::<(), SettlementError>(
            SettlementError::CommitmentMismatch,
        )),
{
}

} // verus!
