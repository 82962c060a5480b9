use vstd::prelude::*;
use crate::error::SettlementError;
use crate::escrow_manager::{release_asset, Movement};
use crate::settlement_core::{unwind_auction, unwind_movements};
use crate::storage::dispute_store::get_dispute;
use crate::types::{
    Address, AuctionView, Dispute, DisputeResolution, DisputeView, SaleView, TransactionState, Vote,
};
use crate::{next_dispute_id, next_id, Counters, EngineView, MarketplaceSettlement};

verus! {

broadcast use vstd::std_specs::hash::group_hash_axioms;

/// Whether `initiator` is the seller of a sale or its buyer.
pub open spec fn is_sale_party(sale: SaleView, initiator: Address) -> bool {
    initiator == sale.seller || sale.buyer == Some(initiator)
}

/// Whether `initiator` is the seller of an auction or its highest bidder.
pub open spec fn is_auction_party(auction: AuctionView, initiator: Address) -> bool {
    initiator == auction.seller || auction.highest_bidder == Some(initiator)
}

/// The verdict on opening a dispute over the transaction kept under
/// `transaction_id`. A sale under that identifier is looked at before an
/// auction.
pub open spec fn dispute_check(engine: EngineView, transaction_id: u64, initiator: Address) -> Result<(), SettlementError> {
    if engine.sales.contains_key(transaction_id) {
        let sale = engine.sales[transaction_id];
        if sale.state != TransactionState::Pending {
            Err(SettlementError::InvalidState)
        } else if !is_sale_party(sale, initiator) {
            Err(SettlementError::Unauthorized)
        } else {
            Ok(())
        }
    } else if engine.auctions.contains_key(transaction_id) {
        let auction = engine.auctions[transaction_id];
        if auction.state != TransactionState::Pending {
            Err(SettlementError::InvalidState)
        } else if !is_auction_party(auction, initiator) {
            Err(SettlementError::Unauthorized)
        } else {
            Ok(())
        }
    } else {
        Err(SettlementError::NotFound)
    }
}

/// The engine with the transaction under `transaction_id` moved to `state`.
pub open spec fn with_transaction_state(engine: EngineView, transaction_id: u64, state: TransactionState) -> EngineView {
    if engine.sales.contains_key(transaction_id) {
        EngineView {
            sales: engine.sales.insert(transaction_id, SaleView { state, ..engine.sales[transaction_id] }),
            ..engine
        }
    } else {
        EngineView {
            auctions: engine.auctions.insert(
                transaction_id,
                AuctionView { state, ..engine.auctions[transaction_id] },
            ),
            ..engine
        }
    }
}

/// Whether a panel and its threshold can decide a dispute.
pub open spec fn panel_valid(arbitrators: Seq<Address>, required_votes: u32) -> bool {
    0 < required_votes <= arbitrators.len()
}

/// What opening a dispute decides.
pub open spec fn initiate_outcome(
    engine: EngineView,
    transaction_id: u64,
    initiator: Address,
    arbitrators: Seq<Address>,
    required_votes: u32,
) -> Result<u64, SettlementError> {
    if !panel_valid(arbitrators, required_votes) {
        Err(SettlementError::InvalidAmount)
    } else if dispute_check(engine, transaction_id, initiator) is Err {
        Err(dispute_check(engine, transaction_id, initiator)->Err_0)
    } else {
        next_id(engine.counters, |c: Counters| c.dispute)
    }
}

/// The record of a dispute that was just opened: no vote cast, nothing
/// resolved.
pub open spec fn opened_dispute(
    dispute_id: u64,
    transaction_id: u64,
    initiator: Address,
    reason: Seq<char>,
    evidence_uri: Option<Seq<char>>,
    arbitrators: Seq<Address>,
    required_votes: u32,
    now: u64,
) -> DisputeView {
    DisputeView {
        dispute_id,
        transaction_id,
        initiator,
        reason,
        evidence_uri,
        arbitrators,
        votes: Seq::empty(),
        required_votes,
        created_at: now,
        resolved_at: None,
        resolution: None,
    }
}

/// Checks that a dispute may be opened over a transaction.
fn check_dispute(engine: &MarketplaceSettlement, transaction_id: u64, initiator: &Address) -> (r: Result<
    (),
    SettlementError,
>)
    ensures
        r == dispute_check(engine@, transaction_id, *initiator),
{
    if let Some(sale) = engine.sales.get(&transaction_id) {
        if sale.state != TransactionState::Pending {
            return Err(SettlementError::InvalidState);
        }
        if *initiator != sale.seller {
            match sale.buyer {
                Some(buyer) => {
                    if *initiator != buyer {
                        return Err(SettlementError::Unauthorized);
                    }
                },
                None => { return Err(SettlementError::Unauthorized); },
            }
        }
        Ok(())
    } else if let Some(auction) = engine.auctions.get(&transaction_id) {
        if auction.state != TransactionState::Pending {
            return Err(SettlementError::InvalidState);
        }
        if *initiator != auction.seller {
            match auction.highest_bidder {
                Some(highest) => {
                    if *initiator != highest {
                        return Err(SettlementError::Unauthorized);
                    }
                },
                None => { return Err(SettlementError::Unauthorized); },
            }
        }
        Ok(())
    } else {
        Err(SettlementError::NotFound)
    }
}

/// Moves the transaction under `transaction_id` to `state`.
fn set_transaction_state(engine: &mut MarketplaceSettlement, transaction_id: u64, state: TransactionState)
    requires
        old(engine)@.sales.contains_key(transaction_id) || old(engine)@.auctions.contains_key(transaction_id),
    ensures
        final(engine)@ == with_transaction_state(old(engine)@, transaction_id, state),
{
    if engine.sales.contains_key(&transaction_id) {
        let mut sale = engine.sales.remove(&transaction_id).unwrap();
        sale.state = state;
        engine.sales.insert(transaction_id, sale);
        assert(engine@.sales =~= old(engine)@.sales.insert(
            transaction_id,
            SaleView { state, ..old(engine)@.sales[transaction_id] },
        ));
    } else {
        let mut auction = engine.auctions.remove(&transaction_id).unwrap();
        auction.state = state;
        engine.auctions.insert(transaction_id, auction);
        assert(engine@.auctions =~= old(engine)@.auctions.insert(
            transaction_id,
            AuctionView { state, ..old(engine)@.auctions[transaction_id] },
        ));
    }
}

/// Opens a dispute over a pending sale or auction at time `now`. Only a party
/// to the transaction may open one: its seller, or its buyer or highest
/// bidder. The transaction is frozen as disputed until the panel has voted.
pub fn initiate_dispute(
    engine: &mut MarketplaceSettlement,
    transaction_id: u64,
    initiator: Address,
    reason: String,
    evidence_uri: Option<String>,
    arbitrators: Vec<Address>,
    required_votes: u32,
    now: u64,
) -> (r: Result<Dispute, SettlementError>)
    ensures
        match r {
            Ok(dispute) => initiate_outcome(old(engine)@, transaction_id, initiator, arbitrators@, required_votes)
                == Ok::<u64, SettlementError>(dispute.dispute_id) && dispute@ == opened_dispute(
                dispute.dispute_id,
                transaction_id,
                initiator,
                reason@,
                crate::types::text_of(evidence_uri),
                arbitrators@,
                required_votes,
                now,
            ) && final(engine)@ == (EngineView {
                counters: Some(Counters { dispute: dispute.dispute_id, ..old(engine)@.counters->0 }),
                disputes: old(engine)@.disputes.insert(dispute.dispute_id, dispute@),
                ..with_transaction_state(old(engine)@, transaction_id, TransactionState::Disputed)
            }),
            Err(e) => initiate_outcome(old(engine)@, transaction_id, initiator, arbitrators@, required_votes)
                == Err::<u64, SettlementError>(e) && final(engine)@ == old(engine)@,
        },
{
    if arbitrators.len() == 0 || required_votes == 0 || required_votes as usize > arbitrators.len() {
        return Err(SettlementError::InvalidAmount);
    }
    check_dispute(engine, transaction_id, &initiator)?;
    let dispute_id = next_dispute_id(engine)?;
    set_transaction_state(engine, transaction_id, TransactionState::Disputed);
    let dispute = Dispute {
        dispute_id,
        transaction_id,
        initiator,
        reason,
        evidence_uri,
        arbitrators,
        votes: Vec::new(),
        required_votes,
        created_at: now,
        resolved_at: None,
        resolution: None,
    };
    assert(dispute@.votes =~= Seq::empty());
    engine.disputes.insert(dispute_id, dispute.clone());
    assert(engine@.disputes =~= old(engine)@.disputes.insert(dispute_id, dispute@));
    Ok(dispute)
}

/// Whether `i` is the place of `voter`'s vote, or the number of votes when
/// they have cast none.
pub open spec fn is_vote_index(votes: Seq<Vote>, voter: Address, i: int) -> bool {
    &&& 0 <= i <= votes.len()
    &&& i < votes.len() ==> votes[i].voter == voter
    &&& forall|j: int| 0 <= j < i ==> (#[trigger] votes[j]).voter != voter
}

/// The place of `voter`'s vote; the number of votes when they have cast none.
pub open spec fn vote_index(votes: Seq<Vote>, voter: Address) -> int {
    choose|i: int| is_vote_index(votes, voter, i)
}

/// The votes after `voter` voted: a vote already cast is changed, not
/// doubled.
pub open spec fn votes_with(votes: Seq<Vote>, voter: Address, approve: bool) -> Seq<Vote> {
    let i = vote_index(votes, voter);
    if i < votes.len() {
        votes.update(i, Vote { voter, approve })
    } else {
        votes.push(Vote { voter, approve })
    }
}

/// How many of the votes say `approve`.
pub open spec fn count_votes(votes: Seq<Vote>, approve: bool) -> nat
    decreases votes.len(),
{
    if votes.len() == 0 {
        0
    } else {
        count_votes(votes.drop_last(), approve) + (if votes.last().approve == approve { 1nat } else { 0nat })
    }
}

/// The outcome that the votes give: the initiator wins once the votes in
/// favour reach the threshold, loses once those against reach it, and the
/// votes in favour are looked at first.
pub open spec fn resolution_of(votes: Seq<Vote>, required_votes: u32) -> Option<DisputeResolution> {
    if count_votes(votes, true) >= required_votes {
        Some(DisputeResolution::InitiatorWins)
    } else if count_votes(votes, false) >= required_votes {
        Some(DisputeResolution::InitiatorLoses)
    } else {
        None
    }
}

/// Every list of votes has exactly one place for each voter.
pub proof fn lemma_vote_index(votes: Seq<Vote>, voter: Address)
    ensures
        is_vote_index(votes, voter, vote_index(votes, voter)),
        forall|i: int| is_vote_index(votes, voter, i) ==> i == vote_index(votes, voter),
    decreases votes.len(),
{
    if votes.len() == 0 {
        assert(is_vote_index(votes, voter, 0));
    } else {
        let shorter = votes.drop_last();
        lemma_vote_index(shorter, voter);
        let k = vote_index(shorter, voter);
        if k < shorter.len() {
            assert(votes[k] == shorter[k]);
            assert forall|j: int| 0 <= j < k implies (#[trigger] votes[j]).voter != voter by {
                assert(votes[j] == shorter[j]);
            }
            assert(is_vote_index(votes, voter, k));
        } else if votes.last().voter == voter {
            assert forall|j: int| 0 <= j < votes.len() - 1 implies (#[trigger] votes[j]).voter != voter by {
                assert(votes[j] == shorter[j]);
            }
            assert(is_vote_index(votes, voter, votes.len() - 1));
        } else {
            assert forall|j: int| 0 <= j < votes.len() implies (#[trigger] votes[j]).voter != voter by {
                if j < shorter.len() {
                    assert(votes[j] == shorter[j]);
                }
            }
            assert(is_vote_index(votes, voter, votes.len() as int));
        }
    }
    let chosen = vote_index(votes, voter);
    assert forall|i: int| is_vote_index(votes, voter, i) implies i == chosen by {
        if i < chosen {
            assert(votes[i].voter == voter);
        } else if chosen < i {
            assert(votes[chosen].voter == voter);
        }
    }
}

/// Casts or changes `voter`'s vote.
pub fn record_vote(votes: &mut Vec<Vote>, voter: Address, approve: bool)
    ensures
        final(votes)@ == votes_with(old(votes)@, voter, approve),
{
    let mut i: usize = 0;
    while i < votes.len() && votes[i].voter != voter
        invariant
            i <= votes.len(),
            forall|j: int| 0 <= j < i ==> (#[trigger] votes@[j]).voter != voter,
        decreases votes.len() - i,
    {
        i = i + 1;
    }
    proof {
        assert(is_vote_index(votes@, voter, i as int));
        lemma_vote_index(votes@, voter);
    }
    if i < votes.len() {
        votes[i] = Vote { voter, approve };
    } else {
        votes.push(Vote { voter, approve });
    }
}

/// Counts the votes that say `approve`.
pub fn tally(votes: &Vec<Vote>, approve: bool) -> (n: usize)
    ensures
        n == count_votes(votes@, approve),
{
    let mut n: usize = 0;
    let mut i: usize = 0;
    while i < votes.len()
        invariant
            i <= votes.len(),
            n <= i,
            n == count_votes(votes@.subrange(0, i as int), approve),
        decreases votes.len() - i,
    {
        assert(votes@.subrange(0, i + 1).drop_last() =~= votes@.subrange(0, i as int));
        if votes[i].approve == approve {
            n = n + 1;
        }
        i = i + 1;
    }
    assert(votes@.subrange(0, i as int) =~= votes@);
    n
}

/// The verdict on unwinding the disputed transaction under `transaction_id`.
/// A sale under that identifier is looked at before an auction.
pub open spec fn resolve_check(engine: EngineView, transaction_id: u64) -> Result<(), SettlementError> {
    if engine.sales.contains_key(transaction_id) {
        if engine.sales[transaction_id].state != TransactionState::Disputed {
            Err(SettlementError::InvalidState)
        } else {
            Ok(())
        }
    } else if engine.auctions.contains_key(transaction_id) {
        if engine.auctions[transaction_id].state != TransactionState::Disputed {
            Err(SettlementError::InvalidState)
        } else {
            Ok(())
        }
    } else {
        Err(SettlementError::NotFound)
    }
}

/// What leaves escrow when the transaction under `transaction_id` is unwound:
/// for a sale the asset, back to the seller; for an auction the highest bid,
/// back to its bidder, and the asset, back to the seller.
pub open spec fn resolution_movements(engine: EngineView, transaction_id: u64) -> Seq<Movement> {
    if engine.sales.contains_key(transaction_id) {
        let sale = engine.sales[transaction_id];
        seq![Movement::AssetOut { nft_address: sale.nft_address, token_id: sale.token_id, to: sale.seller }]
    } else {
        unwind_movements(engine.auctions[transaction_id])
    }
}

/// The engine after the transaction under `transaction_id` was unwound and
/// marked resolved.
pub open spec fn engine_after_resolution(engine: EngineView, transaction_id: u64) -> EngineView {
    EngineView {
        escrow: engine.escrow + resolution_movements(engine, transaction_id),
        ..with_transaction_state(engine, transaction_id, TransactionState::Resolved)
    }
}

/// Checks that the transaction under `transaction_id` is disputed.
fn check_resolve(engine: &MarketplaceSettlement, transaction_id: u64) -> (r: Result<(), SettlementError>)
    ensures
        r == resolve_check(engine@, transaction_id),
{
    if let Some(sale) = engine.sales.get(&transaction_id) {
        if sale.state != TransactionState::Disputed {
            return Err(SettlementError::InvalidState);
        }
        Ok(())
    } else if let Some(auction) = engine.auctions.get(&transaction_id) {
        if auction.state != TransactionState::Disputed {
            return Err(SettlementError::InvalidState);
        }
        Ok(())
    } else {
        Err(SettlementError::NotFound)
    }
}

/// Unwinds a disputed transaction and marks it resolved.
///
/// Whichever way the panel decided, the transaction is unwound and never
/// settled: the outcome says which party was right and stays on the dispute's
/// record; it does not change who is paid.
pub fn resolve_transaction(engine: &mut MarketplaceSettlement, transaction_id: u64, resolution: DisputeResolution) -> (r:
    Result<(), SettlementError>)
    ensures
        r == resolve_check(old(engine)@, transaction_id),
        r is Err ==> final(engine)@ == old(engine)@,
        r is Ok ==> final(engine)@ == engine_after_resolution(old(engine)@, transaction_id),
{
    check_resolve(engine, transaction_id)?;
    if let Some(sale) = engine.sales.get(&transaction_id) {
        let nft_address = sale.nft_address;
        let token_id = sale.token_id;
        let seller = sale.seller;
        release_asset(&mut engine.escrow, &nft_address, token_id, &seller);
        assert(engine@.escrow =~= old(engine)@.escrow + resolution_movements(old(engine)@, transaction_id));
    } else {
        let auction = match engine.auctions.get(&transaction_id) {
            Some(a) => a.clone(),
            None => { return Err(SettlementError::NotFound); },
        };
        unwind_auction(engine, &auction);
    }
    set_transaction_state(engine, transaction_id, TransactionState::Resolved);
    Ok(())
}

/// What a vote decides.
pub open spec fn vote_outcome(engine: EngineView, dispute_id: u64, voter: Address, vote: bool) -> Result<(), SettlementError> {
    if !engine.disputes.contains_key(dispute_id) {
        Err(SettlementError::NotFound)
    } else {
        let dispute = engine.disputes[dispute_id];
        if dispute.resolution is Some {
            Err(SettlementError::InvalidState)
        } else if !dispute.arbitrators.contains(voter) {
            Err(SettlementError::Unauthorized)
        } else if resolution_of(votes_with(dispute.votes, voter, vote), dispute.required_votes) is Some {
            resolve_check(engine, dispute.transaction_id)
        } else {
            Ok(())
        }
    }
}

/// The dispute after an accepted vote at `now`: the vote is on record and,
/// once a side has reached the threshold, so are the outcome and its time.
pub open spec fn dispute_after_vote(dispute: DisputeView, voter: Address, vote: bool, now: u64) -> DisputeView {
    let votes = votes_with(dispute.votes, voter, vote);
    let resolution = resolution_of(votes, dispute.required_votes);
    DisputeView {
        votes,
        resolution,
        resolved_at: if resolution is Some { Some(now) } else { dispute.resolved_at },
        ..dispute
    }
}

/// The engine after an accepted vote at `now`.
pub open spec fn engine_after_vote(engine: EngineView, dispute_id: u64, voter: Address, vote: bool, now: u64) -> EngineView {
    let dispute = dispute_after_vote(engine.disputes[dispute_id], voter, vote, now);
    let recorded = EngineView { disputes: engine.disputes.insert(dispute_id, dispute), ..engine };
    if dispute.resolution is Some {
        engine_after_resolution(recorded, dispute.transaction_id)
    } else {
        recorded
    }
}

/// Casts an arbitrator's vote on an open dispute at time `now`. The vote that
/// brings either side to the threshold resolves the dispute and unwinds the
/// transaction; no earlier vote does. A refused vote changes nothing.
pub fn vote_on_dispute(engine: &mut MarketplaceSettlement, dispute_id: u64, voter: Address, vote: bool, now: u64) -> (r:
    Result<Dispute, SettlementError>)
    ensures
        match r {
            Ok(dispute) => vote_outcome(old(engine)@, dispute_id, voter, vote) is Ok && dispute@ == dispute_after_vote(
                old(engine)@.disputes[dispute_id],
                voter,
                vote,
                now,
            ) && final(engine)@ == engine_after_vote(old(engine)@, dispute_id, voter, vote, now),
            Err(e) => vote_outcome(old(engine)@, dispute_id, voter, vote) == Err::<(), SettlementError>(e)
                && final(engine)@ == old(engine)@,
        },
{
    let mut dispute = get_dispute(engine, dispute_id)?;
    if dispute.resolution.is_some() {
        return Err(SettlementError::InvalidState);
    }
    if !crate::royalty_distributor::is_vip(&dispute.arbitrators, &voter) {
        return Err(SettlementError::Unauthorized);
    }
    record_vote(&mut dispute.votes, voter, vote);
    let yes_votes = tally(&dispute.votes, true);
    let no_votes = tally(&dispute.votes, false);
    let required = dispute.required_votes as usize;
    if yes_votes >= required || no_votes >= required {
        let resolution = if yes_votes >= required {
            DisputeResolution::InitiatorWins
        } else {
            DisputeResolution::InitiatorLoses
        };
        check_resolve(engine, dispute.transaction_id)?;
        dispute.resolution = Some(resolution);
        dispute.resolved_at = Some(now);
        engine.disputes.insert(dispute_id, dispute.clone());
        assert(engine@.disputes =~= old(engine)@.disputes.insert(dispute_id, dispute@));
        let _ = resolve_transaction(engine, dispute.transaction_id, resolution);
        return Ok(dispute);
    }
    engine.disputes.insert(dispute_id, dispute.clone());
    assert(engine@.disputes =~= old(engine)@.disputes.insert(dispute_id, dispute@));
    Ok(dispute)
}

/// Whether neither side of a dispute has reached the threshold.
pub open spec fn below_threshold(dispute: DisputeView) -> bool {
    count_votes(dispute.votes, true) < dispute.required_votes && count_votes(dispute.votes, false)
        < dispute.required_votes
}

/// A dispute that was just opened has no side at the threshold.
pub proof fn lemma_opened_dispute_below_threshold(dispute: DisputeView)
    requires
        dispute.votes.len() == 0,
        dispute.required_votes > 0,
    ensures
        below_threshold(dispute),
{
}

/// A dispute resolves exactly at the vote that brings a side to the
/// threshold: a vote after which both sides are below it leaves the dispute
/// open and below it; any other vote resolves it, for the initiator when the
/// votes in favour have reached the threshold, against them otherwise.
pub proof fn lemma_resolves_exactly_at_threshold(dispute: DisputeView, voter: Address, vote: bool, now: u64)
    ensures
        ({
            let after = dispute_after_vote(dispute, voter, vote, now);
            &&& after.resolution is None <==> below_threshold(after)
            &&& after.resolution == Some(DisputeResolution::InitiatorWins) <==> count_votes(after.votes, true)
                >= dispute.required_votes
            &&& after.resolution == Some(DisputeResolution::InitiatorLoses) <==> count_votes(after.votes, true)
                < dispute.required_votes && count_votes(after.votes, false) >= dispute.required_votes
            &&& after.resolution is Some ==> after.resolved_at == Some(now)
        }),
{
}

/// With a threshold of one, the first vote resolves the dispute: for the
/// initiator if it is a yes, against them if it is a no.
pub proof fn lemma_single_vote_resolves(dispute: DisputeView, voter: Address, vote: bool, now: u64)
    requires
        dispute.required_votes == 1,
        dispute.votes.len() == 0,
    ensures
        dispute_after_vote(dispute, voter, vote, now).resolution == Some(
            if vote {
                DisputeResolution::InitiatorWins
            } else {
                DisputeResolution::InitiatorLoses
            },
        ),
{
    lemma_vote_index(dispute.votes, voter);
    let after = votes_with(dispute.votes, voter, vote);
    assert(after =~= seq![Vote { voter, approve: vote }]);
    assert(after.drop_last() =~= Seq::<Vote>::empty());
    assert(count_votes(after.drop_last(), true) == 0);
    assert(count_votes(after.drop_last(), false) == 0);
}

/// A vote that is cast again changes the voter's entry and adds none.
pub proof fn lemma_revote_changes_in_place(votes: Seq<Vote>, voter: Address, approve: bool)
    requires
        exists|i: int| 0 <= i < votes.len() && (#[trigger] votes[i]).voter == voter,
    ensures
        votes_with(votes, voter, approve).len() == votes.len(),
        votes_with(votes, voter, approve)[vote_index(votes, voter)] == (Vote { voter, approve }),
{
    lemma_vote_index(votes, voter);
    let i = choose|i: int| 0 <= i < votes.len() && (#[trigger] votes[i]).voter == voter;
    if vote_index(votes, voter) >= votes.len() {
        assert(votes[i].voter != voter);
    }
}

} // verus!
