use vstd::prelude::*;
use crate::auction_engine::{cancel_check, finalize_check, place_bid_outcome, reveal_outcome};
use crate::coordinator::{
    cancel_outcome, distribute_transaction_outcome, emergency_outcome, execute_bid_outcome, guarded,
    withdraw_outcome,
};
use crate::dispute_resolution::{dispute_check, initiate_outcome, panel_valid, resolve_check, vote_outcome};
use crate::error::SettlementError;
use crate::settlement_core::{cancel_sale_check, execute_sale_outcome, seller_cancel_check};
use crate::types::{Address, DistributionResult, ExecutionResult, TransactionState};
use crate::EngineView;

verus! {

/// While the engine's lock is held, every entry point that moves funds
/// refuses with `InvalidState`.
pub proof fn lemma_locked_engine_refuses(
    engine: EngineView,
    id: u64,
    party: Address,
    amount: i128,
    sealed: bool,
    computed: Seq<u8>,
    vote: bool,
    now: u64,
)
    requires
        engine.locked,
    ensures
        execute_sale_outcome(engine, id, party, amount, now) == Err::<ExecutionResult, SettlementError>(
            SettlementError::InvalidState,
        ),
        execute_bid_outcome(engine, id, now) == Err::<ExecutionResult, SettlementError>(SettlementError::InvalidState),
        distribute_transaction_outcome(engine, id) == Err::<DistributionResult, SettlementError>(
            SettlementError::InvalidState,
        ),
        guarded(engine, place_bid_outcome(engine, id, amount, sealed, now)) == Err::<
            (),
            SettlementError,
        >(SettlementError::InvalidState),
        guarded(engine, reveal_outcome(engine, id, party, amount, computed, now)) == Err::<
            (),
            SettlementError,
        >(SettlementError::InvalidState),
        guarded(engine, vote_outcome(engine, id, party, vote)) == Err::<(), SettlementError>(
            SettlementError::InvalidState,
        ),
        guarded(engine, withdraw_outcome(engine, party, party, amount)) == Err::<(), SettlementError>(
            SettlementError::InvalidState,
        ),
        guarded(engine, cancel_outcome(engine, id, party)) == Err::<(), SettlementError>(
            SettlementError::InvalidState,
        ),
        guarded(engine, emergency_outcome(engine, party, id)) == Err::<(), SettlementError>(SettlementError::InvalidState),
{
}

/// An operation on a sale that is not in the state it requires is refused
/// with `InvalidState`: buying and cancelling require a pending sale, paying
/// out a funded one, unwinding a disputed one.
pub proof fn lemma_sale_in_wrong_state_is_refused(engine: EngineView, id: u64, party: Address, amount: i128, now: u64)
    requires
        engine.sales.contains_key(id),
    ensures
        engine.sales[id].state != TransactionState::Pending ==> execute_sale_outcome(
            engine,
            id,
            party,
            amount,
            now,
        ) == Err::<ExecutionResult, SettlementError>(SettlementError::InvalidState)
            && cancel_sale_check(engine, id, party) == Err::<(), SettlementError>(
            SettlementError::InvalidState,
        ) && cancel_outcome(engine, id, party) == Err::<(), SettlementError>(SettlementError::InvalidState)
            && dispute_check(engine, id, party) == Err::<(), SettlementError>(
            SettlementError::InvalidState,
        ),
        engine.sales[id].state != TransactionState::Funded ==> distribute_transaction_outcome(engine, id) == Err::<
            DistributionResult,
            SettlementError,
        >(SettlementError::InvalidState),
        engine.sales[id].state != TransactionState::Disputed ==> resolve_check(engine, id) == Err::<
            (),
            SettlementError,
        >(SettlementError::InvalidState),
{
}

/// An operation on an auction that is not in the state it requires is refused
/// with `InvalidState`: bidding, disclosing, ending, settling and cancelling
/// require a pending auction, unwinding a disputed one. The seller's
/// cancellation looks at the caller first.
pub proof fn lemma_auction_in_wrong_state_is_refused(
    engine: EngineView,
    id: u64,
    party: Address,
    amount: i128,
    sealed: bool,
    computed: Seq<u8>,
    now: u64,
)
    requires
        engine.auctions.contains_key(id),
    ensures
        engine.auctions[id].state != TransactionState::Pending ==> place_bid_outcome(
            engine,
            id,
            amount,
            sealed,
            now,
        ) == Err::<(), SettlementError>(SettlementError::InvalidState) && reveal_outcome(
            engine,
            id,
            party,
            amount,
            computed,
            now,
        ) == Err::<(), SettlementError>(SettlementError::InvalidState) && finalize_check(engine, id, now) == Err::<
            (),
            SettlementError,
        >(SettlementError::InvalidState) && cancel_check(engine, id) == Err::<(), SettlementError>(
            SettlementError::InvalidState,
        ) && execute_bid_outcome(engine, id, now) == Err::<ExecutionResult, SettlementError>(
            SettlementError::InvalidState,
        ),
        engine.auctions[id].state != TransactionState::Pending && party == engine.auctions[id].seller
            ==> seller_cancel_check(engine, id, party) == Err::<(), SettlementError>(
            SettlementError::InvalidState,
        ),
        engine.auctions[id].state != TransactionState::Pending && !engine.sales.contains_key(id)
            ==> dispute_check(engine, id, party) == Err::<(), SettlementError>(
            SettlementError::InvalidState,
        ),
        engine.auctions[id].state != TransactionState::Disputed && !engine.sales.contains_key(id)
            ==> resolve_check(engine, id) == Err::<(), SettlementError>(
            SettlementError::InvalidState,
        ),
{
}

/// A vote on a dispute that is already resolved is refused with
/// `InvalidState`.
pub proof fn lemma_vote_in_wrong_state_is_refused(engine: EngineView, dispute_id: u64, voter: Address, vote: bool)
    requires
        engine.disputes.contains_key(dispute_id),
        engine.disputes[dispute_id].resolution is Some,
    ensures
        vote_outcome(engine, dispute_id, voter, vote) == Err::<(), SettlementError>(SettlementError::InvalidState),
{
}

/// A dispute over a transaction that is not pending is refused with
/// `InvalidState`, whoever asks, once the panel itself is in order.
pub proof fn lemma_dispute_in_wrong_state_is_refused(
    engine: EngineView,
    transaction_id: u64,
    initiator: Address,
    arbitrators: Seq<Address>,
    required_votes: u32,
)
    requires
        panel_valid(arbitrators, required_votes),
        engine.sales.contains_key(transaction_id) || engine.auctions.contains_key(transaction_id),
        engine.sales.contains_key(transaction_id) ==> engine.sales[transaction_id].state != TransactionState::Pending,
        !engine.sales.contains_key(transaction_id) ==> engine.auctions[transaction_id].state
            != TransactionState::Pending,
    ensures
        initiate_outcome(engine, transaction_id, initiator, arbitrators, required_votes) == Err::<u64, SettlementError>(
            SettlementError::InvalidState,
        ),
{
}

} // verus!
