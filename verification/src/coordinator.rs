use vstd::prelude::*;
use crate::auction_engine::{finalize_check, set_auction_state};
use crate::dispute_resolution::{resolution_movements, with_transaction_state};
use crate::error::SettlementError;
use crate::escrow_manager::{release_asset, Movement};
use crate::fee_manager::fee_held;
use crate::royalty_distributor::{
    check_distribution, distribution_outcome, engine_after_distribution, pay_distribution,
};
use crate::settlement_core::{
    cancel_sale_check, deadline, default_royalty, seller_cancel_check, unwind_auction, unwind_movements,
};
use crate::types::{
    Address, Asset, AuctionView, Counters, DistributionResult, ExecutionResult, FeeConfig,
    FeeConfigView, RoyaltyDistribution, SaleTransaction, SaleView, TransactionState,
};
use crate::counters::next_id;
use crate::{EngineView, MarketplaceSettlement};

verus! {

broadcast use vstd::std_specs::hash::group_hash_axioms;

/// What an entry point that takes the engine's lock returns: `InvalidState`
/// while the lock is held, else what the operation itself decides.
pub open spec fn guarded<T>(engine: EngineView, outcome: Result<T, SettlementError>) -> Result<T, SettlementError> {
    if engine.locked {
        Err(SettlementError::InvalidState)
    } else {
        outcome
    }
}

/// What `withdraw_platform_fees` decides.
pub open spec fn withdraw_outcome(engine: EngineView, caller: Address, asset: Asset, amount: i128) -> Result<
    (),
    SettlementError,
> {
    if engine.fee_config is None {
        Err(SettlementError::NotInitialized)
    } else if caller != engine.fee_config->0.fee_recipient {
        Err(SettlementError::Unauthorized)
    } else if amount <= 0 || amount > fee_held(engine.platform_fees, asset) {
        Err(SettlementError::InvalidAmount)
    } else {
        Ok(())
    }
}

/// What `cancel_transaction` decides.
pub open spec fn cancel_outcome(engine: EngineView, transaction_id: u64, caller: Address) -> Result<(), SettlementError> {
    if engine.sales.contains_key(transaction_id) {
        cancel_sale_check(engine, transaction_id, caller)
    } else {
        seller_cancel_check(engine, transaction_id, caller)
    }
}

/// The engine after the transaction under `transaction_id` was cancelled and
/// what escrow held for it was handed back.
pub open spec fn engine_after_cancel(engine: EngineView, transaction_id: u64) -> EngineView {
    EngineView {
        escrow: engine.escrow + resolution_movements(engine, transaction_id),
        ..with_transaction_state(engine, transaction_id, TransactionState::Cancelled)
    }
}

/// What `emergency_withdraw` decides.
pub open spec fn emergency_outcome(engine: EngineView, caller: Address, transaction_id: u64) -> Result<
    (),
    SettlementError,
> {
    if engine.admin is None {
        Err(SettlementError::NotInitialized)
    } else if engine.admin != Some(caller) {
        Err(SettlementError::Unauthorized)
    } else if !engine.sales.contains_key(transaction_id) && !engine.auctions.contains_key(transaction_id) {
        Err(SettlementError::NotFound)
    } else {
        Ok(())
    }
}

/// What `update_fee_config` decides.
pub open spec fn update_fee_config_outcome(engine: EngineView, caller: Address, config: FeeConfigView) -> Result<
    (),
    SettlementError,
> {
    if engine.admin is None {
        Err(SettlementError::NotInitialized)
    } else if engine.admin != Some(caller) {
        Err(SettlementError::Unauthorized)
    } else if !fee_config_valid(config) {
        Err(SettlementError::InvalidAmount)
    } else {
        Ok(())
    }
}

/// The bounds that fee rules must keep: a rate of at most the whole, and no
/// negative bound.
pub open spec fn fee_config_valid(config: FeeConfigView) -> bool {
    config.platform_fee_bps <= 10_000 && config.minimum_fee >= 0 && config.maximum_fee >= 0
}

/// Refuses fee rules that break their bounds with `InvalidAmount`.
pub fn validate_fee_config(config: &FeeConfig) -> (r: Result<(), SettlementError>)
    ensures
        fee_config_valid(config@) ==> r == Ok::<(), SettlementError>(()),
        !fee_config_valid(config@) ==> r == Err::<(), SettlementError>(SettlementError::InvalidAmount),
{
    if config.platform_fee_bps > 10_000 {
        return Err(SettlementError::InvalidAmount);
    }
    if config.minimum_fee < 0 || config.maximum_fee < 0 {
        return Err(SettlementError::InvalidAmount);
    }
    Ok(())
}

/// The window before its end in which a bid extends a new auction, in
/// seconds.
pub const EXTENSION_WINDOW: u64 = 120;

/// What `create_auction` returns.
pub open spec fn create_auction_outcome(
    engine: EngineView,
    starting_price: i128,
    reserve_price: i128,
    duration_seconds: u64,
    bid_increment: i128,
) -> Result<u64, SettlementError> {
    if starting_price <= 0 || bid_increment <= 0 || duration_seconds == 0 {
        Err(SettlementError::InvalidAmount)
    } else if reserve_price > 0 && reserve_price < starting_price {
        Err(SettlementError::InvalidAmount)
    } else if engine.default_currency is None {
        Err(SettlementError::NotInitialized)
    } else {
        next_id(engine.counters, |c: Counters| c.auction)
    }
}

/// The auction that `create_auction` opens under `id`.
pub open spec fn opened_auction(
    engine: EngineView,
    id: u64,
    seller: Address,
    nft_address: Address,
    token_id: u64,
    starting_price: i128,
    reserve_price: i128,
    duration_seconds: u64,
    bid_increment: i128,
    now: u64,
) -> AuctionView {
    AuctionView {
        auction_id: id,
        seller,
        nft_address,
        token_id,
        starting_price,
        reserve_price,
        highest_bid: 0,
        highest_bidder: None,
        bid_increment,
        start_time: now,
        end_time: deadline(now, duration_seconds),
        state: TransactionState::Pending,
        bids: Seq::empty(),
        extension_window: EXTENSION_WINDOW,
        currency: engine.default_currency->0,
    }
}

/// Whether an ended auction failed its reserve.
pub open spec fn reserve_failed(a: AuctionView) -> bool {
    a.reserve_price > 0 && a.highest_bid < a.reserve_price
}

/// An ended auction seen as a sale at its highest bid, from the seller to the
/// winner, with the royalty descriptor of a fresh listing.
pub open spec fn auction_as_sale(engine: EngineView, a: AuctionView) -> SaleView {
    SaleView {
        transaction_id: a.auction_id,
        seller: a.seller,
        buyer: a.highest_bidder,
        nft_address: a.nft_address,
        token_id: a.token_id,
        price: a.highest_bid,
        currency: a.currency,
        state: TransactionState::Pending,
        created_at: a.start_time,
        expires_at: a.end_time,
        escrow_address: engine.escrow_address,
        royalty_info: default_royalty(a.seller, engine.fee_config->0.platform_fee_bps, a.highest_bid),
        platform_fee: 0,
    }
}

/// What `execute_bid` returns.
pub open spec fn execute_bid_outcome(engine: EngineView, auction_id: u64, now: u64) -> Result<
    ExecutionResult,
    SettlementError,
> {
    if engine.locked {
        Err(SettlementError::InvalidState)
    } else if finalize_check(engine, auction_id, now) is Err {
        Err(finalize_check(engine, auction_id, now)->Err_0)
    } else {
        let a = engine.auctions[auction_id];
        if a.highest_bidder is None {
            Err(SettlementError::InvalidState)
        } else if reserve_failed(a) {
            Ok(ExecutionResult { transaction_id: a.auction_id, nft_transferred: true, funds_distributed: false })
        } else {
            match distribution_outcome(engine, auction_as_sale(engine, a)) {
                Err(e) => Err(e),
                Ok(d) => Ok(
                    ExecutionResult { transaction_id: a.auction_id, nft_transferred: true, funds_distributed: true },
                ),
            }
        }
    }
}

/// The engine after an ended auction was settled. Where the reserve failed,
/// the highest bid went back to its bidder, the asset to the seller, and the
/// auction is cancelled. Otherwise the highest bid was distributed as a
/// sale's price is, the asset went to the winner, and the auction is
/// executed.
pub open spec fn engine_after_bid_execution(engine: EngineView, auction_id: u64) -> EngineView {
    let a = engine.auctions[auction_id];
    if reserve_failed(a) {
        EngineView {
            auctions: engine.auctions.insert(auction_id, AuctionView { state: TransactionState::Cancelled, ..a }),
            escrow: engine.escrow + unwind_movements(a),
            ..engine
        }
    } else {
        let sale = auction_as_sale(engine, a);
        let paid = engine_after_distribution(engine, sale, distribution_outcome(engine, sale)->Ok_0);
        EngineView {
            auctions: engine.auctions.insert(auction_id, AuctionView { state: TransactionState::Executed, ..a }),
            escrow: paid.escrow.push(
                Movement::AssetOut { nft_address: a.nft_address, token_id: a.token_id, to: a.highest_bidder->0 },
            ),
            ..paid
        }
    }
}

/// Settles an ended auction while the engine's lock is held.
pub(crate) fn execute_bid_inner(engine: &mut MarketplaceSettlement, auction_id: u64, now: u64) -> (r: Result<
    ExecutionResult,
    SettlementError,
>)
    requires
        old(engine)@.locked,
    ensures
        r == execute_bid_outcome(EngineView { locked: false, ..old(engine)@ }, auction_id, now),
        r is Err ==> final(engine)@ == old(engine)@,
        r is Ok ==> final(engine)@ == (EngineView {
            locked: true,
            ..engine_after_bid_execution(EngineView { locked: false, ..old(engine)@ }, auction_id)
        }),
{
    let auction = match engine.auctions.get(&auction_id) {
        None => { return Err(SettlementError::NotFound); },
        Some(a) => {
            if a.state != TransactionState::Pending {
                return Err(SettlementError::InvalidState);
            }
            if now < a.end_time {
                return Err(SettlementError::AuctionNotEnded);
            }
            a.clone()
        },
    };
    let winner = match auction.highest_bidder {
        Some(w) => w,
        None => { return Err(SettlementError::InvalidState); },
    };
    if auction.reserve_price > 0 && auction.highest_bid < auction.reserve_price {
        unwind_auction(engine, &auction);
        set_auction_state(engine, auction_id, TransactionState::Cancelled);
        return Ok(
            ExecutionResult { transaction_id: auction.auction_id, nft_transferred: true, funds_distributed: false },
        );
    }
    let platform_bps = match &engine.fee_config {
        Some(config) => config.platform_fee_bps,
        None => { return Err(SettlementError::NotInitialized); },
    };
    let sale = SaleTransaction {
        transaction_id: auction.auction_id,
        seller: auction.seller,
        buyer: Some(winner),
        nft_address: auction.nft_address,
        token_id: auction.token_id,
        price: auction.highest_bid,
        currency: auction.currency,
        state: TransactionState::Pending,
        created_at: auction.start_time,
        expires_at: auction.end_time,
        escrow_address: engine.escrow_address,
        royalty_info: RoyaltyDistribution {
            creator_address: auction.seller,
            creator_percentage: 0,
            seller_percentage: 0,
            platform_percentage: platform_bps,
            total_amount: auction.highest_bid,
            amounts: Vec::new(),
        },
        platform_fee: 0,
    };
    assert(sale@.royalty_info.amounts =~= Seq::empty());
    assert(sale@ == auction_as_sale(old(engine)@, auction@));
    let d = check_distribution(engine, &sale)?;
    pay_distribution(engine, &sale, &d);
    release_asset(&mut engine.escrow, &auction.nft_address, auction.token_id, &winner);
    set_auction_state(engine, auction_id, TransactionState::Executed);
    Ok(ExecutionResult { transaction_id: auction.auction_id, nft_transferred: true, funds_distributed: true })
}

/// What `distribute_transaction` returns.
pub open spec fn distribute_transaction_outcome(engine: EngineView, transaction_id: u64) -> Result<
    DistributionResult,
    SettlementError,
> {
    if engine.locked {
        Err(SettlementError::InvalidState)
    } else if !engine.sales.contains_key(transaction_id) {
        Err(SettlementError::NotFound)
    } else if engine.sales[transaction_id].state != TransactionState::Funded {
        Err(SettlementError::InvalidState)
    } else {
        distribution_outcome(engine, engine.sales[transaction_id])
    }
}

/// The engine after the funded sale under `transaction_id` was paid out as
/// `d` says: the sale is executed and remembers the fee.
pub open spec fn engine_after_distribute_transaction(engine: EngineView, transaction_id: u64, d: DistributionResult) -> EngineView {
    let sale = engine.sales[transaction_id];
    EngineView {
        sales: engine.sales.insert(
            transaction_id,
            SaleView { platform_fee: d.platform_fee, state: TransactionState::Executed, ..sale },
        ),
        ..engine_after_distribution(engine, sale, d)
    }
}

/// Pays out a funded sale while the engine's lock is held.
pub(crate) fn distribute_transaction_inner(engine: &mut MarketplaceSettlement, transaction_id: u64) -> (r: Result<
    DistributionResult,
    SettlementError,
>)
    requires
        old(engine)@.locked,
    ensures
        r == distribute_transaction_outcome(EngineView { locked: false, ..old(engine)@ }, transaction_id),
        r is Err ==> final(engine)@ == old(engine)@,
        r is Ok ==> final(engine)@ == engine_after_distribute_transaction(old(engine)@, transaction_id, r->Ok_0),
{
    let mut sale = match engine.sales.get(&transaction_id) {
        None => { return Err(SettlementError::NotFound); },
        Some(sale) => {
            if sale.state != TransactionState::Funded {
                return Err(SettlementError::InvalidState);
            }
            sale.clone()
        },
    };
    let d = check_distribution(engine, &sale)?;
    pay_distribution(engine, &sale, &d);
    sale.platform_fee = d.platform_fee;
    sale.state = TransactionState::Executed;
    engine.sales.insert(transaction_id, sale);
    assert(engine@.sales =~= old(engine)@.sales.insert(
        transaction_id,
        SaleView {
            platform_fee: d.platform_fee,
            state: TransactionState::Executed,
            ..old(engine)@.sales[transaction_id]
        },
    ));
    Ok(d)
}

} // verus!
