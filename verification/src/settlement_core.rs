use vstd::prelude::*;
use crate::auction_engine;
use crate::error::SettlementError;
use crate::escrow_manager::{escrow_asset, release_asset, transfer_in, transfer_out, Movement};
use crate::royalty_distributor::{
    check_distribution, distribution_outcome, engine_after_distribution, pay_distribution,
};
use crate::security::reentrancy_guard;
use crate::types::{
    Address, AuctionTransaction, AuctionView, DistributionResult, ExecutionResult,
    RoyaltyDistribution, RoyaltyDistributionView, SaleTransaction, SaleView, TransactionState,
};
use crate::{next_id, next_sale_id, Counters, EngineView, MarketplaceSettlement};

verus! {

broadcast use vstd::std_specs::hash::group_hash_axioms;

/// The moment `duration` seconds after `start`, or the last moment of all
/// where that lies beyond it.
pub open spec fn deadline(start: u64, duration: u64) -> u64 {
    if start + duration > u64::MAX {
        u64::MAX
    } else {
        (start + duration) as u64
    }
}

/// The royalty descriptor of a fresh listing: no rate for creator or seller,
/// so that the seller takes all that the platform leaves.
pub open spec fn default_royalty(seller: Address, platform_bps: u32, price: i128) -> RoyaltyDistributionView {
    RoyaltyDistributionView {
        creator_address: seller,
        creator_percentage: 0,
        seller_percentage: 0,
        platform_percentage: platform_bps,
        total_amount: price,
        amounts: Seq::empty(),
    }
}

/// What `create_sale` returns.
pub open spec fn create_sale_outcome(engine: EngineView, price: i128, duration_seconds: u64) -> Result<
    u64,
    SettlementError,
> {
    if price <= 0 || duration_seconds == 0 {
        Err(SettlementError::InvalidAmount)
    } else if engine.fee_config is None {
        Err(SettlementError::NotInitialized)
    } else {
        next_id(engine.counters, |c: Counters| c.sale)
    }
}

/// The sale that `create_sale` lists under `id`.
pub open spec fn listed_sale(
    engine: EngineView,
    id: u64,
    seller: Address,
    nft_address: Address,
    token_id: u64,
    price: i128,
    currency: Address,
    duration_seconds: u64,
    now: u64,
) -> SaleView {
    SaleView {
        transaction_id: id,
        seller,
        buyer: None,
        nft_address,
        token_id,
        price,
        currency,
        state: TransactionState::Pending,
        created_at: now,
        expires_at: deadline(now, duration_seconds),
        escrow_address: engine.escrow_address,
        royalty_info: default_royalty(seller, engine.fee_config->0.platform_fee_bps, price),
        platform_fee: 0,
    }
}

/// Lists an asset at a fixed price. The asset goes into escrow at once; the
/// listing is pending until it is bought, cancelled or disputed.
pub fn create_sale(
    engine: &mut MarketplaceSettlement,
    seller: Address,
    nft_address: Address,
    token_id: u64,
    price: i128,
    currency: Address,
    duration_seconds: u64,
    now: u64,
) -> (r: Result<u64, SettlementError>)
    ensures
        r == create_sale_outcome(old(engine)@, price, duration_seconds),
        r is Err ==> final(engine)@ == old(engine)@,
        r is Ok ==> final(engine)@ == (EngineView {
            counters: Some(Counters { sale: r->Ok_0, ..old(engine)@.counters->0 }),
            sales: old(engine)@.sales.insert(
                r->Ok_0,
                listed_sale(old(engine)@, r->Ok_0, seller, nft_address, token_id, price, currency, duration_seconds, now),
            ),
            escrow: old(engine)@.escrow.push(Movement::AssetIn { nft_address, token_id, from: seller }),
            ..old(engine)@
        }),
{
    if price <= 0 || duration_seconds == 0 {
        return Err(SettlementError::InvalidAmount);
    }
    let platform_bps = match &engine.fee_config {
        Some(config) => config.platform_fee_bps,
        None => { return Err(SettlementError::NotInitialized); },
    };
    let expires_at = match now.checked_add(duration_seconds) {
        Some(t) => t,
        None => u64::MAX,
    };
    let sale_id = next_sale_id(engine)?;
    escrow_asset(&mut engine.escrow, &nft_address, token_id, &seller);
    let sale = SaleTransaction {
        transaction_id: sale_id,
        seller,
        buyer: None,
        nft_address,
        token_id,
        price,
        currency,
        state: TransactionState::Pending,
        created_at: now,
        expires_at,
        escrow_address: engine.escrow_address,
        royalty_info: RoyaltyDistribution {
            creator_address: seller,
            creator_percentage: 0,
            seller_percentage: 0,
            platform_percentage: platform_bps,
            total_amount: price,
            amounts: Vec::new(),
        },
        platform_fee: 0,
    };
    assert(sale@.royalty_info.amounts =~= Seq::empty());
    engine.sales.insert(sale_id, sale);
    assert(engine@.sales =~= old(engine)@.sales.insert(
        sale_id,
        listed_sale(old(engine)@, sale_id, seller, nft_address, token_id, price, currency, duration_seconds, now),
    ));
    Ok(sale_id)
}

/// The sale as its distribution sees it: funded, with its buyer known.
pub open spec fn funded_sale(sale: SaleView, buyer: Address) -> SaleView {
    SaleView { state: TransactionState::Funded, buyer: Some(buyer), ..sale }
}

/// What `execute_sale` returns.
pub open spec fn execute_sale_outcome(
    engine: EngineView,
    transaction_id: u64,
    buyer: Address,
    payment_amount: i128,
    now: u64,
) -> Result<ExecutionResult, SettlementError> {
    if engine.locked {
        Err(SettlementError::InvalidState)
    } else if !engine.sales.contains_key(transaction_id) {
        Err(SettlementError::NotFound)
    } else {
        let sale = engine.sales[transaction_id];
        if sale.state != TransactionState::Pending {
            Err(SettlementError::InvalidState)
        } else if now > sale.expires_at {
            Err(SettlementError::Expired)
        } else if payment_amount != sale.price || payment_amount <= 0 {
            Err(SettlementError::InvalidAmount)
        } else {
            match distribution_outcome(engine, funded_sale(sale, buyer)) {
                Err(e) => Err(e),
                Ok(d) => Ok(
                    ExecutionResult {
                        transaction_id: sale.transaction_id,
                        nft_transferred: true,
                        funds_distributed: true,
                    },
                ),
            }
        }
    }
}

/// The engine after a sale was executed with the distribution `d`: the
/// payment came in, the payouts and the fee went their ways, the asset went
/// to the buyer, and the sale is executed.
pub open spec fn engine_after_sale(engine: EngineView, transaction_id: u64, buyer: Address, d: DistributionResult) -> EngineView {
    let sale = engine.sales[transaction_id];
    let paid_in = EngineView {
        escrow: engine.escrow.push(Movement::FundsIn { asset: sale.currency, from: buyer, amount: sale.price }),
        ..engine
    };
    let paid_out = engine_after_distribution(paid_in, funded_sale(sale, buyer), d);
    EngineView {
        escrow: paid_out.escrow.push(
            Movement::AssetOut { nft_address: sale.nft_address, token_id: sale.token_id, to: buyer },
        ),
        sales: engine.sales.insert(
            transaction_id,
            SaleView {
                buyer: Some(buyer),
                platform_fee: d.platform_fee,
                state: TransactionState::Executed,
                ..sale
            },
        ),
        ..paid_out
    }
}

/// Buys a pending sale at time `now`: the payment, which must equal the
/// price, comes into escrow, is distributed at once, and the asset goes to
/// the buyer. The engine's lock is held throughout and given back on every
/// path. A refused purchase changes nothing.
pub fn execute_sale(
    engine: &mut MarketplaceSettlement,
    transaction_id: u64,
    buyer: Address,
    payment_amount: i128,
    now: u64,
) -> (r: Result<ExecutionResult, SettlementError>)
    ensures
        r == execute_sale_outcome(old(engine)@, transaction_id, buyer, payment_amount, now),
        r is Err ==> final(engine)@ == old(engine)@,
        r is Ok ==> final(engine)@ == engine_after_sale(
            old(engine)@,
            transaction_id,
            buyer,
            distribution_outcome(old(engine)@, funded_sale(old(engine)@.sales[transaction_id], buyer))->Ok_0,
        ),
{
    reentrancy_guard::enter(engine)?;
    let result = execute_sale_inner(engine, transaction_id, buyer, payment_amount, now);
    reentrancy_guard::exit(engine);
    result
}

fn execute_sale_inner(
    engine: &mut MarketplaceSettlement,
    transaction_id: u64,
    buyer: Address,
    payment_amount: i128,
    now: u64,
) -> (r: Result<ExecutionResult, SettlementError>)
    requires
        old(engine)@.locked,
    ensures
        r == execute_sale_outcome(
            EngineView { locked: false, ..old(engine)@ },
            transaction_id,
            buyer,
            payment_amount,
            now,
        ),
        r is Err ==> final(engine)@ == old(engine)@,
        r is Ok ==> final(engine)@ == (EngineView {
            locked: true,
            ..engine_after_sale(
                EngineView { locked: false, ..old(engine)@ },
                transaction_id,
                buyer,
                distribution_outcome(old(engine)@, funded_sale(old(engine)@.sales[transaction_id], buyer))->Ok_0,
            )
        }),
{
    let mut funded = match engine.sales.get(&transaction_id) {
        None => { return Err(SettlementError::NotFound); },
        Some(sale) => {
            if sale.state != TransactionState::Pending {
                return Err(SettlementError::InvalidState);
            }
            if now > sale.expires_at {
                return Err(SettlementError::Expired);
            }
            if payment_amount != sale.price {
                return Err(SettlementError::InvalidAmount);
            }
            if payment_amount <= 0 {
                return Err(SettlementError::InvalidAmount);
            }
            sale.clone()
        },
    };
    funded.state = TransactionState::Funded;
    funded.buyer = Some(buyer);
    let d = check_distribution(engine, &funded)?;
    let _ = transfer_in(&mut engine.escrow, &funded.currency, &buyer, payment_amount);
    pay_distribution(engine, &funded, &d);
    release_asset(&mut engine.escrow, &funded.nft_address, funded.token_id, &buyer);
    funded.platform_fee = d.platform_fee;
    funded.state = TransactionState::Executed;
    let id = funded.transaction_id;
    engine.sales.insert(transaction_id, funded);
    assert(engine@.sales =~= old(engine)@.sales.insert(
        transaction_id,
        SaleView {
            buyer: Some(buyer),
            platform_fee: d.platform_fee,
            state: TransactionState::Executed,
            ..old(engine)@.sales[transaction_id]
        },
    ));
    Ok(ExecutionResult { transaction_id: id, nft_transferred: true, funds_distributed: d.total_amount == payment_amount })
}

/// What `cancel_sale` decides.
pub open spec fn cancel_sale_check(engine: EngineView, transaction_id: u64, caller: Address) -> Result<(), SettlementError> {
    if !engine.sales.contains_key(transaction_id) {
        Err(SettlementError::NotFound)
    } else if engine.sales[transaction_id].state != TransactionState::Pending {
        Err(SettlementError::InvalidState)
    } else if caller != engine.sales[transaction_id].seller {
        Err(SettlementError::Unauthorized)
    } else {
        Ok(())
    }
}

/// Withdraws a pending sale on its seller's word: the asset goes back to the
/// seller and the sale is cancelled.
pub fn cancel_sale(engine: &mut MarketplaceSettlement, transaction_id: u64, caller: Address) -> (r: Result<
    SaleTransaction,
    SettlementError,
>)
    ensures
        match r {
            Ok(cancelled) => cancel_sale_check(old(engine)@, transaction_id, caller) is Ok && cancelled@ == (SaleView {
                state: TransactionState::Cancelled,
                ..old(engine)@.sales[transaction_id]
            }) && final(engine)@ == (EngineView {
                sales: old(engine)@.sales.insert(transaction_id, cancelled@),
                escrow: old(engine)@.escrow.push(
                    Movement::AssetOut {
                        nft_address: cancelled@.nft_address,
                        token_id: cancelled@.token_id,
                        to: cancelled@.seller,
                    },
                ),
                ..old(engine)@
            }),
            Err(e) => cancel_sale_check(old(engine)@, transaction_id, caller) == Err::<(), SettlementError>(e)
                && final(engine)@ == old(engine)@,
        },
{
    match engine.sales.get(&transaction_id) {
        None => { return Err(SettlementError::NotFound); },
        Some(sale) => {
            if sale.state != TransactionState::Pending {
                return Err(SettlementError::InvalidState);
            }
            if caller != sale.seller {
                return Err(SettlementError::Unauthorized);
            }
        },
    }
    let mut sale = engine.sales.remove(&transaction_id).unwrap();
    release_asset(&mut engine.escrow, &sale.nft_address, sale.token_id, &sale.seller);
    sale.state = TransactionState::Cancelled;
    let cancelled = sale.clone();
    engine.sales.insert(transaction_id, sale);
    assert(engine@.sales =~= old(engine)@.sales.insert(transaction_id, cancelled@));
    Ok(cancelled)
}

/// What the seller's cancellation of an auction decides.
pub open spec fn seller_cancel_check(engine: EngineView, auction_id: u64, caller: Address) -> Result<(), SettlementError> {
    if !engine.auctions.contains_key(auction_id) {
        Err(SettlementError::NotFound)
    } else if caller != engine.auctions[auction_id].seller {
        Err(SettlementError::Unauthorized)
    } else if engine.auctions[auction_id].state != TransactionState::Pending {
        Err(SettlementError::InvalidState)
    } else {
        Ok(())
    }
}

/// What leaves escrow when an auction is called off: the highest bid goes
/// back to its bidder in full, the asset to the seller.
pub open spec fn unwind_movements(a: AuctionView) -> Seq<Movement> {
    auction_engine::refund_movements(a).push(
        Movement::AssetOut { nft_address: a.nft_address, token_id: a.token_id, to: a.seller },
    )
}

/// Calls off a pending auction on its seller's word. The engine that cancels
/// is the one that holds the escrow, so it returns what it holds: the highest
/// bid to its bidder, the asset to the seller.
pub fn cancel_auction(engine: &mut MarketplaceSettlement, auction_id: u64, caller: Address) -> (r: Result<
    AuctionTransaction,
    SettlementError,
>)
    ensures
        match r {
            Ok(cancelled) => seller_cancel_check(old(engine)@, auction_id, caller) is Ok && cancelled@ == (AuctionView {
                state: TransactionState::Cancelled,
                ..old(engine)@.auctions[auction_id]
            }) && final(engine)@ == (EngineView {
                auctions: old(engine)@.auctions.insert(auction_id, cancelled@),
                escrow: old(engine)@.escrow + unwind_movements(old(engine)@.auctions[auction_id]),
                ..old(engine)@
            }),
            Err(e) => seller_cancel_check(old(engine)@, auction_id, caller) == Err::<(), SettlementError>(e)
                && final(engine)@ == old(engine)@,
        },
{
    match engine.auctions.get(&auction_id) {
        None => { return Err(SettlementError::NotFound); },
        Some(auction) => {
            if caller != auction.seller {
                return Err(SettlementError::Unauthorized);
            }
        },
    }
    let auction = auction_engine::cancel_auction(engine, auction_id)?;
    unwind_auction(engine, &auction);
    Ok(auction)
}

/// Returns what escrow holds for an auction: the highest bid to its bidder,
/// the asset to the seller.
pub fn unwind_auction(engine: &mut MarketplaceSettlement, auction: &AuctionTransaction)
    ensures
        final(engine)@ == (EngineView {
            escrow: old(engine)@.escrow + unwind_movements(auction@),
            ..old(engine)@
        }),
{
    if let Some(highest_bidder) = auction.highest_bidder {
        if auction.highest_bid > 0 {
            let _ = transfer_out(&mut engine.escrow, &auction.currency, &highest_bidder, auction.highest_bid);
        }
    }
    release_asset(&mut engine.escrow, &auction.nft_address, auction.token_id, &auction.seller);
    assert(engine@.escrow =~= old(engine)@.escrow + unwind_movements(auction@));
}

} // verus!
