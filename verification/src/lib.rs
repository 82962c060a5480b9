use vstd::prelude::*;
use std::collections::HashMap;
use crate::dispute_resolution::{engine_after_vote, initiate_outcome, vote_outcome, with_transaction_state};
use crate::escrow_manager::{escrow_asset, release_asset, transfer_out};
use crate::fee_manager::{fee_held, fees_with, find_fee, store_fee};
use crate::royalty_distributor::{distribution_outcome, royalty_descriptor, split_fits};
use crate::security::reentrancy_guard;
use crate::settlement_core::unwind_auction;

pub mod auction_engine;
pub mod coordinator;
pub mod counters;
pub mod dispute_resolution;
pub mod error;
pub mod escrow_manager;
pub mod fee_manager;
pub mod royalty_distributor;
pub mod security;
pub mod settlement_core;
pub mod state_machine;
pub mod storage;
pub mod types;
pub mod utils;

pub use crate::coordinator::{
    cancel_outcome, create_auction_outcome, distribute_transaction_outcome, emergency_outcome,
    engine_after_bid_execution, engine_after_cancel, engine_after_distribute_transaction,
    execute_bid_outcome, fee_config_valid, guarded, opened_auction, update_fee_config_outcome,
    validate_fee_config, withdraw_outcome, EXTENSION_WINDOW,
};
pub use crate::counters::{next_auction_id, next_dispute_id, next_id, next_sale_id};
pub use crate::error::SettlementError;
pub use crate::escrow_manager::{EscrowLedger, Movement};
pub use crate::types::{
    Address, Asset, AuctionTransaction, AuctionView, Bid, Counters, Dispute, DisputeResolution,
    DisputeView, DistributionResult, EmergencyWithdrawalReason, ExecutionResult, FeeBalance,
    FeeConfig, FeeConfigView, Payout, RoyaltyDistribution, RoyaltyDistributionView,
    SaleTransaction, SaleView, TransactionState, VolumeTier, Vote,
};

verus! {

broadcast use vstd::std_specs::hash::group_hash_axioms;

/// One settlement engine: its configuration, its records by identifier, the
/// fees it has gathered, its reentrancy flag and its custody trail.
pub struct MarketplaceSettlement {
    pub escrow_address: Address,
    pub admin: Option<Address>,
    pub fee_config: Option<FeeConfig>,
    pub default_currency: Option<Asset>,
    pub counters: Option<Counters>,
    pub sales: HashMap<u64, SaleTransaction>,
    pub auctions: HashMap<u64, AuctionTransaction>,
    pub disputes: HashMap<u64, Dispute>,
    pub platform_fees: Vec<FeeBalance>,
    pub locked: bool,
    pub escrow: EscrowLedger,
}

/// An engine as contracts see it: its records are maps from identifiers to
/// the views of the records.
pub struct EngineView {
    pub escrow_address: Address,
    pub admin: Option<Address>,
    pub fee_config: Option<FeeConfigView>,
    pub default_currency: Option<Asset>,
    pub counters: Option<Counters>,
    pub sales: Map<u64, SaleView>,
    pub auctions: Map<u64, AuctionView>,
    pub disputes: Map<u64, DisputeView>,
    pub platform_fees: Seq<FeeBalance>,
    pub locked: bool,
    pub escrow: Seq<Movement>,
}

/// The view of an optional fee configuration.
pub open spec fn config_view(c: Option<FeeConfig>) -> Option<FeeConfigView> {
    match c {
        Some(config) => Some(config@),
        None => None,
    }
}

impl View for MarketplaceSettlement {
    type V = EngineView;

    open spec fn view(&self) -> EngineView {
        EngineView {
            escrow_address: self.escrow_address,
            admin: self.admin,
            fee_config: config_view(self.fee_config),
            default_currency: self.default_currency,
            counters: self.counters,
            sales: self.sales@.map_values(|s: SaleTransaction| s@),
            auctions: self.auctions@.map_values(|a: AuctionTransaction| a@),
            disputes: self.disputes@.map_values(|d: Dispute| d@),
            platform_fees: self.platform_fees@,
            locked: self.locked,
            escrow: self.escrow@,
        }
    }
}

impl MarketplaceSettlement {
    /// An engine at `escrow_address` that has not been initialized and holds
    /// nothing.
    pub fn new(escrow_address: Address) -> (r: Self)
        ensures
            r@ == (EngineView {
                escrow_address,
                admin: None,
                fee_config: None,
                default_currency: None,
                counters: None,
                sales: Map::empty(),
                auctions: Map::empty(),
                disputes: Map::empty(),
                platform_fees: Seq::empty(),
                locked: false,
                escrow: Seq::empty(),
            }),
    {
        let r = MarketplaceSettlement {
            escrow_address,
            admin: None,
            fee_config: None,
            default_currency: None,
            counters: None,
            sales: HashMap::new(),
            auctions: HashMap::new(),
            disputes: HashMap::new(),
            platform_fees: Vec::new(),
            locked: false,
            escrow: EscrowLedger::new(),
        };
        assert(r@.sales =~= Map::empty());
        assert(r@.auctions =~= Map::empty());
        assert(r@.disputes =~= Map::empty());
        r
    }

    /// Sets the engine up, once: its administrator, its fee rules, the
    /// currency of its auctions, and counters that start at zero.
    pub fn initialize(&mut self, admin: Address, fee_config: FeeConfig, default_currency: Asset) -> (r: Result<
        (),
        SettlementError,
    >)
        ensures
            old(self)@.admin is Some ==> r == Err::<(), SettlementError>(SettlementError::AlreadyExists),
            old(self)@.admin is None && !fee_config_valid(fee_config@) ==> r == Err::<(), SettlementError>(
                SettlementError::InvalidAmount,
            ),
            old(self)@.admin is None && fee_config_valid(fee_config@) ==> r == Ok::<(), SettlementError>(()),
            r is Err ==> final(self)@ == old(self)@,
            r is Ok ==> final(self)@ == (EngineView {
                admin: Some(admin),
                fee_config: Some(fee_config@),
                default_currency: Some(default_currency),
                counters: Some(Counters { sale: 0, auction: 0, dispute: 0 }),
                ..old(self)@
            }),
    {
        if self.admin.is_some() {
            return Err(SettlementError::AlreadyExists);
        }
        validate_fee_config(&fee_config)?;
        self.admin = Some(admin);
        self.fee_config = Some(fee_config);
        self.default_currency = Some(default_currency);
        self.counters = Some(Counters { sale: 0, auction: 0, dispute: 0 });
        Ok(())
    }

    /// Lists an asset at a fixed price; see `settlement_core::create_sale`.
    pub fn create_sale(
        &mut self,
        seller: Address,
        nft_address: Address,
        token_id: u64,
        price: i128,
        currency: Asset,
        duration_seconds: u64,
        now: u64,
    ) -> (r: Result<u64, SettlementError>)
        ensures
            r == settlement_core::create_sale_outcome(old(self)@, price, duration_seconds),
            r is Err ==> final(self)@ == old(self)@,
            r is Ok ==> final(self)@ == (EngineView {
                counters: Some(Counters { sale: r->Ok_0, ..old(self)@.counters->0 }),
                sales: old(self)@.sales.insert(
                    r->Ok_0,
                    settlement_core::listed_sale(
                        old(self)@,
                        r->Ok_0,
                        seller,
                        nft_address,
                        token_id,
                        price,
                        currency,
                        duration_seconds,
                        now,
                    ),
                ),
                escrow: old(self)@.escrow.push(Movement::AssetIn { nft_address, token_id, from: seller }),
                ..old(self)@
            }),
    {
        settlement_core::create_sale(self, seller, nft_address, token_id, price, currency, duration_seconds, now)
    }

    /// Opens an auction at time `now` in the engine's currency. The asset goes
    /// into escrow at once. A reserve, where one is set, may not lie below the
    /// starting price.
    pub fn create_auction(
        &mut self,
        seller: Address,
        nft_address: Address,
        token_id: u64,
        starting_price: i128,
        reserve_price: i128,
        duration_seconds: u64,
        bid_increment: i128,
        now: u64,
    ) -> (r: Result<u64, SettlementError>)
        ensures
            r == create_auction_outcome(old(self)@, starting_price, reserve_price, duration_seconds, bid_increment),
            r is Err ==> final(self)@ == old(self)@,
            r is Ok ==> final(self)@ == (EngineView {
                counters: Some(Counters { auction: r->Ok_0, ..old(self)@.counters->0 }),
                auctions: old(self)@.auctions.insert(
                    r->Ok_0,
                    opened_auction(
                        old(self)@,
                        r->Ok_0,
                        seller,
                        nft_address,
                        token_id,
                        starting_price,
                        reserve_price,
                        duration_seconds,
                        bid_increment,
                        now,
                    ),
                ),
                escrow: old(self)@.escrow.push(Movement::AssetIn { nft_address, token_id, from: seller }),
                ..old(self)@
            }),
    {
        if starting_price <= 0 || bid_increment <= 0 || duration_seconds == 0 {
            return Err(SettlementError::InvalidAmount);
        }
        if reserve_price > 0 && reserve_price < starting_price {
            return Err(SettlementError::InvalidAmount);
        }
        let default_currency = match self.default_currency {
            Some(c) => c,
            None => { return Err(SettlementError::NotInitialized); },
        };
        let end_time = match now.checked_add(duration_seconds) {
            Some(t) => t,
            None => u64::MAX,
        };
        let auction_id = next_auction_id(self)?;
        escrow_asset(&mut self.escrow, &nft_address, token_id, &seller);
        let auction = AuctionTransaction {
            auction_id,
            seller,
            nft_address,
            token_id,
            starting_price,
            reserve_price,
            highest_bid: 0,
            highest_bidder: None,
            bid_increment,
            start_time: now,
            end_time,
            state: TransactionState::Pending,
            bids: Vec::new(),
            extension_window: EXTENSION_WINDOW,
            currency: default_currency,
        };
        assert(auction@.bids =~= Seq::empty());
        self.auctions.insert(auction_id, auction);
        assert(self@.auctions =~= old(self)@.auctions.insert(
            auction_id,
            opened_auction(
                old(self)@,
                auction_id,
                seller,
                nft_address,
                token_id,
                starting_price,
                reserve_price,
                duration_seconds,
                bid_increment,
                now,
            ),
        ));
        Ok(auction_id)
    }

    /// Buys a pending sale; see `settlement_core::execute_sale`.
    pub fn execute_sale(&mut self, transaction_id: u64, buyer: Address, payment_amount: i128, now: u64) -> (r: Result<
        ExecutionResult,
        SettlementError,
    >)
        ensures
            r == settlement_core::execute_sale_outcome(old(self)@, transaction_id, buyer, payment_amount, now),
            r is Err ==> final(self)@ == old(self)@,
            r is Ok ==> final(self)@ == settlement_core::engine_after_sale(
                old(self)@,
                transaction_id,
                buyer,
                distribution_outcome(
                    old(self)@,
                    settlement_core::funded_sale(old(self)@.sales[transaction_id], buyer),
                )->Ok_0,
            ),
    {
        settlement_core::execute_sale(self, transaction_id, buyer, payment_amount, now)
    }

    /// Settles an auction whose end time has come. Without a bidder there is
    /// nothing to settle. Where the highest bid failed the reserve, it goes
    /// back in full, the asset returns to the seller and the auction is
    /// cancelled. Otherwise the highest bid is distributed as the price of a
    /// sale is, and the asset goes to the winner. The engine's lock is held
    /// throughout and given back on every path; a refused settlement changes
    /// nothing.
    pub fn execute_bid(&mut self, auction_id: u64, now: u64) -> (r: Result<ExecutionResult, SettlementError>)
        ensures
            r == execute_bid_outcome(old(self)@, auction_id, now),
            r is Err ==> final(self)@ == old(self)@,
            r is Ok ==> final(self)@ == engine_after_bid_execution(old(self)@, auction_id),
    {
        reentrancy_guard::enter(self)?;
        let result = coordinator::execute_bid_inner(self, auction_id, now);
        reentrancy_guard::exit(self);
        result
    }

    /// Places a bid under the engine's lock; see `auction_engine::place_bid`.
    pub fn place_bid(
        &mut self,
        auction_id: u64,
        bidder: Address,
        bid_amount: i128,
        commitment_hash: Option<[u8; 32]>,
        now: u64,
    ) -> (r: Result<(), SettlementError>)
        ensures
            r == guarded(
                old(self)@,
                auction_engine::place_bid_outcome(old(self)@, auction_id, bid_amount, commitment_hash is Some, now),
            ),
            r is Err ==> final(self)@ == old(self)@,
            r is Ok ==> final(self)@ == (EngineView {
                auctions: old(self)@.auctions.insert(
                    auction_id,
                    auction_engine::with_placed_bid(
                        old(self)@.auctions[auction_id],
                        bidder,
                        bid_amount,
                        commitment_hash,
                        now,
                    ),
                ),
                escrow: old(self)@.escrow + auction_engine::placed_bid_movements(
                    old(self)@.auctions[auction_id],
                    bidder,
                    bid_amount,
                    commitment_hash is Some,
                ),
                ..old(self)@
            }),
    {
        reentrancy_guard::enter(self)?;
        let result = auction_engine::place_bid(self, auction_id, bidder, bid_amount, commitment_hash, now);
        reentrancy_guard::exit(self);
        result
    }

    /// Discloses a sealed bid under the engine's lock; see
    /// `auction_engine::reveal_bid`.
    pub fn reveal_bid(&mut self, auction_id: u64, bidder: Address, bid_amount: i128, salt: [u8; 32], now: u64) -> (r:
        Result<(), SettlementError>)
        ensures
            r == guarded(
                old(self)@,
                auction_engine::reveal_outcome(
                    old(self)@,
                    auction_id,
                    bidder,
                    bid_amount,
                    security::frontrun_protection::commitment_of(bid_amount, salt@),
                    now,
                ),
            ),
            r is Err ==> final(self)@ == old(self)@,
            r is Ok ==> final(self)@ == auction_engine::engine_after_reveal(
                old(self)@,
                auction_id,
                bidder,
                bid_amount,
                now,
            ),
    {
        reentrancy_guard::enter(self)?;
        let result = auction_engine::reveal_bid(self, auction_id, bidder, bid_amount, salt, now);
        reentrancy_guard::exit(self);
        result
    }

    /// Pays out a funded sale and marks it executed. The engine's lock is held
    /// throughout and given back on every path; a refused payout changes
    /// nothing.
    pub fn distribute_transaction(&mut self, transaction_id: u64) -> (r: Result<DistributionResult, SettlementError>)
        ensures
            r == distribute_transaction_outcome(old(self)@, transaction_id),
            r is Err ==> final(self)@ == old(self)@,
            r is Ok ==> final(self)@ == engine_after_distribute_transaction(old(self)@, transaction_id, r->Ok_0),
    {
        reentrancy_guard::enter(self)?;
        let result = coordinator::distribute_transaction_inner(self, transaction_id);
        reentrancy_guard::exit(self);
        result
    }

    /// The split of `sale_price` for a listing by `creator` under the
    /// engine's platform rate, with no rate for creator or seller.
    pub fn calculate_royalties(&self, creator: Address, nft_address: Address, token_id: u64, sale_price: i128) -> (r:
        Result<RoyaltyDistribution, SettlementError>)
        ensures
            self@.fee_config is None || self@.default_currency is None ==> r is Err && r->Err_0
                == SettlementError::NotInitialized,
            self@.fee_config is Some && self@.default_currency is Some && !split_fits(
                sale_price as int,
                0,
                0,
                self@.fee_config->0.platform_fee_bps as int,
            ) ==> r is Err && r->Err_0 == SettlementError::Overflow,
            self@.fee_config is Some && self@.default_currency is Some && split_fits(
                sale_price as int,
                0,
                0,
                self@.fee_config->0.platform_fee_bps as int,
            ) ==> r is Ok && r->Ok_0@ == royalty_descriptor(
                sale_price,
                creator,
                creator,
                0,
                0,
                self@.fee_config->0.platform_fee_bps,
            ),
    {
        let platform_bps = match &self.fee_config {
            Some(config) => config.platform_fee_bps,
            None => { return Err(SettlementError::NotInitialized); },
        };
        let currency = match self.default_currency {
            Some(c) => c,
            None => { return Err(SettlementError::NotInitialized); },
        };
        let sale = SaleTransaction {
            transaction_id: 0,
            seller: creator,
            buyer: None,
            nft_address: creator,
            token_id,
            price: sale_price,
            currency,
            state: TransactionState::Pending,
            created_at: 0,
            expires_at: 0,
            escrow_address: creator,
            royalty_info: RoyaltyDistribution {
                creator_address: creator,
                creator_percentage: 0,
                seller_percentage: 0,
                platform_percentage: platform_bps,
                total_amount: sale_price,
                amounts: Vec::new(),
            },
            platform_fee: 0,
        };
        royalty_distributor::calculate_royalties(&sale, &creator, 0, 0, platform_bps)
    }

    /// Opens a dispute that the engine's fee recipient alone arbitrates, with
    /// one vote; see `dispute_resolution::initiate_dispute`.
    pub fn initiate_dispute(
        &mut self,
        transaction_id: u64,
        initiator: Address,
        reason: String,
        evidence_uri: Option<String>,
        now: u64,
    ) -> (r: Result<u64, SettlementError>)
        ensures
            old(self)@.fee_config is None ==> r == Err::<u64, SettlementError>(SettlementError::NotInitialized)
                && final(self)@ == old(self)@,
            old(self)@.fee_config is Some ==> r == initiate_outcome(
                old(self)@,
                transaction_id,
                initiator,
                seq![old(self)@.fee_config->0.fee_recipient],
                1,
            ),
            r is Err ==> final(self)@ == old(self)@,
            r is Ok ==> final(self)@ == (EngineView {
                counters: Some(Counters { dispute: r->Ok_0, ..old(self)@.counters->0 }),
                disputes: old(self)@.disputes.insert(
                    r->Ok_0,
                    dispute_resolution::opened_dispute(
                        r->Ok_0,
                        transaction_id,
                        initiator,
                        reason@,
                        types::text_of(evidence_uri),
                        seq![old(self)@.fee_config->0.fee_recipient],
                        1,
                        now,
                    ),
                ),
                ..with_transaction_state(old(self)@, transaction_id, TransactionState::Disputed)
            }),
    {
        let fee_recipient = match &self.fee_config {
            Some(config) => config.fee_recipient,
            None => { return Err(SettlementError::NotInitialized); },
        };
        let mut arbitrators: Vec<Address> = Vec::new();
        arbitrators.push(fee_recipient);
        assert(arbitrators@ =~= seq![fee_recipient]);
        let dispute = dispute_resolution::initiate_dispute(
            self,
            transaction_id,
            initiator,
            reason,
            evidence_uri,
            arbitrators,
            1,
            now,
        )?;
        Ok(dispute.dispute_id)
    }

    /// Casts an arbitrator's vote under the engine's lock; see
    /// `dispute_resolution::vote_on_dispute`.
    pub fn vote_on_dispute(&mut self, dispute_id: u64, voter: Address, vote: bool, now: u64) -> (r: Result<
        (),
        SettlementError,
    >)
        ensures
            r == guarded(old(self)@, vote_outcome(old(self)@, dispute_id, voter, vote)),
            r is Err ==> final(self)@ == old(self)@,
            r is Ok ==> final(self)@ == engine_after_vote(old(self)@, dispute_id, voter, vote, now),
    {
        reentrancy_guard::enter(self)?;
        let result = dispute_resolution::vote_on_dispute(self, dispute_id, voter, vote, now);
        reentrancy_guard::exit(self);
        match result {
            Ok(_) => Ok(()),
            Err(e) => Err(e),
        }
    }

    /// Replaces the fee rules of an initialized engine, on its administrator's
    /// word and on nobody else's.
    pub fn update_fee_config(&mut self, caller: Address, new_config: FeeConfig) -> (r: Result<(), SettlementError>)
        ensures
            r == update_fee_config_outcome(old(self)@, caller, new_config@),
            r is Err ==> final(self)@ == old(self)@,
            r is Ok ==> final(self)@ == (EngineView { fee_config: Some(new_config@), ..old(self)@ }),
    {
        match self.admin {
            None => { return Err(SettlementError::NotInitialized); },
            Some(admin) => {
                if caller != admin {
                    return Err(SettlementError::Unauthorized);
                }
            },
        }
        validate_fee_config(&new_config)?;
        self.fee_config = Some(new_config);
        Ok(())
    }

    /// Pays gathered fees out to the configured recipient, on the recipient's
    /// own word and on nobody else's, and never more than was gathered in that
    /// currency. The engine's lock is held throughout.
    pub fn withdraw_platform_fees(&mut self, caller: Address, asset: Asset, amount: i128) -> (r: Result<
        (),
        SettlementError,
    >)
        ensures
            r == guarded(old(self)@, withdraw_outcome(old(self)@, caller, asset, amount)),
            r is Err ==> final(self)@ == old(self)@,
            r is Ok ==> final(self)@ == (EngineView {
                platform_fees: fees_with(
                    old(self)@.platform_fees,
                    asset,
                    (fee_held(old(self)@.platform_fees, asset) - amount) as i128,
                ),
                escrow: old(self)@.escrow.push(
                    Movement::FundsOut { asset, to: old(self)@.fee_config->0.fee_recipient, amount },
                ),
                ..old(self)@
            }),
    {
        reentrancy_guard::enter(self)?;
        let result = self.withdraw_platform_fees_inner(caller, asset, amount);
        reentrancy_guard::exit(self);
        result
    }

    fn withdraw_platform_fees_inner(&mut self, caller: Address, asset: Asset, amount: i128) -> (r: Result<
        (),
        SettlementError,
    >)
        ensures
            r == withdraw_outcome(old(self)@, caller, asset, amount),
            r is Err ==> final(self)@ == old(self)@,
            r is Ok ==> final(self)@ == (EngineView {
                platform_fees: fees_with(
                    old(self)@.platform_fees,
                    asset,
                    (fee_held(old(self)@.platform_fees, asset) - amount) as i128,
                ),
                escrow: old(self)@.escrow.push(
                    Movement::FundsOut { asset, to: old(self)@.fee_config->0.fee_recipient, amount },
                ),
                ..old(self)@
            }),
    {
        let fee_recipient = match &self.fee_config {
            Some(config) => config.fee_recipient,
            None => { return Err(SettlementError::NotInitialized); },
        };
        if caller != fee_recipient {
            return Err(SettlementError::Unauthorized);
        }
        if amount <= 0 {
            return Err(SettlementError::InvalidAmount);
        }
        let place = find_fee(&self.platform_fees, &asset);
        let available = if place < self.platform_fees.len() { self.platform_fees[place].amount } else { 0 };
        if amount > available {
            return Err(SettlementError::InvalidAmount);
        }
        store_fee(&mut self.platform_fees, place, &asset, available - amount);
        let _ = transfer_out(&mut self.escrow, &asset, &fee_recipient, amount);
        Ok(())
    }

    /// Cancels the pending transaction under `transaction_id` on its seller's
    /// word, and hands back what escrow holds for it. A sale under that
    /// identifier is looked at before an auction. The engine's lock is held
    /// throughout.
    pub fn cancel_transaction(&mut self, transaction_id: u64, caller: Address) -> (r: Result<(), SettlementError>)
        ensures
            r == guarded(old(self)@, cancel_outcome(old(self)@, transaction_id, caller)),
            r is Err ==> final(self)@ == old(self)@,
            r is Ok ==> final(self)@ == engine_after_cancel(old(self)@, transaction_id),
    {
        reentrancy_guard::enter(self)?;
        let result = self.cancel_transaction_inner(transaction_id, caller);
        reentrancy_guard::exit(self);
        result
    }

    fn cancel_transaction_inner(&mut self, transaction_id: u64, caller: Address) -> (r: Result<(), SettlementError>)
        ensures
            r == cancel_outcome(old(self)@, transaction_id, caller),
            r is Err ==> final(self)@ == old(self)@,
            r is Ok ==> final(self)@ == engine_after_cancel(old(self)@, transaction_id),
    {
        if self.sales.contains_key(&transaction_id) {
            let _ = settlement_core::cancel_sale(self, transaction_id, caller)?;
            assert(self@.escrow =~= old(self)@.escrow + dispute_resolution::resolution_movements(
                old(self)@,
                transaction_id,
            ));
            return Ok(());
        }
        if self.auctions.contains_key(&transaction_id) {
            let _ = settlement_core::cancel_auction(self, transaction_id, caller)?;
            return Ok(());
        }
        Err(SettlementError::NotFound)
    }

    /// Hands back what escrow holds for a transaction, whatever its state, on
    /// the administrator's word and on nobody else's: the asset to the seller and, for an auction,
    /// the highest bid to its bidder. The record itself is left as it is. The
    /// engine's lock is held throughout.
    pub fn emergency_withdraw(&mut self, caller: Address, transaction_id: u64, reason: EmergencyWithdrawalReason) -> (r:
        Result<(), SettlementError>)
        ensures
            r == guarded(old(self)@, emergency_outcome(old(self)@, caller, transaction_id)),
            r is Err ==> final(self)@ == old(self)@,
            r is Ok ==> final(self)@ == (EngineView {
                escrow: old(self)@.escrow + dispute_resolution::resolution_movements(old(self)@, transaction_id),
                ..old(self)@
            }),
    {
        reentrancy_guard::enter(self)?;
        let result = self.emergency_withdraw_inner(caller, transaction_id, reason);
        reentrancy_guard::exit(self);
        result
    }

    fn emergency_withdraw_inner(
        &mut self,
        caller: Address,
        transaction_id: u64,
        _reason: EmergencyWithdrawalReason,
    ) -> (r: Result<(), SettlementError>)
        ensures
            r == emergency_outcome(old(self)@, caller, transaction_id),
            r is Err ==> final(self)@ == old(self)@,
            r is Ok ==> final(self)@ == (EngineView {
                escrow: old(self)@.escrow + dispute_resolution::resolution_movements(old(self)@, transaction_id),
                ..old(self)@
            }),
    {
        match self.admin {
            None => { return Err(SettlementError::NotInitialized); },
            Some(admin) => {
                if caller != admin {
                    return Err(SettlementError::Unauthorized);
                }
            },
        }
        if let Some(sale) = self.sales.get(&transaction_id) {
            let nft_address = sale.nft_address;
            let token_id = sale.token_id;
            let seller = sale.seller;
            release_asset(&mut self.escrow, &nft_address, token_id, &seller);
            assert(self@.escrow =~= old(self)@.escrow + dispute_resolution::resolution_movements(
                old(self)@,
                transaction_id,
            ));
            return Ok(());
        }
        let auction = match self.auctions.get(&transaction_id) {
            Some(a) => a.clone(),
            None => { return Err(SettlementError::NotFound); },
        };
        unwind_auction(self, &auction);
        Ok(())
    }
}

} // verus!
