use vstd::prelude::*;
use crate::error::SettlementError;
use crate::escrow_manager::{transfer_out, Movement};
use crate::fee_manager::{
    apply_dynamic_discount, best_discount, discount_fits, discounted_fee, fee_held, fees_with,
    find_fee, platform_fee, store_fee, take_platform_fee,
};
use crate::types::{
    Address, DistributionResult, FeeConfig, FeeConfigView, Payout, RoyaltyDistribution,
    RoyaltyDistributionView, SaleTransaction, SaleView,
};
use crate::utils::math_utils::{bps_share, checked_add, checked_sub, fits_i128, mul_bps};
use crate::{EngineView, MarketplaceSettlement};

verus! {

broadcast use vstd::std_specs::hash::group_hash_axioms;

/// The three parts of a price.
pub struct RoyaltySplit {
    pub creator_amount: int,
    pub platform_amount: int,
    pub seller_amount: int,
}

/// The split of `price`: the creator's and the platform's shares by their
/// rates, and for the seller either the share of a rate of their own or, when
/// that rate is zero, all that the other two leave.
pub open spec fn royalty_split(price: int, creator_bps: int, seller_bps: int, platform_bps: int) -> RoyaltySplit {
    let creator_amount = bps_share(price, creator_bps);
    let platform_amount = bps_share(price, platform_bps);
    RoyaltySplit {
        creator_amount,
        platform_amount,
        seller_amount: if seller_bps > 0 {
            bps_share(price, seller_bps)
        } else {
            price - creator_amount - platform_amount
        },
    }
}

/// Whether every step of the split stays within `i128`.
pub open spec fn split_fits(price: int, creator_bps: int, seller_bps: int, platform_bps: int) -> bool {
    &&& fits_i128(price * creator_bps)
    &&& fits_i128(price * platform_bps)
    &&& fits_i128(price - bps_share(price, creator_bps))
    &&& fits_i128(price - bps_share(price, creator_bps) - bps_share(price, platform_bps))
    &&& seller_bps > 0 ==> fits_i128(price * seller_bps)
}

/// Where the seller has no rate of their own, the three parts add up to the
/// price exactly: the seller takes the rounding remainder.
pub proof fn lemma_remainder_rule_conserves(price: int, creator_bps: int, platform_bps: int)
    ensures
        ({
            let split = royalty_split(price, creator_bps, 0, platform_bps);
            split.creator_amount + split.seller_amount + split.platform_amount == price
        }),
{
}

/// The descriptor of a split: the creator's payout first, the seller's second.
pub open spec fn royalty_descriptor(
    price: i128,
    seller: Address,
    creator: Address,
    creator_bps: u32,
    seller_bps: u32,
    platform_bps: u32,
) -> RoyaltyDistributionView {
    let split = royalty_split(price as int, creator_bps as int, seller_bps as int, platform_bps as int);
    RoyaltyDistributionView {
        creator_address: creator,
        creator_percentage: creator_bps,
        seller_percentage: seller_bps,
        platform_percentage: platform_bps,
        total_amount: price,
        amounts: seq![
            Payout { payee: creator, amount: split.creator_amount as i128 },
            Payout { payee: seller, amount: split.seller_amount as i128 },
        ],
    }
}

/// Splits a sale's price among creator, seller and platform.
pub fn calculate_royalties(
    sale: &SaleTransaction,
    creator: &Address,
    creator_bps: u32,
    seller_bps: u32,
    platform_bps: u32,
) -> (r: Result<RoyaltyDistribution, SettlementError>)
    ensures
        split_fits(sale.price as int, creator_bps as int, seller_bps as int, platform_bps as int) ==> r is Ok
            && r->Ok_0@ == royalty_descriptor(sale.price, sale.seller, *creator, creator_bps, seller_bps, platform_bps) && fits_i128(
            royalty_split(
                sale.price as int,
                creator_bps as int,
                seller_bps as int,
                platform_bps as int,
            ).creator_amount,
        ) && fits_i128(
            royalty_split(
                sale.price as int,
                creator_bps as int,
                seller_bps as int,
                platform_bps as int,
            ).seller_amount,
        ),
        !split_fits(sale.price as int, creator_bps as int, seller_bps as int, platform_bps as int) ==> r is Err
            && r->Err_0 == SettlementError::Overflow,
{
    let creator_amount = mul_bps(sale.price, creator_bps)?;
    let platform_amount = mul_bps(sale.price, platform_bps)?;
    let mut remaining = checked_sub(sale.price, creator_amount)?;
    remaining = checked_sub(remaining, platform_amount)?;
    let seller_amount = if seller_bps > 0 {
        mul_bps(sale.price, seller_bps)?
    } else {
        remaining
    };
    let mut amounts: Vec<Payout> = Vec::new();
    amounts.push(Payout { payee: *creator, amount: creator_amount });
    amounts.push(Payout { payee: sale.seller, amount: seller_amount });
    let r = RoyaltyDistribution {
        creator_address: *creator,
        creator_percentage: creator_bps,
        seller_percentage: seller_bps,
        platform_percentage: platform_bps,
        total_amount: sale.price,
        amounts,
    };
    assert(r@.amounts =~= royalty_descriptor(sale.price, sale.seller, *creator, creator_bps, seller_bps, platform_bps).amounts);
    Ok(r)
}

/// Whether `address` is on the list of exempt addresses.
pub fn is_vip(vips: &Vec<Address>, address: &Address) -> (r: bool)
    ensures
        r == vips@.contains(*address),
{
    let mut i: usize = 0;
    while i < vips.len()
        invariant
            i <= vips.len(),
            forall|j: int| 0 <= j < i ==> vips@[j] != *address,
        decreases vips.len() - i,
    {
        if vips[i] == *address {
            return true;
        }
        i = i + 1;
    }
    false
}

/// Whether the seller or the counterparty of a sale is exempt from fees.
pub open spec fn is_exempt(config: FeeConfigView, sale: SaleView) -> bool {
    config.vip_exemptions.contains(sale.seller) || (sale.buyer is Some && config.vip_exemptions.contains(
        sale.buyer->0,
    ))
}

/// Whether the fee of a sale can be computed within `i128`.
pub open spec fn fee_fits(config: FeeConfigView, sale: SaleView) -> bool {
    &&& fits_i128(sale.price * config.platform_fee_bps)
    &&& config.dynamic_fee_enabled ==> discount_fits(
        platform_fee(config, sale.price as int),
        best_discount(config.volume_discounts, sale.price as int),
    )
}

/// The fee charged on a sale: nothing where a party is exempt, else the
/// platform fee, less the volume discount where discounts are enabled.
pub open spec fn charged_fee(config: FeeConfigView, sale: SaleView) -> int {
    if is_exempt(config, sale) {
        0
    } else if config.dynamic_fee_enabled {
        discounted_fee(platform_fee(config, sale.price as int), best_discount(config.volume_discounts, sale.price as int))
    } else {
        platform_fee(config, sale.price as int)
    }
}

/// The split of a sale by its own royalty rates and the configured platform
/// rate.
pub open spec fn sale_split(config: FeeConfigView, sale: SaleView) -> RoyaltySplit {
    royalty_split(
        sale.price as int,
        sale.royalty_info.creator_percentage as int,
        sale.royalty_info.seller_percentage as int,
        config.platform_fee_bps as int,
    )
}

/// What the seller is paid: their part of the split and, with it, whatever
/// lies between the platform's configured share and the fee that is charged.
pub open spec fn seller_payout(config: FeeConfigView, sale: SaleView) -> int {
    let split = sale_split(config, sale);
    split.seller_amount + (split.platform_amount - charged_fee(config, sale))
}

/// Whether the whole distribution of a sale can be computed within `i128`.
pub open spec fn distribution_fits(config: FeeConfigView, sale: SaleView) -> bool {
    let split = sale_split(config, sale);
    &&& fee_fits(config, sale)
    &&& split_fits(
        sale.price as int,
        sale.royalty_info.creator_percentage as int,
        sale.royalty_info.seller_percentage as int,
        config.platform_fee_bps as int,
    )
    &&& fits_i128(split.platform_amount - charged_fee(config, sale))
    &&& fits_i128(seller_payout(config, sale))
    &&& fits_i128(split.creator_amount + seller_payout(config, sale))
    &&& fits_i128(sale.price - charged_fee(config, sale))
}

/// The distribution that a sale is owed under `config`.
///
/// The split goes by the configured platform rate, while the fee charged may
/// have been moved away from that rate by a bound, a discount or an
/// exemption. The policy is fixed: the seller always absorbs the difference,
/// to their gain or loss. The payouts must then add up to the price less the
/// fee, which they do whenever the seller has no rate of their own; where
/// they do not, and where nothing is left to pay the seller, the distribution
/// is refused with `InvalidAmount`.
pub open spec fn planned_distribution(config: FeeConfigView, sale: SaleView) -> Result<
    DistributionResult,
    SettlementError,
> {
    let split = sale_split(config, sale);
    let fee = charged_fee(config, sale);
    let seller = seller_payout(config, sale);
    if !distribution_fits(config, sale) {
        Err(SettlementError::Overflow)
    } else if split.creator_amount + seller != sale.price - fee || seller <= 0 {
        Err(SettlementError::InvalidAmount)
    } else {
        Ok(
            DistributionResult {
                total_amount: sale.price,
                platform_fee: fee as i128,
                creator_amount: split.creator_amount as i128,
                seller_amount: seller as i128,
            },
        )
    }
}

/// Every distribution that is planned pays out the price less the fee, no more
/// and no less, whatever the rates.
pub proof fn lemma_distribution_conserves(config: FeeConfigView, sale: SaleView)
    requires
        planned_distribution(config, sale) is Ok,
    ensures
        ({
            let d = planned_distribution(config, sale)->Ok_0;
            &&& d.total_amount == sale.price
            &&& d.platform_fee == charged_fee(config, sale)
            &&& d.creator_amount + d.seller_amount == d.total_amount - d.platform_fee
            &&& d.seller_amount > 0
        }),
{
}

/// Where the seller has no rate of their own, the payouts add up whatever the
/// other rates and whatever fee is charged: such a sale is refused only for
/// an overflow or for leaving the seller nothing.
pub proof fn lemma_remainder_sale_settles(config: FeeConfigView, sale: SaleView)
    requires
        sale.royalty_info.seller_percentage == 0,
        distribution_fits(config, sale),
        seller_payout(config, sale) > 0,
    ensures
        planned_distribution(config, sale) is Ok,
        planned_distribution(config, sale)->Ok_0.seller_amount == sale.price - sale_split(
            config,
            sale,
        ).creator_amount - charged_fee(config, sale),
{
}

/// Computes the distribution of a sale without moving anything.
pub fn plan_distribution(config: &FeeConfig, sale: &SaleTransaction) -> (r: Result<DistributionResult, SettlementError>)
    ensures
        r == planned_distribution(config@, sale@),
{
    let mut platform_fee = take_platform_fee(config, sale)?;
    if config.dynamic_fee_enabled {
        platform_fee = apply_dynamic_discount(sale, platform_fee, &config.volume_discounts)?;
    }
    let mut vip_exempt = is_vip(&config.vip_exemptions, &sale.seller);
    if !vip_exempt {
        if let Some(buyer) = sale.buyer {
            vip_exempt = is_vip(&config.vip_exemptions, &buyer);
        }
    }
    if vip_exempt {
        platform_fee = 0;
    }
    let creator_address = sale.royalty_info.creator_address;
    let distribution = calculate_royalties(
        sale,
        &creator_address,
        sale.royalty_info.creator_percentage,
        sale.royalty_info.seller_percentage,
        config.platform_fee_bps,
    )?;
    let creator_amount = distribution.amounts[0].amount;
    let platform_amount = mul_bps(sale.price, config.platform_fee_bps)?;
    let absorbed = checked_sub(platform_amount, platform_fee)?;
    let seller_amount = checked_add(distribution.amounts[1].amount, absorbed)?;
    let total_out = checked_add(creator_amount, seller_amount)?;
    let expected_out = checked_sub(sale.price, platform_fee)?;
    if total_out != expected_out {
        return Err(SettlementError::InvalidAmount);
    }
    if seller_amount <= 0 {
        return Err(SettlementError::InvalidAmount);
    }
    Ok(DistributionResult { total_amount: sale.price, platform_fee, creator_amount, seller_amount })
}

/// The payments that a distribution orders: the creator's where it is
/// positive, then the seller's.
pub open spec fn payout_movements(sale: SaleView, d: DistributionResult) -> Seq<Movement> {
    let to_seller = Movement::FundsOut { asset: sale.currency, to: sale.seller, amount: d.seller_amount };
    if d.creator_amount > 0 {
        seq![
            Movement::FundsOut {
                asset: sale.currency,
                to: sale.royalty_info.creator_address,
                amount: d.creator_amount,
            },
            to_seller,
        ]
    } else {
        seq![to_seller]
    }
}

/// The gathered fees after `fee` more was charged in `currency`.
pub open spec fn fees_after_charge(fees: Seq<crate::types::FeeBalance>, currency: Address, fee: i128) -> Seq<
    crate::types::FeeBalance,
> {
    if fee > 0 {
        fees_with(fees, currency, (fee_held(fees, currency) + fee) as i128)
    } else {
        fees
    }
}

/// What `distribute_funds` returns for a sale on an engine.
pub open spec fn distribution_outcome(engine: EngineView, sale: SaleView) -> Result<DistributionResult, SettlementError> {
    match engine.fee_config {
        None => Err(SettlementError::NotInitialized),
        Some(config) => match planned_distribution(config, sale) {
            Err(e) => Err(e),
            Ok(d) => if d.platform_fee > 0 && !fits_i128(fee_held(engine.platform_fees, sale.currency) + d.platform_fee) {
                Err(SettlementError::Overflow)
            } else {
                Ok(d)
            },
        },
    }
}

/// The engine after the distribution `d` of a sale was paid out.
pub open spec fn engine_after_distribution(engine: EngineView, sale: SaleView, d: DistributionResult) -> EngineView {
    EngineView {
        escrow: engine.escrow + payout_movements(sale, d),
        platform_fees: fees_after_charge(engine.platform_fees, sale.currency, d.platform_fee),
        ..engine
    }
}

/// Computes the distribution of a sale on an engine, gathered fees included,
/// without moving anything.
pub fn check_distribution(engine: &MarketplaceSettlement, sale: &SaleTransaction) -> (r: Result<
    DistributionResult,
    SettlementError,
>)
    ensures
        r == distribution_outcome(engine@, sale@),
{
    let d = match &engine.fee_config {
        None => { return Err(SettlementError::NotInitialized); },
        Some(config) => plan_distribution(config, sale)?,
    };
    if d.platform_fee > 0 {
        let place = find_fee(&engine.platform_fees, &sale.currency);
        let current = if place < engine.platform_fees.len() { engine.platform_fees[place].amount } else { 0 };
        let _ = checked_add(current, d.platform_fee)?;
    }
    Ok(d)
}

/// Pays out a distribution that `check_distribution` has computed.
pub(crate) fn pay_distribution(engine: &mut MarketplaceSettlement, sale: &SaleTransaction, d: &DistributionResult)
    requires
        d.seller_amount > 0,
        d.platform_fee > 0 ==> fits_i128(fee_held(old(engine)@.platform_fees, sale.currency) + d.platform_fee),
    ensures
        final(engine)@ == engine_after_distribution(old(engine)@, sale@, *d),
{
    let creator_address = sale.royalty_info.creator_address;
    if d.creator_amount > 0 {
        let _ = transfer_out(&mut engine.escrow, &sale.currency, &creator_address, d.creator_amount);
    }
    let _ = transfer_out(&mut engine.escrow, &sale.currency, &sale.seller, d.seller_amount);
    if d.platform_fee > 0 {
        let place = find_fee(&engine.platform_fees, &sale.currency);
        let current = if place < engine.platform_fees.len() { engine.platform_fees[place].amount } else { 0 };
        store_fee(&mut engine.platform_fees, place, &sale.currency, current + d.platform_fee);
    }
    assert(engine@.escrow =~= old(engine)@.escrow + payout_movements(sale@, *d));
}

/// Pays out a sale: the creator where their part is positive, the seller
/// always, and the fee to the engine's gathered fees. Nothing is moved unless
/// all of it can be.
pub fn distribute_funds(engine: &mut MarketplaceSettlement, sale: &SaleTransaction) -> (r: Result<
    DistributionResult,
    SettlementError,
>)
    ensures
        r == distribution_outcome(old(engine)@, sale@),
        r is Err ==> final(engine)@ == old(engine)@,
        r is Ok ==> final(engine)@ == engine_after_distribution(old(engine)@, sale@, r->Ok_0),
{
    let d = check_distribution(engine, sale)?;
    pay_distribution(engine, sale, &d);
    Ok(d)
}

} // verus!
