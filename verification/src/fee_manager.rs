use vstd::prelude::*;
use crate::error::SettlementError;
use crate::types::{Asset, FeeBalance, FeeConfig, FeeConfigView, SaleTransaction, SaleView, VolumeTier};
use crate::utils::math_utils::{bps_share, checked_add, checked_sub, fits_i128, mul_bps};
use crate::{EngineView, MarketplaceSettlement};

verus! {

broadcast use vstd::std_specs::hash::group_hash_axioms;

/// A base fee raised to the minimum and, where a maximum is set, lowered to it.
pub open spec fn bounded_fee(base_fee: int, min_fee: int, max_fee: int) -> int {
    let raised = if base_fee < min_fee { min_fee } else { base_fee };
    if max_fee > 0 && raised > max_fee { max_fee } else { raised }
}

/// The platform fee on `price`: the configured share within its bounds, and
/// never more than the price itself.
pub open spec fn platform_fee(config: FeeConfigView, price: int) -> int {
    let fee = bounded_fee(
        bps_share(price, config.platform_fee_bps as int),
        config.minimum_fee as int,
        config.maximum_fee as int,
    );
    if fee > price { price } else { fee }
}

/// The largest discount among the tiers that `volume` reaches, zero when it
/// reaches none.
pub open spec fn best_discount(tiers: Seq<VolumeTier>, volume: int) -> int
    decreases tiers.len(),
{
    if tiers.len() == 0 {
        0
    } else {
        let rest = best_discount(tiers.drop_last(), volume);
        let tier = tiers.last();
        if volume >= tier.min_volume && tier.fee_discount_bps > rest {
            tier.fee_discount_bps as int
        } else {
            rest
        }
    }
}

/// A fee after a discount of `discount_bps` basis points.
pub open spec fn discounted_fee(base_fee: int, discount_bps: int) -> int {
    if discount_bps == 0 {
        base_fee
    } else {
        base_fee - bps_share(base_fee, discount_bps)
    }
}

/// `best_discount` is an upper bound of every tier reached, and is itself the
/// discount of a tier reached unless it is zero.
pub proof fn lemma_best_discount_is_largest(tiers: Seq<VolumeTier>, volume: int)
    ensures
        0 <= best_discount(tiers, volume) <= u32::MAX,
        forall|i: int|
            0 <= i < tiers.len() && volume >= tiers[i].min_volume ==> #[trigger] tiers[i].fee_discount_bps
                <= best_discount(tiers, volume),
        best_discount(tiers, volume) != 0 ==> exists|i: int|
            0 <= i < tiers.len() && volume >= tiers[i].min_volume && #[trigger] tiers[i].fee_discount_bps
                == best_discount(tiers, volume),
    decreases tiers.len(),
{
    if tiers.len() > 0 {
        let shorter = tiers.drop_last();
        lemma_best_discount_is_largest(shorter, volume);
        assert forall|i: int| 0 <= i < tiers.len() && volume >= tiers[i].min_volume implies #[trigger] tiers[i].fee_discount_bps
            <= best_discount(tiers, volume) by {
            if i < shorter.len() {
                assert(shorter[i] == tiers[i]);
            }
        }
        if best_discount(tiers, volume) != 0 {
            if best_discount(tiers, volume) == best_discount(shorter, volume) {
                let i = choose|i: int|
                    0 <= i < shorter.len() && volume >= shorter[i].min_volume && #[trigger] shorter[i].fee_discount_bps
                        == best_discount(shorter, volume);
                assert(tiers[i] == shorter[i]);
            } else {
                assert(tiers[tiers.len() - 1] == tiers.last());
            }
        }
    }
}

pub fn apply_fee_bounds(base_fee: i128, min_fee: i128, max_fee: i128) -> (fee: i128)
    ensures
        fee == bounded_fee(base_fee as int, min_fee as int, max_fee as int),
{
    let mut fee = base_fee;
    if fee < min_fee {
        fee = min_fee;
    }
    if max_fee > 0 && fee > max_fee {
        fee = max_fee;
    }
    fee
}

/// The platform fee on a sale's price, or `Overflow` when the product of
/// price and rate leaves the range of `i128`.
pub fn take_platform_fee(config: &FeeConfig, sale: &SaleTransaction) -> (r: Result<i128, SettlementError>)
    ensures
        fits_i128(sale.price * config.platform_fee_bps) ==> r == Ok::<i128, SettlementError>(
            platform_fee(config@, sale.price as int) as i128,
        ) && fits_i128(platform_fee(config@, sale.price as int)),
        !fits_i128(sale.price * config.platform_fee_bps) ==> r == Err::<i128, SettlementError>(
            SettlementError::Overflow,
        ),
{
    let base_fee = match mul_bps(sale.price, config.platform_fee_bps) {
        Ok(v) => v,
        Err(e) => { return Err(e); },
    };
    let fee = apply_fee_bounds(base_fee, config.minimum_fee, config.maximum_fee);
    if fee > sale.price {
        return Ok(sale.price);
    }
    Ok(fee)
}

/// The largest discount among the tiers that the volume reaches.
pub fn best_discount_bps(tiers: &Vec<VolumeTier>, volume: i128) -> (best: u32)
    ensures
        best == best_discount(tiers@, volume as int),
{
    let mut best: u32 = 0;
    let mut i: usize = 0;
    while i < tiers.len()
        invariant
            i <= tiers.len(),
            best == best_discount(tiers@.subrange(0, i as int), volume as int),
        decreases tiers.len() - i,
    {
        let tier = tiers[i];
        assert(tiers@.subrange(0, i + 1).drop_last() =~= tiers@.subrange(0, i as int));
        if volume >= tier.min_volume && tier.fee_discount_bps > best {
            best = tier.fee_discount_bps;
        }
        i = i + 1;
    }
    assert(tiers@.subrange(0, i as int) =~= tiers@);
    best
}

/// Whether a discounted fee can be computed within `i128`.
pub open spec fn discount_fits(base_fee: int, discount_bps: int) -> bool {
    discount_bps == 0 || (fits_i128(base_fee * discount_bps) && fits_i128(discounted_fee(base_fee, discount_bps)))
}

/// The fee after the best volume discount that the sale's price reaches. All
/// tiers are considered, not only the first that applies.
pub fn apply_dynamic_discount(sale: &SaleTransaction, base_fee: i128, tiers: &Vec<VolumeTier>) -> (r: Result<
    i128,
    SettlementError,
>)
    ensures
        discount_fits(base_fee as int, best_discount(tiers@, sale.price as int)) ==> r == Ok::<i128, SettlementError>(
            discounted_fee(base_fee as int, best_discount(tiers@, sale.price as int)) as i128,
        ),
        !discount_fits(base_fee as int, best_discount(tiers@, sale.price as int)) ==> r == Err::<i128, SettlementError>(
            SettlementError::Overflow,
        ),
{
    let best = best_discount_bps(tiers, sale.price);
    if best == 0 {
        return Ok(base_fee);
    }
    let discount = match mul_bps(base_fee, best) {
        Ok(v) => v,
        Err(e) => { return Err(e); },
    };
    checked_sub(base_fee, discount)
}

/// Whether `i` is the place of the first balance kept in `currency`, or the
/// length of `fees` when none is kept in it.
pub open spec fn is_fee_index(fees: Seq<FeeBalance>, currency: Asset, i: int) -> bool {
    &&& 0 <= i <= fees.len()
    &&& i < fees.len() ==> fees[i].currency == currency
    &&& forall|j: int| 0 <= j < i ==> (#[trigger] fees[j]).currency != currency
}

/// The place of the first balance kept in `currency`; the length of `fees`
/// when there is none.
pub open spec fn fee_index(fees: Seq<FeeBalance>, currency: Asset) -> int {
    choose|i: int| is_fee_index(fees, currency, i)
}

/// The fees gathered in `currency` and not yet withdrawn.
pub open spec fn fee_held(fees: Seq<FeeBalance>, currency: Asset) -> int {
    let i = fee_index(fees, currency);
    if i < fees.len() { fees[i].amount as int } else { 0 }
}

/// The balances after the one in `currency` is set to `amount`.
pub open spec fn fees_with(fees: Seq<FeeBalance>, currency: Asset, amount: i128) -> Seq<FeeBalance> {
    let i = fee_index(fees, currency);
    if i < fees.len() {
        fees.update(i, FeeBalance { currency, amount })
    } else {
        fees.push(FeeBalance { currency, amount })
    }
}

/// Every list of balances has exactly one first place for each currency.
pub proof fn lemma_fee_index(fees: Seq<FeeBalance>, currency: Asset)
    ensures
        is_fee_index(fees, currency, fee_index(fees, currency)),
        forall|i: int| is_fee_index(fees, currency, i) ==> i == fee_index(fees, currency),
    decreases fees.len(),
{
    if fees.len() == 0 {
        assert(is_fee_index(fees, currency, 0));
    } else {
        let shorter = fees.drop_last();
        lemma_fee_index(shorter, currency);
        let k = fee_index(shorter, currency);
        if k < shorter.len() {
            assert(fees[k] == shorter[k]);
            assert forall|j: int| 0 <= j < k implies (#[trigger] fees[j]).currency != currency by {
                assert(fees[j] == shorter[j]);
            }
            assert(is_fee_index(fees, currency, k));
        } else if fees.last().currency == currency {
            assert forall|j: int| 0 <= j < fees.len() - 1 implies (#[trigger] fees[j]).currency != currency by {
                assert(fees[j] == shorter[j]);
            }
            assert(is_fee_index(fees, currency, fees.len() - 1));
        } else {
            assert forall|j: int| 0 <= j < fees.len() implies (#[trigger] fees[j]).currency != currency by {
                if j < shorter.len() {
                    assert(fees[j] == shorter[j]);
                }
            }
            assert(is_fee_index(fees, currency, fees.len() as int));
        }
    }
    let chosen = fee_index(fees, currency);
    assert forall|i: int| is_fee_index(fees, currency, i) implies i == chosen by {
        if i < chosen {
            assert(fees[i].currency == currency);
        } else if chosen < i {
            assert(fees[chosen].currency == currency);
        }
    }
}

/// Setting the balance of one currency changes what is held in that currency
/// and in no other.
pub proof fn lemma_fees_with(fees: Seq<FeeBalance>, currency: Asset, amount: i128, other: Asset)
    ensures
        fee_held(fees_with(fees, currency, amount), other) == (if other == currency {
            amount as int
        } else {
            fee_held(fees, other)
        }),
{
    lemma_fee_index(fees, currency);
    lemma_fee_index(fees, other);
    let after = fees_with(fees, currency, amount);
    lemma_fee_index(after, other);
    let i = fee_index(fees, currency);
    let k = fee_index(fees, other);
    if other == currency {
        assert(is_fee_index(after, other, i));
    } else if k < fees.len() {
        assert(is_fee_index(after, other, k));
    } else {
        assert(is_fee_index(after, other, after.len() as int));
    }
}

/// The place of the first balance kept in `currency`.
pub fn find_fee(fees: &Vec<FeeBalance>, currency: &Asset) -> (i: usize)
    ensures
        i == fee_index(fees@, *currency),
        i <= fees.len(),
{
    let mut i: usize = 0;
    while i < fees.len() && fees[i].currency != *currency
        invariant
            i <= fees.len(),
            forall|j: int| 0 <= j < i ==> (#[trigger] fees@[j]).currency != *currency,
        decreases fees.len() - i,
    {
        i = i + 1;
    }
    proof {
        assert(is_fee_index(fees@, *currency, i as int));
        lemma_fee_index(fees@, *currency);
    }
    i
}

/// The engine's fee rules, or `NotInitialized` while it has none.
pub fn get_fee_config(engine: &MarketplaceSettlement) -> (r: Result<FeeConfig, SettlementError>)
    ensures
        match r {
            Ok(config) => engine@.fee_config == Some(config@),
            Err(e) => e == SettlementError::NotInitialized && engine@.fee_config is None,
        },
{
    match &engine.fee_config {
        Some(config) => Ok(config.clone()),
        None => Err(SettlementError::NotInitialized),
    }
}

/// Replaces the engine's fee rules.
pub fn set_fee_config(engine: &mut MarketplaceSettlement, config: &FeeConfig)
    ensures
        final(engine)@ == (EngineView { fee_config: Some(config@), ..old(engine)@ }),
{
    engine.fee_config = Some(config.clone());
}

/// Adds a fee to what the engine has gathered in `asset`. An amount that is
/// not positive adds nothing; a balance that would leave `i128` is an
/// `Overflow` and leaves the engine as it was.
pub fn add_platform_fee(engine: &mut MarketplaceSettlement, asset: &Asset, amount: i128) -> (r: Result<
    (),
    SettlementError,
>)
    ensures
        amount <= 0 ==> r == Ok::<(), SettlementError>(()) && final(engine)@ == old(engine)@,
        amount > 0 && fits_i128(fee_held(old(engine)@.platform_fees, *asset) + amount) ==> r == Ok::<
            (),
            SettlementError,
        >(()) && final(engine)@ == (EngineView {
            platform_fees: fees_with(
                old(engine)@.platform_fees,
                *asset,
                (fee_held(old(engine)@.platform_fees, *asset) + amount) as i128,
            ),
            ..old(engine)@
        }),
        amount > 0 && !fits_i128(fee_held(old(engine)@.platform_fees, *asset) + amount) ==> r == Err::<
            (),
            SettlementError,
        >(SettlementError::Overflow) && final(engine)@ == old(engine)@,
{
    if amount <= 0 {
        return Ok(());
    }
    let i = find_fee(&engine.platform_fees, asset);
    let current = if i < engine.platform_fees.len() { engine.platform_fees[i].amount } else { 0 };
    let updated = match checked_add(current, amount) {
        Ok(v) => v,
        Err(e) => { return Err(e); },
    };
    store_fee(&mut engine.platform_fees, i, asset, updated);
    Ok(())
}

/// Writes the balance of `asset` at its place `i`.
pub(crate) fn store_fee(fees: &mut Vec<FeeBalance>, i: usize, asset: &Asset, amount: i128)
    requires
        i == fee_index(old(fees)@, *asset),
    ensures
        final(fees)@ == fees_with(old(fees)@, *asset, amount),
{
    proof {
        lemma_fee_index(fees@, *asset);
    }
    if i < fees.len() {
        fees[i] = FeeBalance { currency: *asset, amount };
    } else {
        fees.push(FeeBalance { currency: *asset, amount });
    }
}

/// Records the fee that was charged on a stored sale.
pub fn update_sale_platform_fee(engine: &mut MarketplaceSettlement, sale_id: u64, new_fee: i128) -> (r: Result<
    (),
    SettlementError,
>)
    ensures
        !old(engine)@.sales.contains_key(sale_id) ==> r == Err::<(), SettlementError>(SettlementError::NotFound)
            && final(engine)@ == old(engine)@,
        old(engine)@.sales.contains_key(sale_id) ==> r == Ok::<(), SettlementError>(()) && final(engine)@ == (EngineView {
            sales: old(engine)@.sales.insert(
                sale_id,
                SaleView { platform_fee: new_fee, ..old(engine)@.sales[sale_id] },
            ),
            ..old(engine)@
        }),
{
    match engine.sales.remove(&sale_id) {
        None => {
            assert(engine@.sales =~= old(engine)@.sales);
            Err(SettlementError::NotFound)
        },
        Some(mut sale) => {
            sale.platform_fee = new_fee;
            engine.sales.insert(sale_id, sale);
            assert(engine@.sales =~= old(engine)@.sales.insert(
                sale_id,
                SaleView { platform_fee: new_fee, ..old(engine)@.sales[sale_id] },
            ));
            Ok(())
        },
    }
}

} // verus!
