use vstd::prelude::*;
use crate::error::SettlementError;
use crate::types::SaleTransaction;
use crate::{EngineView, MarketplaceSettlement};

verus! {

broadcast use vstd::std_specs::hash::group_hash_axioms;

/// A copy of the sale kept under an identifier, or `NotFound`.
pub fn get_sale(engine: &MarketplaceSettlement, transaction_id: u64) -> (r: Result<SaleTransaction, SettlementError>)
    ensures
        match r {
            Ok(found) => engine@.sales.contains_key(transaction_id) && found@ == engine@.sales[transaction_id],
            Err(e) => e == SettlementError::NotFound && !engine@.sales.contains_key(transaction_id),
        },
{
    match engine.sales.get(&transaction_id) {
        Some(found) => Ok(found.clone()),
        None => Err(SettlementError::NotFound),
    }
}

/// Keeps a copy of the sale under its own identifier, in place of any that was
/// kept there.
pub fn set_sale(engine: &mut MarketplaceSettlement, sale: &SaleTransaction)
    ensures
        final(engine)@ == (EngineView { sales: old(engine)@.sales.insert(sale.transaction_id, sale@), ..old(engine)@ }),
{
    engine.sales.insert(sale.transaction_id, sale.clone());
    assert(engine@.sales =~= old(engine)@.sales.insert(sale.transaction_id, sale@));
}

} // verus!
