use vstd::prelude::*;
use crate::error::SettlementError;
use crate::types::Dispute;
use crate::{EngineView, MarketplaceSettlement};

verus! {

broadcast use vstd::std_specs::hash::group_hash_axioms;

/// A copy of the dispute kept under an identifier, or `NotFound`.
pub fn get_dispute(engine: &MarketplaceSettlement, dispute_id: u64) -> (r: Result<Dispute, SettlementError>)
    ensures
        match r {
            Ok(found) => engine@.disputes.contains_key(dispute_id) && found@ == engine@.disputes[dispute_id],
            Err(e) => e == SettlementError::NotFound && !engine@.disputes.contains_key(dispute_id),
        },
{
    match engine.disputes.get(&dispute_id) {
        Some(found) => Ok(found.clone()),
        None => Err(SettlementError::NotFound),
    }
}

/// Keeps a copy of the dispute under its own identifier, in place of any that was
/// kept there.
pub fn set_dispute(engine: &mut MarketplaceSettlement, dispute: &Dispute)
    ensures
        final(engine)@ == (EngineView { disputes: old(engine)@.disputes.insert(dispute.dispute_id, dispute@), ..old(engine)@ }),
{
    engine.disputes.insert(dispute.dispute_id, dispute.clone());
    assert(engine@.disputes =~= old(engine)@.disputes.insert(dispute.dispute_id, dispute@));
}

} // verus!
