use vstd::prelude::*;
use crate::error::SettlementError;
use crate::types::Counters;
use crate::{EngineView, MarketplaceSettlement};

verus! {

/// What the next identifier of a category is, given the last one handed out.
pub open spec fn next_id(counters: Option<Counters>, last: spec_fn(Counters) -> u64) -> Result<u64, SettlementError> {
    match counters {
        None => Err(SettlementError::NotInitialized),
        Some(c) => if last(c) == u64::MAX {
            Err(SettlementError::Overflow)
        } else {
            Ok((last(c) + 1) as u64)
        },
    }
}

/// An identifier that is handed out lies above every identifier handed out
/// before it in its category: none is ever handed out twice.
pub proof fn lemma_next_id_is_fresh(counters: Counters, last: spec_fn(Counters) -> u64)
    requires
        next_id(Some(counters), last) is Ok,
    ensures
        next_id(Some(counters), last)->Ok_0 == last(counters) + 1,
        next_id(Some(counters), last)->Ok_0 > last(counters),
{
}

/// Hands out the next sale identifier: one more than the last, which is never
/// handed out again.
pub fn next_sale_id(engine: &mut MarketplaceSettlement) -> (r: Result<u64, SettlementError>)
    ensures
        r == next_id(old(engine)@.counters, |c: Counters| c.sale),
        r is Err ==> final(engine)@ == old(engine)@,
        r is Ok ==> final(engine)@ == (EngineView {
            counters: Some(Counters { sale: r->Ok_0, ..old(engine)@.counters->0 }),
            ..old(engine)@
        }),
{
    let mut counters = match engine.counters {
        Some(c) => c,
        None => { return Err(SettlementError::NotInitialized); },
    };
    if counters.sale == u64::MAX {
        return Err(SettlementError::Overflow);
    }
    counters.sale = counters.sale + 1;
    engine.counters = Some(counters);
    Ok(counters.sale)
}

/// Hands out the next auction identifier: one more than the last, which is
/// never handed out again.
pub fn next_auction_id(engine: &mut MarketplaceSettlement) -> (r: Result<u64, SettlementError>)
    ensures
        r == next_id(old(engine)@.counters, |c: Counters| c.auction),
        r is Err ==> final(engine)@ == old(engine)@,
        r is Ok ==> final(engine)@ == (EngineView {
            counters: Some(Counters { auction: r->Ok_0, ..old(engine)@.counters->0 }),
            ..old(engine)@
        }),
{
    let mut counters = match engine.counters {
        Some(c) => c,
        None => { return Err(SettlementError::NotInitialized); },
    };
    if counters.auction == u64::MAX {
        return Err(SettlementError::Overflow);
    }
    counters.auction = counters.auction + 1;
    engine.counters = Some(counters);
    Ok(counters.auction)
}

/// Hands out the next dispute identifier: one more than the last, which is
/// never handed out again.
pub fn next_dispute_id(engine: &mut MarketplaceSettlement) -> (r: Result<u64, SettlementError>)
    ensures
        r == next_id(old(engine)@.counters, |c: Counters| c.dispute),
        r is Err ==> final(engine)@ == old(engine)@,
        r is Ok ==> final(engine)@ == (EngineView {
            counters: Some(Counters { dispute: r->Ok_0, ..old(engine)@.counters->0 }),
            ..old(engine)@
        }),
{
    let mut counters = match engine.counters {
        Some(c) => c,
        None => { return Err(SettlementError::NotInitialized); },
    };
    if counters.dispute == u64::MAX {
        return Err(SettlementError::Overflow);
    }
    counters.dispute = counters.dispute + 1;
    engine.counters = Some(counters);
    Ok(counters.dispute)
}

} // verus!
