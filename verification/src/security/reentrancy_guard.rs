use vstd::prelude::*;
use crate::error::SettlementError;
use crate::{EngineView, MarketplaceSettlement};

verus! {

/// Takes the engine's lock, or refuses with `InvalidState` while another
/// fund-moving call holds it.
pub fn enter(engine: &mut MarketplaceSettlement) -> (r: Result<(), SettlementError>)
    ensures
        old(engine)@.locked ==> r == Err::<(), SettlementError>(SettlementError::InvalidState) && final(engine)@
            == old(engine)@,
        !old(engine)@.locked ==> r == Ok::<(), SettlementError>(()) && final(engine)@ == (EngineView {
            locked: true,
            ..old(engine)@
        }),
{
    if engine.locked {
        return Err(SettlementError::InvalidState);
    }
    engine.locked = true;
    Ok(())
}

/// Gives the lock back, whether or not it was held.
pub fn exit(engine: &mut MarketplaceSettlement)
    ensures
        final(engine)@ == (EngineView { locked: false, ..old(engine)@ }),
{
    engine.locked = false;
}

} // verus!
