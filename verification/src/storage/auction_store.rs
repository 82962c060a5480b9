use vstd::prelude::*;
use crate::error::SettlementError;
use crate::types::AuctionTransaction;
use crate::{EngineView, MarketplaceSettlement};

verus! {

broadcast use vstd::std_specs::hash::group_hash_axioms;

/// A copy of the auction kept under an identifier, or `NotFound`.
pub fn get_auction(engine: &MarketplaceSettlement, auction_id: u64) -> (r: Result<AuctionTransaction, SettlementError>)
    ensures
        match r {
            Ok(found) => engine@.auctions.contains_key(auction_id) && found@ == engine@.auctions[auction_id],
            Err(e) => e == SettlementError::NotFound && !engine@.auctions.contains_key(auction_id),
        },
{
    match engine.auctions.get(&auction_id) {
        Some(found) => Ok(found.clone()),
        None => Err(SettlementError::NotFound),
    }
}

/// Keeps a copy of the auction under its own identifier, in place of any that was
/// kept there.
pub fn set_auction(engine: &mut MarketplaceSettlement, auction: &AuctionTransaction)
    ensures
        final(engine)@ == (EngineView { auctions: old(engine)@.auctions.insert(auction.auction_id, auction@), ..old(engine)@ }),
{
    engine.auctions.insert(auction.auction_id, auction.clone());
    assert(engine@.auctions =~= old(engine)@.auctions.insert(auction.auction_id, auction@));
}

} // verus!
