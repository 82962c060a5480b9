use vstd::prelude::*;
use crate::error::SettlementError;
use crate::types::{Address, Asset};

verus! {

/// One instruction of the escrow trail: funds or an asset entering or leaving
/// the engine's custody.
#[derive(Clone, Copy, Debug, PartialEq, Eq, Structural)]
pub enum Movement {
    FundsIn { asset: Asset, from: Address, amount: i128 },
    FundsOut { asset: Asset, to: Address, amount: i128 },
    AssetIn { nft_address: Address, token_id: u64, from: Address },
    AssetOut { nft_address: Address, token_id: u64, to: Address },
}

/// The custody trail of one engine: every movement it has ordered, oldest
/// first. The ledger keeps no balance and refuses nothing but empty amounts.
#[derive(Debug, PartialEq, Eq)]
pub struct EscrowLedger {
    pub movements: Vec<Movement>,
}

impl View for EscrowLedger {
    type V = Seq<Movement>;

    open spec fn view(&self) -> Seq<Movement> {
        self.movements@
    }
}

/// What one movement adds to the funds held in `asset`.
pub open spec fn flow_of(m: Movement, asset: Asset) -> int {
    match m {
        Movement::FundsIn { asset: a, amount, .. } => if a == asset { amount as int } else { 0 },
        Movement::FundsOut { asset: a, amount, .. } => if a == asset { -(amount as int) } else { 0 },
        _ => 0,
    }
}

/// The funds in `asset` that a trail leaves in custody: what came in less
/// what went out.
pub open spec fn net_funds(trail: Seq<Movement>, asset: Asset) -> int
    decreases trail.len(),
{
    if trail.len() == 0 {
        0
    } else {
        net_funds(trail.drop_last(), asset) + flow_of(trail.last(), asset)
    }
}

/// The custody of a trail followed by another is the sum of both.
pub proof fn lemma_net_funds_concat(first: Seq<Movement>, second: Seq<Movement>, asset: Asset)
    ensures
        net_funds(first + second, asset) == net_funds(first, asset) + net_funds(second, asset),
    decreases second.len(),
{
    if second.len() == 0 {
        assert(first + second =~= first);
    } else {
        assert((first + second).drop_last() =~= first + second.drop_last());
        assert((first + second).last() == second.last());
        lemma_net_funds_concat(first, second.drop_last(), asset);
    }
}

impl EscrowLedger {
    pub fn new() -> (r: Self)
        ensures
            r@ == Seq::<Movement>::empty(),
    {
        EscrowLedger { movements: Vec::new() }
    }
}

/// Takes `amount` of `asset` from `from` into custody.
pub fn transfer_in(ledger: &mut EscrowLedger, asset: &Asset, from: &Address, amount: i128) -> (r: Result<(), SettlementError>)
    ensures
        amount <= 0 ==> r == Err::<(), SettlementError>(SettlementError::InvalidAmount) && final(ledger)@ == old(ledger)@,
        amount > 0 ==> r == Ok::<(), SettlementError>(()) && final(ledger)@ == old(ledger)@.push(
            Movement::FundsIn { asset: *asset, from: *from, amount },
        ),
{
    if amount <= 0 {
        return Err(SettlementError::InvalidAmount);
    }
    ledger.movements.push(Movement::FundsIn { asset: *asset, from: *from, amount });
    Ok(())
}

/// Pays `amount` of `asset` out of custody to `to`.
pub fn transfer_out(ledger: &mut EscrowLedger, asset: &Asset, to: &Address, amount: i128) -> (r: Result<(), SettlementError>)
    ensures
        amount <= 0 ==> r == Err::<(), SettlementError>(SettlementError::InvalidAmount) && final(ledger)@ == old(ledger)@,
        amount > 0 ==> r == Ok::<(), SettlementError>(()) && final(ledger)@ == old(ledger)@.push(
            Movement::FundsOut { asset: *asset, to: *to, amount },
        ),
{
    if amount <= 0 {
        return Err(SettlementError::InvalidAmount);
    }
    ledger.movements.push(Movement::FundsOut { asset: *asset, to: *to, amount });
    Ok(())
}

/// Takes the traded asset from `from` into custody.
pub fn escrow_asset(ledger: &mut EscrowLedger, nft_address: &Address, token_id: u64, from: &Address)
    ensures
        final(ledger)@ == old(ledger)@.push(Movement::AssetIn { nft_address: *nft_address, token_id, from: *from }),
{
    ledger.movements.push(Movement::AssetIn { nft_address: *nft_address, token_id, from: *from });
}

/// Hands the traded asset out of custody to `to`.
pub fn release_asset(ledger: &mut EscrowLedger, nft_address: &Address, token_id: u64, to: &Address)
    ensures
        final(ledger)@ == old(ledger)@.push(Movement::AssetOut { nft_address: *nft_address, token_id, to: *to }),
{
    ledger.movements.push(Movement::AssetOut { nft_address: *nft_address, token_id, to: *to });
}

} // verus!
