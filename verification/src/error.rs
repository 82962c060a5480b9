use vstd::prelude::*;

verus! {

/// Every way a settlement operation can refuse its input.
#[derive(Clone, Copy, Debug, PartialEq, Eq, Structural)]
pub enum SettlementError {
    Unauthorized,
    NotInitialized,
    NotFound,
    InvalidState,
    InvalidAmount,
    InvalidTime,
    Expired,
    AuctionNotEnded,
    BidTooLow,
    CommitmentMismatch,
    AlreadyExists,
    Overflow,
}

} // verus!
