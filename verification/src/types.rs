use vstd::prelude::*;

verus! {

/// The identity of an account or of a contract: its kind and its 32-byte key,
/// held as two 128-bit words.
#[derive(Clone, Copy, Debug, PartialEq, Eq, Structural, Hash)]
pub struct Address {
    pub contract: bool,
    pub key_hi: u128,
    pub key_lo: u128,
}

/// A currency is named by the address of its ledger.
pub type Asset = Address;

/// The lifecycle shared by sales and auctions.
#[derive(Clone, Copy, Debug, PartialEq, Eq, Structural)]
pub enum TransactionState {
    Pending,
    Funded,
    Executed,
    Cancelled,
    Disputed,
    Resolved,
}

/// How an arbitrated dispute ended.
#[derive(Clone, Copy, Debug, PartialEq, Eq, Structural)]
pub enum DisputeResolution {
    InitiatorWins,
    InitiatorLoses,
}

/// Why the administrator pulls a transaction's holdings out of escrow.
#[derive(Clone, Copy, Debug, PartialEq, Eq, Structural)]
pub enum EmergencyWithdrawalReason {
    StuckFunds,
    ContractUpgrade,
    ArbitratorDecision,
}

/// A sale volume from which a fee discount applies.
#[derive(Clone, Copy, Debug, PartialEq, Eq, Structural)]
pub struct VolumeTier {
    pub min_volume: i128,
    pub fee_discount_bps: u32,
}

/// What an executed settlement did.
#[derive(Clone, Copy, Debug, PartialEq, Eq, Structural)]
pub struct ExecutionResult {
    pub transaction_id: u64,
    pub nft_transferred: bool,
    pub funds_distributed: bool,
}

/// The audited split of one settled price.
#[derive(Clone, Copy, Debug, PartialEq, Eq, Structural)]
pub struct DistributionResult {
    pub total_amount: i128,
    pub platform_fee: i128,
    pub creator_amount: i128,
    pub seller_amount: i128,
}

/// The last identifier handed out in each category.
#[derive(Clone, Copy, Debug, PartialEq, Eq, Structural)]
pub struct Counters {
    pub sale: u64,
    pub auction: u64,
    pub dispute: u64,
}

/// One bid of an auction's history. A sealed bid carries its commitment and
/// the amount zero.
#[derive(Clone, Copy, Debug, PartialEq, Eq)]
pub struct Bid {
    pub bidder: Address,
    pub amount: i128,
    pub placed_at: u64,
    pub is_committed: bool,
    pub commitment_hash: Option<[u8; 32]>,
}

/// One entry of a payout mapping.
#[derive(Clone, Copy, Debug, PartialEq, Eq, Structural)]
pub struct Payout {
    pub payee: Address,
    pub amount: i128,
}

/// One arbitrator's current vote.
#[derive(Clone, Copy, Debug, PartialEq, Eq, Structural)]
pub struct Vote {
    pub voter: Address,
    pub approve: bool,
}

/// The fees gathered in one currency and not yet withdrawn.
#[derive(Clone, Copy, Debug, PartialEq, Eq, Structural)]
pub struct FeeBalance {
    pub currency: Asset,
    pub amount: i128,
}

/// A copy of `items`, element for element.
pub fn copy_items<T: Copy>(items: &Vec<T>) -> (r: Vec<T>)
    ensures
        r@ == items@,
{
    let mut out: Vec<T> = Vec::new();
    let mut i: usize = 0;
    while i < items.len()
        invariant
            i <= items.len(),
            out@ == items@.subrange(0, i as int),
        decreases items.len() - i,
    {
        out.push(items[i]);
        i = i + 1;
    }
    assert(out@ =~= items@);
    out
}

/// How the proceeds of a sale are to be shared.
#[derive(Debug, PartialEq, Eq)]
pub struct RoyaltyDistribution {
    pub creator_address: Address,
    pub creator_percentage: u32,
    pub seller_percentage: u32,
    pub platform_percentage: u32,
    pub total_amount: i128,
    pub amounts: Vec<Payout>,
}

/// A royalty descriptor as contracts see it.
pub struct RoyaltyDistributionView {
    pub creator_address: Address,
    pub creator_percentage: u32,
    pub seller_percentage: u32,
    pub platform_percentage: u32,
    pub total_amount: i128,
    pub amounts: Seq<Payout>,
}

impl View for RoyaltyDistribution {
    type V = RoyaltyDistributionView;

    open spec fn view(&self) -> RoyaltyDistributionView {
        RoyaltyDistributionView {
            creator_address: self.creator_address,
            creator_percentage: self.creator_percentage,
            seller_percentage: self.seller_percentage,
            platform_percentage: self.platform_percentage,
            total_amount: self.total_amount,
            amounts: self.amounts@,
        }
    }
}

impl Clone for RoyaltyDistribution {
    fn clone(&self) -> (r: Self)
        ensures
            r@ == self@,
    {
        RoyaltyDistribution {
            creator_address: self.creator_address,
            creator_percentage: self.creator_percentage,
            seller_percentage: self.seller_percentage,
            platform_percentage: self.platform_percentage,
            total_amount: self.total_amount,
            amounts: copy_items(&self.amounts),
        }
    }
}

/// The platform's fee rules.
#[derive(Debug, PartialEq, Eq)]
pub struct FeeConfig {
    pub platform_fee_bps: u32,
    pub minimum_fee: i128,
    pub maximum_fee: i128,
    pub fee_recipient: Address,
    pub dynamic_fee_enabled: bool,
    pub volume_discounts: Vec<VolumeTier>,
    pub vip_exemptions: Vec<Address>,
}

/// Fee rules as contracts see them.
pub struct FeeConfigView {
    pub platform_fee_bps: u32,
    pub minimum_fee: i128,
    pub maximum_fee: i128,
    pub fee_recipient: Address,
    pub dynamic_fee_enabled: bool,
    pub volume_discounts: Seq<VolumeTier>,
    pub vip_exemptions: Seq<Address>,
}

impl View for FeeConfig {
    type V = FeeConfigView;

    open spec fn view(&self) -> FeeConfigView {
        FeeConfigView {
            platform_fee_bps: self.platform_fee_bps,
            minimum_fee: self.minimum_fee,
            maximum_fee: self.maximum_fee,
            fee_recipient: self.fee_recipient,
            dynamic_fee_enabled: self.dynamic_fee_enabled,
            volume_discounts: self.volume_discounts@,
            vip_exemptions: self.vip_exemptions@,
        }
    }
}

impl Clone for FeeConfig {
    fn clone(&self) -> (r: Self)
        ensures
            r@ == self@,
    {
        FeeConfig {
            platform_fee_bps: self.platform_fee_bps,
            minimum_fee: self.minimum_fee,
            maximum_fee: self.maximum_fee,
            fee_recipient: self.fee_recipient,
            dynamic_fee_enabled: self.dynamic_fee_enabled,
            volume_discounts: copy_items(&self.volume_discounts),
            vip_exemptions: copy_items(&self.vip_exemptions),
        }
    }
}

/// A fixed-price listing.
#[derive(Debug, PartialEq, Eq)]
pub struct SaleTransaction {
    pub transaction_id: u64,
    pub seller: Address,
    pub buyer: Option<Address>,
    pub nft_address: Address,
    pub token_id: u64,
    pub price: i128,
    pub currency: Asset,
    pub state: TransactionState,
    pub created_at: u64,
    pub expires_at: u64,
    pub escrow_address: Address,
    pub royalty_info: RoyaltyDistribution,
    pub platform_fee: i128,
}

/// A sale as contracts see it.
pub struct SaleView {
    pub transaction_id: u64,
    pub seller: Address,
    pub buyer: Option<Address>,
    pub nft_address: Address,
    pub token_id: u64,
    pub price: i128,
    pub currency: Asset,
    pub state: TransactionState,
    pub created_at: u64,
    pub expires_at: u64,
    pub escrow_address: Address,
    pub royalty_info: RoyaltyDistributionView,
    pub platform_fee: i128,
}

impl View for SaleTransaction {
    type V = SaleView;

    open spec fn view(&self) -> SaleView {
        SaleView {
            transaction_id: self.transaction_id,
            seller: self.seller,
            buyer: self.buyer,
            nft_address: self.nft_address,
            token_id: self.token_id,
            price: self.price,
            currency: self.currency,
            state: self.state,
            created_at: self.created_at,
            expires_at: self.expires_at,
            escrow_address: self.escrow_address,
            royalty_info: self.royalty_info@,
            platform_fee: self.platform_fee,
        }
    }
}

impl Clone for SaleTransaction {
    fn clone(&self) -> (r: Self)
        ensures
            r@ == self@,
    {
        SaleTransaction {
            transaction_id: self.transaction_id,
            seller: self.seller,
            buyer: self.buyer,
            nft_address: self.nft_address,
            token_id: self.token_id,
            price: self.price,
            currency: self.currency,
            state: self.state,
            created_at: self.created_at,
            expires_at: self.expires_at,
            escrow_address: self.escrow_address,
            royalty_info: self.royalty_info.clone(),
            platform_fee: self.platform_fee,
        }
    }
}

/// An auction with its bid history.
#[derive(Debug, PartialEq, Eq)]
pub struct AuctionTransaction {
    pub auction_id: u64,
    pub seller: Address,
    pub nft_address: Address,
    pub token_id: u64,
    pub starting_price: i128,
    pub reserve_price: i128,
    pub highest_bid: i128,
    pub highest_bidder: Option<Address>,
    pub bid_increment: i128,
    pub start_time: u64,
    pub end_time: u64,
    pub state: TransactionState,
    pub bids: Vec<Bid>,
    pub extension_window: u64,
    pub currency: Asset,
}

/// An auction as contracts see it: its bid history is a sequence.
pub struct AuctionView {
    pub auction_id: u64,
    pub seller: Address,
    pub nft_address: Address,
    pub token_id: u64,
    pub starting_price: i128,
    pub reserve_price: i128,
    pub highest_bid: i128,
    pub highest_bidder: Option<Address>,
    pub bid_increment: i128,
    pub start_time: u64,
    pub end_time: u64,
    pub state: TransactionState,
    pub bids: Seq<Bid>,
    pub extension_window: u64,
    pub currency: Asset,
}

impl View for AuctionTransaction {
    type V = AuctionView;

    open spec fn view(&self) -> AuctionView {
        AuctionView {
            auction_id: self.auction_id,
            seller: self.seller,
            nft_address: self.nft_address,
            token_id: self.token_id,
            starting_price: self.starting_price,
            reserve_price: self.reserve_price,
            highest_bid: self.highest_bid,
            highest_bidder: self.highest_bidder,
            bid_increment: self.bid_increment,
            start_time: self.start_time,
            end_time: self.end_time,
            state: self.state,
            bids: self.bids@,
            extension_window: self.extension_window,
            currency: self.currency,
        }
    }
}

impl Clone for AuctionTransaction {
    fn clone(&self) -> (r: Self)
        ensures
            r@ == self@,
    {
        AuctionTransaction {
            auction_id: self.auction_id,
            seller: self.seller,
            nft_address: self.nft_address,
            token_id: self.token_id,
            starting_price: self.starting_price,
            reserve_price: self.reserve_price,
            highest_bid: self.highest_bid,
            highest_bidder: self.highest_bidder,
            bid_increment: self.bid_increment,
            start_time: self.start_time,
            end_time: self.end_time,
            state: self.state,
            bids: copy_items(&self.bids),
            extension_window: self.extension_window,
            currency: self.currency,
        }
    }
}

/// A dispute over one transaction, with the votes cast so far.
#[derive(Debug, PartialEq, Eq)]
pub struct Dispute {
    pub dispute_id: u64,
    pub transaction_id: u64,
    pub initiator: Address,
    pub reason: String,
    pub evidence_uri: Option<String>,
    pub arbitrators: Vec<Address>,
    pub votes: Vec<Vote>,
    pub required_votes: u32,
    pub created_at: u64,
    pub resolved_at: Option<u64>,
    pub resolution: Option<DisputeResolution>,
}

/// A dispute as contracts see it.
pub struct DisputeView {
    pub dispute_id: u64,
    pub transaction_id: u64,
    pub initiator: Address,
    pub reason: Seq<char>,
    pub evidence_uri: Option<Seq<char>>,
    pub arbitrators: Seq<Address>,
    pub votes: Seq<Vote>,
    pub required_votes: u32,
    pub created_at: u64,
    pub resolved_at: Option<u64>,
    pub resolution: Option<DisputeResolution>,
}

/// The text of an optional string.
pub open spec fn text_of(s: Option<String>) -> Option<Seq<char>> {
    match s {
        Some(t) => Some(t@),
        None => None,
    }
}

impl View for Dispute {
    type V = DisputeView;

    open spec fn view(&self) -> DisputeView {
        DisputeView {
            dispute_id: self.dispute_id,
            transaction_id: self.transaction_id,
            initiator: self.initiator,
            reason: self.reason@,
            evidence_uri: text_of(self.evidence_uri),
            arbitrators: self.arbitrators@,
            votes: self.votes@,
            required_votes: self.required_votes,
            created_at: self.created_at,
            resolved_at: self.resolved_at,
            resolution: self.resolution,
        }
    }
}

impl Clone for Dispute {
    fn clone(&self) -> (r: Self)
        ensures
            r@ == self@,
    {
        let evidence_uri = match &self.evidence_uri {
            Some(t) => Some(t.clone()),
            None => None,
        };
        Dispute {
            dispute_id: self.dispute_id,
            transaction_id: self.transaction_id,
            initiator: self.initiator,
            reason: self.reason.clone(),
            evidence_uri,
            arbitrators: copy_items(&self.arbitrators),
            votes: copy_items(&self.votes),
            required_votes: self.required_votes,
            created_at: self.created_at,
            resolved_at: self.resolved_at,
            resolution: self.resolution,
        }
    }
}

} // verus!
