use marketplace_settlement::auction_engine;
use marketplace_settlement::security::frontrun_protection::compute_commitment;
use marketplace_settlement::{
    Address, DisputeResolution, FeeConfig, MarketplaceSettlement, Movement, SettlementError,
    TransactionState,
};

fn account(n: u128) -> Address {
    Address { contract: false, key_hi: 0, key_lo: n }
}

fn contract(n: u128) -> Address {
    Address { contract: true, key_hi: 0, key_lo: n }
}

fn fee_config(bps: u32) -> FeeConfig {
    FeeConfig {
        platform_fee_bps: bps,
        minimum_fee: 0,
        maximum_fee: 0,
        fee_recipient: account(900),
        dynamic_fee_enabled: false,
        volume_discounts: Vec::new(),
        vip_exemptions: Vec::new(),
    }
}

fn engine(bps: u32) -> MarketplaceSettlement {
    let mut e = MarketplaceSettlement::new(contract(1));
    assert_eq!(e.initialize(account(999), fee_config(bps), contract(2)), Ok(()));
    e
}

#[test]
fn commitment_is_sha256_of_amount_and_salt() {
    let salt = [7u8; 32];
    let expected: [u8; 32] = [
        15, 13, 123, 24, 40, 178, 166, 150, 55, 175, 224, 151, 137, 225, 36, 135, 168, 28, 59, 197,
        125, 201, 206, 116, 52, 128, 135, 96, 201, 226, 231, 10,
    ];
    assert_eq!(compute_commitment(&account(1), 150, &salt), expected);
    let mut rising = [0u8; 32];
    for i in 0..32 {
        rising[i] = i as u8;
    }
    let expected_negative: [u8; 32] = [
        102, 200, 230, 25, 22, 194, 129, 141, 39, 182, 108, 1, 245, 21, 112, 229, 175, 226, 157,
        148, 15, 41, 119, 15, 173, 212, 19, 216, 159, 239, 207, 184,
    ];
    assert_eq!(compute_commitment(&account(1), -1, &rising), expected_negative);
}

#[test]
fn sale_of_1000_at_250_bps_pays_975_to_the_seller() {
    let mut e = engine(250);
    let seller = account(10);
    let buyer = account(11);
    let nft = contract(50);
    let currency = contract(2);
    let id = e.create_sale(seller, nft, 7, 1000, currency, 3600, 100).unwrap();
    assert_eq!(id, 1);
    assert_eq!(e.escrow.movements, vec![Movement::AssetIn { nft_address: nft, token_id: 7, from: seller }]);
    let done = e.execute_sale(id, buyer, 1000, 200).unwrap();
    assert!(done.nft_transferred && done.funds_distributed);
    assert_eq!(done.transaction_id, 1);
    let sale = &e.sales[&id];
    assert_eq!(sale.state, TransactionState::Executed);
    assert_eq!(sale.buyer, Some(buyer));
    assert_eq!(sale.platform_fee, 25);
    assert_eq!(
        e.escrow.movements,
        vec![
            Movement::AssetIn { nft_address: nft, token_id: 7, from: seller },
            Movement::FundsIn { asset: currency, from: buyer, amount: 1000 },
            Movement::FundsOut { asset: currency, to: seller, amount: 975 },
            Movement::AssetOut { nft_address: nft, token_id: 7, to: buyer },
        ]
    );
    assert_eq!(e.platform_fees.len(), 1);
    assert_eq!(e.platform_fees[0].amount, 25);
    assert!(!e.locked);
}

#[test]
fn open_bids_follow_the_increment_rule() {
    let mut e = engine(250);
    let seller = account(10);
    let first = account(20);
    let second = account(21);
    let currency = contract(2);
    let id = e.create_auction(seller, contract(50), 7, 100, 0, 3600, 10, 1000).unwrap();
    assert_eq!(e.place_bid(id, first, 90, None, 1001), Err(SettlementError::BidTooLow));
    assert_eq!(e.place_bid(id, first, 100, None, 1002), Ok(()));
    assert_eq!(e.auctions[&id].highest_bid, 100);
    assert_eq!(e.auctions[&id].highest_bidder, Some(first));
    assert_eq!(e.place_bid(id, second, 105, None, 1003), Err(SettlementError::BidTooLow));
    assert_eq!(e.auctions[&id].highest_bid, 100);
    assert_eq!(e.place_bid(id, second, 110, None, 1004), Ok(()));
    assert_eq!(e.auctions[&id].highest_bid, 110);
    assert_eq!(e.auctions[&id].highest_bidder, Some(second));
    assert_eq!(
        e.escrow.movements[1..].to_vec(),
        vec![
            Movement::FundsIn { asset: currency, from: first, amount: 100 },
            Movement::FundsIn { asset: currency, from: second, amount: 110 },
            Movement::FundsOut { asset: currency, to: first, amount: 100 },
        ]
    );
    assert_eq!(e.auctions[&id].bids.len(), 2);
}

#[test]
fn sealed_bid_reveals_only_with_its_own_amount() {
    let mut e = engine(250);
    let seller = account(10);
    let bidder = account(20);
    let currency = contract(2);
    let salt = [7u8; 32];
    let id = e.create_auction(seller, contract(50), 7, 100, 0, 3600, 10, 1000).unwrap();
    let commitment = compute_commitment(&bidder, 150, &salt);
    assert_eq!(e.place_bid(id, bidder, 0, Some(commitment), 1001), Ok(()));
    assert_eq!(e.escrow.movements.len(), 1);
    assert_eq!(e.auctions[&id].bids[0].amount, 0);
    assert!(e.auctions[&id].bids[0].is_committed);
    assert_eq!(e.reveal_bid(id, bidder, 151, salt, 1002), Err(SettlementError::CommitmentMismatch));
    assert_eq!(e.escrow.movements.len(), 1);
    assert_eq!(e.auctions[&id].highest_bid, 0);
    assert_eq!(e.reveal_bid(id, bidder, 150, salt, 1003), Ok(()));
    assert_eq!(e.auctions[&id].highest_bid, 150);
    assert_eq!(e.auctions[&id].highest_bidder, Some(bidder));
    assert_eq!(
        e.escrow.movements[1..].to_vec(),
        vec![Movement::FundsIn { asset: currency, from: bidder, amount: 150 }]
    );
    assert_eq!(e.reveal_bid(id, account(77), 200, salt, 1004), Err(SettlementError::NotFound));
}

#[test]
fn failed_reserve_refunds_the_bidder_and_cancels() {
    let mut e = engine(250);
    let seller = account(10);
    let bidder = account(20);
    let nft = contract(50);
    let currency = contract(2);
    let id = e.create_auction(seller, nft, 7, 50, 100, 3600, 10, 1000).unwrap();
    let mut auction = auction_engine::cancel_auction(&mut e, id).unwrap();
    auction.state = TransactionState::Pending;
    auction.highest_bid = 80;
    auction.highest_bidder = Some(bidder);
    marketplace_settlement::storage::auction_store::set_auction(&mut e, &auction);
    let before = e.escrow.movements.len();
    assert_eq!(e.execute_bid(id, 4000), Err(SettlementError::AuctionNotEnded));
    let done = e.execute_bid(id, 4600).unwrap();
    assert!(done.nft_transferred);
    assert!(!done.funds_distributed);
    assert_eq!(e.auctions[&id].state, TransactionState::Cancelled);
    assert_eq!(
        e.escrow.movements[before..].to_vec(),
        vec![
            Movement::FundsOut { asset: currency, to: bidder, amount: 80 },
            Movement::AssetOut { nft_address: nft, token_id: 7, to: seller },
        ]
    );
    assert!(e.platform_fees.is_empty());
}

#[test]
fn second_yes_of_three_arbitrators_resolves() {
    let mut e = engine(250);
    let seller = account(10);
    let nft = contract(50);
    let id = e.create_sale(seller, nft, 7, 1000, contract(2), 3600, 100).unwrap();
    let panel = vec![account(31), account(32), account(33)];
    let dispute = marketplace_settlement::dispute_resolution::initiate_dispute(
        &mut e,
        id,
        seller,
        String::from("not as described"),
        None,
        panel,
        2,
        150,
    )
    .unwrap();
    assert_eq!(e.sales[&id].state, TransactionState::Disputed);
    let d = dispute.dispute_id;
    assert_eq!(e.vote_on_dispute(d, account(31), true, 160), Ok(()));
    assert_eq!(e.disputes[&d].resolution, None);
    assert_eq!(e.vote_on_dispute(d, account(32), false, 161), Ok(()));
    assert_eq!(e.disputes[&d].resolution, None);
    assert_eq!(e.sales[&id].state, TransactionState::Disputed);
    assert_eq!(e.vote_on_dispute(d, account(33), true, 162), Ok(()));
    assert_eq!(e.disputes[&d].resolution, Some(DisputeResolution::InitiatorWins));
    assert_eq!(e.disputes[&d].resolved_at, Some(162));
    assert_eq!(e.sales[&id].state, TransactionState::Resolved);
    assert_eq!(
        e.escrow.movements.last(),
        Some(&Movement::AssetOut { nft_address: nft, token_id: 7, to: seller })
    );
    assert_eq!(e.vote_on_dispute(d, account(32), true, 163), Err(SettlementError::InvalidState));
}
