use marketplace_settlement::dispute_resolution::{
    initiate_dispute, record_vote, resolve_transaction, tally, vote_on_dispute,
};
use marketplace_settlement::security::reentrancy_guard::{enter, exit};
use marketplace_settlement::settlement_core::{cancel_sale, create_sale, execute_sale};
use marketplace_settlement::storage::dispute_store::{get_dispute, set_dispute};
use marketplace_settlement::storage::transaction_store::{get_sale, set_sale};
use marketplace_settlement::{
    next_dispute_id, next_sale_id, Address, Counters, DisputeResolution, EmergencyWithdrawalReason,
    FeeConfig, MarketplaceSettlement, Movement, SettlementError, TransactionState, Vote,
};

fn account(n: u128) -> Address {
    Address { contract: false, key_hi: 0, key_lo: n }
}

fn contract(n: u128) -> Address {
    Address { contract: true, key_hi: 0, key_lo: n }
}

fn config(bps: u32) -> FeeConfig {
    FeeConfig {
        platform_fee_bps: bps,
        minimum_fee: 0,
        maximum_fee: 0,
        fee_recipient: account(900),
        dynamic_fee_enabled: false,
        volume_discounts: Vec::new(),
        vip_exemptions: Vec::new(),
    }
}

fn engine() -> MarketplaceSettlement {
    let mut e = MarketplaceSettlement::new(contract(1));
    e.initialize(account(999), config(250), contract(2)).unwrap();
    e
}

fn listed(e: &mut MarketplaceSettlement) -> u64 {
    e.create_sale(account(10), contract(50), 7, 1000, contract(2), 3600, 100).unwrap()
}

#[test]
fn sale_creation_checks_price_and_duration() {
    let mut e = engine();
    let s = account(10);
    let n = contract(50);
    let c = contract(2);
    assert_eq!(create_sale(&mut e, s, n, 7, 0, c, 3600, 100), Err(SettlementError::InvalidAmount));
    assert_eq!(create_sale(&mut e, s, n, 7, -1, c, 3600, 100), Err(SettlementError::InvalidAmount));
    assert_eq!(create_sale(&mut e, s, n, 7, 1000, c, 0, 100), Err(SettlementError::InvalidAmount));
    assert!(e.sales.is_empty());
    assert!(e.escrow.movements.is_empty());
    let id = create_sale(&mut e, s, n, 7, 1000, c, 3600, 100).unwrap();
    let sale = get_sale(&e, id).unwrap();
    assert_eq!(sale.transaction_id, 1);
    assert_eq!((sale.seller, sale.buyer), (s, None));
    assert_eq!((sale.nft_address, sale.token_id), (n, 7));
    assert_eq!((sale.price, sale.currency), (1000, c));
    assert_eq!(sale.state, TransactionState::Pending);
    assert_eq!((sale.created_at, sale.expires_at), (100, 3700));
    assert_eq!(sale.escrow_address, contract(1));
    assert_eq!(sale.platform_fee, 0);
    assert_eq!(sale.royalty_info.creator_address, s);
    assert_eq!(
        (sale.royalty_info.creator_percentage, sale.royalty_info.seller_percentage, sale.royalty_info.platform_percentage),
        (0, 0, 250)
    );
    assert_eq!(sale.royalty_info.total_amount, 1000);
    assert!(sale.royalty_info.amounts.is_empty());
    assert_eq!(create_sale(&mut e, s, n, 8, 5, c, u64::MAX, 100).unwrap(), 2);
    assert_eq!(e.sales[&2].expires_at, u64::MAX);
    let mut fresh = MarketplaceSettlement::new(contract(1));
    assert_eq!(create_sale(&mut fresh, s, n, 7, 1000, c, 3600, 100), Err(SettlementError::NotInitialized));
}

#[test]
fn identifiers_of_each_kind_rise_on_their_own() {
    let mut e = engine();
    assert_eq!(next_sale_id(&mut e), Ok(1));
    assert_eq!(next_sale_id(&mut e), Ok(2));
    assert_eq!(next_dispute_id(&mut e), Ok(1));
    assert_eq!(next_sale_id(&mut e), Ok(3));
    assert_eq!(e.counters, Some(Counters { sale: 3, auction: 0, dispute: 1 }));
    e.counters = Some(Counters { sale: u64::MAX, auction: 0, dispute: u64::MAX });
    assert_eq!(next_sale_id(&mut e), Err(SettlementError::Overflow));
    assert_eq!(next_dispute_id(&mut e), Err(SettlementError::Overflow));
    assert_eq!(e.create_sale(account(10), contract(50), 7, 1000, contract(2), 3600, 100), Err(SettlementError::Overflow));
    let mut fresh = MarketplaceSettlement::new(contract(1));
    assert_eq!(next_sale_id(&mut fresh), Err(SettlementError::NotInitialized));
    assert_eq!(next_dispute_id(&mut fresh), Err(SettlementError::NotInitialized));
}

#[test]
fn purchase_must_be_timely_and_exact() {
    let mut e = engine();
    let id = listed(&mut e);
    let b = account(11);
    assert_eq!(execute_sale(&mut e, id + 1, b, 1000, 200), Err(SettlementError::NotFound));
    assert_eq!(execute_sale(&mut e, id, b, 1000, 3701), Err(SettlementError::Expired));
    assert_eq!(execute_sale(&mut e, id, b, 999, 200), Err(SettlementError::InvalidAmount));
    assert_eq!(execute_sale(&mut e, id, b, 1001, 200), Err(SettlementError::InvalidAmount));
    assert_eq!(e.sales[&id].state, TransactionState::Pending);
    assert_eq!(e.escrow.movements.len(), 1);
    assert!(e.platform_fees.is_empty());
    assert!(!e.locked);
    assert!(execute_sale(&mut e, id, b, 1000, 3700).is_ok());
    assert_eq!(execute_sale(&mut e, id, b, 1000, 3700), Err(SettlementError::InvalidState));
    assert!(matches!(cancel_sale(&mut e, id, account(10)), Err(SettlementError::InvalidState)));
}

#[test]
fn purchase_that_cannot_be_distributed_changes_nothing() {
    let mut e = engine();
    let id = listed(&mut e);
    let mut steep = config(10_000);
    steep.minimum_fee = 0;
    e.update_fee_config(account(999), steep).unwrap();
    assert_eq!(e.execute_sale(id, account(11), 1000, 200), Err(SettlementError::InvalidAmount));
    assert_eq!(e.sales[&id].state, TransactionState::Pending);
    assert_eq!(e.sales[&id].buyer, None);
    assert_eq!(e.escrow.movements.len(), 1);
    assert!(!e.locked);
}

#[test]
fn exempt_buyer_pays_no_fee() {
    let mut e = engine();
    let id = listed(&mut e);
    let mut exempt = config(250);
    exempt.vip_exemptions = vec![account(11)];
    e.update_fee_config(account(999), exempt).unwrap();
    e.execute_sale(id, account(11), 1000, 200).unwrap();
    assert_eq!(e.sales[&id].platform_fee, 0);
    assert!(e.platform_fees.is_empty());
    assert_eq!(
        e.escrow.movements[2],
        Movement::FundsOut { asset: contract(2), to: account(10), amount: 1000 }
    );
}

#[test]
fn only_the_seller_cancels_a_pending_sale() {
    let mut e = engine();
    let id = listed(&mut e);
    assert!(matches!(cancel_sale(&mut e, id, account(11)), Err(SettlementError::Unauthorized)));
    assert!(matches!(cancel_sale(&mut e, id + 1, account(10)), Err(SettlementError::NotFound)));
    assert_eq!(e.sales[&id].state, TransactionState::Pending);
    assert_eq!(e.escrow.movements.len(), 1);
    let cancelled = cancel_sale(&mut e, id, account(10)).unwrap();
    assert_eq!(cancelled.state, TransactionState::Cancelled);
    assert_eq!(e.sales[&id].state, TransactionState::Cancelled);
    assert_eq!(
        e.escrow.movements[1],
        Movement::AssetOut { nft_address: contract(50), token_id: 7, to: account(10) }
    );
    assert_eq!(e.execute_sale(id, account(11), 1000, 200), Err(SettlementError::InvalidState));
}

#[test]
fn cancellation_looks_at_sales_before_auctions() {
    let mut e = engine();
    let sale = listed(&mut e);
    let auction = e.create_auction(account(12), contract(51), 8, 100, 0, 3600, 10, 1000).unwrap();
    assert_eq!(sale, auction);
    assert_eq!(e.cancel_transaction(1, account(12)), Err(SettlementError::Unauthorized));
    assert_eq!(e.cancel_transaction(1, account(10)), Ok(()));
    assert_eq!(e.sales[&1].state, TransactionState::Cancelled);
    assert_eq!(e.auctions[&1].state, TransactionState::Pending);
}

#[test]
fn funded_sale_is_paid_out_once() {
    let mut e = engine();
    let id = listed(&mut e);
    assert_eq!(e.distribute_transaction(id), Err(SettlementError::InvalidState));
    assert_eq!(e.distribute_transaction(id + 1), Err(SettlementError::NotFound));
    let mut sale = get_sale(&e, id).unwrap();
    sale.state = TransactionState::Funded;
    set_sale(&mut e, &sale);
    let d = e.distribute_transaction(id).unwrap();
    assert_eq!((d.total_amount, d.platform_fee, d.creator_amount, d.seller_amount), (1000, 25, 0, 975));
    assert_eq!(e.sales[&id].state, TransactionState::Executed);
    assert_eq!(e.sales[&id].platform_fee, 25);
    assert_eq!(e.distribute_transaction(id), Err(SettlementError::InvalidState));
    assert_eq!(e.escrow.movements.len(), 2);
}

#[test]
fn locked_engine_refuses_every_fund_moving_call() {
    let mut e = engine();
    let sale = listed(&mut e);
    let auction = e.create_auction(account(12), contract(51), 8, 100, 0, 3600, 10, 1000).unwrap();
    e.place_bid(auction, account(20), 100, None, 1500).unwrap();
    let moved = e.escrow.movements.len();
    assert_eq!(enter(&mut e), Ok(()));
    assert!(e.locked);
    assert_eq!(enter(&mut e), Err(SettlementError::InvalidState));
    assert_eq!(e.execute_sale(sale, account(11), 1000, 200), Err(SettlementError::InvalidState));
    assert_eq!(e.execute_bid(auction, 5000), Err(SettlementError::InvalidState));
    assert_eq!(e.distribute_transaction(sale), Err(SettlementError::InvalidState));
    assert_eq!(e.place_bid(auction, account(21), 200, None, 1500), Err(SettlementError::InvalidState));
    assert_eq!(e.reveal_bid(auction, account(21), 200, [0u8; 32], 1500), Err(SettlementError::InvalidState));
    assert_eq!(e.withdraw_platform_fees(account(900), contract(2), 1), Err(SettlementError::InvalidState));
    assert_eq!(e.cancel_transaction(sale, account(10)), Err(SettlementError::InvalidState));
    assert_eq!(e.vote_on_dispute(1, account(900), true, 10), Err(SettlementError::InvalidState));
    assert_eq!(
        e.emergency_withdraw(account(999), sale, EmergencyWithdrawalReason::StuckFunds),
        Err(SettlementError::InvalidState)
    );
    assert!(e.locked);
    assert_eq!(e.escrow.movements.len(), moved);
    assert_eq!(e.sales[&sale].state, TransactionState::Pending);
    assert_eq!(e.auctions[&auction].highest_bid, 100);
    exit(&mut e);
    assert!(!e.locked);
    exit(&mut e);
    assert!(!e.locked);
    assert!(e.execute_sale(sale, account(11), 1000, 200).is_ok());
    assert!(!e.locked);
}

#[test]
fn dispute_needs_a_panel_a_pending_transaction_and_a_party() {
    let mut e = engine();
    let id = listed(&mut e);
    let panel = vec![account(31), account(32)];
    let open = |e: &mut MarketplaceSettlement, tx: u64, who: Address, panel: Vec<Address>, required: u32| {
        initiate_dispute(e, tx, who, String::from("late"), Some(String::from("ipfs://proof")), panel, required, 150)
    };
    assert!(matches!(open(&mut e, id, account(10), Vec::new(), 1), Err(SettlementError::InvalidAmount)));
    assert!(matches!(open(&mut e, id, account(10), panel.clone(), 0), Err(SettlementError::InvalidAmount)));
    assert!(matches!(open(&mut e, id, account(10), panel.clone(), 3), Err(SettlementError::InvalidAmount)));
    assert!(matches!(open(&mut e, id + 5, account(10), panel.clone(), 1), Err(SettlementError::NotFound)));
    assert!(matches!(open(&mut e, id, account(11), panel.clone(), 1), Err(SettlementError::Unauthorized)));
    assert_eq!(e.sales[&id].state, TransactionState::Pending);
    assert!(e.disputes.is_empty());
    assert_eq!(e.counters, Some(Counters { sale: 1, auction: 0, dispute: 0 }));
    let d = open(&mut e, id, account(10), panel.clone(), 2).unwrap();
    assert_eq!(d.dispute_id, 1);
    assert_eq!(d.transaction_id, id);
    assert_eq!(d.initiator, account(10));
    assert_eq!(d.reason, "late");
    assert_eq!(d.evidence_uri, Some(String::from("ipfs://proof")));
    assert_eq!(d.arbitrators, panel);
    assert!(d.votes.is_empty());
    assert_eq!(d.required_votes, 2);
    assert_eq!(d.created_at, 150);
    assert_eq!((d.resolved_at, d.resolution), (None, None));
    assert_eq!(get_dispute(&e, 1).unwrap(), d);
    assert_eq!(e.sales[&id].state, TransactionState::Disputed);
    assert!(matches!(open(&mut e, id, account(10), panel.clone(), 1), Err(SettlementError::InvalidState)));
    assert_eq!(e.execute_sale(id, account(11), 1000, 200), Err(SettlementError::InvalidState));
}

#[test]
fn highest_bidder_may_dispute_an_auction_and_is_refunded() {
    let mut e = engine();
    let currency = contract(2);
    let nft = contract(50);
    let id = e.create_auction(account(10), nft, 7, 100, 0, 3600, 10, 1000).unwrap();
    e.place_bid(id, account(20), 300, None, 1500).unwrap();
    assert_eq!(
        e.initiate_dispute(id, account(21), String::from("x"), None, 1600),
        Err(SettlementError::Unauthorized)
    );
    let d = e.initiate_dispute(id, account(20), String::from("x"), None, 1600).unwrap();
    assert_eq!(e.auctions[&id].state, TransactionState::Disputed);
    assert_eq!(e.disputes[&d].arbitrators, vec![account(900)]);
    assert_eq!(e.disputes[&d].required_votes, 1);
    assert_eq!(e.place_bid(id, account(21), 900, None, 1700), Err(SettlementError::InvalidState));
    assert_eq!(e.vote_on_dispute(d, account(20), true, 1700), Err(SettlementError::Unauthorized));
    assert_eq!(e.vote_on_dispute(d + 1, account(900), true, 1700), Err(SettlementError::NotFound));
    let before = e.escrow.movements.len();
    assert_eq!(e.vote_on_dispute(d, account(900), false, 1700), Ok(()));
    assert_eq!(e.disputes[&d].resolution, Some(DisputeResolution::InitiatorLoses));
    assert_eq!(e.disputes[&d].resolved_at, Some(1700));
    assert_eq!(e.auctions[&id].state, TransactionState::Resolved);
    assert_eq!(
        e.escrow.movements[before..].to_vec(),
        vec![
            Movement::FundsOut { asset: currency, to: account(20), amount: 300 },
            Movement::AssetOut { nft_address: nft, token_id: 7, to: account(10) },
        ]
    );
    let mut fresh = MarketplaceSettlement::new(contract(1));
    assert_eq!(
        fresh.initiate_dispute(id, account(20), String::from("x"), None, 1600),
        Err(SettlementError::NotInitialized)
    );
}

#[test]
fn threshold_of_one_resolves_on_the_first_vote() {
    let mut e = engine();
    let id = listed(&mut e);
    let d = initiate_dispute(&mut e, id, account(10), String::new(), None, vec![account(31), account(32)], 1, 150)
        .unwrap()
        .dispute_id;
    let voted = vote_on_dispute(&mut e, d, account(32), true, 160).unwrap();
    assert_eq!(voted.resolution, Some(DisputeResolution::InitiatorWins));
    assert_eq!(voted.votes, vec![Vote { voter: account(32), approve: true }]);
    assert_eq!(e.sales[&id].state, TransactionState::Resolved);
}

#[test]
fn changed_vote_is_counted_once() {
    let mut e = engine();
    let id = listed(&mut e);
    let panel = vec![account(31), account(32), account(33)];
    let d = initiate_dispute(&mut e, id, account(10), String::new(), None, panel, 2, 150).unwrap().dispute_id;
    assert!(vote_on_dispute(&mut e, d, account(31), true, 160).unwrap().resolution.is_none());
    assert!(vote_on_dispute(&mut e, d, account(31), true, 161).unwrap().resolution.is_none());
    assert!(vote_on_dispute(&mut e, d, account(31), false, 162).unwrap().resolution.is_none());
    assert_eq!(e.disputes[&d].votes, vec![Vote { voter: account(31), approve: false }]);
    let voted = vote_on_dispute(&mut e, d, account(32), false, 163).unwrap();
    assert_eq!(voted.resolution, Some(DisputeResolution::InitiatorLoses));
    assert_eq!(voted.resolved_at, Some(163));
    assert_eq!(
        voted.votes,
        vec![Vote { voter: account(31), approve: false }, Vote { voter: account(32), approve: false }]
    );

    let mut votes = Vec::new();
    record_vote(&mut votes, account(1), true);
    record_vote(&mut votes, account(2), false);
    record_vote(&mut votes, account(3), true);
    record_vote(&mut votes, account(2), true);
    assert_eq!(votes.len(), 3);
    assert_eq!((tally(&votes, true), tally(&votes, false)), (3, 0));
    record_vote(&mut votes, account(1), false);
    assert_eq!((tally(&votes, true), tally(&votes, false)), (2, 1));
    assert_eq!((tally(&Vec::new(), true), tally(&Vec::new(), false)), (0, 0));
}

#[test]
fn resolving_vote_on_a_transaction_no_longer_disputed_is_refused_whole() {
    let mut e = engine();
    let id = listed(&mut e);
    let d = initiate_dispute(&mut e, id, account(10), String::new(), None, vec![account(31)], 1, 150)
        .unwrap()
        .dispute_id;
    let mut sale = get_sale(&e, id).unwrap();
    sale.state = TransactionState::Executed;
    set_sale(&mut e, &sale);
    assert!(matches!(vote_on_dispute(&mut e, d, account(31), true, 160), Err(SettlementError::InvalidState)));
    assert!(e.disputes[&d].votes.is_empty());
    assert_eq!(e.disputes[&d].resolution, None);
    assert_eq!(resolve_transaction(&mut e, id, DisputeResolution::InitiatorWins), Err(SettlementError::InvalidState));
    assert_eq!(resolve_transaction(&mut e, 77, DisputeResolution::InitiatorWins), Err(SettlementError::NotFound));
    let mut dispute = get_dispute(&e, d).unwrap();
    dispute.transaction_id = 77;
    set_dispute(&mut e, &dispute);
    assert!(matches!(vote_on_dispute(&mut e, d, account(31), true, 160), Err(SettlementError::NotFound)));
}

#[test]
fn administrator_hands_back_what_escrow_holds() {
    let mut e = engine();
    let sale = listed(&mut e);
    let nft = contract(51);
    let auction_only = {
        e.create_auction(account(12), nft, 8, 100, 0, 3600, 10, 1000).unwrap();
        e.create_auction(account(12), nft, 9, 100, 0, 3600, 10, 1000).unwrap()
    };
    e.place_bid(auction_only, account(20), 300, None, 1500).unwrap();
    let before = e.escrow.movements.len();
    assert_eq!(
        e.emergency_withdraw(account(10), sale, EmergencyWithdrawalReason::StuckFunds),
        Err(SettlementError::Unauthorized)
    );
    assert_eq!(e.emergency_withdraw(account(999), 77, EmergencyWithdrawalReason::StuckFunds), Err(SettlementError::NotFound));
    assert_eq!(e.emergency_withdraw(account(999), sale, EmergencyWithdrawalReason::ContractUpgrade), Ok(()));
    assert_eq!(e.emergency_withdraw(account(999), auction_only, EmergencyWithdrawalReason::ArbitratorDecision), Ok(()));
    assert_eq!(
        e.escrow.movements[before..].to_vec(),
        vec![
            Movement::AssetOut { nft_address: contract(50), token_id: 7, to: account(10) },
            Movement::FundsOut { asset: contract(2), to: account(20), amount: 300 },
            Movement::AssetOut { nft_address: nft, token_id: 9, to: account(12) },
        ]
    );
    assert_eq!(e.sales[&sale].state, TransactionState::Pending);
    assert_eq!(e.auctions[&auction_only].state, TransactionState::Pending);
    let mut fresh = MarketplaceSettlement::new(contract(1));
    assert_eq!(
        fresh.emergency_withdraw(account(999), sale, EmergencyWithdrawalReason::StuckFunds),
        Err(SettlementError::NotInitialized)
    );
}

#[test]
fn votes_in_favour_are_looked_at_first() {
    let mut e = engine();
    let id = listed(&mut e);
    let panel = vec![account(31), account(32), account(33)];
    let d = initiate_dispute(&mut e, id, account(10), String::new(), None, panel, 1, 150).unwrap().dispute_id;
    let mut dispute = get_dispute(&e, d).unwrap();
    dispute.votes = vec![Vote { voter: account(31), approve: true }, Vote { voter: account(32), approve: false }];
    set_dispute(&mut e, &dispute);
    let voted = vote_on_dispute(&mut e, d, account(33), false, 170).unwrap();
    assert_eq!(voted.resolution, Some(DisputeResolution::InitiatorWins));
    assert_eq!((tally(&voted.votes, true), tally(&voted.votes, false)), (1, 2));
}
