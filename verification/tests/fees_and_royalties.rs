use marketplace_settlement::escrow_manager::{transfer_in, transfer_out, EscrowLedger};
use marketplace_settlement::fee_manager::{
    add_platform_fee, apply_dynamic_discount, apply_fee_bounds, best_discount_bps, get_fee_config,
    set_fee_config, take_platform_fee, update_sale_platform_fee,
};
use marketplace_settlement::royalty_distributor::{
    calculate_royalties, distribute_funds, is_vip, plan_distribution,
};
use marketplace_settlement::utils::math_utils::{checked_add, checked_mul, checked_sub, mul_bps};
use marketplace_settlement::{
    validate_fee_config, Address, DistributionResult, FeeConfig, MarketplaceSettlement, Movement,
    Payout, RoyaltyDistribution, SaleTransaction, SettlementError, TransactionState, VolumeTier,
};

fn account(n: u128) -> Address {
    Address { contract: false, key_hi: 0, key_lo: n }
}

fn contract(n: u128) -> Address {
    Address { contract: true, key_hi: 0, key_lo: n }
}

fn config(bps: u32) -> FeeConfig {
    FeeConfig {
        platform_fee_bps: bps,
        minimum_fee: 0,
        maximum_fee: 0,
        fee_recipient: account(900),
        dynamic_fee_enabled: false,
        volume_discounts: Vec::new(),
        vip_exemptions: Vec::new(),
    }
}

fn sale(price: i128, creator_bps: u32, seller_bps: u32) -> SaleTransaction {
    SaleTransaction {
        transaction_id: 1,
        seller: account(10),
        buyer: None,
        nft_address: contract(50),
        token_id: 7,
        price,
        currency: contract(2),
        state: TransactionState::Funded,
        created_at: 0,
        expires_at: 10,
        escrow_address: contract(1),
        royalty_info: RoyaltyDistribution {
            creator_address: account(12),
            creator_percentage: creator_bps,
            seller_percentage: seller_bps,
            platform_percentage: 250,
            total_amount: price,
            amounts: Vec::new(),
        },
        platform_fee: 0,
    }
}

#[test]
fn checked_arithmetic_reports_overflow() {
    assert_eq!(checked_add(2, 3), Ok(5));
    assert_eq!(checked_add(i128::MAX, 1), Err(SettlementError::Overflow));
    assert_eq!(checked_sub(2, 3), Ok(-1));
    assert_eq!(checked_sub(i128::MIN, 1), Err(SettlementError::Overflow));
    assert_eq!(checked_mul(-4, 5), Ok(-20));
    assert_eq!(checked_mul(i128::MAX, 2), Err(SettlementError::Overflow));
}

#[test]
fn mul_bps_rounds_down() {
    assert_eq!(mul_bps(1000, 250), Ok(25));
    assert_eq!(mul_bps(999, 250), Ok(24));
    assert_eq!(mul_bps(39, 250), Ok(0));
    assert_eq!(mul_bps(-999, 250), Ok(-25));
    assert_eq!(mul_bps(-1000, 250), Ok(-25));
    assert_eq!(mul_bps(-1, 1), Ok(-1));
    assert_eq!(mul_bps(1000, 0), Ok(0));
    assert_eq!(mul_bps(1000, 10_000), Ok(1000));
    assert_eq!(mul_bps(i128::MAX, 2), Err(SettlementError::Overflow));
}

#[test]
fn fee_bounds_raise_then_lower() {
    assert_eq!(apply_fee_bounds(25, 0, 0), 25);
    assert_eq!(apply_fee_bounds(25, 30, 0), 30);
    assert_eq!(apply_fee_bounds(25, 0, 20), 20);
    assert_eq!(apply_fee_bounds(25, 30, 20), 20);
    assert_eq!(apply_fee_bounds(25, 10, 40), 25);
    assert_eq!(apply_fee_bounds(1_000_000, 0, 0), 1_000_000);
}

#[test]
fn platform_fee_is_bounded_and_capped_at_the_price() {
    let s = sale(1000, 0, 0);
    assert_eq!(take_platform_fee(&config(250), &s), Ok(25));
    let mut floor = config(250);
    floor.minimum_fee = 40;
    assert_eq!(take_platform_fee(&floor, &s), Ok(40));
    let mut ceiling = config(250);
    ceiling.maximum_fee = 10;
    assert_eq!(take_platform_fee(&ceiling, &s), Ok(10));
    let mut steep = config(250);
    steep.minimum_fee = 5000;
    assert_eq!(take_platform_fee(&steep, &s), Ok(1000));
    assert_eq!(take_platform_fee(&config(250), &sale(i128::MAX, 0, 0)), Err(SettlementError::Overflow));
}

#[test]
fn discount_takes_the_largest_tier_reached_not_the_first() {
    let tiers = vec![
        VolumeTier { min_volume: 100, fee_discount_bps: 1000 },
        VolumeTier { min_volume: 500, fee_discount_bps: 5000 },
        VolumeTier { min_volume: 200, fee_discount_bps: 2000 },
        VolumeTier { min_volume: 5000, fee_discount_bps: 9000 },
    ];
    assert_eq!(best_discount_bps(&tiers, 1000), 5000);
    assert_eq!(best_discount_bps(&tiers, 250), 2000);
    assert_eq!(best_discount_bps(&tiers, 99), 0);
    assert_eq!(apply_dynamic_discount(&sale(1000, 0, 0), 25, &tiers), Ok(13));
    assert_eq!(apply_dynamic_discount(&sale(250, 0, 0), 100, &tiers), Ok(80));
    assert_eq!(apply_dynamic_discount(&sale(50, 0, 0), 100, &tiers), Ok(100));
    assert_eq!(apply_dynamic_discount(&sale(1000, 0, 0), 25, &Vec::new()), Ok(25));
}

#[test]
fn royalties_leave_the_rounding_remainder_to_the_seller() {
    let s = sale(999, 500, 0);
    let creator = account(12);
    let d = calculate_royalties(&s, &creator, 500, 0, 250).unwrap();
    assert_eq!(d.creator_address, creator);
    assert_eq!(d.creator_percentage, 500);
    assert_eq!(d.seller_percentage, 0);
    assert_eq!(d.platform_percentage, 250);
    assert_eq!(d.total_amount, 999);
    assert_eq!(
        d.amounts,
        vec![Payout { payee: creator, amount: 49 }, Payout { payee: account(10), amount: 926 }]
    );
    let fixed = calculate_royalties(&s, &creator, 500, 9000, 250).unwrap();
    assert_eq!(fixed.amounts[1].amount, 899);
    assert!(matches!(
        calculate_royalties(&sale(i128::MAX, 0, 0), &creator, 2, 0, 0),
        Err(SettlementError::Overflow)
    ));
}

#[test]
fn planned_distribution_conserves_the_price() {
    for &(price, creator_bps, bps) in
        &[(1000i128, 0u32, 250u32), (999, 500, 250), (1, 0, 250), (123_456_789, 1234, 999), (40, 0, 0)]
    {
        let d = plan_distribution(&config(bps), &sale(price, creator_bps, 0)).unwrap();
        assert_eq!(d.total_amount, price);
        assert_eq!(d.creator_amount + d.seller_amount, price - d.platform_fee);
    }
    let d = plan_distribution(&config(250), &sale(999, 500, 0)).unwrap();
    assert_eq!(
        d,
        DistributionResult { total_amount: 999, platform_fee: 24, creator_amount: 49, seller_amount: 926 }
    );
}

#[test]
fn seller_absorbs_bounds_discounts_and_exemptions() {
    let mut floor = config(250);
    floor.minimum_fee = 40;
    let d = plan_distribution(&floor, &sale(1000, 0, 0)).unwrap();
    assert_eq!((d.platform_fee, d.creator_amount, d.seller_amount), (40, 0, 960));

    let mut tiered = config(250);
    tiered.dynamic_fee_enabled = true;
    tiered.volume_discounts = vec![VolumeTier { min_volume: 500, fee_discount_bps: 2000 }];
    let d = plan_distribution(&tiered, &sale(1000, 1000, 0)).unwrap();
    assert_eq!((d.platform_fee, d.creator_amount, d.seller_amount), (20, 100, 880));

    let mut exempt = config(250);
    exempt.vip_exemptions = vec![account(10)];
    let d = plan_distribution(&exempt, &sale(1000, 1000, 0)).unwrap();
    assert_eq!((d.platform_fee, d.creator_amount, d.seller_amount), (0, 100, 900));

    let mut buyer_exempt = config(250);
    buyer_exempt.vip_exemptions = vec![account(11)];
    let mut bought = sale(1000, 0, 0);
    assert_eq!(plan_distribution(&buyer_exempt, &bought).unwrap().platform_fee, 25);
    bought.buyer = Some(account(11));
    assert_eq!(plan_distribution(&buyer_exempt, &bought).unwrap().platform_fee, 0);
    assert!(is_vip(&buyer_exempt.vip_exemptions, &account(11)));
    assert!(!is_vip(&buyer_exempt.vip_exemptions, &account(10)));
}

#[test]
fn distribution_that_does_not_add_up_is_refused() {
    assert_eq!(
        plan_distribution(&config(250), &sale(1000, 500, 5000)),
        Err(SettlementError::InvalidAmount)
    );
    assert_eq!(
        plan_distribution(&config(250), &sale(1000, 500, 9250)).unwrap(),
        DistributionResult { total_amount: 1000, platform_fee: 25, creator_amount: 50, seller_amount: 925 }
    );
    assert_eq!(plan_distribution(&config(10_000), &sale(1000, 0, 0)), Err(SettlementError::InvalidAmount));
    assert_eq!(plan_distribution(&config(250), &sale(i128::MAX, 0, 0)), Err(SettlementError::Overflow));
}

#[test]
fn distribute_funds_pays_creator_seller_and_platform() {
    let mut e = MarketplaceSettlement::new(contract(1));
    let s = sale(999, 500, 0);
    assert_eq!(distribute_funds(&mut e, &s), Err(SettlementError::NotInitialized));
    assert!(e.escrow.movements.is_empty());
    e.initialize(account(999), config(250), contract(2)).unwrap();
    let d = distribute_funds(&mut e, &s).unwrap();
    assert_eq!(
        d,
        DistributionResult { total_amount: 999, platform_fee: 24, creator_amount: 49, seller_amount: 926 }
    );
    assert_eq!(
        e.escrow.movements,
        vec![
            Movement::FundsOut { asset: contract(2), to: account(12), amount: 49 },
            Movement::FundsOut { asset: contract(2), to: account(10), amount: 926 },
        ]
    );
    assert_eq!(e.platform_fees.len(), 1);
    assert_eq!(e.platform_fees[0].currency, contract(2));
    assert_eq!(e.platform_fees[0].amount, 24);
    distribute_funds(&mut e, &s).unwrap();
    assert_eq!(e.platform_fees.len(), 1);
    assert_eq!(e.platform_fees[0].amount, 48);
}

#[test]
fn distribution_that_would_overflow_the_gathered_fees_moves_nothing() {
    let mut e = MarketplaceSettlement::new(contract(1));
    e.initialize(account(999), config(250), contract(2)).unwrap();
    assert_eq!(add_platform_fee(&mut e, &contract(2), i128::MAX), Ok(()));
    assert_eq!(distribute_funds(&mut e, &sale(1000, 0, 0)), Err(SettlementError::Overflow));
    assert!(e.escrow.movements.is_empty());
    assert_eq!(e.platform_fees[0].amount, i128::MAX);
}

#[test]
fn gathered_fees_are_kept_by_currency() {
    let mut e = MarketplaceSettlement::new(contract(1));
    assert_eq!(add_platform_fee(&mut e, &contract(2), 0), Ok(()));
    assert_eq!(add_platform_fee(&mut e, &contract(2), -5), Ok(()));
    assert!(e.platform_fees.is_empty());
    assert_eq!(add_platform_fee(&mut e, &contract(2), 10), Ok(()));
    assert_eq!(add_platform_fee(&mut e, &contract(3), 7), Ok(()));
    assert_eq!(add_platform_fee(&mut e, &contract(2), 5), Ok(()));
    assert_eq!(e.platform_fees.len(), 2);
    assert_eq!((e.platform_fees[0].currency, e.platform_fees[0].amount), (contract(2), 15));
    assert_eq!((e.platform_fees[1].currency, e.platform_fees[1].amount), (contract(3), 7));
    assert_eq!(add_platform_fee(&mut e, &contract(3), i128::MAX), Err(SettlementError::Overflow));
    assert_eq!(e.platform_fees[1].amount, 7);
}

#[test]
fn fee_withdrawal_is_bounded_by_what_was_gathered() {
    let mut e = MarketplaceSettlement::new(contract(1));
    assert_eq!(e.withdraw_platform_fees(account(900), contract(2), 5), Err(SettlementError::NotInitialized));
    e.initialize(account(999), config(250), contract(2)).unwrap();
    add_platform_fee(&mut e, &contract(2), 30).unwrap();
    assert_eq!(e.withdraw_platform_fees(account(999), contract(2), 5), Err(SettlementError::Unauthorized));
    assert_eq!(e.withdraw_platform_fees(account(900), contract(2), 0), Err(SettlementError::InvalidAmount));
    assert_eq!(e.withdraw_platform_fees(account(900), contract(2), 31), Err(SettlementError::InvalidAmount));
    assert_eq!(e.withdraw_platform_fees(account(900), contract(3), 1), Err(SettlementError::InvalidAmount));
    assert!(e.escrow.movements.is_empty());
    assert_eq!(e.withdraw_platform_fees(account(900), contract(2), 12), Ok(()));
    assert_eq!(e.platform_fees[0].amount, 18);
    assert_eq!(
        e.escrow.movements,
        vec![Movement::FundsOut { asset: contract(2), to: account(900), amount: 12 }]
    );
    assert_eq!(e.withdraw_platform_fees(account(900), contract(2), 18), Ok(()));
    assert_eq!(e.platform_fees[0].amount, 0);
}

#[test]
fn escrow_ledger_refuses_empty_amounts() {
    let mut ledger = EscrowLedger::new();
    assert_eq!(transfer_in(&mut ledger, &contract(2), &account(1), 0), Err(SettlementError::InvalidAmount));
    assert_eq!(transfer_out(&mut ledger, &contract(2), &account(1), -3), Err(SettlementError::InvalidAmount));
    assert!(ledger.movements.is_empty());
    assert_eq!(transfer_in(&mut ledger, &contract(2), &account(1), 5), Ok(()));
    assert_eq!(transfer_out(&mut ledger, &contract(2), &account(3), 9), Ok(()));
    assert_eq!(
        ledger.movements,
        vec![
            Movement::FundsIn { asset: contract(2), from: account(1), amount: 5 },
            Movement::FundsOut { asset: contract(2), to: account(3), amount: 9 },
        ]
    );
}

#[test]
fn fee_rules_are_validated_and_replaced() {
    assert_eq!(validate_fee_config(&config(10_000)), Ok(()));
    assert_eq!(validate_fee_config(&config(10_001)), Err(SettlementError::InvalidAmount));
    let mut negative = config(250);
    negative.minimum_fee = -1;
    assert_eq!(validate_fee_config(&negative), Err(SettlementError::InvalidAmount));
    let mut negative_ceiling = config(250);
    negative_ceiling.maximum_fee = -1;
    assert_eq!(validate_fee_config(&negative_ceiling), Err(SettlementError::InvalidAmount));

    let mut e = MarketplaceSettlement::new(contract(1));
    assert_eq!(get_fee_config(&e), Err(SettlementError::NotInitialized));
    assert_eq!(e.update_fee_config(account(999), config(100)), Err(SettlementError::NotInitialized));
    assert_eq!(e.initialize(account(999), config(10_001), contract(2)), Err(SettlementError::InvalidAmount));
    assert_eq!(e.admin, None);
    assert_eq!(e.initialize(account(999), config(250), contract(2)), Ok(()));
    assert_eq!(e.initialize(account(998), config(300), contract(3)), Err(SettlementError::AlreadyExists));
    assert_eq!(e.admin, Some(account(999)));
    assert_eq!(get_fee_config(&e).unwrap().platform_fee_bps, 250);
    assert_eq!(e.update_fee_config(account(999), negative), Err(SettlementError::InvalidAmount));
    assert_eq!(e.update_fee_config(account(900), config(100)), Err(SettlementError::Unauthorized));
    assert_eq!(get_fee_config(&e).unwrap().platform_fee_bps, 250);
    assert_eq!(e.update_fee_config(account(999), config(100)), Ok(()));
    assert_eq!(get_fee_config(&e).unwrap().platform_fee_bps, 100);
    set_fee_config(&mut e, &config(7));
    assert_eq!(get_fee_config(&e).unwrap().platform_fee_bps, 7);
}

#[test]
fn recorded_fee_of_a_sale_can_be_updated() {
    let mut e = MarketplaceSettlement::new(contract(1));
    e.initialize(account(999), config(250), contract(2)).unwrap();
    assert_eq!(update_sale_platform_fee(&mut e, 1, 9), Err(SettlementError::NotFound));
    let id = e.create_sale(account(10), contract(50), 7, 1000, contract(2), 3600, 100).unwrap();
    assert_eq!(update_sale_platform_fee(&mut e, id, 9), Ok(()));
    assert_eq!(e.sales[&id].platform_fee, 9);
    assert_eq!(e.sales[&id].price, 1000);
}

#[test]
fn royalty_preview_uses_the_platform_rate() {
    let mut e = MarketplaceSettlement::new(contract(1));
    assert!(matches!(
        e.calculate_royalties(account(5), contract(50), 7, 1000),
        Err(SettlementError::NotInitialized)
    ));
    e.initialize(account(999), config(250), contract(2)).unwrap();
    let d = e.calculate_royalties(account(5), contract(50), 7, 1000).unwrap();
    assert_eq!(d.platform_percentage, 250);
    assert_eq!(d.total_amount, 1000);
    assert_eq!(
        d.amounts,
        vec![Payout { payee: account(5), amount: 0 }, Payout { payee: account(5), amount: 975 }]
    );
}
