use anchor_orderbook::{
    derive_order_address, resolve_order, Address, AnchorOrderBookError, Mint, Order, OrderStatus, OrderType,
    ResolveOrder, Settlement, TokenAccount,
};

fn address(n: u8) -> Address {
    Address { bytes: [n; 32] }
}

fn program() -> Address {
    address(200)
}

fn authority() -> Address {
    address(201)
}

fn buyer() -> Address {
    address(1)
}

fn seller() -> Address {
    address(2)
}

fn asset_a(decimals: u8) -> Mint {
    Mint { address: address(10), decimals }
}

fn asset_b() -> Mint {
    Mint { address: address(11), decimals: 6 }
}

/// A sell order of `listed` units of A at `price`, and a buy order that has
/// `offered` units of B in escrow.
fn pair(listed: u64, price: u64, decimals: u8, offered: u64) -> ResolveOrder {
    let a = asset_a(decimals);
    let b = asset_b();
    let (buy_order_address, buy_bump) = derive_order_address(&program(), &buyer(), &b.address, 0).unwrap();
    let (sell_order_address, sell_bump) = derive_order_address(&program(), &seller(), &a.address, 0).unwrap();
    ResolveOrder {
        cranker: authority(),
        seller_mint: a,
        buyer_mint: b,
        buy_order_address,
        buy_order: Some(Order {
            creator: buyer(),
            listed_token_mint: b.address,
            listed_token_amount: offered,
            listed_token_price: 1,
            accepting_token_mint: a.address,
            filled_amount: 0,
            order_type: OrderType::Buy,
            order_status: OrderStatus::Open,
            seed: 0,
            bump: buy_bump,
        }),
        sell_order_address,
        sell_order: Some(Order {
            creator: seller(),
            listed_token_mint: a.address,
            listed_token_amount: listed,
            listed_token_price: price,
            accepting_token_mint: b.address,
            filled_amount: 0,
            order_type: OrderType::Sell,
            order_status: OrderStatus::Open,
            seed: 0,
            bump: sell_bump,
        }),
        buy_order_vault: TokenAccount { mint: b.address, owner: buy_order_address, amount: offered },
        sell_order_vault: TokenAccount { mint: a.address, owner: sell_order_address, amount: listed },
        buyer_ata: TokenAccount { mint: a.address, owner: buyer(), amount: 0 },
        seller_ata: TokenAccount { mint: b.address, owner: seller(), amount: 0 },
    }
}

fn settle(ctx: &mut ResolveOrder, fill: u64) -> Result<Settlement, AnchorOrderBookError> {
    resolve_order(&program(), &authority(), ctx, buyer(), seller(), fill)
}

#[test]
fn settlement_pays_the_seller_and_delivers_the_fill() {
    let mut ctx = pair(100, 3, 0, 1000);
    let done = settle(&mut ctx, 10).unwrap();
    assert_eq!(done.amount_to_seller, 30);
    assert_eq!(done.amount_to_buyer, 10);
    assert_eq!(ctx.buy_order_vault.amount, 970);
    assert_eq!(ctx.seller_ata.amount, 30);
    assert_eq!(ctx.sell_order_vault.amount, 90);
    assert_eq!(ctx.buyer_ata.amount, 10);
    assert_eq!(Some(done.buy_order), ctx.buy_order);
    assert_eq!(Some(done.sell_order), ctx.sell_order);
}

#[test]
fn settlement_scales_the_payment_by_the_decimals_of_the_sold_asset() {
    let mut ctx = pair(5_000_000, 2, 6, 1000);
    let done = settle(&mut ctx, 1_500_000).unwrap();
    assert_eq!(done.amount_to_seller, 3);
    assert_eq!(ctx.seller_ata.amount, 3);
    assert_eq!(ctx.buy_order_vault.amount, 997);
    assert_eq!(ctx.buyer_ata.amount, 1_500_000);
    assert_eq!(ctx.sell_order_vault.amount, 3_500_000);
}

#[test]
fn settlement_rounds_the_payment_down() {
    let mut ctx = pair(5_000_000, 1, 6, 1000);
    let done = settle(&mut ctx, 1_999_999).unwrap();
    assert_eq!(done.amount_to_seller, 1);
    assert_eq!(ctx.seller_ata.amount, 1);
    assert_eq!(ctx.buyer_ata.amount, 1_999_999);
}

#[test]
fn settlement_makes_and_loses_nothing() {
    let mut ctx = pair(100, 7, 1, 1000);
    ctx.buyer_ata.amount = 5;
    ctx.seller_ata.amount = 11;
    let payment_side = ctx.buy_order_vault.amount + ctx.seller_ata.amount;
    let delivery_side = ctx.sell_order_vault.amount + ctx.buyer_ata.amount;
    for fill in [13u64, 1, 29, 57] {
        settle(&mut ctx, fill).unwrap();
        assert_eq!(ctx.buy_order_vault.amount + ctx.seller_ata.amount, payment_side);
        assert_eq!(ctx.sell_order_vault.amount + ctx.buyer_ata.amount, delivery_side);
    }
    assert_eq!(ctx.sell_order_vault.amount, 0);
    assert_eq!(ctx.buyer_ata.amount, 105);
    assert_eq!(ctx.seller_ata.amount, 11 + 9 + 0 + 20 + 39);
}

#[test]
fn partial_fills_accumulate_until_the_order_is_filled() {
    let mut ctx = pair(100, 1, 0, 1000);
    settle(&mut ctx, 40).unwrap();
    let sell = ctx.sell_order.unwrap();
    assert_eq!(sell.filled_amount, 40);
    assert_eq!(sell.order_status, OrderStatus::PartiallyFilled);
    settle(&mut ctx, 60).unwrap();
    let sell = ctx.sell_order.unwrap();
    assert_eq!(sell.filled_amount, 100);
    assert_eq!(sell.order_status, OrderStatus::Filled);
    assert_eq!(ctx.buy_order.unwrap().filled_amount, 100);
    assert_eq!(ctx.buy_order.unwrap().order_status, OrderStatus::PartiallyFilled);
    let before = ctx;
    assert_eq!(settle(&mut ctx, 1), Err(AnchorOrderBookError::StaleOrder));
    assert_eq!(ctx, before);
}

#[test]
fn buy_order_is_filled_when_it_has_taken_all_it_can_at_the_sell_price() {
    let mut ctx = pair(2000, 2, 0, 1000);
    settle(&mut ctx, 499).unwrap();
    assert_eq!(ctx.buy_order.unwrap().order_status, OrderStatus::PartiallyFilled);
    assert_eq!(ctx.sell_order.unwrap().order_status, OrderStatus::PartiallyFilled);
    settle(&mut ctx, 1).unwrap();
    assert_eq!(ctx.buy_order.unwrap().filled_amount, 500);
    assert_eq!(ctx.buy_order.unwrap().order_status, OrderStatus::Filled);
    assert_eq!(ctx.sell_order.unwrap().order_status, OrderStatus::PartiallyFilled);
    assert_eq!(ctx.buy_order_vault.amount, 0);
    assert_eq!(settle(&mut ctx, 1), Err(AnchorOrderBookError::StaleOrder));
}

#[test]
fn records_never_go_back() {
    let mut ctx = pair(100, 1, 0, 1000);
    let mut filled = (0u64, 0u64);
    let rank = |status: OrderStatus| match status {
        OrderStatus::Open => 0,
        OrderStatus::PartiallyFilled => 1,
        OrderStatus::Filled => 2,
    };
    let mut ranks = (0, 0);
    for fill in [1u64, 0, 98, 500, 1, 1] {
        let _ = settle(&mut ctx, fill);
        let buy = ctx.buy_order.unwrap();
        let sell = ctx.sell_order.unwrap();
        assert!(buy.filled_amount >= filled.0 && sell.filled_amount >= filled.1);
        assert!(rank(buy.order_status) >= ranks.0 && rank(sell.order_status) >= ranks.1);
        filled = (buy.filled_amount, sell.filled_amount);
        ranks = (rank(buy.order_status), rank(sell.order_status));
    }
    assert_eq!(filled, (100, 100));
    assert_eq!(ctx.sell_order.unwrap().order_status, OrderStatus::Filled);
}

#[test]
fn settlement_by_another_caller_is_rejected() {
    let mut ctx = pair(100, 1, 0, 1000);
    ctx.cranker = address(3);
    let before = ctx;
    assert_eq!(settle(&mut ctx, 10), Err(AnchorOrderBookError::InvalidAuthority));
    assert_eq!(ctx, before);
}

#[test]
fn settlement_of_nothing_is_rejected() {
    let mut ctx = pair(100, 1, 0, 1000);
    let before = ctx;
    assert_eq!(settle(&mut ctx, 0), Err(AnchorOrderBookError::InvalidParameters));
    assert_eq!(ctx, before);
}

#[test]
fn settlement_of_a_missing_order_is_rejected() {
    let mut ctx = pair(100, 1, 0, 1000);
    ctx.sell_order = None;
    assert_eq!(settle(&mut ctx, 10), Err(AnchorOrderBookError::StaleOrder));
    let mut other = pair(100, 1, 0, 1000);
    other.buy_order = None;
    assert_eq!(settle(&mut other, 10), Err(AnchorOrderBookError::StaleOrder));
}

#[test]
fn settlement_of_orders_on_the_wrong_side_is_rejected() {
    let mut ctx = pair(100, 1, 0, 1000);
    let mut buy = ctx.buy_order.unwrap();
    buy.order_type = OrderType::Sell;
    ctx.buy_order = Some(buy);
    let before = ctx;
    assert_eq!(settle(&mut ctx, 10), Err(AnchorOrderBookError::InvalidOrderType));
    assert_eq!(ctx, before);
    let mut other = pair(100, 1, 0, 1000);
    let mut sell = other.sell_order.unwrap();
    sell.order_type = OrderType::Buy;
    other.sell_order = Some(sell);
    assert_eq!(settle(&mut other, 10), Err(AnchorOrderBookError::InvalidOrderType));
}

#[test]
fn settlement_for_another_buyer_or_seller_is_rejected() {
    let mut ctx = pair(100, 1, 0, 1000);
    assert_eq!(
        resolve_order(&program(), &authority(), &mut ctx, address(3), seller(), 10),
        Err(AnchorOrderBookError::InvalidCreator)
    );
    assert_eq!(
        resolve_order(&program(), &authority(), &mut ctx, buyer(), address(3), 10),
        Err(AnchorOrderBookError::InvalidCreator)
    );
    assert_eq!(ctx, pair(100, 1, 0, 1000));
}

#[test]
fn settlement_of_a_record_under_a_foreign_identity_is_rejected() {
    let mut ctx = pair(100, 1, 0, 1000);
    ctx.sell_order_address = address(50);
    ctx.sell_order_vault.owner = address(50);
    assert_eq!(settle(&mut ctx, 10), Err(AnchorOrderBookError::InvalidOrderAccount));
    let mut other = pair(100, 1, 0, 1000);
    let mut buy = other.buy_order.unwrap();
    buy.seed = 1;
    other.buy_order = Some(buy);
    assert_eq!(settle(&mut other, 10), Err(AnchorOrderBookError::InvalidOrderAccount));
}

#[test]
fn settlement_with_foreign_asset_descriptors_is_rejected() {
    let mut ctx = pair(100, 1, 0, 1000);
    ctx.seller_mint = Mint { address: address(12), decimals: 0 };
    assert_eq!(settle(&mut ctx, 10), Err(AnchorOrderBookError::InvalidListedTokenMint));
    let mut other = pair(100, 1, 0, 1000);
    other.buyer_mint = Mint { address: address(12), decimals: 6 };
    assert_eq!(settle(&mut other, 10), Err(AnchorOrderBookError::InvalidListedTokenMint));
}

#[test]
fn settlement_with_foreign_token_accounts_is_rejected() {
    let mut ctx = pair(100, 1, 0, 1000);
    ctx.buy_order_vault.owner = address(3);
    assert_eq!(settle(&mut ctx, 10), Err(AnchorOrderBookError::InvalidOrderAccount));
    let mut ctx = pair(100, 1, 0, 1000);
    ctx.sell_order_vault.mint = asset_b().address;
    assert_eq!(settle(&mut ctx, 10), Err(AnchorOrderBookError::InvalidListedTokenMint));
    let mut ctx = pair(100, 1, 0, 1000);
    ctx.buyer_ata.owner = seller();
    assert_eq!(settle(&mut ctx, 10), Err(AnchorOrderBookError::InvalidCreator));
    let mut ctx = pair(100, 1, 0, 1000);
    ctx.seller_ata.mint = asset_a(0).address;
    assert_eq!(settle(&mut ctx, 10), Err(AnchorOrderBookError::InvalidListedTokenMint));
    assert_eq!(ctx.sell_order.unwrap().filled_amount, 0);
}

#[test]
fn settlement_beyond_the_sell_vault_is_rejected() {
    let mut ctx = pair(100, 1, 0, 1000);
    ctx.sell_order_vault.amount = 50;
    let before = ctx;
    assert_eq!(settle(&mut ctx, 51), Err(AnchorOrderBookError::VaultUnderfunded));
    assert_eq!(ctx, before);
    assert!(settle(&mut ctx, 50).is_ok());
    assert_eq!(ctx.sell_order_vault.amount, 0);
}

#[test]
fn settlement_beyond_the_listing_is_rejected() {
    let mut ctx = pair(100, 1, 0, 1000);
    let before = ctx;
    assert_eq!(settle(&mut ctx, 101), Err(AnchorOrderBookError::InvalidParameters));
    assert_eq!(ctx, before);
    assert!(settle(&mut ctx, 100).is_ok());
    assert_eq!(ctx.sell_order.unwrap().filled_amount, 100);
}

#[test]
fn settlement_beyond_the_listing_is_rejected_whatever_the_vault_holds() {
    let mut ctx = pair(100, 1, 0, 1000);
    ctx.sell_order_vault.amount = 200;
    let before = ctx;
    assert_eq!(settle(&mut ctx, 150), Err(AnchorOrderBookError::InvalidParameters));
    assert_eq!(settle(&mut ctx, 200), Err(AnchorOrderBookError::InvalidParameters));
    assert_eq!(settle(&mut ctx, 101), Err(AnchorOrderBookError::InvalidParameters));
    assert_eq!(ctx, before);
    settle(&mut ctx, 40).unwrap();
    let before = ctx;
    assert_eq!(settle(&mut ctx, 61), Err(AnchorOrderBookError::InvalidParameters));
    assert_eq!(ctx, before);
    settle(&mut ctx, 60).unwrap();
    let sell = ctx.sell_order.unwrap();
    assert_eq!(sell.filled_amount, 100);
    assert_eq!(sell.listed_token_amount, 100);
    assert_eq!(sell.order_status, OrderStatus::Filled);
    assert_eq!(ctx.sell_order_vault.amount, 100);
    assert_eq!(ctx.buyer_ata.amount, 100);
    assert_eq!(settle(&mut ctx, 1), Err(AnchorOrderBookError::StaleOrder));
}

#[test]
fn sell_order_never_has_more_filled_than_it_listed() {
    let mut ctx = pair(100, 1, 0, 1000);
    ctx.sell_order_vault.amount = 10_000;
    for fill in [30u64, 71, 70, 1, u64::MAX, 5, 0] {
        let _ = settle(&mut ctx, fill);
        let sell = ctx.sell_order.unwrap();
        assert!(sell.filled_amount <= sell.listed_token_amount);
    }
    assert_eq!(ctx.sell_order.unwrap().filled_amount, 100);
}

#[test]
fn record_update_beyond_the_listing_is_rejected() {
    let mut ctx = pair(100, 1, 0, 1000);
    let before = ctx;
    assert_eq!(ctx.update_orders(101), Err(AnchorOrderBookError::InvalidParameters));
    assert_eq!(ctx, before);
    assert_eq!(ctx.update_orders(99), Ok(()));
    assert_eq!(ctx.update_orders(2), Err(AnchorOrderBookError::InvalidParameters));
    assert_eq!(ctx.update_orders(1), Ok(()));
    assert_eq!(ctx.sell_order.unwrap().filled_amount, 100);
    assert_eq!(ctx.sell_order.unwrap().order_status, OrderStatus::Filled);
}

#[test]
fn order_tells_a_fill_beyond_its_listing() {
    let mut order = pair(100, 1, 0, 1000).sell_order.unwrap();
    assert!(!order.overfills(0));
    assert!(!order.overfills(100));
    assert!(order.overfills(101));
    assert!(order.overfills(u64::MAX));
    order.filled_amount = 40;
    assert!(!order.overfills(60));
    assert!(order.overfills(61));
    order.filled_amount = 101;
    assert!(order.overfills(0));
}

#[test]
fn settlement_beyond_the_buy_vault_is_rejected() {
    let mut ctx = pair(100, 11, 0, 1000);
    let before = ctx;
    assert_eq!(settle(&mut ctx, 91), Err(AnchorOrderBookError::VaultUnderfunded));
    assert_eq!(ctx, before);
    assert!(settle(&mut ctx, 90).is_ok());
    assert_eq!(ctx.buy_order_vault.amount, 10);
}

#[test]
fn settlement_whose_payment_overflows_is_rejected() {
    let mut ctx = pair(u64::MAX, u64::MAX, 0, 1000);
    let before = ctx;
    assert_eq!(settle(&mut ctx, 2), Err(AnchorOrderBookError::ArithmeticOverflow));
    assert_eq!(ctx, before);
}

#[test]
fn settlement_with_too_many_decimals_is_rejected() {
    let mut ctx = pair(100, 1, 20, 1000);
    assert_eq!(settle(&mut ctx, 10), Err(AnchorOrderBookError::ArithmeticOverflow));
    assert_eq!(ctx, pair(100, 1, 20, 1000));
}

#[test]
fn settlement_whose_fill_target_overflows_changes_nothing() {
    let mut ctx = pair(100, 1, 19, u64::MAX);
    let before = ctx;
    assert_eq!(settle(&mut ctx, 10), Err(AnchorOrderBookError::ArithmeticOverflow));
    assert_eq!(ctx, before);
}

#[test]
fn settlement_that_would_overflow_a_receiver_is_rejected() {
    let mut ctx = pair(100, 1, 0, 1000);
    ctx.buyer_ata.amount = u64::MAX - 9;
    let before = ctx;
    assert_eq!(settle(&mut ctx, 10), Err(AnchorOrderBookError::ArithmeticOverflow));
    assert_eq!(ctx, before);
    assert!(settle(&mut ctx, 9).is_ok());
    assert_eq!(ctx.buyer_ata.amount, u64::MAX);
}

#[test]
fn settlement_that_would_overflow_the_filled_amount_is_rejected() {
    let mut ctx = pair(100, 1, 0, 1000);
    let mut buy = ctx.buy_order.unwrap();
    buy.filled_amount = u64::MAX - 5;
    buy.order_status = OrderStatus::PartiallyFilled;
    ctx.buy_order = Some(buy);
    let before = ctx;
    assert_eq!(settle(&mut ctx, 6), Err(AnchorOrderBookError::ArithmeticOverflow));
    assert_eq!(ctx, before);
}

#[test]
fn settlement_at_price_zero_is_rejected() {
    let mut ctx = pair(100, 0, 0, 1000);
    let before = ctx;
    assert_eq!(settle(&mut ctx, 10), Err(AnchorOrderBookError::ArithmeticOverflow));
    assert_eq!(ctx, before);
}

#[test]
fn the_three_steps_of_a_settlement_work_alone() {
    let mut ctx = pair(100, 3, 0, 1000);
    assert_eq!(ctx.transfer_from_buyer_to_seller(10), Ok(30));
    assert_eq!(ctx.buy_order_vault.amount, 970);
    assert_eq!(ctx.seller_ata.amount, 30);
    assert_eq!(ctx.transfer_from_seller_to_buyer(10), Ok(()));
    assert_eq!(ctx.sell_order_vault.amount, 90);
    assert_eq!(ctx.buyer_ata.amount, 10);
    assert_eq!(ctx.sell_order.unwrap().filled_amount, 0);
    assert_eq!(ctx.update_orders(10), Ok(()));
    assert_eq!(ctx.sell_order.unwrap().filled_amount, 10);
    assert_eq!(ctx.buy_order.unwrap().filled_amount, 10);
    assert_eq!(ctx.sell_order.unwrap().order_status, OrderStatus::PartiallyFilled);
    assert_eq!(ctx.buy_order.unwrap().order_status, OrderStatus::PartiallyFilled);
    assert_eq!(ctx.update_orders(0), Err(AnchorOrderBookError::InvalidParameters));
    assert_eq!(ctx.transfer_from_seller_to_buyer(91), Err(AnchorOrderBookError::VaultUnderfunded));
    assert_eq!(ctx.transfer_from_buyer_to_seller(324), Err(AnchorOrderBookError::VaultUnderfunded));
    ctx.sell_order = None;
    assert_eq!(ctx.transfer_from_buyer_to_seller(1), Err(AnchorOrderBookError::StaleOrder));
    assert_eq!(ctx.update_orders(1), Err(AnchorOrderBookError::StaleOrder));
}

#[test]
fn settlement_takes_the_identities_it_is_given() {
    let mut ctx = pair(100, 3, 0, 1000);
    ctx.buy_order_address = address(60);
    ctx.buy_order_vault.owner = address(60);
    ctx.sell_order_address = address(61);
    ctx.sell_order_vault.owner = address(61);
    let buy_bump = ctx.buy_order.unwrap().bump;
    let sell_bump = ctx.sell_order.unwrap().bump;
    let before = ctx;
    assert_eq!(
        ctx.validate(&authority(), Some((address(60), buy_bump)), None, &buyer(), &seller(), 10),
        Err(AnchorOrderBookError::InvalidOrderAccount)
    );
    assert_eq!(
        ctx.resolve_at(
            &authority(),
            Some((address(60), buy_bump)),
            Some((address(61), sell_bump.wrapping_add(1))),
            &buyer(),
            &seller(),
            10
        ),
        Err(AnchorOrderBookError::InvalidOrderAccount)
    );
    assert_eq!(ctx, before);
    assert_eq!(
        ctx.validate(
            &authority(),
            Some((address(60), buy_bump)),
            Some((address(61), sell_bump)),
            &buyer(),
            &seller(),
            10
        ),
        Ok(())
    );
    let done = ctx
        .resolve_at(
            &authority(),
            Some((address(60), buy_bump)),
            Some((address(61), sell_bump)),
            &buyer(),
            &seller(),
            10,
        )
        .unwrap();
    assert_eq!(done.amount_to_seller, 30);
    assert_eq!(ctx.buyer_ata.amount, 10);
}

#[test]
fn settlement_accepts_whoever_is_named_as_the_authority() {
    let mut ctx = pair(100, 3, 0, 1000);
    ctx.cranker = address(77);
    assert_eq!(
        resolve_order(&program(), &authority(), &mut ctx, buyer(), seller(), 10),
        Err(AnchorOrderBookError::InvalidAuthority)
    );
    assert!(resolve_order(&program(), &address(77), &mut ctx, buyer(), seller(), 10).is_ok());
}
