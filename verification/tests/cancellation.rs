use anchor_orderbook::{
    close_order, derive_order_address, Address, AnchorOrderBookError, CancelOrder, Mint, Order, OrderStatus,
    OrderType, TokenAccount,
};

fn address(n: u8) -> Address {
    Address { bytes: [n; 32] }
}

fn program() -> Address {
    address(200)
}

fn listed() -> Mint {
    Mint { address: address(10), decimals: 0 }
}

fn accepting() -> Mint {
    Mint { address: address(11), decimals: 6 }
}

fn open_order(balance: u64, escrow: u64) -> CancelOrder {
    let owner = address(1);
    let (order_address, bump) = derive_order_address(&program(), &owner, &listed().address, 5).unwrap();
    CancelOrder {
        creator: owner,
        order_address,
        order: Some(Order {
            creator: owner,
            listed_token_mint: listed().address,
            listed_token_amount: escrow,
            listed_token_price: 2,
            accepting_token_mint: accepting().address,
            filled_amount: 0,
            order_type: OrderType::Sell,
            order_status: OrderStatus::Open,
            seed: 5,
            bump,
        }),
        listed_token_mint: listed(),
        accepting_token_mint: accepting(),
        creator_listed_token_ata: TokenAccount { mint: listed().address, owner, amount: balance },
        vault: Some(TokenAccount { mint: listed().address, owner: order_address, amount: escrow }),
    }
}

#[test]
fn cancellation_returns_the_escrow_and_retires_the_record() {
    let mut ctx = open_order(400, 600);
    assert_eq!(close_order(&program(), &mut ctx), Ok(()));
    assert_eq!(ctx.creator_listed_token_ata.amount, 1000);
    assert_eq!(ctx.order, None);
    assert_eq!(ctx.vault, None);
}

#[test]
fn second_cancellation_is_rejected_as_not_open() {
    let mut ctx = open_order(400, 600);
    assert_eq!(close_order(&program(), &mut ctx), Ok(()));
    let after_first = ctx;
    assert_eq!(close_order(&program(), &mut ctx), Err(AnchorOrderBookError::NotOpen));
    assert_eq!(ctx, after_first);
    assert_eq!(ctx.creator_listed_token_ata.amount, 1000);
}

#[test]
fn partially_filled_order_cannot_be_cancelled() {
    let mut ctx = open_order(0, 60);
    let mut order = ctx.order.unwrap();
    order.listed_token_amount = 100;
    order.filled_amount = 40;
    order.order_status = OrderStatus::PartiallyFilled;
    ctx.order = Some(order);
    let before = ctx;
    assert_eq!(close_order(&program(), &mut ctx), Err(AnchorOrderBookError::NotOpen));
    assert_eq!(ctx, before);
}

#[test]
fn filled_order_cannot_be_cancelled() {
    let mut ctx = open_order(0, 0);
    let mut order = ctx.order.unwrap();
    order.listed_token_amount = 100;
    order.filled_amount = 100;
    order.order_status = OrderStatus::Filled;
    ctx.order = Some(order);
    assert_eq!(close_order(&program(), &mut ctx), Err(AnchorOrderBookError::NotOpen));
    assert!(ctx.order.is_some());
}

#[test]
fn cancellation_by_another_caller_is_rejected() {
    let mut ctx = open_order(400, 600);
    ctx.creator = address(2);
    let before = ctx;
    assert_eq!(close_order(&program(), &mut ctx), Err(AnchorOrderBookError::NotOwner));
    assert_eq!(ctx, before);
}

#[test]
fn cancellation_with_another_listed_asset_is_rejected() {
    let mut ctx = open_order(400, 600);
    ctx.listed_token_mint = Mint { address: address(12), decimals: 0 };
    assert_eq!(close_order(&program(), &mut ctx), Err(AnchorOrderBookError::InvalidListedTokenMint));
    assert!(ctx.order.is_some());
}

#[test]
fn cancellation_with_another_accepting_asset_is_rejected() {
    let mut ctx = open_order(400, 600);
    ctx.accepting_token_mint = Mint { address: address(12), decimals: 6 };
    assert_eq!(close_order(&program(), &mut ctx), Err(AnchorOrderBookError::InvalidAcceptingTokenMint));
    assert!(ctx.order.is_some());
}

#[test]
fn cancellation_of_a_record_under_a_foreign_identity_is_rejected() {
    let mut ctx = open_order(400, 600);
    ctx.order_address = address(50);
    assert_eq!(close_order(&program(), &mut ctx), Err(AnchorOrderBookError::InvalidOrderAccount));
    let mut wrong_bump = open_order(400, 600);
    let mut order = wrong_bump.order.unwrap();
    order.bump = order.bump.wrapping_sub(1);
    wrong_bump.order = Some(order);
    assert_eq!(close_order(&program(), &mut wrong_bump), Err(AnchorOrderBookError::InvalidOrderAccount));
    let mut wrong_seed = open_order(400, 600);
    let mut order = wrong_seed.order.unwrap();
    order.seed = 6;
    wrong_seed.order = Some(order);
    assert_eq!(close_order(&program(), &mut wrong_seed), Err(AnchorOrderBookError::InvalidOrderAccount));
}

#[test]
fn cancellation_under_another_program_is_rejected() {
    let mut ctx = open_order(400, 600);
    let other = address(199);
    assert_eq!(close_order(&other, &mut ctx), Err(AnchorOrderBookError::InvalidOrderAccount));
}

#[test]
fn cancellation_into_a_foreign_account_is_rejected() {
    let mut ctx = open_order(400, 600);
    ctx.creator_listed_token_ata.owner = address(2);
    assert_eq!(close_order(&program(), &mut ctx), Err(AnchorOrderBookError::InvalidCreator));
    let mut other = open_order(400, 600);
    other.creator_listed_token_ata.mint = accepting().address;
    assert_eq!(close_order(&program(), &mut other), Err(AnchorOrderBookError::InvalidListedTokenMint));
}

#[test]
fn cancellation_without_the_orders_vault_is_rejected() {
    let mut ctx = open_order(400, 600);
    ctx.vault = None;
    assert_eq!(close_order(&program(), &mut ctx), Err(AnchorOrderBookError::InvalidOrderAccount));
    let mut other = open_order(400, 600);
    other.vault = Some(TokenAccount { mint: listed().address, owner: address(3), amount: 600 });
    assert_eq!(close_order(&program(), &mut other), Err(AnchorOrderBookError::InvalidOrderAccount));
    assert!(other.order.is_some());
}

#[test]
fn cancellation_that_would_overflow_the_creator_is_rejected() {
    let mut ctx = open_order(u64::MAX - 5, 6);
    let before = ctx;
    assert_eq!(close_order(&program(), &mut ctx), Err(AnchorOrderBookError::ArithmeticOverflow));
    assert_eq!(ctx, before);
    let mut fits = open_order(u64::MAX - 6, 6);
    assert_eq!(close_order(&program(), &mut fits), Ok(()));
    assert_eq!(fits.creator_listed_token_ata.amount, u64::MAX);
}

#[test]
fn transfer_back_and_close_alone_checks_only_the_status() {
    let mut ctx = open_order(1, 2);
    ctx.creator = address(2);
    assert_eq!(ctx.transfer_back_and_close(), Ok(()));
    assert_eq!(ctx.creator_listed_token_ata.amount, 3);
    assert_eq!(ctx.order, None);
    assert_eq!(ctx.transfer_back_and_close(), Err(AnchorOrderBookError::NotOpen));
}

#[test]
fn cancellation_takes_the_identity_it_is_given() {
    let mut ctx = open_order(400, 600);
    ctx.order_address = address(60);
    ctx.vault = Some(TokenAccount { mint: listed().address, owner: address(60), amount: 600 });
    let bump = ctx.order.unwrap().bump;
    let before = ctx;
    assert_eq!(ctx.validate(None), Err(AnchorOrderBookError::InvalidOrderAccount));
    assert_eq!(ctx.close_at(None), Err(AnchorOrderBookError::InvalidOrderAccount));
    assert_eq!(ctx.close_at(Some((address(61), bump))), Err(AnchorOrderBookError::InvalidOrderAccount));
    assert_eq!(ctx, before);
    assert_eq!(ctx.validate(Some((address(60), bump))), Ok(()));
    assert_eq!(ctx.close_at(Some((address(60), bump))), Ok(()));
    assert_eq!(ctx.creator_listed_token_ata.amount, 1000);
    assert_eq!(ctx.close_at(Some((address(60), bump))), Err(AnchorOrderBookError::NotOpen));
}
