//! An escrow-based settlement engine for swaps of two assets between peers.
//!
//! A party places a standing order: it lists an amount of one asset at a
//! price in a second asset, and the listed amount goes into a vault that
//! only the order controls. A settlement authority pairs a buy order with a
//! sell order and asks the engine to settle a fill between them. An order
//! that nothing has filled yet can be cancelled, which returns what is in its
//! vault.
//!
//! Each request works on the accounts it is handed, as plain values, and
//! either goes through as a whole or changes nothing. No request makes or
//! loses a unit of any asset.

pub mod address;
pub mod conversion;
pub mod error;
pub mod history;
pub mod instructions;
pub mod lifecycle;
pub mod state;
pub mod token;

use vstd::prelude::*;

pub use crate::address::{derive_order_address, Address};
pub use crate::error::AnchorOrderBookError;
pub use crate::instructions::cancel_order::CancelOrder;
pub use crate::instructions::place_order::{PlaceOrder, PlaceOrderBumps};
pub use crate::instructions::resolve_order::{ResolveOrder, Settlement};
pub use crate::state::layout::ORDER_SPACE;
pub use crate::state::order::{Order, OrderStatus, OrderType};
pub use crate::token::{Mint, TokenAccount};

use crate::address::order_identity;

verus! {

/// The identity under which the record of `owner` must be kept, if the
/// ledger holds the record and can derive one.
pub open spec fn record_identity(program: Address, owner: Address, order: Option<Order>) -> Option<(Address, u8)> {
    match order {
        Some(order) => order_identity(program, owner, order.listed_token_mint, order.seed),
        None => None,
    }
}

/// Places an order for `listed_token_amount` of the listed asset at
/// `listed_token_price`, under the identity that the creator, the listed
/// asset and `seed` derive for the engine `program_id`.
///
/// On success the record is open with nothing filled, exactly the listed
/// amount has gone from the creator's account into the vault, and the
/// record's identity and bump are returned. The placement is rejected, and
/// changes nothing, for the first reason that `PlaceOrder::placement_error`
/// finds.
pub fn place_order(
    program_id: &Address,
    accounts: &mut PlaceOrder,
    seed: u8,
    listed_token_amount: u64,
    listed_token_price: u64,
    order_type: OrderType,
) -> (result: Result<(Address, u8), AnchorOrderBookError>)
    ensures
        result == old(accounts).placement_result(
            order_identity(*program_id, old(accounts).creator, old(accounts).listed_token_mint.address, seed),
            listed_token_amount,
            listed_token_price,
        ),
        *final(accounts) == old(accounts).after_placement(
            order_identity(*program_id, old(accounts).creator, old(accounts).listed_token_mint.address, seed),
            seed,
            listed_token_amount,
            listed_token_price,
            order_type,
        ),
        result is Err ==> *final(accounts) == *old(accounts),
        final(accounts).escrow_total() == old(accounts).escrow_total(),
        result is Ok ==> final(accounts).order->0.well_formed(),
        result is Ok ==> final(accounts).vault->0.amount == old(accounts).vault_before().amount
            + listed_token_amount,
{
    let derived = derive_order_address(
        program_id,
        &accounts.creator,
        &accounts.listed_token_mint.address,
        seed,
    );
    accounts.place_at(derived, seed, listed_token_amount, listed_token_price, order_type)
}

/// Settles `amount` of the sell order's asset between the buy order of
/// `buyer` and the sell order of `seller`, for the engine whose one
/// settlement authority is `authority`.
///
/// On success the buy order's vault has paid the seller
/// `amount * price / 10^decimals`, rounded down, at the sell order's price;
/// the sell order's vault has delivered `amount` to the buyer; and both
/// records have taken the fill. The settlement is rejected, and changes
/// nothing, for the first reason that `ResolveOrder::resolution_error`
/// finds: among them a fill that is more than what is left of the sell
/// order's listing. Either way no unit of either asset is made or lost, no
/// record goes back, and the sell order never has more filled than it
/// listed.
pub fn resolve_order(
    program_id: &Address,
    authority: &Address,
    accounts: &mut ResolveOrder,
    buyer: Address,
    seller: Address,
    amount: u64,
) -> (result: Result<Settlement, AnchorOrderBookError>)
    ensures
        match result {
            Ok(done) => old(accounts).resolution_error(
                *authority,
                record_identity(*program_id, buyer, old(accounts).buy_order),
                record_identity(*program_id, seller, old(accounts).sell_order),
                buyer,
                seller,
                amount,
            ) is None && done == old(accounts).settlement(amount) && done.amount_to_seller == old(
                accounts,
            ).payment(amount) && *final(accounts) == old(accounts).resolved(amount),
            Err(reason) => old(accounts).resolution_error(
                *authority,
                record_identity(*program_id, buyer, old(accounts).buy_order),
                record_identity(*program_id, seller, old(accounts).sell_order),
                buyer,
                seller,
                amount,
            ) == Some(reason) && *final(accounts) == *old(accounts),
        },
        final(accounts).payment_total() == old(accounts).payment_total(),
        final(accounts).delivery_total() == old(accounts).delivery_total(),
        final(accounts).no_record_went_back(*old(accounts)),
        result is Ok ==> final(accounts).sell_within_listing(),
        old(accounts).sell_within_listing() ==> final(accounts).sell_within_listing(),
        old(accounts).backed() ==> final(accounts).backed(),
{
    let buy_identity = match accounts.buy_order {
        Some(order) => derive_order_address(program_id, &buyer, &order.listed_token_mint, order.seed),
        None => None,
    };
    let sell_identity = match accounts.sell_order {
        Some(order) => derive_order_address(program_id, &seller, &order.listed_token_mint, order.seed),
        None => None,
    };
    accounts.resolve_at(authority, buy_identity, sell_identity, &buyer, &seller, amount)
}

/// Cancels an open order at its creator's request.
///
/// On success the creator holds all that was in escrow, and the record and
/// its vault are gone. The cancellation is rejected, and changes nothing,
/// for the first reason that `CancelOrder::cancellation_error` finds: above
/// all with `NotOpen` where the record is missing or a settlement has
/// touched it.
pub fn close_order(program_id: &Address, accounts: &mut CancelOrder) -> (result: Result<(), AnchorOrderBookError>)
    ensures
        result == crate::error::outcome(
            old(accounts).cancellation_error(
                record_identity(*program_id, old(accounts).creator, old(accounts).order),
            ),
        ),
        result is Ok ==> *final(accounts) == old(accounts).closed(),
        result is Err ==> *final(accounts) == *old(accounts),
        final(accounts).escrow_total() == old(accounts).escrow_total(),
{
    let derived = match accounts.order {
        Some(order) => derive_order_address(program_id, &accounts.creator, &order.listed_token_mint, order.seed),
        None => None,
    };
    accounts.close_at(derived)
}

} // verus!
