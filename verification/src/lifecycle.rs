//! How the accounts that one request leaves behind serve the next: what a
//! placement writes is what a settlement and a cancellation accept.

use vstd::prelude::*;
use crate::address::{order_identity, Address};
use crate::instructions::cancel_order::CancelOrder;
use crate::instructions::place_order::PlaceOrder;
use crate::instructions::resolve_order::ResolveOrder;
use crate::state::order::OrderType;
use crate::token::TokenAccount;

verus! {

/// The accounts of a cancellation that takes up the accounts of a
/// placement as they stand.
pub open spec fn cancellation_of(placement: PlaceOrder) -> CancelOrder {
    CancelOrder {
        creator: placement.creator,
        order_address: placement.order_address,
        order: placement.order,
        listed_token_mint: placement.listed_token_mint,
        accepting_token_mint: placement.accepting_token_mint,
        creator_listed_token_ata: placement.creator_listed_token_ata,
        vault: placement.vault,
    }
}

/// The accounts of a settlement between the orders that two placements
/// have left, asked for by `cranker`, with the accounts in which the buyer
/// and the seller receive.
pub open spec fn settlement_of(
    cranker: Address,
    buy: PlaceOrder,
    sell: PlaceOrder,
    buyer_ata: TokenAccount,
    seller_ata: TokenAccount,
) -> ResolveOrder {
    ResolveOrder {
        cranker,
        seller_mint: sell.listed_token_mint,
        buyer_mint: buy.listed_token_mint,
        buy_order_address: buy.order_address,
        buy_order: buy.order,
        sell_order_address: sell.order_address,
        sell_order: sell.order,
        buy_order_vault: buy.vault_before(),
        sell_order_vault: sell.vault_before(),
        buyer_ata,
        seller_ata,
    }
}

/// The identity of the order that a placement of `accounts` under `seed`
/// opens for `program`.
pub open spec fn placement_identity(program: Address, accounts: PlaceOrder, seed: u8) -> Option<(Address, u8)> {
    order_identity(program, accounts.creator, accounts.listed_token_mint.address, seed)
}

/// A placement can be undone. An order that has just been placed into a
/// vault that held nothing can be cancelled by its creator, and the
/// cancellation leaves the creator's account as it was before the
/// placement, with no record and no vault.
pub proof fn lemma_placement_can_be_undone(
    program: Address,
    accounts: PlaceOrder,
    seed: u8,
    listed_token_amount: u64,
    listed_token_price: u64,
    order_type: OrderType,
)
    requires
        accounts.placement_error(
            placement_identity(program, accounts, seed),
            listed_token_amount,
            listed_token_price,
        ) is None,
        accounts.vault_before().amount == 0,
    ensures
        ({
            let placed = cancellation_of(
                accounts.after_placement(
                    placement_identity(program, accounts, seed),
                    seed,
                    listed_token_amount,
                    listed_token_price,
                    order_type,
                ),
            );
            &&& placed.cancellation_error(crate::record_identity(program, placed.creator, placed.order)) is None
            &&& placed.closed().creator_listed_token_ata == accounts.creator_listed_token_ata
            &&& placed.closed().order is None
            &&& placed.closed().vault is None
        }),
{
}

/// Placements back their orders. Where a buy order and a sell order have
/// each been placed into a vault that held nothing, the accounts of a
/// settlement between them are backed: both records are well formed, the
/// sell order's vault holds all it listed and the buy order's vault all it
/// offered.
pub proof fn lemma_placements_are_backed(
    cranker: Address,
    buy: PlaceOrder,
    buy_identity: Option<(Address, u8)>,
    buy_seed: u8,
    offered: u64,
    buy_price: u64,
    sell: PlaceOrder,
    sell_identity: Option<(Address, u8)>,
    sell_seed: u8,
    listed: u64,
    sell_price: u64,
    buyer_ata: TokenAccount,
    seller_ata: TokenAccount,
)
    requires
        buy.placement_error(buy_identity, offered, buy_price) is None,
        sell.placement_error(sell_identity, listed, sell_price) is None,
        buy.vault_before().amount == 0,
        sell.vault_before().amount == 0,
    ensures
        settlement_of(
            cranker,
            buy.after_placement(buy_identity, buy_seed, offered, buy_price, OrderType::Buy),
            sell.after_placement(sell_identity, sell_seed, listed, sell_price, OrderType::Sell),
            buyer_ata,
            seller_ata,
        ).backed(),
{
}

/// Placed orders can be settled. A settlement between a buy order and a
/// sell order as their placements left them is not refused, provided that
/// the settlement authority asks for it, the fill is positive and no more
/// than the sell order listed, and the buyer and the seller each receive in
/// an account of their own that carries the other order's asset.
pub proof fn lemma_placed_orders_can_be_matched(
    program: Address,
    authority: Address,
    buy: PlaceOrder,
    buy_seed: u8,
    offered: u64,
    buy_price: u64,
    sell: PlaceOrder,
    sell_seed: u8,
    listed: u64,
    sell_price: u64,
    buyer_ata: TokenAccount,
    seller_ata: TokenAccount,
    fill: u64,
)
    requires
        buy.placement_error(placement_identity(program, buy, buy_seed), offered, buy_price) is None,
        sell.placement_error(placement_identity(program, sell, sell_seed), listed, sell_price) is None,
        buyer_ata.mint == sell.listed_token_mint.address,
        buyer_ata.owner == buy.creator,
        seller_ata.mint == buy.listed_token_mint.address,
        seller_ata.owner == sell.creator,
        0 < fill <= listed,
    ensures
        ({
            let accounts = settlement_of(
                authority,
                buy.after_placement(
                    placement_identity(program, buy, buy_seed),
                    buy_seed,
                    offered,
                    buy_price,
                    OrderType::Buy,
                ),
                sell.after_placement(
                    placement_identity(program, sell, sell_seed),
                    sell_seed,
                    listed,
                    sell_price,
                    OrderType::Sell,
                ),
                buyer_ata,
                seller_ata,
            );
            accounts.validation_error(
                authority,
                crate::record_identity(program, buy.creator, accounts.buy_order),
                crate::record_identity(program, sell.creator, accounts.sell_order),
                buy.creator,
                sell.creator,
                fill,
            ) is None
        }),
{
}

} // verus!
