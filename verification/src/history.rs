//! Histories of requests between two parties: whatever is asked for, in
//! whatever order, no unit of either asset is made or lost.
//!
//! The model holds the accounts of a buyer and a seller: for each the
//! accounts of their placement, and the account in which they receive the
//! other's asset. A request is served as the engine serves it, going through
//! or changing nothing.

use vstd::prelude::*;
use crate::address::Address;
use crate::instructions::place_order::PlaceOrder;
use crate::lifecycle::{cancellation_of, placement_identity, settlement_of};
use crate::record_identity;
use crate::state::order::OrderType;
use crate::token::TokenAccount;

verus! {

/// The accounts of two parties and the engine that serves them.
pub struct Market {
    /// The engine's identity.
    pub program: Address,
    /// The engine's settlement authority.
    pub authority: Address,
    /// The buyer's side: the account they pay from, their order and its
    /// vault.
    pub buy: PlaceOrder,
    /// The seller's side: the account they sell from, their order and its
    /// vault.
    pub sell: PlaceOrder,
    /// Where the buyer receives what the seller sells.
    pub buyer_ata: TokenAccount,
    /// Where the seller receives what the buyer pays.
    pub seller_ata: TokenAccount,
}

/// What can be asked of the engine.
pub enum Request {
    /// The buyer places a buy order.
    PlaceBuy { seed: u8, listed_token_amount: u64, listed_token_price: u64 },
    /// The seller places a sell order.
    PlaceSell { seed: u8, listed_token_amount: u64, listed_token_price: u64 },
    /// `cranker` asks for a settlement of `fill` between the two orders.
    Resolve { cranker: Address, fill: u64 },
    /// The buyer cancels their order.
    CloseBuy,
    /// The seller cancels their order.
    CloseSell,
}

/// The accounts of one side after its order has been placed, or after the
/// placement has been rejected.
pub open spec fn side_after_placement(
    program: Address,
    side: PlaceOrder,
    seed: u8,
    listed_token_amount: u64,
    listed_token_price: u64,
    order_type: OrderType,
) -> PlaceOrder {
    side.after_placement(
        placement_identity(program, side, seed),
        seed,
        listed_token_amount,
        listed_token_price,
        order_type,
    )
}

/// The accounts of one side after its creator has asked to cancel its
/// order.
pub open spec fn side_after_cancellation(program: Address, side: PlaceOrder) -> PlaceOrder {
    let accounts = cancellation_of(side);
    if accounts.cancellation_error(record_identity(program, accounts.creator, accounts.order)) is None {
        PlaceOrder {
            order: accounts.closed().order,
            vault: accounts.closed().vault,
            creator_listed_token_ata: accounts.closed().creator_listed_token_ata,
            ..side
        }
    } else {
        side
    }
}

impl Market {
    /// The accounts of a settlement in this market, asked for by `cranker`.
    pub open spec fn settlement_accounts(self, cranker: Address) -> crate::ResolveOrder {
        settlement_of(cranker, self.buy, self.sell, self.buyer_ata, self.seller_ata)
    }

    /// Why a settlement of `fill` is rejected in this market, if it is.
    pub open spec fn settlement_error(self, cranker: Address, fill: u64) -> Option<
        crate::AnchorOrderBookError,
    > {
        self.settlement_accounts(cranker).resolution_error(
            self.authority,
            record_identity(self.program, self.buy.creator, self.buy.order),
            record_identity(self.program, self.sell.creator, self.sell.order),
            self.buy.creator,
            self.sell.creator,
            fill,
        )
    }

    /// The market after one request.
    pub open spec fn after(self, request: Request) -> Market {
        match request {
            Request::PlaceBuy { seed, listed_token_amount, listed_token_price } => Market {
                buy: side_after_placement(
                    self.program,
                    self.buy,
                    seed,
                    listed_token_amount,
                    listed_token_price,
                    OrderType::Buy,
                ),
                ..self
            },
            Request::PlaceSell { seed, listed_token_amount, listed_token_price } => Market {
                sell: side_after_placement(
                    self.program,
                    self.sell,
                    seed,
                    listed_token_amount,
                    listed_token_price,
                    OrderType::Sell,
                ),
                ..self
            },
            Request::Resolve { cranker, fill } => if self.settlement_error(cranker, fill) is None {
                let settled = self.settlement_accounts(cranker).resolved(fill);
                Market {
                    buy: PlaceOrder {
                        order: settled.buy_order,
                        vault: Some(settled.buy_order_vault),
                        ..self.buy
                    },
                    sell: PlaceOrder {
                        order: settled.sell_order,
                        vault: Some(settled.sell_order_vault),
                        ..self.sell
                    },
                    buyer_ata: settled.buyer_ata,
                    seller_ata: settled.seller_ata,
                    ..self
                }
            } else {
                self
            },
            Request::CloseBuy => Market { buy: side_after_cancellation(self.program, self.buy), ..self },
            Request::CloseSell => Market { sell: side_after_cancellation(self.program, self.sell), ..self },
        }
    }

    /// The market after the requests of `history`, served in turn.
    pub open spec fn after_all(self, history: Seq<Request>) -> Market
        decreases history.len(),
    {
        if history.len() == 0 {
            self
        } else {
            self.after_all(history.drop_last()).after(history.last())
        }
    }

    /// All there is of the asset that the buyer pays with: what the buyer
    /// still holds, what the buy order has in escrow, and what the seller has
    /// received.
    pub open spec fn payment_asset_total(self) -> int {
        self.buy.escrow_total() + self.seller_ata.amount
    }

    /// All there is of the asset that the seller sells: what the seller
    /// still holds, what the sell order has in escrow, and what the buyer has
    /// received.
    pub open spec fn sold_asset_total(self) -> int {
        self.sell.escrow_total() + self.buyer_ata.amount
    }
}

/// One request makes and loses nothing, whether it goes through or not.
pub proof fn lemma_request_conserves(market: Market, request: Request)
    ensures
        market.after(request).payment_asset_total() == market.payment_asset_total(),
        market.after(request).sold_asset_total() == market.sold_asset_total(),
{
    match request {
        Request::Resolve { cranker, fill } => {
            if market.settlement_error(cranker, fill) is None {
                crate::instructions::resolve_order::lemma_settlement_conserves(
                    market.settlement_accounts(cranker),
                    market.authority,
                    record_identity(market.program, market.buy.creator, market.buy.order),
                    record_identity(market.program, market.sell.creator, market.sell.order),
                    market.buy.creator,
                    market.sell.creator,
                    fill,
                );
            }
        },
        _ => {},
    }
}

/// No history makes or loses anything. For every sequence of placements,
/// settlements and cancellations, each going through or rejected, the total
/// of each asset over the owners' accounts and the vaults is what it was at
/// the start.
pub proof fn lemma_history_conserves(market: Market, history: Seq<Request>)
    ensures
        market.after_all(history).payment_asset_total() == market.payment_asset_total(),
        market.after_all(history).sold_asset_total() == market.sold_asset_total(),
    decreases history.len(),
{
    if history.len() > 0 {
        lemma_history_conserves(market, history.drop_last());
        lemma_request_conserves(market.after_all(history.drop_last()), history.last());
    }
}

impl Market {
    /// What holds of a market in which only the engine has moved what is in
    /// escrow: each record is well formed, the sell order's vault holds
    /// exactly what is left of its listing, the buy order's vault no more
    /// than the order offered, and where there is no order, nothing is in
    /// escrow.
    pub open spec fn sound(self) -> bool {
        &&& self.settlement_accounts(self.authority).backed()
        &&& self.buy.order is None ==> self.buy.vault_before().amount == 0
        &&& self.sell.order is None ==> self.sell.vault_before().amount == 0
    }
}

/// One request keeps a sound market sound.
pub proof fn lemma_request_keeps_sound(market: Market, request: Request)
    requires
        market.sound(),
    ensures
        market.after(request).sound(),
{
    match request {
        Request::Resolve { cranker, fill } => {
            if market.settlement_error(cranker, fill) is None {
                crate::instructions::resolve_order::lemma_settlement_keeps_backing(
                    market.settlement_accounts(cranker),
                    market.authority,
                    record_identity(market.program, market.buy.creator, market.buy.order),
                    record_identity(market.program, market.sell.creator, market.sell.order),
                    market.buy.creator,
                    market.sell.creator,
                    fill,
                );
            }
        },
        _ => {},
    }
}

/// A market that starts sound is sound at all times: after every history
/// each record is well formed, so a sell order never has more filled than
/// it listed and is filled exactly when all of its listing is taken, and
/// its vault holds exactly the rest.
pub proof fn lemma_history_keeps_sound(market: Market, history: Seq<Request>)
    requires
        market.sound(),
    ensures
        market.after_all(history).sound(),
    decreases history.len(),
{
    if history.len() > 0 {
        lemma_history_keeps_sound(market, history.drop_last());
        lemma_request_keeps_sound(market.after_all(history.drop_last()), history.last());
    }
}

/// A market without orders and with nothing in escrow is sound, so every
/// market that the engine reaches from it is.
pub proof fn lemma_empty_market_is_sound(market: Market)
    requires
        market.buy.order is None,
        market.sell.order is None,
        market.buy.vault_before().amount == 0,
        market.sell.vault_before().amount == 0,
    ensures
        market.sound(),
{
}

impl Market {
    /// Whether the sell order, if there is one, has no more filled than it
    /// listed.
    pub open spec fn sell_within_listing(self) -> bool {
        self.sell.order matches Some(sell) ==> sell.within_listing()
    }
}

/// A sell order never has more filled than it listed. This asks nothing of
/// what the vaults hold: where it is so at the start, it is so after every
/// history, and a market without a sell order is such a start.
pub proof fn lemma_history_keeps_the_listing(market: Market, history: Seq<Request>)
    requires
        market.sell_within_listing(),
    ensures
        market.after_all(history).sell_within_listing(),
    decreases history.len(),
{
    if history.len() > 0 {
        lemma_history_keeps_the_listing(market, history.drop_last());
        let before = market.after_all(history.drop_last());
        match history.last() {
            Request::Resolve { cranker, fill } => {
                crate::instructions::resolve_order::lemma_settlement_keeps_the_listing(
                    before.settlement_accounts(cranker),
                    before.authority,
                    record_identity(before.program, before.buy.creator, before.buy.order),
                    record_identity(before.program, before.sell.creator, before.sell.order),
                    before.buy.creator,
                    before.sell.creator,
                    fill,
                );
            },
            _ => {},
        }
    }
}

} // verus!
