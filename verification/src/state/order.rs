//! The record of one standing order and of its fill progress.

use vstd::prelude::*;
use crate::address::Address;

verus! {

/// Which side of a match an order stands on.
#[derive(Clone, Copy, Debug, PartialEq, Eq, Structural)]
pub enum OrderType {
    Buy,
    Sell,
}

/// How far an order has been filled. A record that has been cancelled no
/// longer exists, so it has no status.
#[derive(Clone, Copy, Debug, PartialEq, Eq, Structural)]
pub enum OrderStatus {
    Open,
    Filled,
    PartiallyFilled,
}

impl OrderStatus {
    /// The place of a status in the life of an order: a status is only ever
    /// followed by one of the same or a higher rank.
    pub open spec fn rank(self) -> int {
        match self {
            OrderStatus::Open => 0,
            OrderStatus::PartiallyFilled => 1,
            OrderStatus::Filled => 2,
        }
    }

    /// The status of an order that has just been filled up to `filled`, when
    /// `target` is all it can take.
    pub open spec fn after_fill(filled: int, target: int) -> OrderStatus {
        if filled >= target {
            OrderStatus::Filled
        } else {
            OrderStatus::PartiallyFilled
        }
    }
}

/// One standing order. The ledger keeps it under the identity that its
/// creator, its listed asset and its seed derive.
#[derive(Clone, Copy, Debug, PartialEq, Eq)]
pub struct Order {
    /// Who placed the order.
    pub creator: Address,
    /// The asset that the order has put in escrow.
    pub listed_token_mint: Address,
    /// How much of the listed asset the order offers in total.
    pub listed_token_amount: u64,
    /// Units of the accepting asset per whole unit of the listed asset.
    pub listed_token_price: u64,
    /// The asset that the order takes in exchange.
    pub accepting_token_mint: Address,
    /// How much the settlements so far have filled.
    pub filled_amount: u64,
    pub order_type: OrderType,
    pub order_status: OrderStatus,
    /// The nonce that tells the orders of one creator for one asset apart.
    pub seed: u8,
    /// The bump that proves the record's identity.
    pub bump: u8,
}

impl Order {
    /// The record as it is written when the order is placed.
    pub open spec fn opened(
        creator: Address,
        listed_token_mint: Address,
        accepting_token_mint: Address,
        listed_token_amount: u64,
        listed_token_price: u64,
        order_type: OrderType,
        seed: u8,
        bump: u8,
    ) -> Order {
        Order {
            creator,
            listed_token_mint,
            listed_token_amount,
            listed_token_price,
            accepting_token_mint,
            filled_amount: 0,
            order_type,
            order_status: OrderStatus::Open,
            seed,
            bump,
        }
    }

    /// The record after a settlement has filled `fill` more, when `target`
    /// is all the order can take.
    pub open spec fn filled_by(self, fill: u64, target: int) -> Order {
        Order {
            filled_amount: (self.filled_amount + fill) as u64,
            order_status: OrderStatus::after_fill(self.filled_amount + fill, target),
            ..self
        }
    }

    /// What holds of every record that the engine has written: amount and
    /// price are positive, the order is open exactly as long as nothing has
    /// been filled, and a sell order is filled exactly when all it listed has
    /// been taken, never more.
    pub open spec fn well_formed(self) -> bool {
        &&& self.listed_token_amount > 0
        &&& self.listed_token_price > 0
        &&& (self.order_status == OrderStatus::Open <==> self.filled_amount == 0)
        &&& (self.order_type == OrderType::Sell ==> self.filled_amount <= self.listed_token_amount)
        &&& (self.order_type == OrderType::Sell ==> (self.order_status == OrderStatus::Filled
            <==> self.filled_amount >= self.listed_token_amount))
    }

    /// What is left of a sell order's listing.
    pub open spec fn remaining(self) -> int {
        self.listed_token_amount - self.filled_amount
    }

    /// Whether no more has been filled than the order listed.
    pub open spec fn within_listing(self) -> bool {
        self.filled_amount <= self.listed_token_amount
    }

    /// Whether `fill` is more than what is left of the listing.
    pub open spec fn exceeds_listing(self, fill: u64) -> bool {
        self.filled_amount + fill > self.listed_token_amount
    }

    /// Tells whether `fill` is more than what is left of the listing, in
    /// which case taking it would leave more filled than was listed.
    pub fn overfills(&self, fill: u64) -> (over: bool)
        ensures
            over == self.exceeds_listing(fill),
    {
        self.filled_amount > self.listed_token_amount || fill > self.listed_token_amount
            - self.filled_amount
    }

    /// Whether settlement may still touch the order.
    pub fn is_live(&self) -> (live: bool)
        ensures
            live == (self.order_status != OrderStatus::Filled),
    {
        self.order_status != OrderStatus::Filled
    }

    /// Adds `fill` to the filled amount and sets the status by `target`.
    /// Returns `false`, and changes nothing, where the sum does not fit.
    pub fn record_fill(&mut self, fill: u64, target: u64) -> (done: bool)
        ensures
            done == (old(self).filled_amount + fill <= u64::MAX),
            done ==> *final(self) == old(self).filled_by(fill, target as int),
            !done ==> *final(self) == *old(self),
    {
        match self.filled_amount.checked_add(fill) {
            Some(filled) => {
                self.filled_amount = filled;
                if filled >= target {
                    self.order_status = OrderStatus::Filled;
                } else {
                    self.order_status = OrderStatus::PartiallyFilled;
                }
                true
            },
            None => false,
        }
    }
}

} // verus!
