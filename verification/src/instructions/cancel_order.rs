//! Cancelling an open order: the vault returns all it holds to the creator,
//! and the record and its vault cease to exist.

use vstd::prelude::*;
use crate::address::{is_identity, Address};
use crate::error::{first_of, outcome, AnchorOrderBookError};
use crate::state::order::{Order, OrderStatus};
use crate::token::{Mint, TokenAccount};

verus! {

/// The accounts of a cancellation.
#[derive(Clone, Copy, Debug, PartialEq, Eq)]
pub struct CancelOrder {
    /// Who asks for the cancellation.
    pub creator: Address,
    /// The identity under which the record is kept.
    pub order_address: Address,
    /// The record, if the ledger still holds it.
    pub order: Option<Order>,
    /// The asset that the order lists.
    pub listed_token_mint: Mint,
    /// The asset that the order accepts.
    pub accepting_token_mint: Mint,
    /// The creator's account of the listed asset, which takes the refund.
    pub creator_listed_token_ata: TokenAccount,
    /// What the order has in escrow, if its vault still exists.
    pub vault: Option<TokenAccount>,
}

impl CancelOrder {
    /// What the vault holds: nothing, where it no longer exists.
    pub open spec fn escrowed(self) -> int {
        match self.vault {
            Some(vault) => vault.amount as int,
            None => 0,
        }
    }

    /// What the creator's account and the vault hold together.
    pub open spec fn escrow_total(self) -> int {
        self.creator_listed_token_ata.amount + self.escrowed()
    }

    /// Why the escrow cannot be returned and the record retired, if that is
    /// so: there is no record, or it is no longer open; the vault is missing;
    /// or the creator's account would overflow.
    pub open spec fn closing_error(self) -> Option<AnchorOrderBookError> {
        match self.order {
            None => Some(AnchorOrderBookError::NotOpen),
            Some(order) => if order.order_status != OrderStatus::Open {
                Some(AnchorOrderBookError::NotOpen)
            } else if self.vault is None {
                Some(AnchorOrderBookError::InvalidOrderAccount)
            } else if self.creator_listed_token_ata.amount + self.escrowed() > u64::MAX {
                Some(AnchorOrderBookError::ArithmeticOverflow)
            } else {
                None
            },
        }
    }

    /// The accounts after a cancellation: the creator holds what was in
    /// escrow, and neither record nor vault is left.
    pub open spec fn closed(self) -> CancelOrder {
        CancelOrder {
            creator_listed_token_ata: self.creator_listed_token_ata.with_amount(self.escrow_total()),
            order: None,
            vault: None,
            ..self
        }
    }

    /// Why the request is refused before anything moves, if it is, when
    /// `derived` is what the creator, the listed asset and the record's seed
    /// derive.
    ///
    /// There must be a record, and the caller must be its creator. The two
    /// asset descriptors must be those that the record names, the record
    /// must be kept under its derived identity, the creator's account must
    /// carry the listed asset and belong to the creator, and the vault must
    /// exist, carry the listed asset and be held for the order.
    pub open spec fn validation_error(self, derived: Option<(Address, u8)>) -> Option<AnchorOrderBookError> {
        match self.order {
            None => Some(AnchorOrderBookError::NotOpen),
            Some(order) => if order.creator != self.creator {
                Some(AnchorOrderBookError::NotOwner)
            } else if order.listed_token_mint != self.listed_token_mint.address {
                Some(AnchorOrderBookError::InvalidListedTokenMint)
            } else if order.accepting_token_mint != self.accepting_token_mint.address {
                Some(AnchorOrderBookError::InvalidAcceptingTokenMint)
            } else if derived != Some((self.order_address, order.bump)) {
                Some(AnchorOrderBookError::InvalidOrderAccount)
            } else {
                first_of(
                    self.creator_listed_token_ata.mismatch(
                        self.listed_token_mint.address,
                        self.creator,
                        AnchorOrderBookError::InvalidCreator,
                    ),
                    match self.vault {
                        None => Some(AnchorOrderBookError::InvalidOrderAccount),
                        Some(vault) => vault.mismatch(
                            self.listed_token_mint.address,
                            self.order_address,
                            AnchorOrderBookError::InvalidOrderAccount,
                        ),
                    },
                )
            },
        }
    }

    /// Why the cancellation is rejected, if it is.
    pub open spec fn cancellation_error(self, derived: Option<(Address, u8)>) -> Option<AnchorOrderBookError> {
        first_of(self.validation_error(derived), self.closing_error())
    }

    /// Returns all that the vault holds to the creator and retires the
    /// record with its vault.
    ///
    /// Rejects a record that is missing or not open with `NotOpen`. What
    /// the creator's account and the vault hold together never changes.
    pub fn transfer_back_and_close(&mut self) -> (result: Result<(), AnchorOrderBookError>)
        ensures
            result == outcome(old(self).closing_error()),
            result is Ok ==> *final(self) == old(self).closed(),
            result is Err ==> *final(self) == *old(self),
            final(self).escrow_total() == old(self).escrow_total(),
    {
        let order = match self.order {
            Some(order) => order,
            None => return Err(AnchorOrderBookError::NotOpen),
        };
        if order.order_status != OrderStatus::Open {
            return Err(AnchorOrderBookError::NotOpen);
        }
        let vault = match self.vault {
            Some(vault) => vault,
            None => return Err(AnchorOrderBookError::InvalidOrderAccount),
        };
        let refunded = match self.creator_listed_token_ata.amount.checked_add(vault.amount) {
            Some(refunded) => refunded,
            None => return Err(AnchorOrderBookError::ArithmeticOverflow),
        };
        self.creator_listed_token_ata.amount = refunded;
        self.order = None;
        self.vault = None;
        Ok(())
    }

    /// Refuses the request, or finds nothing against it.
    pub fn validate(&self, derived: Option<(Address, u8)>) -> (result: Result<(), AnchorOrderBookError>)
        ensures
            result == outcome(self.validation_error(derived)),
    {
        let order = match self.order {
            Some(order) => order,
            None => return Err(AnchorOrderBookError::NotOpen),
        };
        if !order.creator.same_as(&self.creator) {
            return Err(AnchorOrderBookError::NotOwner);
        }
        if !order.listed_token_mint.same_as(&self.listed_token_mint.address) {
            return Err(AnchorOrderBookError::InvalidListedTokenMint);
        }
        if !order.accepting_token_mint.same_as(&self.accepting_token_mint.address) {
            return Err(AnchorOrderBookError::InvalidAcceptingTokenMint);
        }
        if !is_identity(derived, &self.order_address, order.bump) {
            return Err(AnchorOrderBookError::InvalidOrderAccount);
        }
        self.creator_listed_token_ata.check(
            &self.listed_token_mint.address,
            &self.creator,
            AnchorOrderBookError::InvalidCreator,
        )?;
        match self.vault {
            Some(vault) => vault.check(
                &self.listed_token_mint.address,
                &self.order_address,
                AnchorOrderBookError::InvalidOrderAccount,
            ),
            None => Err(AnchorOrderBookError::InvalidOrderAccount),
        }
    }

    /// Cancels the order, given the identity that its creator, its listed
    /// asset and its seed derive.
    ///
    /// The cancellation goes through exactly when `cancellation_error` finds
    /// no reason against it; the creator then holds all that was in escrow
    /// and the record is gone. A rejected cancellation changes nothing.
    pub fn close_at(&mut self, derived: Option<(Address, u8)>) -> (result: Result<(), AnchorOrderBookError>)
        ensures
            result == outcome(old(self).cancellation_error(derived)),
            result is Ok ==> *final(self) == old(self).closed(),
            result is Err ==> *final(self) == *old(self),
            final(self).escrow_total() == old(self).escrow_total(),
    {
        self.validate(derived)?;
        self.transfer_back_and_close()
    }
}

/// An order can be cancelled once. After a cancellation the record is
/// gone, so a second cancellation of the same accounts is rejected with
/// `NotOpen`, whatever identity it is tried under.
pub proof fn lemma_cancelled_order_is_not_open(accounts: CancelOrder, again: Option<(Address, u8)>)
    ensures
        accounts.closed().closing_error() == Some(AnchorOrderBookError::NotOpen),
        accounts.closed().cancellation_error(again) == Some(AnchorOrderBookError::NotOpen),
{
}

/// Only an order that no settlement has touched can be cancelled: a
/// cancellation that goes through found the record open, with nothing
/// filled if the record was well formed.
pub proof fn lemma_only_open_orders_close(accounts: CancelOrder, derived: Option<(Address, u8)>)
    requires
        accounts.cancellation_error(derived) is None,
    ensures
        accounts.order matches Some(order) && order.order_status == OrderStatus::Open && (order.well_formed()
            ==> order.filled_amount == 0),
{
}

/// When a cancellation is owed. Where the request is not refused, the
/// order is open and the creator's account can take what is in escrow, the
/// cancellation goes through: the creator gains all that the vault held,
/// and neither record nor vault is left.
pub proof fn lemma_cancellation_goes_through(accounts: CancelOrder, derived: Option<(Address, u8)>)
    requires
        accounts.validation_error(derived) is None,
        accounts.order->0.order_status == OrderStatus::Open,
        accounts.creator_listed_token_ata.amount + accounts.escrowed() <= u64::MAX,
    ensures
        accounts.cancellation_error(derived) is None,
        accounts.closed().creator_listed_token_ata.amount == accounts.creator_listed_token_ata.amount
            + accounts.vault->0.amount,
        accounts.closed().vault is None,
        accounts.closed().order is None,
        accounts.closed().escrow_total() == accounts.escrow_total(),
{
}

} // verus!
