//! Placing an order: the record is written and the listed amount goes from
//! the creator's account into the order's vault.

use vstd::prelude::*;
use crate::address::Address;
use crate::error::{first_of, outcome, AnchorOrderBookError};
use crate::state::order::{Order, OrderStatus, OrderType};
use crate::token::{move_error, move_tokens, Mint, TokenAccount};

verus! {

/// The bumps that prove the derived identities among the accounts of a
/// placement.
#[derive(Clone, Copy, Debug, PartialEq, Eq)]
pub struct PlaceOrderBumps {
    pub order: u8,
}

/// The accounts of a placement.
#[derive(Clone, Copy, Debug, PartialEq, Eq)]
pub struct PlaceOrder {
    /// Who places the order.
    pub creator: Address,
    /// The identity under which the record is to be kept.
    pub order_address: Address,
    /// What the ledger holds under that identity: nothing, before a
    /// placement.
    pub order: Option<Order>,
    /// The asset that the order lists, and puts in escrow.
    pub listed_token_mint: Mint,
    /// The asset that the order accepts in exchange.
    pub accepting_token_mint: Mint,
    /// The creator's spendable account of the listed asset.
    pub creator_listed_token_ata: TokenAccount,
    /// The account of the listed asset held for the order, if there is one
    /// already; a placement opens it where there is none.
    pub vault: Option<TokenAccount>,
}

impl PlaceOrder {
    /// The vault as the placement finds it: an absent one counts as empty.
    pub open spec fn vault_before(self) -> TokenAccount {
        match self.vault {
            Some(vault) => vault,
            None => TokenAccount::empty(self.listed_token_mint.address, self.order_address),
        }
    }

    /// What the creator's account and the vault hold together.
    pub open spec fn escrow_total(self) -> int {
        self.creator_listed_token_ata.amount + self.vault_before().amount
    }

    /// Why no record can be written, if none can.
    pub open spec fn create_order_error(self, listed_token_amount: u64, listed_token_price: u64) -> Option<AnchorOrderBookError> {
        if listed_token_amount == 0 || listed_token_price == 0 {
            Some(AnchorOrderBookError::InvalidParameters)
        } else if self.order is Some {
            Some(AnchorOrderBookError::DuplicateOrder)
        } else {
            None
        }
    }

    /// The accounts once the record is written.
    pub open spec fn with_order(
        self,
        listed_token_amount: u64,
        listed_token_price: u64,
        order_type: OrderType,
        seed: u8,
        bump: u8,
    ) -> PlaceOrder {
        PlaceOrder {
            order: Some(
                Order::opened(
                    self.creator,
                    self.listed_token_mint.address,
                    self.accepting_token_mint.address,
                    listed_token_amount,
                    listed_token_price,
                    order_type,
                    seed,
                    bump,
                ),
            ),
            ..self
        }
    }

    /// Why `token_amount` cannot go into the vault, if it cannot.
    pub open spec fn transfer_error(self, token_amount: u64) -> Option<AnchorOrderBookError> {
        first_of(
            self.creator_listed_token_ata.mismatch(
                self.listed_token_mint.address,
                self.creator,
                AnchorOrderBookError::InvalidCreator,
            ),
            first_of(
                self.vault_before().mismatch(
                    self.listed_token_mint.address,
                    self.order_address,
                    AnchorOrderBookError::InvalidOrderAccount,
                ),
                move_error(
                    self.creator_listed_token_ata,
                    self.vault_before(),
                    token_amount,
                    AnchorOrderBookError::InsufficientFunds,
                ),
            ),
        )
    }

    /// The accounts once `token_amount` has gone into the vault.
    pub open spec fn with_escrow(self, token_amount: u64) -> PlaceOrder {
        PlaceOrder {
            creator_listed_token_ata: self.creator_listed_token_ata.with_amount(
                self.creator_listed_token_ata.amount - token_amount,
            ),
            vault: Some(self.vault_before().with_amount(self.vault_before().amount + token_amount)),
            ..self
        }
    }

    /// Why the placement is rejected, if it is, when `derived` is what the
    /// creator, the listed asset and the seed derive.
    pub open spec fn placement_error(
        self,
        derived: Option<(Address, u8)>,
        listed_token_amount: u64,
        listed_token_price: u64,
    ) -> Option<AnchorOrderBookError> {
        match derived {
            Some((address, _)) if address == self.order_address => first_of(
                self.create_order_error(listed_token_amount, listed_token_price),
                self.transfer_error(listed_token_amount),
            ),
            _ => Some(AnchorOrderBookError::InvalidOrderAccount),
        }
    }

    /// The accounts after a placement that was not rejected.
    pub open spec fn placed(
        self,
        bump: u8,
        seed: u8,
        listed_token_amount: u64,
        listed_token_price: u64,
        order_type: OrderType,
    ) -> PlaceOrder {
        self.with_order(listed_token_amount, listed_token_price, order_type, seed, bump).with_escrow(
            listed_token_amount,
        )
    }

    /// What a placement returns: the record's identity and bump, or the
    /// reason for which it is rejected.
    pub open spec fn placement_result(
        self,
        derived: Option<(Address, u8)>,
        listed_token_amount: u64,
        listed_token_price: u64,
    ) -> Result<(Address, u8), AnchorOrderBookError> {
        match (self.placement_error(derived, listed_token_amount, listed_token_price), derived) {
            (None, Some(identity)) => Ok(identity),
            (Some(reason), _) => Err(reason),
            (None, None) => Err(AnchorOrderBookError::InvalidOrderAccount),
        }
    }

    /// The accounts after a placement: changed as `placed` says where it
    /// goes through, and untouched where it is rejected.
    pub open spec fn after_placement(
        self,
        derived: Option<(Address, u8)>,
        seed: u8,
        listed_token_amount: u64,
        listed_token_price: u64,
        order_type: OrderType,
    ) -> PlaceOrder {
        match (self.placement_error(derived, listed_token_amount, listed_token_price), derived) {
            (None, Some((_, bump))) => self.placed(
                bump,
                seed,
                listed_token_amount,
                listed_token_price,
                order_type,
            ),
            _ => self,
        }
    }

    /// Writes the record of a new order: open, with nothing filled.
    ///
    /// Rejects a zero amount or price with `InvalidParameters`, and an
    /// identity that holds a record already with `DuplicateOrder`.
    pub fn create_order(
        &mut self,
        listed_token_amount: u64,
        listed_token_price: u64,
        order_type: OrderType,
        seed: u8,
        bumps: &PlaceOrderBumps,
    ) -> (result: Result<(), AnchorOrderBookError>)
        ensures
            result == outcome(old(self).create_order_error(listed_token_amount, listed_token_price)),
            result is Ok ==> *final(self) == old(self).with_order(
                listed_token_amount,
                listed_token_price,
                order_type,
                seed,
                bumps.order,
            ),
            result is Ok ==> final(self).order->0.well_formed(),
            result is Err ==> *final(self) == *old(self),
    {
        if listed_token_amount == 0 || listed_token_price == 0 {
            return Err(AnchorOrderBookError::InvalidParameters);
        }
        if self.order.is_some() {
            return Err(AnchorOrderBookError::DuplicateOrder);
        }
        self.order = Some(
            Order {
                creator: self.creator,
                listed_token_mint: self.listed_token_mint.address,
                listed_token_amount,
                listed_token_price,
                accepting_token_mint: self.accepting_token_mint.address,
                filled_amount: 0,
                order_type,
                order_status: OrderStatus::Open,
                seed,
                bump: bumps.order,
            },
        );
        Ok(())
    }

    /// Moves `token_amount` of the listed asset from the creator's account
    /// into the vault, opening the vault where there is none.
    ///
    /// Rejects accounts of another asset or holder, a creator who holds less
    /// than `token_amount` with `InsufficientFunds`, and a vault that would
    /// overflow. What the two accounts hold together never changes.
    pub fn transfer_to_vault(&mut self, token_amount: u64) -> (result: Result<(), AnchorOrderBookError>)
        ensures
            result == outcome(old(self).transfer_error(token_amount)),
            result is Ok ==> *final(self) == old(self).with_escrow(token_amount),
            result is Err ==> *final(self) == *old(self),
            final(self).escrow_total() == old(self).escrow_total(),
    {
        let mut source = self.creator_listed_token_ata;
        let mut vault = match self.vault {
            Some(vault) => vault,
            None => TokenAccount { mint: self.listed_token_mint.address, owner: self.order_address, amount: 0 },
        };
        source.check(&self.listed_token_mint.address, &self.creator, AnchorOrderBookError::InvalidCreator)?;
        vault.check(&self.listed_token_mint.address, &self.order_address, AnchorOrderBookError::InvalidOrderAccount)?;
        move_tokens(&mut source, &mut vault, token_amount, AnchorOrderBookError::InsufficientFunds)?;
        self.creator_listed_token_ata = source;
        self.vault = Some(vault);
        Ok(())
    }

    /// Places the order, given the identity and bump that the creator, the
    /// listed asset and `seed` derive.
    ///
    /// The placement goes through exactly when `placement_error` finds no
    /// reason against it. It then returns the record's identity and bump,
    /// leaves an open record with nothing filled, and has moved exactly
    /// `listed_token_amount` from the creator into the vault. A rejected
    /// placement changes nothing: no record, no vault.
    pub fn place_at(
        &mut self,
        derived: Option<(Address, u8)>,
        seed: u8,
        listed_token_amount: u64,
        listed_token_price: u64,
        order_type: OrderType,
    ) -> (result: Result<(Address, u8), AnchorOrderBookError>)
        ensures
            result == old(self).placement_result(derived, listed_token_amount, listed_token_price),
            *final(self) == old(self).after_placement(
                derived,
                seed,
                listed_token_amount,
                listed_token_price,
                order_type,
            ),
            final(self).escrow_total() == old(self).escrow_total(),
            result is Ok ==> final(self).order->0.well_formed(),
            result is Ok ==> final(self).vault->0.amount == old(self).vault_before().amount
                + listed_token_amount,
    {
        let (address, bump) = match derived {
            Some(found) => found,
            None => return Err(AnchorOrderBookError::InvalidOrderAccount),
        };
        if !address.same_as(&self.order_address) {
            return Err(AnchorOrderBookError::InvalidOrderAccount);
        }
        let mut accounts = *self;
        accounts.create_order(listed_token_amount, listed_token_price, order_type, seed, &PlaceOrderBumps { order: bump })?;
        accounts.transfer_to_vault(listed_token_amount)?;
        *self = accounts;
        Ok((address, bump))
    }
}

/// An identity holds one order. After a placement has gone through, a
/// second placement on the same accounts is rejected with `DuplicateOrder`
/// whenever its amount and price are positive.
pub proof fn lemma_placed_order_blocks_its_identity(
    accounts: PlaceOrder,
    derived: Option<(Address, u8)>,
    seed: u8,
    listed_token_amount: u64,
    listed_token_price: u64,
    order_type: OrderType,
    next_amount: u64,
    next_price: u64,
)
    requires
        accounts.placement_error(derived, listed_token_amount, listed_token_price) is None,
        next_amount > 0,
        next_price > 0,
    ensures
        accounts.after_placement(
            derived,
            seed,
            listed_token_amount,
            listed_token_price,
            order_type,
        ).placement_error(derived, next_amount, next_price) == Some(AnchorOrderBookError::DuplicateOrder),
{
}

/// A placement makes and loses nothing: the creator's account goes down by
/// exactly the listed amount and the vault goes up by the same.
pub proof fn lemma_placement_conserves(
    accounts: PlaceOrder,
    derived: Option<(Address, u8)>,
    seed: u8,
    listed_token_amount: u64,
    listed_token_price: u64,
    order_type: OrderType,
)
    requires
        accounts.placement_error(derived, listed_token_amount, listed_token_price) is None,
    ensures
        ({
            let after = accounts.after_placement(
                derived,
                seed,
                listed_token_amount,
                listed_token_price,
                order_type,
            );
            &&& after.creator_listed_token_ata.amount == accounts.creator_listed_token_ata.amount
                - listed_token_amount
            &&& after.vault_before().amount == accounts.vault_before().amount + listed_token_amount
            &&& after.escrow_total() == accounts.escrow_total()
        }),
{
}

impl PlaceOrder {
    /// Whether the accounts are in order for a placement under `derived`:
    /// the record is to be kept under the derived identity, the creator's
    /// account carries the listed asset and belongs to the creator, and the
    /// vault, if there is one already, carries the listed asset and is held
    /// for the order.
    pub open spec fn in_order(self, derived: Option<(Address, u8)>) -> bool {
        &&& derived matches Some((address, _)) && address == self.order_address
        &&& self.creator_listed_token_ata.mismatch(
            self.listed_token_mint.address,
            self.creator,
            AnchorOrderBookError::InvalidCreator,
        ) is None
        &&& self.vault_before().mismatch(
            self.listed_token_mint.address,
            self.order_address,
            AnchorOrderBookError::InvalidOrderAccount,
        ) is None
    }
}

/// When a placement is owed. With the accounts in order, an identity that
/// holds no record, a positive amount and price, a creator who holds at
/// least the amount and a vault that can take it, the placement goes
/// through: it returns the derived identity, the record is open with nothing
/// filled, the creator's account is down by exactly the amount and the vault
/// up by the same. No fee is taken.
pub proof fn lemma_placement_goes_through(
    accounts: PlaceOrder,
    derived: Option<(Address, u8)>,
    seed: u8,
    listed_token_amount: u64,
    listed_token_price: u64,
    order_type: OrderType,
)
    requires
        accounts.in_order(derived),
        accounts.order is None,
        listed_token_amount > 0,
        listed_token_price > 0,
        accounts.creator_listed_token_ata.amount >= listed_token_amount,
        accounts.vault_before().amount + listed_token_amount <= u64::MAX,
    ensures
        accounts.placement_error(derived, listed_token_amount, listed_token_price) is None,
        accounts.placement_result(derived, listed_token_amount, listed_token_price) == Ok::<
            (Address, u8),
            AnchorOrderBookError,
        >(derived->0),
        ({
            let after = accounts.after_placement(
                derived,
                seed,
                listed_token_amount,
                listed_token_price,
                order_type,
            );
            &&& after.order matches Some(order) && order.filled_amount == 0 && order.order_status
                == OrderStatus::Open && order.listed_token_amount == listed_token_amount
                && order.listed_token_price == listed_token_price && order.order_type == order_type
            &&& after.creator_listed_token_ata.amount == accounts.creator_listed_token_ata.amount
                - listed_token_amount
            &&& after.vault matches Some(vault) && vault.amount == accounts.vault_before().amount
                + listed_token_amount
        }),
{
}

/// A placement beyond the creator's balance is rejected. With the accounts
/// in order, an identity that holds no record and a positive amount and
/// price, a creator who holds less than the amount gets `InsufficientFunds`,
/// and no record or vault is created.
pub proof fn lemma_placement_beyond_balance_is_rejected(
    accounts: PlaceOrder,
    derived: Option<(Address, u8)>,
    seed: u8,
    listed_token_amount: u64,
    listed_token_price: u64,
    order_type: OrderType,
)
    requires
        accounts.in_order(derived),
        accounts.order is None,
        listed_token_amount > 0,
        listed_token_price > 0,
        accounts.creator_listed_token_ata.amount < listed_token_amount,
    ensures
        accounts.placement_error(derived, listed_token_amount, listed_token_price) == Some(
            AnchorOrderBookError::InsufficientFunds,
        ),
        accounts.placement_result(derived, listed_token_amount, listed_token_price) == Err::<
            (Address, u8),
            AnchorOrderBookError,
        >(AnchorOrderBookError::InsufficientFunds),
        accounts.after_placement(derived, seed, listed_token_amount, listed_token_price, order_type)
            == accounts,
{
}

} // verus!
