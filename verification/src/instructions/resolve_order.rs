//! Settling a matched pair: the buy order's vault pays the seller at the
//! sell order's price, the sell order's vault delivers the fill to the
//! buyer, and both records take the fill.

use vstd::prelude::*;
use crate::address::{is_identity, Address};
use crate::conversion::{amount_to_seller, fill_target, fill_target_fits, max_accepting_tokens, proceeds, proceeds_fit};
use crate::error::{first_of, outcome, AnchorOrderBookError};
use crate::state::order::{Order, OrderStatus, OrderType};
use crate::token::{move_error, move_tokens, Mint, TokenAccount};

verus! {

/// The accounts of a settlement.
#[derive(Clone, Copy, Debug, PartialEq, Eq)]
pub struct ResolveOrder {
    /// Who asks for the settlement.
    pub cranker: Address,
    /// The asset that the sell order lists.
    pub seller_mint: Mint,
    /// The asset that the buy order lists, and pays with.
    pub buyer_mint: Mint,
    /// The identity under which the buy order is kept.
    pub buy_order_address: Address,
    /// The buy order, if the ledger still holds it.
    pub buy_order: Option<Order>,
    /// The identity under which the sell order is kept.
    pub sell_order_address: Address,
    /// The sell order, if the ledger still holds it.
    pub sell_order: Option<Order>,
    /// What the buy order has in escrow.
    pub buy_order_vault: TokenAccount,
    /// What the sell order has in escrow.
    pub sell_order_vault: TokenAccount,
    /// Where the buyer receives the sell order's asset.
    pub buyer_ata: TokenAccount,
    /// Where the seller receives the buy order's asset.
    pub seller_ata: TokenAccount,
}

/// What a settlement has done.
#[derive(Clone, Copy, Debug, PartialEq, Eq)]
pub struct Settlement {
    /// What went from the buy order's vault to the seller.
    pub amount_to_seller: u64,
    /// What went from the sell order's vault to the buyer.
    pub amount_to_buyer: u64,
    /// The buy order's record after the fill.
    pub buy_order: Order,
    /// The sell order's record after the fill.
    pub sell_order: Order,
}

impl ResolveOrder {
    /// What the seller is owed for `fill`: the fill at the sell order's
    /// price, scaled down by the decimals of the sell order's asset and
    /// rounded down.
    pub open spec fn payment(self, fill: u64) -> int {
        proceeds(fill as int, self.sell_order->0.listed_token_price as int, self.seller_mint.decimals as nat)
    }

    /// All that the buy order can take at the sell order's price.
    pub open spec fn buy_target(self) -> int {
        fill_target(
            self.buy_order->0.listed_token_amount as int,
            self.sell_order->0.listed_token_price as int,
            self.seller_mint.decimals as nat,
        )
    }

    /// What the buy order's vault and the seller's account hold together.
    pub open spec fn payment_total(self) -> int {
        self.buy_order_vault.amount + self.seller_ata.amount
    }

    /// What the sell order's vault and the buyer's account hold together.
    pub open spec fn delivery_total(self) -> int {
        self.sell_order_vault.amount + self.buyer_ata.amount
    }

    /// Why the seller cannot be paid for `fill`, if that is so.
    pub open spec fn payment_error(self, fill: u64) -> Option<AnchorOrderBookError> {
        match self.sell_order {
            None => Some(AnchorOrderBookError::StaleOrder),
            Some(sell) => if !proceeds_fit(
                fill as int,
                sell.listed_token_price as int,
                self.seller_mint.decimals as nat,
            ) {
                Some(AnchorOrderBookError::ArithmeticOverflow)
            } else {
                move_error(
                    self.buy_order_vault,
                    self.seller_ata,
                    self.payment(fill) as u64,
                    AnchorOrderBookError::VaultUnderfunded,
                )
            },
        }
    }

    /// The accounts once the seller is paid.
    pub open spec fn paid(self, fill: u64) -> ResolveOrder {
        ResolveOrder {
            buy_order_vault: self.buy_order_vault.with_amount(self.buy_order_vault.amount - self.payment(fill)),
            seller_ata: self.seller_ata.with_amount(self.seller_ata.amount + self.payment(fill)),
            ..self
        }
    }

    /// Why `fill` cannot be delivered to the buyer, if it cannot.
    pub open spec fn delivery_error(self, fill: u64) -> Option<AnchorOrderBookError> {
        move_error(self.sell_order_vault, self.buyer_ata, fill, AnchorOrderBookError::VaultUnderfunded)
    }

    /// The accounts once the fill is delivered.
    pub open spec fn delivered(self, fill: u64) -> ResolveOrder {
        ResolveOrder {
            sell_order_vault: self.sell_order_vault.with_amount(self.sell_order_vault.amount - fill),
            buyer_ata: self.buyer_ata.with_amount(self.buyer_ata.amount + fill),
            ..self
        }
    }

    /// Why the two records cannot take `fill`, if they cannot.
    pub open spec fn update_error(self, fill: u64) -> Option<AnchorOrderBookError> {
        match (self.buy_order, self.sell_order) {
            (Some(buy), Some(sell)) => if fill == 0 {
                Some(AnchorOrderBookError::InvalidParameters)
            } else if buy.order_status == OrderStatus::Filled || sell.order_status == OrderStatus::Filled {
                Some(AnchorOrderBookError::StaleOrder)
            } else if sell.exceeds_listing(fill) {
                Some(AnchorOrderBookError::InvalidParameters)
            } else if !fill_target_fits(
                buy.listed_token_amount as int,
                sell.listed_token_price as int,
                self.seller_mint.decimals as nat,
            ) {
                Some(AnchorOrderBookError::ArithmeticOverflow)
            } else if buy.filled_amount + fill > u64::MAX {
                Some(AnchorOrderBookError::ArithmeticOverflow)
            } else {
                None
            },
            _ => Some(AnchorOrderBookError::StaleOrder),
        }
    }

    /// The accounts once both records have taken `fill`: the sell order is
    /// filled when all it listed is taken, the buy order when it has taken
    /// all it can at the sell order's price.
    pub open spec fn updated(self, fill: u64) -> ResolveOrder {
        ResolveOrder {
            sell_order: Some(
                self.sell_order->0.filled_by(fill, self.sell_order->0.listed_token_amount as int),
            ),
            buy_order: Some(self.buy_order->0.filled_by(fill, self.buy_target())),
            ..self
        }
    }

    /// Whether the sell order, if there is one, has no more filled than it
    /// listed.
    pub open spec fn sell_within_listing(self) -> bool {
        self.sell_order matches Some(sell) ==> sell.within_listing()
    }

    /// Neither record has gone back: what was there is still there, with no
    /// less filled and a status of no lower rank.
    pub open spec fn no_record_went_back(self, before: ResolveOrder) -> bool {
        &&& before.buy_order matches Some(was) ==> self.buy_order matches Some(is)
            && is.filled_amount >= was.filled_amount && is.order_status.rank() >= was.order_status.rank()
        &&& before.sell_order matches Some(was) ==> self.sell_order matches Some(is)
            && is.filled_amount >= was.filled_amount && is.order_status.rank() >= was.order_status.rank()
    }

    /// Pays the seller out of the buy order's vault, and returns what was
    /// paid: `matched_listed_token_amount * price / 10^decimals`, rounded
    /// down, at the sell order's price and the decimals of its asset.
    ///
    /// Rejects a missing sell order with `StaleOrder`, a product or scale
    /// beyond 64 bits with `ArithmeticOverflow`, and a vault that holds less
    /// than the payment with `VaultUnderfunded`.
    pub fn transfer_from_buyer_to_seller(&mut self, matched_listed_token_amount: u64) -> (result: Result<
        u64,
        AnchorOrderBookError,
    >)
        ensures
            match result {
                Ok(amount) => old(self).payment_error(matched_listed_token_amount) is None && amount == old(
                    self,
                ).payment(matched_listed_token_amount) && *final(self) == old(self).paid(
                    matched_listed_token_amount,
                ),
                Err(reason) => old(self).payment_error(matched_listed_token_amount) == Some(reason)
                    && *final(self) == *old(self),
            },
            final(self).payment_total() == old(self).payment_total(),
    {
        let sell = match self.sell_order {
            Some(sell) => sell,
            None => return Err(AnchorOrderBookError::StaleOrder),
        };
        let amount_to_transfer = amount_to_seller(
            matched_listed_token_amount,
            sell.listed_token_price,
            self.seller_mint.decimals,
        )?;
        let mut vault = self.buy_order_vault;
        let mut receiver = self.seller_ata;
        move_tokens(&mut vault, &mut receiver, amount_to_transfer, AnchorOrderBookError::VaultUnderfunded)?;
        self.buy_order_vault = vault;
        self.seller_ata = receiver;
        Ok(amount_to_transfer)
    }

    /// Delivers the fill, unconverted, from the sell order's vault to the
    /// buyer.
    ///
    /// Rejects a vault that holds less than the fill with
    /// `VaultUnderfunded`.
    pub fn transfer_from_seller_to_buyer(&mut self, matched_listed_token_amount: u64) -> (result: Result<
        (),
        AnchorOrderBookError,
    >)
        ensures
            result == outcome(old(self).delivery_error(matched_listed_token_amount)),
            result is Ok ==> *final(self) == old(self).delivered(matched_listed_token_amount),
            result is Err ==> *final(self) == *old(self),
            final(self).delivery_total() == old(self).delivery_total(),
    {
        let mut vault = self.sell_order_vault;
        let mut receiver = self.buyer_ata;
        move_tokens(&mut vault, &mut receiver, matched_listed_token_amount, AnchorOrderBookError::VaultUnderfunded)?;
        self.sell_order_vault = vault;
        self.buyer_ata = receiver;
        Ok(())
    }

    /// Adds the fill to both records and sets their status.
    ///
    /// Rejects a missing or filled order with `StaleOrder`, a fill that is
    /// zero or more than what is left of the sell order's listing with
    /// `InvalidParameters`, and a sum, product or quotient that cannot be
    /// computed with `ArithmeticOverflow`. No record ever goes back, and the
    /// sell order never has more filled than it listed.
    pub fn update_orders(&mut self, matched_listed_token_amount: u64) -> (result: Result<(), AnchorOrderBookError>)
        ensures
            result == outcome(old(self).update_error(matched_listed_token_amount)),
            result is Ok ==> *final(self) == old(self).updated(matched_listed_token_amount),
            result is Err ==> *final(self) == *old(self),
            final(self).no_record_went_back(*old(self)),
            result is Ok ==> final(self).sell_within_listing(),
            old(self).sell_within_listing() ==> final(self).sell_within_listing(),
    {
        let (mut buy, mut sell) = match (self.buy_order, self.sell_order) {
            (Some(buy), Some(sell)) => (buy, sell),
            _ => return Err(AnchorOrderBookError::StaleOrder),
        };
        if matched_listed_token_amount == 0 {
            return Err(AnchorOrderBookError::InvalidParameters);
        }
        if !buy.is_live() || !sell.is_live() {
            return Err(AnchorOrderBookError::StaleOrder);
        }
        if sell.overfills(matched_listed_token_amount) {
            return Err(AnchorOrderBookError::InvalidParameters);
        }
        let max_accepting = max_accepting_tokens(
            buy.listed_token_amount,
            sell.listed_token_price,
            self.seller_mint.decimals,
        )?;
        if !sell.record_fill(matched_listed_token_amount, sell.listed_token_amount) {
            return Err(AnchorOrderBookError::ArithmeticOverflow);
        }
        if !buy.record_fill(matched_listed_token_amount, max_accepting) {
            return Err(AnchorOrderBookError::ArithmeticOverflow);
        }
        self.sell_order = Some(sell);
        self.buy_order = Some(buy);
        Ok(())
    }

    /// Why the request is refused before anything moves, if it is, when
    /// `buy_identity` and `sell_identity` are what the two orders' creators,
    /// listed assets and seeds derive.
    ///
    /// The caller must be the settlement authority and the fill positive.
    /// Both records must exist, stand on their side of the match, belong to
    /// the named buyer and seller, and be kept under their derived
    /// identities. The asset descriptors and the four token accounts must
    /// carry the listed assets, the vaults held for the orders and the
    /// receiving accounts for the counterparties. Neither order may be
    /// filled already, and the fill may not be more than what is left of
    /// the sell order's listing, whatever its vault holds.
    ///
    /// Whether each order accepts the asset that the other lists is not
    /// asked: which orders make a pair is for the settlement authority to
    /// decide.
    pub open spec fn validation_error(
        self,
        authority: Address,
        buy_identity: Option<(Address, u8)>,
        sell_identity: Option<(Address, u8)>,
        buyer: Address,
        seller: Address,
        fill: u64,
    ) -> Option<AnchorOrderBookError> {
        if self.cranker != authority {
            Some(AnchorOrderBookError::InvalidAuthority)
        } else if fill == 0 {
            Some(AnchorOrderBookError::InvalidParameters)
        } else {
            match (self.buy_order, self.sell_order) {
                (Some(buy), Some(sell)) => if buy.order_type != OrderType::Buy || sell.order_type
                    != OrderType::Sell {
                    Some(AnchorOrderBookError::InvalidOrderType)
                } else if buy.creator != buyer || sell.creator != seller {
                    Some(AnchorOrderBookError::InvalidCreator)
                } else if buy_identity != Some((self.buy_order_address, buy.bump)) || sell_identity != Some(
                    (self.sell_order_address, sell.bump),
                ) {
                    Some(AnchorOrderBookError::InvalidOrderAccount)
                } else if self.buyer_mint.address != buy.listed_token_mint || self.seller_mint.address
                    != sell.listed_token_mint {
                    Some(AnchorOrderBookError::InvalidListedTokenMint)
                } else {
                    first_of(
                        self.buy_order_vault.mismatch(
                            buy.listed_token_mint,
                            self.buy_order_address,
                            AnchorOrderBookError::InvalidOrderAccount,
                        ),
                        first_of(
                            self.sell_order_vault.mismatch(
                                sell.listed_token_mint,
                                self.sell_order_address,
                                AnchorOrderBookError::InvalidOrderAccount,
                            ),
                            first_of(
                                self.buyer_ata.mismatch(
                                    sell.listed_token_mint,
                                    buyer,
                                    AnchorOrderBookError::InvalidCreator,
                                ),
                                first_of(
                                    self.seller_ata.mismatch(
                                        buy.listed_token_mint,
                                        seller,
                                        AnchorOrderBookError::InvalidCreator,
                                    ),
                                    if buy.order_status == OrderStatus::Filled || sell.order_status
                                        == OrderStatus::Filled {
                                        Some(AnchorOrderBookError::StaleOrder)
                                    } else if sell.exceeds_listing(fill) {
                                        Some(AnchorOrderBookError::InvalidParameters)
                                    } else {
                                        None
                                    },
                                ),
                            ),
                        ),
                    )
                },
                _ => Some(AnchorOrderBookError::StaleOrder),
            }
        }
    }

    /// Why the settlement is rejected, if it is: the request is refused, or
    /// the payment, the delivery or the update of the records cannot be
    /// made.
    pub open spec fn resolution_error(
        self,
        authority: Address,
        buy_identity: Option<(Address, u8)>,
        sell_identity: Option<(Address, u8)>,
        buyer: Address,
        seller: Address,
        fill: u64,
    ) -> Option<AnchorOrderBookError> {
        first_of(
            self.validation_error(authority, buy_identity, sell_identity, buyer, seller, fill),
            first_of(
                self.payment_error(fill),
                first_of(self.delivery_error(fill), self.update_error(fill)),
            ),
        )
    }

    /// The accounts after a settlement that was not rejected.
    pub open spec fn resolved(self, fill: u64) -> ResolveOrder {
        self.paid(fill).delivered(fill).updated(fill)
    }

    /// What a settlement that was not rejected reports.
    pub open spec fn settlement(self, fill: u64) -> Settlement {
        Settlement {
            amount_to_seller: self.payment(fill) as u64,
            amount_to_buyer: fill,
            buy_order: self.resolved(fill).buy_order->0,
            sell_order: self.resolved(fill).sell_order->0,
        }
    }

    /// What holds between the records and their vaults as long as only the
    /// engine moves what is in escrow: both records are well formed, the sell
    /// order's vault holds exactly what is left of its listing, and the buy
    /// order's vault holds no more than the order offered.
    pub open spec fn backed(self) -> bool {
        &&& self.buy_order matches Some(buy) ==> buy.well_formed() && self.buy_order_vault.amount
            <= buy.listed_token_amount
        &&& self.sell_order matches Some(sell) ==> sell.well_formed() && self.sell_order_vault.amount
            == sell.remaining()
    }

    /// Refuses the request, or finds nothing against it.
    pub fn validate(
        &self,
        authority: &Address,
        buy_identity: Option<(Address, u8)>,
        sell_identity: Option<(Address, u8)>,
        buyer: &Address,
        seller: &Address,
        fill: u64,
    ) -> (result: Result<(), AnchorOrderBookError>)
        ensures
            result == outcome(
                self.validation_error(*authority, buy_identity, sell_identity, *buyer, *seller, fill),
            ),
    {
        if !self.cranker.same_as(authority) {
            return Err(AnchorOrderBookError::InvalidAuthority);
        }
        if fill == 0 {
            return Err(AnchorOrderBookError::InvalidParameters);
        }
        let (buy, sell) = match (self.buy_order, self.sell_order) {
            (Some(buy), Some(sell)) => (buy, sell),
            _ => return Err(AnchorOrderBookError::StaleOrder),
        };
        if buy.order_type != OrderType::Buy || sell.order_type != OrderType::Sell {
            return Err(AnchorOrderBookError::InvalidOrderType);
        }
        if !buy.creator.same_as(buyer) || !sell.creator.same_as(seller) {
            return Err(AnchorOrderBookError::InvalidCreator);
        }
        if !is_identity(buy_identity, &self.buy_order_address, buy.bump) || !is_identity(
            sell_identity,
            &self.sell_order_address,
            sell.bump,
        ) {
            return Err(AnchorOrderBookError::InvalidOrderAccount);
        }
        if !self.buyer_mint.address.same_as(&buy.listed_token_mint) || !self.seller_mint.address.same_as(
            &sell.listed_token_mint,
        ) {
            return Err(AnchorOrderBookError::InvalidListedTokenMint);
        }
        self.buy_order_vault.check(
            &buy.listed_token_mint,
            &self.buy_order_address,
            AnchorOrderBookError::InvalidOrderAccount,
        )?;
        self.sell_order_vault.check(
            &sell.listed_token_mint,
            &self.sell_order_address,
            AnchorOrderBookError::InvalidOrderAccount,
        )?;
        self.buyer_ata.check(&sell.listed_token_mint, buyer, AnchorOrderBookError::InvalidCreator)?;
        self.seller_ata.check(&buy.listed_token_mint, seller, AnchorOrderBookError::InvalidCreator)?;
        if !buy.is_live() || !sell.is_live() {
            return Err(AnchorOrderBookError::StaleOrder);
        }
        if sell.overfills(fill) {
            return Err(AnchorOrderBookError::InvalidParameters);
        }
        Ok(())
    }

    /// Settles `fill` between the two orders, given the identities that
    /// their creators, listed assets and seeds derive.
    ///
    /// The settlement goes through exactly when `resolution_error` finds no
    /// reason against it. Then the buy order's vault has paid the seller
    /// `fill * price / 10^decimals`, rounded down, the sell order's vault has
    /// delivered `fill` to the buyer, and both records have taken `fill`. A
    /// rejected settlement changes nothing. Either way no asset unit is made
    /// or lost, no record goes back, and the sell order never has more
    /// filled than it listed, whatever its vault holds.
    pub fn resolve_at(
        &mut self,
        authority: &Address,
        buy_identity: Option<(Address, u8)>,
        sell_identity: Option<(Address, u8)>,
        buyer: &Address,
        seller: &Address,
        fill: u64,
    ) -> (result: Result<Settlement, AnchorOrderBookError>)
        ensures
            match result {
                Ok(done) => old(self).resolution_error(
                    *authority,
                    buy_identity,
                    sell_identity,
                    *buyer,
                    *seller,
                    fill,
                ) is None && done == old(self).settlement(fill) && done.amount_to_seller == old(
                    self,
                ).payment(fill) && *final(self) == old(self).resolved(fill),
                Err(reason) => old(self).resolution_error(
                    *authority,
                    buy_identity,
                    sell_identity,
                    *buyer,
                    *seller,
                    fill,
                ) == Some(reason) && *final(self) == *old(self),
            },
            final(self).payment_total() == old(self).payment_total(),
            final(self).delivery_total() == old(self).delivery_total(),
            final(self).no_record_went_back(*old(self)),
            result is Ok ==> final(self).sell_within_listing(),
            old(self).sell_within_listing() ==> final(self).sell_within_listing(),
            old(self).backed() ==> final(self).backed(),
    {
        self.validate(authority, buy_identity, sell_identity, buyer, seller, fill)?;
        let mut accounts = *self;
        let amount_to_seller = accounts.transfer_from_buyer_to_seller(fill)?;
        accounts.transfer_from_seller_to_buyer(fill)?;
        accounts.update_orders(fill)?;
        let (buy_order, sell_order) = match (accounts.buy_order, accounts.sell_order) {
            (Some(buy), Some(sell)) => (buy, sell),
            _ => return Err(AnchorOrderBookError::StaleOrder),
        };
        *self = accounts;
        Ok(Settlement { amount_to_seller, amount_to_buyer: fill, buy_order, sell_order })
    }
}

/// A filled order takes no more. Where a settlement has gone through and
/// left either order filled, the same pair is rejected with `StaleOrder`
/// for every further fill.
pub proof fn lemma_filled_order_is_stale(
    accounts: ResolveOrder,
    authority: Address,
    buy_identity: Option<(Address, u8)>,
    sell_identity: Option<(Address, u8)>,
    buyer: Address,
    seller: Address,
    fill: u64,
    next: u64,
)
    requires
        accounts.resolution_error(authority, buy_identity, sell_identity, buyer, seller, fill) is None,
        accounts.resolved(fill).buy_order->0.order_status == OrderStatus::Filled || accounts.resolved(
            fill,
        ).sell_order->0.order_status == OrderStatus::Filled,
        next > 0,
    ensures
        accounts.resolved(fill).resolution_error(authority, buy_identity, sell_identity, buyer, seller, next)
            == Some(AnchorOrderBookError::StaleOrder),
{
}

/// A settlement moves a record forward and never back: each record has
/// exactly `fill` more filled than before, and a status that is no longer
/// open.
pub proof fn lemma_settlement_moves_forward(
    accounts: ResolveOrder,
    authority: Address,
    buy_identity: Option<(Address, u8)>,
    sell_identity: Option<(Address, u8)>,
    buyer: Address,
    seller: Address,
    fill: u64,
)
    requires
        accounts.resolution_error(authority, buy_identity, sell_identity, buyer, seller, fill) is None,
    ensures
        accounts.resolved(fill).no_record_went_back(accounts),
        accounts.resolved(fill).buy_order->0.filled_amount == accounts.buy_order->0.filled_amount + fill,
        accounts.resolved(fill).sell_order->0.filled_amount == accounts.sell_order->0.filled_amount + fill,
        accounts.resolved(fill).buy_order->0.order_status != OrderStatus::Open,
        accounts.resolved(fill).sell_order->0.order_status != OrderStatus::Open,
{
}

/// A settlement makes and loses nothing: what the buy order's vault and the
/// seller hold together, and what the sell order's vault and the buyer hold
/// together, is the same after as before. What the seller is paid is the fill
/// at the sell order's price, rounded down.
pub proof fn lemma_settlement_conserves(
    accounts: ResolveOrder,
    authority: Address,
    buy_identity: Option<(Address, u8)>,
    sell_identity: Option<(Address, u8)>,
    buyer: Address,
    seller: Address,
    fill: u64,
)
    requires
        accounts.resolution_error(authority, buy_identity, sell_identity, buyer, seller, fill) is None,
    ensures
        accounts.resolved(fill).payment_total() == accounts.payment_total(),
        accounts.resolved(fill).delivery_total() == accounts.delivery_total(),
        accounts.buy_order_vault.amount - accounts.resolved(fill).buy_order_vault.amount == accounts.payment(
            fill,
        ),
        accounts.sell_order_vault.amount - accounts.resolved(fill).sell_order_vault.amount == fill,
{
    crate::conversion::lemma_proceeds_round_down(
        fill as int,
        accounts.sell_order->0.listed_token_price as int,
        accounts.seller_mint.decimals as nat,
    );
}

impl ResolveOrder {
    /// The accounts after one request for a settlement: settled where the
    /// request goes through, and as before where it is rejected.
    pub open spec fn after_fill(
        self,
        authority: Address,
        buy_identity: Option<(Address, u8)>,
        sell_identity: Option<(Address, u8)>,
        buyer: Address,
        seller: Address,
        fill: u64,
    ) -> ResolveOrder {
        if self.resolution_error(authority, buy_identity, sell_identity, buyer, seller, fill) is None {
            self.resolved(fill)
        } else {
            self
        }
    }

    /// The accounts after the requests for the fills in `fills`, taken in
    /// turn.
    pub open spec fn after_fills(
        self,
        authority: Address,
        buy_identity: Option<(Address, u8)>,
        sell_identity: Option<(Address, u8)>,
        buyer: Address,
        seller: Address,
        fills: Seq<u64>,
    ) -> ResolveOrder
        decreases fills.len(),
    {
        if fills.len() == 0 {
            self
        } else {
            self.after_fills(
                authority,
                buy_identity,
                sell_identity,
                buyer,
                seller,
                fills.drop_last(),
            ).after_fill(authority, buy_identity, sell_identity, buyer, seller, fills.last())
        }
    }
}

/// A settlement keeps the records and their vaults in step: where the
/// accounts were backed before a request, they are backed after it.
pub proof fn lemma_settlement_keeps_backing(
    accounts: ResolveOrder,
    authority: Address,
    buy_identity: Option<(Address, u8)>,
    sell_identity: Option<(Address, u8)>,
    buyer: Address,
    seller: Address,
    fill: u64,
)
    requires
        accounts.backed(),
    ensures
        accounts.after_fill(authority, buy_identity, sell_identity, buyer, seller, fill).backed(),
{
    if accounts.resolution_error(authority, buy_identity, sell_identity, buyer, seller, fill) is None {
        crate::conversion::lemma_proceeds_round_down(
            fill as int,
            accounts.sell_order->0.listed_token_price as int,
            accounts.seller_mint.decimals as nat,
        );
    }
}

/// Whatever settlements are asked for, in whatever order, and whichever of
/// them go through: no unit of either asset is made or lost, no record goes
/// back, and accounts that were backed stay backed.
pub proof fn lemma_settlements_conserve(
    accounts: ResolveOrder,
    authority: Address,
    buy_identity: Option<(Address, u8)>,
    sell_identity: Option<(Address, u8)>,
    buyer: Address,
    seller: Address,
    fills: Seq<u64>,
)
    ensures
        accounts.after_fills(authority, buy_identity, sell_identity, buyer, seller, fills).payment_total()
            == accounts.payment_total(),
        accounts.after_fills(authority, buy_identity, sell_identity, buyer, seller, fills).delivery_total()
            == accounts.delivery_total(),
        accounts.after_fills(
            authority,
            buy_identity,
            sell_identity,
            buyer,
            seller,
            fills,
        ).no_record_went_back(accounts),
        accounts.backed() ==> accounts.after_fills(
            authority,
            buy_identity,
            sell_identity,
            buyer,
            seller,
            fills,
        ).backed(),
    decreases fills.len(),
{
    if fills.len() > 0 {
        let before = accounts.after_fills(
            authority,
            buy_identity,
            sell_identity,
            buyer,
            seller,
            fills.drop_last(),
        );
        lemma_settlements_conserve(
            accounts,
            authority,
            buy_identity,
            sell_identity,
            buyer,
            seller,
            fills.drop_last(),
        );
        if before.resolution_error(authority, buy_identity, sell_identity, buyer, seller, fills.last()) is None {
            lemma_settlement_conserves(
                before,
                authority,
                buy_identity,
                sell_identity,
                buyer,
                seller,
                fills.last(),
            );
            lemma_settlement_moves_forward(
                before,
                authority,
                buy_identity,
                sell_identity,
                buyer,
                seller,
                fills.last(),
            );
        }
        if accounts.backed() {
            lemma_settlement_keeps_backing(
                before,
                authority,
                buy_identity,
                sell_identity,
                buyer,
                seller,
                fills.last(),
            );
        }
    }
}

/// When the update of the records is owed. With both records present and
/// neither filled, a positive fill that is no more than what is left of the
/// sell order's listing, a buy target that can be computed and a buy order
/// whose filled amount can take the fill, the update goes through, and each
/// record has exactly `fill` more filled than before.
pub proof fn lemma_update_goes_through(accounts: ResolveOrder, fill: u64)
    requires
        accounts.buy_order is Some,
        accounts.sell_order is Some,
        fill > 0,
        accounts.buy_order->0.order_status != OrderStatus::Filled,
        accounts.sell_order->0.order_status != OrderStatus::Filled,
        !accounts.sell_order->0.exceeds_listing(fill),
        fill_target_fits(
            accounts.buy_order->0.listed_token_amount as int,
            accounts.sell_order->0.listed_token_price as int,
            accounts.seller_mint.decimals as nat,
        ),
        accounts.buy_order->0.filled_amount + fill <= u64::MAX,
    ensures
        accounts.update_error(fill) is None,
        accounts.updated(fill).sell_order->0.filled_amount == accounts.sell_order->0.filled_amount + fill,
        accounts.updated(fill).buy_order->0.filled_amount == accounts.buy_order->0.filled_amount + fill,
        accounts.updated(fill).sell_within_listing(),
        accounts.updated(fill).no_record_went_back(accounts),
{
}

/// When a settlement is owed. Where the request is not refused, the payment
/// can be computed, each vault holds what it is to give, each receiver can
/// take it, and the records can take the fill, the settlement goes through:
/// the buy order's vault is down by the payment and the seller up by the
/// same, the sell order's vault is down by the fill and the buyer up by the
/// same.
pub proof fn lemma_settlement_goes_through(
    accounts: ResolveOrder,
    authority: Address,
    buy_identity: Option<(Address, u8)>,
    sell_identity: Option<(Address, u8)>,
    buyer: Address,
    seller: Address,
    fill: u64,
)
    requires
        accounts.validation_error(authority, buy_identity, sell_identity, buyer, seller, fill) is None,
        proceeds_fit(
            fill as int,
            accounts.sell_order->0.listed_token_price as int,
            accounts.seller_mint.decimals as nat,
        ),
        accounts.buy_order_vault.amount >= accounts.payment(fill),
        accounts.seller_ata.amount + accounts.payment(fill) <= u64::MAX,
        accounts.sell_order_vault.amount >= fill,
        accounts.buyer_ata.amount + fill <= u64::MAX,
        fill_target_fits(
            accounts.buy_order->0.listed_token_amount as int,
            accounts.sell_order->0.listed_token_price as int,
            accounts.seller_mint.decimals as nat,
        ),
        accounts.buy_order->0.filled_amount + fill <= u64::MAX,
    ensures
        accounts.resolution_error(authority, buy_identity, sell_identity, buyer, seller, fill) is None,
        accounts.resolved(fill).buy_order_vault.amount == accounts.buy_order_vault.amount - accounts.payment(
            fill,
        ),
        accounts.resolved(fill).seller_ata.amount == accounts.seller_ata.amount + accounts.payment(fill),
        accounts.resolved(fill).sell_order_vault.amount == accounts.sell_order_vault.amount - fill,
        accounts.resolved(fill).buyer_ata.amount == accounts.buyer_ata.amount + fill,
        accounts.resolved(fill).sell_within_listing(),
{
    crate::conversion::lemma_proceeds_round_down(
        fill as int,
        accounts.sell_order->0.listed_token_price as int,
        accounts.seller_mint.decimals as nat,
    );
}

/// A fill beyond the listing is never recorded. Whatever the sell order's
/// vault holds, a request for more than what is left of the listing is
/// rejected, and after every request the sell order has no more filled than
/// it listed, if that was so before.
pub proof fn lemma_settlement_keeps_the_listing(
    accounts: ResolveOrder,
    authority: Address,
    buy_identity: Option<(Address, u8)>,
    sell_identity: Option<(Address, u8)>,
    buyer: Address,
    seller: Address,
    fill: u64,
)
    ensures
        accounts.sell_order matches Some(sell) && sell.exceeds_listing(fill) ==> accounts.resolution_error(
            authority,
            buy_identity,
            sell_identity,
            buyer,
            seller,
            fill,
        ) is Some,
        accounts.resolution_error(authority, buy_identity, sell_identity, buyer, seller, fill) is None
            ==> accounts.resolved(fill).sell_within_listing(),
        accounts.sell_within_listing() ==> accounts.after_fill(
            authority,
            buy_identity,
            sell_identity,
            buyer,
            seller,
            fill,
        ).sell_within_listing(),
{
}

} // verus!
