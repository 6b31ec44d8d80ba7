//! The reasons for which the engine rejects a request.

use vstd::prelude::*;

verus! {

/// Every rejection leaves the accounts of the request as they were.
#[derive(Clone, Copy, Debug, PartialEq, Eq, Structural)]
pub enum AnchorOrderBookError {
    /// The order record is not the one that its owner, asset and nonce derive.
    InvalidOrderAccount,
    /// An asset descriptor or a token account does not carry the listed asset.
    InvalidListedTokenMint,
    /// The accepting-asset descriptor is not the one the record names.
    InvalidAcceptingTokenMint,
    /// A record offered as the buy side is not a buy order, or the sell side not a sell order.
    InvalidOrderType,
    /// A counterparty or a token account's holder is not the order's creator.
    InvalidCreator,
    /// The caller of a settlement is not the settlement authority.
    InvalidAuthority,
    /// An amount or a price is zero.
    InvalidParameters,
    /// The owner's spendable balance is below the amount to escrow.
    InsufficientFunds,
    /// The derived identity already holds an order record.
    DuplicateOrder,
    /// An order offered for settlement is filled or no longer exists.
    StaleOrder,
    /// A vault holds less than a settlement would take from it.
    VaultUnderfunded,
    /// A product, a quotient or a sum does not fit in 64 bits.
    ArithmeticOverflow,
    /// The order is not open, so it cannot be cancelled.
    NotOpen,
    /// The caller of a cancellation is not the order's owner.
    NotOwner,
}

impl AnchorOrderBookError {
    /// The text that goes with each rejection.
    pub open spec fn message_text(self) -> Seq<char> {
        match self {
            AnchorOrderBookError::InvalidOrderAccount => "invalid order account"@,
            AnchorOrderBookError::InvalidListedTokenMint => "invalid listed token mint"@,
            AnchorOrderBookError::InvalidAcceptingTokenMint => "invalid accepting token mint"@,
            AnchorOrderBookError::InvalidOrderType => "invalid order type"@,
            AnchorOrderBookError::InvalidCreator => "invalid creator"@,
            AnchorOrderBookError::InvalidAuthority => "invalid settlement authority"@,
            AnchorOrderBookError::InvalidParameters => "invalid parameters"@,
            AnchorOrderBookError::InsufficientFunds => "insufficient funds"@,
            AnchorOrderBookError::DuplicateOrder => "duplicate order"@,
            AnchorOrderBookError::StaleOrder => "stale order"@,
            AnchorOrderBookError::VaultUnderfunded => "vault underfunded"@,
            AnchorOrderBookError::ArithmeticOverflow => "arithmetic overflow"@,
            AnchorOrderBookError::NotOpen => "order is not open"@,
            AnchorOrderBookError::NotOwner => "caller is not the owner of the order"@,
        }
    }

    pub fn message(&self) -> (text: &'static str)
        ensures
            text@ == self.message_text(),
    {
        match self {
            AnchorOrderBookError::InvalidOrderAccount => "invalid order account",
            AnchorOrderBookError::InvalidListedTokenMint => "invalid listed token mint",
            AnchorOrderBookError::InvalidAcceptingTokenMint => "invalid accepting token mint",
            AnchorOrderBookError::InvalidOrderType => "invalid order type",
            AnchorOrderBookError::InvalidCreator => "invalid creator",
            AnchorOrderBookError::InvalidAuthority => "invalid settlement authority",
            AnchorOrderBookError::InvalidParameters => "invalid parameters",
            AnchorOrderBookError::InsufficientFunds => "insufficient funds",
            AnchorOrderBookError::DuplicateOrder => "duplicate order",
            AnchorOrderBookError::StaleOrder => "stale order",
            AnchorOrderBookError::VaultUnderfunded => "vault underfunded",
            AnchorOrderBookError::ArithmeticOverflow => "arithmetic overflow",
            AnchorOrderBookError::NotOpen => "order is not open",
            AnchorOrderBookError::NotOwner => "caller is not the owner of the order",
        }
    }
}

/// `Ok` where there is no reason to reject, else the reason.
pub open spec fn outcome(rejection: Option<AnchorOrderBookError>) -> Result<(), AnchorOrderBookError> {
    match rejection {
        Some(reason) => Err(reason),
        None => Ok(()),
    }
}

/// The first of two reasons to reject, if there is one.
pub open spec fn first_of(first: Option<AnchorOrderBookError>, second: Option<AnchorOrderBookError>) -> Option<AnchorOrderBookError> {
    if first is Some {
        first
    } else {
        second
    }
}

} // verus!
