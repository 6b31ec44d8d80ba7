//! Asset descriptors and the balances that the engine moves.

use vstd::prelude::*;
use crate::address::Address;
use crate::error::{outcome, AnchorOrderBookError};

verus! {

/// The descriptor of an asset: its identity and its decimal scale.
#[derive(Clone, Copy, Debug, PartialEq, Eq)]
pub struct Mint {
    pub address: Address,
    /// A whole unit of the asset is `10^decimals` base units.
    pub decimals: u8,
}

/// A balance of one asset, held for one identity. A spendable account is
/// held for its owner, a vault for the order that it backs.
#[derive(Clone, Copy, Debug, PartialEq, Eq)]
pub struct TokenAccount {
    pub mint: Address,
    pub owner: Address,
    pub amount: u64,
}

impl TokenAccount {
    /// An account of `mint` for `owner` with nothing in it.
    pub open spec fn empty(mint: Address, owner: Address) -> TokenAccount {
        TokenAccount { mint, owner, amount: 0 }
    }

    /// The same account with another balance.
    pub open spec fn with_amount(self, amount: int) -> TokenAccount {
        TokenAccount { amount: amount as u64, ..self }
    }

    /// Why the account cannot serve as the account of `mint` held for
    /// `owner`, if it cannot: a wrong asset comes before a wrong holder,
    /// for which the reason is `wrong_owner`.
    pub open spec fn mismatch(self, mint: Address, owner: Address, wrong_owner: AnchorOrderBookError) -> Option<AnchorOrderBookError> {
        if self.mint != mint {
            Some(AnchorOrderBookError::InvalidListedTokenMint)
        } else if self.owner != owner {
            Some(wrong_owner)
        } else {
            None
        }
    }

    /// Checks that the account carries `mint` and is held for `owner`.
    pub fn check(&self, mint: &Address, owner: &Address, wrong_owner: AnchorOrderBookError) -> (result: Result<(), AnchorOrderBookError>)
        ensures
            result == outcome(self.mismatch(*mint, *owner, wrong_owner)),
    {
        if !self.mint.same_as(mint) {
            Err(AnchorOrderBookError::InvalidListedTokenMint)
        } else if !self.owner.same_as(owner) {
            Err(wrong_owner)
        } else {
            Ok(())
        }
    }
}

/// Why `amount` cannot move from `from` to `to`, if it cannot: the source
/// holds too little, for which the reason is `shortfall`, or the
/// destination would hold more than 64 bits can count.
pub open spec fn move_error(from: TokenAccount, to: TokenAccount, amount: u64, shortfall: AnchorOrderBookError) -> Option<AnchorOrderBookError> {
    if from.amount < amount {
        Some(shortfall)
    } else if to.amount + amount > u64::MAX {
        Some(AnchorOrderBookError::ArithmeticOverflow)
    } else {
        None
    }
}

/// Moves `amount` from `from` to `to`, or changes neither. What the two
/// hold together stays the same either way.
pub fn move_tokens(from: &mut TokenAccount, to: &mut TokenAccount, amount: u64, shortfall: AnchorOrderBookError) -> (result: Result<(), AnchorOrderBookError>)
    ensures
        result == outcome(move_error(*old(from), *old(to), amount, shortfall)),
        result is Ok ==> *final(from) == old(from).with_amount(old(from).amount - amount),
        result is Ok ==> *final(to) == old(to).with_amount(old(to).amount + amount),
        result is Err ==> *final(from) == *old(from) && *final(to) == *old(to),
        final(from).amount + final(to).amount == old(from).amount + old(to).amount,
{
    if from.amount < amount {
        return Err(shortfall);
    }
    match to.amount.checked_add(amount) {
        Some(credited) => {
            from.amount = from.amount - amount;
            to.amount = credited;
            Ok(())
        },
        None => Err(AnchorOrderBookError::ArithmeticOverflow),
    }
}

} // verus!
