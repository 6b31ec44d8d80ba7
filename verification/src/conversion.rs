//! Truncating conversion between the two assets of a match.
//!
//! A price counts units of the accepting asset per whole unit of the listed
//! asset, and a whole unit is `10^decimals` base units. Every quotient rounds
//! down, so a payer never pays more than the price asks.

use vstd::prelude::*;
use vstd::arithmetic::power::*;
use crate::error::AnchorOrderBookError;

verus! {

/// The number of base units in one whole unit of an asset.
pub open spec fn scale(decimals: nat) -> int {
    pow(10, decimals)
}

/// What `fill` base units of the listed asset are worth at `price`, in base
/// units of the accepting asset, rounded down.
pub open spec fn proceeds(fill: int, price: int, decimals: nat) -> int {
    (fill * price) / scale(decimals)
}

/// The most of the listed asset that `offered` base units of the accepting
/// asset can absorb at `price`, rounded down.
pub open spec fn fill_target(offered: int, price: int, decimals: nat) -> int {
    (offered * scale(decimals)) / price
}

/// Whether `proceeds` can be computed in 64 bits.
pub open spec fn proceeds_fit(fill: int, price: int, decimals: nat) -> bool {
    scale(decimals) <= u64::MAX && fill * price <= u64::MAX
}

/// Whether `fill_target` can be computed in 64 bits.
pub open spec fn fill_target_fits(offered: int, price: int, decimals: nat) -> bool {
    scale(decimals) <= u64::MAX && offered * scale(decimals) <= u64::MAX && price != 0
}

/// A scale fits in 64 bits exactly up to nineteen decimals.
pub proof fn lemma_scale_bounds(decimals: nat)
    ensures
        scale(decimals) >= 1,
        decimals <= 19 ==> scale(decimals) <= 10_000_000_000_000_000_000,
        decimals > 19 ==> scale(decimals) > u64::MAX,
{
    lemma_pow_positive(10, decimals);
    assert(pow(10, 19) == 10_000_000_000_000_000_000) by {
        reveal_with_fuel(pow, 20);
    }
    if decimals <= 19 {
        lemma_pow_increases(10, decimals, 19);
    } else {
        assert(pow(10, 20) == 10 * pow(10, 19)) by {
            reveal_with_fuel(pow, 2);
        }
        lemma_pow_increases(10, 20, decimals);
    }
}

/// A conversion rounds down: the seller is paid the largest whole amount
/// that is not worth more than the fill, so the payer never pays for more
/// than was filled, and less than one unit is lost.
pub proof fn lemma_proceeds_round_down(fill: int, price: int, decimals: nat)
    requires
        fill >= 0,
        price >= 0,
    ensures
        0 <= proceeds(fill, price, decimals) <= fill * price,
        proceeds(fill, price, decimals) * scale(decimals) <= fill * price,
        fill * price < (proceeds(fill, price, decimals) + 1) * scale(decimals),
{
    lemma_scale_bounds(decimals);
    let unit = scale(decimals);
    let worth = fill * price;
    assert(worth >= 0) by (nonlinear_arith)
        requires
            worth == fill * price,
            fill >= 0,
            price >= 0,
    ;
    assert(0 <= worth / unit <= worth && (worth / unit) * unit <= worth < (worth / unit + 1) * unit)
        by (nonlinear_arith)
        requires
            worth >= 0,
            unit >= 1,
    ;
}

/// `10^decimals`, where it fits.
pub fn checked_scale(decimals: u8) -> (out: Option<u64>)
    ensures
        out.is_some() <==> scale(decimals as nat) <= u64::MAX,
        out.is_some() <==> decimals <= 19,
        out matches Some(s) ==> s == scale(decimals as nat) && s >= 1,
{
    proof {
        lemma_scale_bounds(decimals as nat);
    }
    if decimals > 19 {
        return None;
    }
    let mut acc: u64 = 1;
    let mut i: u8 = 0;
    proof {
        lemma_pow0(10);
    }
    while i < decimals
        invariant
            i <= decimals <= 19,
            acc == scale(i as nat),
        decreases decimals - i,
    {
        proof {
            lemma_scale_bounds((i + 1) as nat);
            assert(pow(10, (i + 1) as nat) == 10 * pow(10, i as nat)) by {
                reveal_with_fuel(pow, 2);
            }
        }
        acc = acc * 10;
        i += 1;
    }
    Some(acc)
}

/// What the buy side pays the seller for `fill` base units at the sell
/// order's `price`: `fill * price / 10^decimals`, rounded down.
pub fn amount_to_seller(fill: u64, price: u64, decimals: u8) -> (out: Result<u64, AnchorOrderBookError>)
    ensures
        match out {
            Ok(amount) => proceeds_fit(fill as int, price as int, decimals as nat)
                && amount == proceeds(fill as int, price as int, decimals as nat),
            Err(e) => e == AnchorOrderBookError::ArithmeticOverflow
                && !proceeds_fit(fill as int, price as int, decimals as nat),
        },
{
    let unit = match checked_scale(decimals) {
        Some(unit) => unit,
        None => return Err(AnchorOrderBookError::ArithmeticOverflow),
    };
    match fill.checked_mul(price) {
        Some(product) => Ok(product / unit),
        None => Err(AnchorOrderBookError::ArithmeticOverflow),
    }
}

/// The most that a buy order offering `offered` can absorb at the sell
/// order's `price`: `offered * 10^decimals / price`, rounded down.
pub fn max_accepting_tokens(offered: u64, price: u64, decimals: u8) -> (out: Result<u64, AnchorOrderBookError>)
    ensures
        match out {
            Ok(target) => fill_target_fits(offered as int, price as int, decimals as nat)
                && target == fill_target(offered as int, price as int, decimals as nat),
            Err(e) => e == AnchorOrderBookError::ArithmeticOverflow
                && !fill_target_fits(offered as int, price as int, decimals as nat),
        },
{
    let unit = match checked_scale(decimals) {
        Some(unit) => unit,
        None => return Err(AnchorOrderBookError::ArithmeticOverflow),
    };
    if price == 0 {
        return Err(AnchorOrderBookError::ArithmeticOverflow);
    }
    match offered.checked_mul(unit) {
        Some(product) => Ok(product / price),
        None => Err(AnchorOrderBookError::ArithmeticOverflow),
    }
}

} // verus!
