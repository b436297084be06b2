//! The platform fee on a winning bid.

use vstd::prelude::*;

verus! {

/// The platform's fee rate in basis points: 2.5%.
pub const FEE_BASIS_POINTS: u64 = 250;

/// Basis points in the whole.
pub const BASIS_POINT_SCALE: u64 = 10000;

/// The fee on a winning bid of `price`: the rate applied to the price,
/// rounded down.
pub open spec fn fee_of(price: nat) -> nat {
    (price * (FEE_BASIS_POINTS as nat)) / (BASIS_POINT_SCALE as nat)
}

/// What the seller receives of a winning bid of `price`.
pub open spec fn seller_amount_of(price: nat) -> int {
    price - fee_of(price)
}

/// The fee never exceeds the price, and fee and seller amount together are
/// the price exactly.
pub proof fn lemma_fee_split_exact(price: nat)
    ensures
        fee_of(price) <= price,
        seller_amount_of(price) >= 0,
        seller_amount_of(price) + fee_of(price) == price,
        fee_of(price) == (price * 250) / 10000,
{
    assert((price * 250) / 10000 <= price) by (nonlinear_arith);
}

/// Computes the platform fee on `price`.
pub fn platform_fee(price: u64) -> (fee: u64)
    ensures
        fee == fee_of(price as nat),
        fee <= price,
{
    proof {
        lemma_fee_split_exact(price as nat);
    }
    let wide: u128 = (price as u128) * (FEE_BASIS_POINTS as u128);
    let fee: u128 = wide / (BASIS_POINT_SCALE as u128);
    fee as u64
}

/// Splits a winning bid into the seller's amount and the fee, in that order.
/// `None` would mean that the fee exceeded the price, which cannot happen.
pub fn split_proceeds(price: u64) -> (r: Option<(u64, u64)>)
    ensures
        r == Some((seller_amount_of(price as nat) as u64, fee_of(price as nat) as u64)),
        seller_amount_of(price as nat) + fee_of(price as nat) == price,
{
    proof {
        lemma_fee_split_exact(price as nat);
    }
    let fee: u64 = platform_fee(price);
    match price.checked_sub(fee) {
        Some(seller_amount) => Some((seller_amount, fee)),
        None => None,
    }
}

} // verus!
