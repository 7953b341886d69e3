//! Display scaling of raw on-chain amounts.
//!
//! At most six fractional digits are ever left to floating point: any digits
//! beyond those are cut by integer division first.

use vstd::prelude::*;
use vstd::arithmetic::power::pow;
use crate::uint256::Uint256;

verus! {

/// An amount shown as `quotient / 10^scale`.
#[derive(Clone, Debug)]
pub struct ScaledAmount {
    pub quotient: Uint256,
    pub scale: i32,
}

/// The decimal digits that integer division removes before floating point.
pub open spec fn integer_shift(decimals: i32) -> nat {
    if decimals > 6 {
        (decimals - 6) as nat
    } else {
        0
    }
}

/// The power of ten that floating point divides by.
pub open spec fn float_scale(decimals: i32) -> i32 {
    if decimals > 6 {
        6
    } else {
        decimals
    }
}

/// Cuts a raw amount down to at most six fractional digits.
pub fn scale_amount(amount: &Uint256, decimals: i32) -> (r: ScaledAmount)
    ensures
        r.quotient@ == amount@ / (pow(10, integer_shift(decimals)) as nat),
        r.scale == float_scale(decimals),
{
    let exp: u32 = if decimals > 6 {
        (decimals - 6) as u32
    } else {
        0
    };
    let base = Uint256::from_u32(10).pow(exp);
    proof {
        vstd::arithmetic::power::lemma_pow_positive(10, exp as nat);
    }
    let quotient = amount.div(&base);
    let scale: i32 = if decimals > 6 {
        6
    } else {
        decimals
    };
    ScaledAmount { quotient, scale }
}

/// A monetary field: a wide integer, a plain integer, or a scaled display value.
#[derive(Clone, Debug)]
pub enum AmountValue {
    U256(Uint256),
    U64(u64),
    Scaled(ScaledAmount),
}

impl From<Uint256> for AmountValue {
    fn from(value: Uint256) -> (r: AmountValue) {
        AmountValue::U256(value)
    }
}

impl vstd::std_specs::convert::FromSpecImpl<Uint256> for AmountValue {
    open spec fn obeys_from_spec() -> bool {
        true
    }

    open spec fn from_spec(v: Uint256) -> AmountValue {
        AmountValue::U256(v)
    }
}

impl From<u64> for AmountValue {
    fn from(value: u64) -> (r: AmountValue) {
        AmountValue::U64(value)
    }
}

impl vstd::std_specs::convert::FromSpecImpl<u64> for AmountValue {
    open spec fn obeys_from_spec() -> bool {
        true
    }

    open spec fn from_spec(v: u64) -> AmountValue {
        AmountValue::U64(v)
    }
}

} // verus!
