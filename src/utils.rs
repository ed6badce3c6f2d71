use vstd::prelude::*;

use crate::errors::SwapDexError;
use crate::state::SECONDS_PER_DAY;

verus! {

/// The fee on `amount` at `fee_bps` basis points, rounded down.
pub open spec fn spec_fee(amount: int, fee_bps: int) -> int {
    amount * fee_bps / 10_000
}

/// The outcome of the fee calculation: the fee when it fits in 64 bits.
pub open spec fn spec_calculate_fee(amount: u64, fee_bps: u16) -> Result<u64, SwapDexError> {
    if spec_fee(amount as int, fee_bps as int) <= u64::MAX {
        Ok(spec_fee(amount as int, fee_bps as int) as u64)
    } else {
        Err(SwapDexError::ArithmeticOverflow)
    }
}

/// Protocol fee: `amount * fee_bps / 10000`, with a 128-bit product.
pub fn calculate_fee(amount: u64, fee_bps: u16) -> (r: Result<u64, SwapDexError>)
    ensures
        r == spec_calculate_fee(amount, fee_bps),
{
    assert(amount as int * fee_bps as int <= u64::MAX as int * u16::MAX as int) by (nonlinear_arith)
        requires
            amount <= u64::MAX,
            fee_bps <= u16::MAX,
    ;
    let product: u128 = (amount as u128) * (fee_bps as u128);
    let fee: u128 = product / 10_000;
    if fee <= u64::MAX as u128 {
        Ok(fee as u64)
    } else {
        Err(SwapDexError::ArithmeticOverflow)
    }
}

/// Day index of a timestamp (floor division, so pre-epoch seconds fall on negative days).
pub open spec fn spec_day(ts: int) -> int {
    ts / (SECONDS_PER_DAY as int)
}

pub fn day_index(ts: i64) -> (r: i64)
    ensures
        r == spec_day(ts as int),
{
    if ts >= 0 {
        ts / SECONDS_PER_DAY
    } else {
        let before: i64 = -(ts + 1);
        let q: i64 = before / SECONDS_PER_DAY;
        assert(-q - 1 == ts as int / 86_400) by (nonlinear_arith)
            requires
                ts < 0,
                before == -(ts + 1),
                q == before / 86_400,
        ;
        -q - 1
    }
}

/// Whether `current_timestamp` falls on a later day than `last_timestamp`:
/// never on the same day, never going back.
pub fn is_new_day(last_timestamp: i64, current_timestamp: i64) -> (r: bool)
    ensures
        r == (spec_day(current_timestamp as int) > spec_day(last_timestamp as int)),
        spec_day(current_timestamp as int) == spec_day(last_timestamp as int) ==> !r,
        spec_day(current_timestamp as int) < spec_day(last_timestamp as int) ==> !r,
{
    let last_day = day_index(last_timestamp);
    let current_day = day_index(current_timestamp);
    current_day > last_day
}

} // verus!
