use vstd::prelude::*;

use crate::errors::SwapDexError;
use crate::state::Pubkey;

verus! {

/// Two identities are the same key.
pub open spec fn same_key(a: Pubkey, b: Pubkey) -> bool {
    a.bytes@ == b.bytes@
}

/// A deposit by `user` of `amount` into a vault of `owner` holding `balance`:
/// the new balance, or why it is refused.
pub open spec fn spec_deposit(user: Pubkey, owner: Pubkey, balance: u64, amount: u64) -> Result<
    u64,
    SwapDexError,
> {
    if !same_key(user, owner) {
        Err(SwapDexError::UnauthorizedKeeper)
    } else if amount == 0 {
        Err(SwapDexError::InsufficientBalance)
    } else if balance + amount > u64::MAX {
        Err(SwapDexError::ArithmeticOverflow)
    } else {
        Ok((balance + amount) as u64)
    }
}

/// A withdrawal by `user` of `amount` from a token vault of `owner` holding `balance`.
pub open spec fn spec_withdraw(user: Pubkey, owner: Pubkey, balance: u64, amount: u64) -> Result<
    u64,
    SwapDexError,
> {
    if !same_key(user, owner) {
        Err(SwapDexError::UnauthorizedKeeper)
    } else if amount == 0 || balance < amount {
        Err(SwapDexError::InsufficientBalance)
    } else {
        Ok((balance - amount) as u64)
    }
}

/// A withdrawal from a fee pool, which must keep `min_reserve` behind.
pub open spec fn spec_withdraw_fee(
    user: Pubkey,
    owner: Pubkey,
    balance: u64,
    amount: u64,
    min_reserve: u64,
) -> Result<u64, SwapDexError> {
    if !same_key(user, owner) {
        Err(SwapDexError::UnauthorizedKeeper)
    } else if amount == 0 {
        Err(SwapDexError::InsufficientBalance)
    } else if balance < min_reserve || balance - min_reserve < amount {
        Err(SwapDexError::InsufficientFeePool)
    } else {
        Ok((balance - amount) as u64)
    }
}

/// Credits `amount` to a vault of `owner` on behalf of `user`.
pub fn deposit_into(user: &Pubkey, owner: &Pubkey, balance: u64, amount: u64) -> (r: Result<
    u64,
    SwapDexError,
>)
    ensures
        r == spec_deposit(*user, *owner, balance, amount),
{
    if *user != *owner {
        return Err(SwapDexError::UnauthorizedKeeper);
    }
    if amount == 0 {
        return Err(SwapDexError::InsufficientBalance);
    }
    match balance.checked_add(amount) {
        Some(b) => Ok(b),
        None => Err(SwapDexError::ArithmeticOverflow),
    }
}

/// Debits `amount` from a token vault of `owner` on behalf of `user`.
pub fn withdraw_from(user: &Pubkey, owner: &Pubkey, balance: u64, amount: u64) -> (r: Result<
    u64,
    SwapDexError,
>)
    ensures
        r == spec_withdraw(*user, *owner, balance, amount),
{
    if *user != *owner {
        return Err(SwapDexError::UnauthorizedKeeper);
    }
    if amount == 0 || balance < amount {
        return Err(SwapDexError::InsufficientBalance);
    }
    Ok(balance - amount)
}

/// Debits `amount` from a fee pool of `owner`, leaving at least `min_reserve`.
pub fn withdraw_from_fee_pool(
    user: &Pubkey,
    owner: &Pubkey,
    balance: u64,
    amount: u64,
    min_reserve: u64,
) -> (r: Result<u64, SwapDexError>)
    ensures
        r == spec_withdraw_fee(*user, *owner, balance, amount, min_reserve),
{
    if *user != *owner {
        return Err(SwapDexError::UnauthorizedKeeper);
    }
    if amount == 0 {
        return Err(SwapDexError::InsufficientBalance);
    }
    let available = balance.saturating_sub(min_reserve);
    if available < amount {
        return Err(SwapDexError::InsufficientFeePool);
    }
    Ok(balance - amount)
}

} // verus!
