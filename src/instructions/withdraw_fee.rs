use vstd::prelude::*;

use crate::errors::SwapDexError;
use crate::events::{VaultKind, WithdrawalMade};
use crate::state::{Pubkey, UserProfile};
use crate::vault::{spec_withdraw_fee, withdraw_from_fee_pool};

verus! {

/// What a withdrawal from the fee pool reads and writes: the withdrawing
/// user, their policy record and the pool's balance.
#[derive(Clone, Copy, Debug)]
pub struct WithdrawFee {
    pub user: Pubkey,
    pub profile: UserProfile,
    pub fee_pool: u64,
}

/// Debits `amount` from the fee pool; only the record's owner may withdraw,
/// and the pool keeps at least `min_reserve` behind.
pub fn handler(ctx: &mut WithdrawFee, amount: u64, now: i64, min_reserve: u64) -> (r: Result<
    WithdrawalMade,
    SwapDexError,
>)
    ensures
        match spec_withdraw_fee(
            old(ctx).user,
            old(ctx).profile.owner,
            old(ctx).fee_pool,
            amount,
            min_reserve,
        ) {
            Ok(b) => *final(ctx) == (WithdrawFee { fee_pool: b, ..*old(ctx) }) && r == Ok::<
                WithdrawalMade,
                SwapDexError,
            >(WithdrawalMade { user: old(ctx).user, vault_type: VaultKind::Fee, amount, timestamp: now }),
            Err(e) => *final(ctx) == *old(ctx) && r == Err::<WithdrawalMade, SwapDexError>(e),
        },
{
    let b = match withdraw_from_fee_pool(&ctx.user, &ctx.profile.owner, ctx.fee_pool, amount, min_reserve) {
        Ok(b) => b,
        Err(e) => return Err(e),
    };
    ctx.fee_pool = b;
    Ok(WithdrawalMade { user: ctx.user, vault_type: VaultKind::Fee, amount, timestamp: now })
}

} // verus!
