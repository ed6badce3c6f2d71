use vstd::prelude::*;

use crate::errors::SwapDexError;
use crate::events::{VaultKind, WithdrawalMade};
use crate::state::{Pubkey, UserProfile};
use crate::vault::{spec_withdraw, withdraw_from};

verus! {

/// What a withdrawal from the secondary-asset vault reads and writes: the withdrawing
/// user, their policy record and the secondary-asset vault's balance.
#[derive(Clone, Copy, Debug)]
pub struct WithdrawUsdc {
    pub user: Pubkey,
    pub profile: UserProfile,
    pub usdc_vault: u64,
}

/// Debits `amount` from the secondary-asset vault; only the record's owner may withdraw,
/// and never more than the vault holds.
pub fn handler(ctx: &mut WithdrawUsdc, amount: u64, now: i64) -> (r: Result<WithdrawalMade, SwapDexError>)
    ensures
        match spec_withdraw(old(ctx).user, old(ctx).profile.owner, old(ctx).usdc_vault, amount) {
            Ok(b) => *final(ctx) == (WithdrawUsdc { usdc_vault: b, ..*old(ctx) }) && r == Ok::<
                WithdrawalMade,
                SwapDexError,
            >(WithdrawalMade { user: old(ctx).user, vault_type: VaultKind::Usdc, amount, timestamp: now }),
            Err(e) => *final(ctx) == *old(ctx) && r == Err::<WithdrawalMade, SwapDexError>(e),
        },
{
    let b = match withdraw_from(&ctx.user, &ctx.profile.owner, ctx.usdc_vault, amount) {
        Ok(b) => b,
        Err(e) => return Err(e),
    };
    ctx.usdc_vault = b;
    Ok(WithdrawalMade { user: ctx.user, vault_type: VaultKind::Usdc, amount, timestamp: now })
}

} // verus!
