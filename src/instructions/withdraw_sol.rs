use vstd::prelude::*;

use crate::errors::SwapDexError;
use crate::events::{VaultKind, WithdrawalMade};
use crate::state::{Pubkey, UserProfile};
use crate::vault::{spec_withdraw, withdraw_from};

verus! {

/// What a withdrawal from the primary-asset vault reads and writes: the withdrawing
/// user, their policy record and the primary-asset vault's balance.
#[derive(Clone, Copy, Debug)]
pub struct WithdrawSol {
    pub user: Pubkey,
    pub profile: UserProfile,
    pub sol_vault: u64,
}

/// Debits `amount` from the primary-asset vault; only the record's owner may withdraw,
/// and never more than the vault holds.
pub fn handler(ctx: &mut WithdrawSol, amount: u64, now: i64) -> (r: Result<WithdrawalMade, SwapDexError>)
    ensures
        match spec_withdraw(old(ctx).user, old(ctx).profile.owner, old(ctx).sol_vault, amount) {
            Ok(b) => *final(ctx) == (WithdrawSol { sol_vault: b, ..*old(ctx) }) && r == Ok::<
                WithdrawalMade,
                SwapDexError,
            >(WithdrawalMade { user: old(ctx).user, vault_type: VaultKind::Sol, amount, timestamp: now }),
            Err(e) => *final(ctx) == *old(ctx) && r == Err::<WithdrawalMade, SwapDexError>(e),
        },
{
    let b = match withdraw_from(&ctx.user, &ctx.profile.owner, ctx.sol_vault, amount) {
        Ok(b) => b,
        Err(e) => return Err(e),
    };
    ctx.sol_vault = b;
    Ok(WithdrawalMade { user: ctx.user, vault_type: VaultKind::Sol, amount, timestamp: now })
}

} // verus!
