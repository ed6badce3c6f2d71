use vstd::prelude::*;

use crate::errors::SwapDexError;
use crate::events::{DepositMade, VaultKind};
use crate::state::{Pubkey, UserProfile};
use crate::vault::{deposit_into, spec_deposit};

verus! {

/// What a deposit into the primary-asset vault reads and writes: the depositing user,
/// their policy record and the primary-asset vault's balance.
#[derive(Clone, Copy, Debug)]
pub struct DepositSol {
    pub user: Pubkey,
    pub profile: UserProfile,
    pub sol_vault: u64,
}

/// Credits `amount` to the primary-asset vault; only the record's owner may deposit.
/// The transfer from the user's own account is the caller's to make.
pub fn handler(ctx: &mut DepositSol, amount: u64, now: i64) -> (r: Result<DepositMade, SwapDexError>)
    ensures
        match spec_deposit(old(ctx).user, old(ctx).profile.owner, old(ctx).sol_vault, amount) {
            Ok(b) => *final(ctx) == (DepositSol { sol_vault: b, ..*old(ctx) }) && r == Ok::<
                DepositMade,
                SwapDexError,
            >(DepositMade { user: old(ctx).user, vault_type: VaultKind::Sol, amount, timestamp: now }),
            Err(e) => *final(ctx) == *old(ctx) && r == Err::<DepositMade, SwapDexError>(e),
        },
{
    let b = match deposit_into(&ctx.user, &ctx.profile.owner, ctx.sol_vault, amount) {
        Ok(b) => b,
        Err(e) => return Err(e),
    };
    ctx.sol_vault = b;
    Ok(DepositMade { user: ctx.user, vault_type: VaultKind::Sol, amount, timestamp: now })
}

} // verus!
