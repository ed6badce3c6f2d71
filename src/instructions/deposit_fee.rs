use vstd::prelude::*;

use crate::errors::SwapDexError;
use crate::events::{DepositMade, VaultKind};
use crate::state::{Pubkey, UserProfile};
use crate::vault::{deposit_into, spec_deposit};

verus! {

/// What a deposit into the fee pool reads and writes: the depositing user,
/// their policy record and the fee pool's balance.
#[derive(Clone, Copy, Debug)]
pub struct DepositFee {
    pub user: Pubkey,
    pub profile: UserProfile,
    pub fee_pool: u64,
}

/// Credits `amount` to the fee pool; only the record's owner may deposit.
/// The transfer from the user's own account is the caller's to make.
pub fn handler(ctx: &mut DepositFee, amount: u64, now: i64) -> (r: Result<DepositMade, SwapDexError>)
    ensures
        match spec_deposit(old(ctx).user, old(ctx).profile.owner, old(ctx).fee_pool, amount) {
            Ok(b) => *final(ctx) == (DepositFee { fee_pool: b, ..*old(ctx) }) && r == Ok::<
                DepositMade,
                SwapDexError,
            >(DepositMade { user: old(ctx).user, vault_type: VaultKind::Fee, amount, timestamp: now }),
            Err(e) => *final(ctx) == *old(ctx) && r == Err::<DepositMade, SwapDexError>(e),
        },
{
    let b = match deposit_into(&ctx.user, &ctx.profile.owner, ctx.fee_pool, amount) {
        Ok(b) => b,
        Err(e) => return Err(e),
    };
    ctx.fee_pool = b;
    Ok(DepositMade { user: ctx.user, vault_type: VaultKind::Fee, amount, timestamp: now })
}

} // verus!
