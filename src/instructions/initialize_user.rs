use vstd::prelude::*;

use crate::events::{DepositMade, VaultKind};
use crate::state::{Pubkey, UserProfile};
use crate::instructions::update_profile::zero_key_bytes;

verus! {

/// Default primary-asset trade size (2.5 units of nine decimals).
pub const DEFAULT_TRADE_SIZE_SOL: u64 = 2_500_000_000;

/// Default secondary-asset trade size (500 units of six decimals).
pub const DEFAULT_TRADE_SIZE_USDC: u64 = 500_000_000;

/// Default fee pool level below which a top-up is advised.
pub const DEFAULT_MIN_FEE_POOL: u64 = 50_000_000;

/// Default fee pool level a top-up aims for.
pub const DEFAULT_TARGET_FEE_POOL: u64 = 150_000_000;

/// Default slippage ceiling in basis points.
pub const DEFAULT_MAX_SLIPPAGE_BPS: u16 = 50;

/// Default protocol fee in basis points.
pub const DEFAULT_PROTOCOL_FEE_BPS: u16 = 10;

/// Default keeper reimbursement per execution.
pub const DEFAULT_RELAYER_REFUND: u64 = 5_000;

/// Default number of executions allowed per day.
pub const DEFAULT_DAILY_LIMIT: u16 = 10;

/// What creating a record reads: the user who will own it.
#[derive(Clone, Copy, Debug)]
pub struct InitializeUser {
    pub user: Pubkey,
}

/// The freshly created record of `user`: defaults, an empty allowlist and zeroed counters.
pub open spec fn spec_initial(user: Pubkey, bump: u8, p: UserProfile) -> bool {
    &&& p.owner == user
    &&& p.enabled
    &&& p.trade_size_sol == DEFAULT_TRADE_SIZE_SOL
    &&& p.trade_size_usdc == DEFAULT_TRADE_SIZE_USDC
    &&& p.min_fee_pool == DEFAULT_MIN_FEE_POOL
    &&& p.target_fee_pool == DEFAULT_TARGET_FEE_POOL
    &&& p.max_slippage_bps == DEFAULT_MAX_SLIPPAGE_BPS
    &&& p.protocol_fee_bps == DEFAULT_PROTOCOL_FEE_BPS
    &&& p.relayer_refund_lamports == DEFAULT_RELAYER_REFUND
    &&& forall|i: int| 0 <= i < 5 ==> #[trigger] p.keeper_allowlist@[i].bytes@ == zero_key_bytes()
    &&& p.keeper_count == 0
    &&& p.daily_limit == DEFAULT_DAILY_LIMIT
    &&& p.executions_today == 0
    &&& p.last_execution_day == 0
    &&& p.last_execution == 0
    &&& p.nonce == 0
    &&& p.bump == bump
}

/// Creates the policy record of `ctx.user`, whose address was derived with
/// `bump`, and the notification of its creation. The record's three vaults
/// start empty.
pub fn handler(ctx: &InitializeUser, bump: u8, now: i64) -> (r: (UserProfile, DepositMade))
    ensures
        spec_initial(ctx.user, bump, r.0),
        r.0.wf(),
        r.1 == (DepositMade {
            user: ctx.user,
            vault_type: VaultKind::Initialization,
            amount: 0,
            timestamp: now,
        }),
{
    let zero = Pubkey::zeroed();
    let profile = UserProfile {
        owner: ctx.user,
        enabled: true,
        trade_size_sol: DEFAULT_TRADE_SIZE_SOL,
        trade_size_usdc: DEFAULT_TRADE_SIZE_USDC,
        min_fee_pool: DEFAULT_MIN_FEE_POOL,
        target_fee_pool: DEFAULT_TARGET_FEE_POOL,
        max_slippage_bps: DEFAULT_MAX_SLIPPAGE_BPS,
        protocol_fee_bps: DEFAULT_PROTOCOL_FEE_BPS,
        relayer_refund_lamports: DEFAULT_RELAYER_REFUND,
        keeper_allowlist: [zero, zero, zero, zero, zero],
        keeper_count: 0,
        daily_limit: DEFAULT_DAILY_LIMIT,
        executions_today: 0,
        last_execution_day: 0,
        last_execution: 0,
        nonce: 0,
        bump,
    };
    let event = DepositMade {
        user: ctx.user,
        vault_type: VaultKind::Initialization,
        amount: 0,
        timestamp: now,
    };
    (profile, event)
}

} // verus!
