use vstd::prelude::*;

use crate::errors::SwapDexError;
use crate::state::{Pubkey, UserProfile, MAX_KEEPERS};
use crate::vault::same_key;

verus! {

/// A sparse patch of a policy record: absent fields stay as they are.
#[derive(Clone, Debug)]
pub struct UpdateProfileParams {
    pub enabled: Option<bool>,
    pub trade_size_sol: Option<u64>,
    pub trade_size_usdc: Option<u64>,
    pub min_fee_pool: Option<u64>,
    pub target_fee_pool: Option<u64>,
    pub max_slippage_bps: Option<u16>,
    pub protocol_fee_bps: Option<u16>,
    pub relayer_refund_lamports: Option<u64>,
    /// Replaces the whole allowlist; entries past its capacity are dropped.
    pub keeper_allowlist: Option<Vec<Pubkey>>,
    pub daily_limit: Option<u16>,
}

/// What a profile update reads and writes: the calling user and their record.
#[derive(Clone, Copy, Debug)]
pub struct UpdateProfile {
    pub user: Pubkey,
    pub profile: UserProfile,
}

/// The patched value of one field.
pub open spec fn patched<T>(field: Option<T>, current: T) -> T {
    match field {
        Some(v) => v,
        None => current,
    }
}

/// Bytes of an unused allowlist slot.
pub open spec fn zero_key_bytes() -> Seq<u8> {
    Seq::new(32, |i: int| 0u8)
}

/// `slots` with `count` active holds `list` cut to capacity, the remaining slots cleared.
pub open spec fn holds_allowlist(slots: [Pubkey; 5], count: u8, list: Seq<Pubkey>) -> bool {
    let n = if list.len() < MAX_KEEPERS { list.len() as int } else { MAX_KEEPERS as int };
    &&& count == n
    &&& forall|i: int| 0 <= i < n ==> #[trigger] slots@[i] == list[i]
    &&& forall|i: int| n <= i < MAX_KEEPERS ==> #[trigger] slots@[i].bytes@ == zero_key_bytes()
}

/// `q` is `p` with `params` applied.
pub open spec fn spec_patched(p: UserProfile, params: UpdateProfileParams, q: UserProfile) -> bool {
    &&& q.owner == p.owner
    &&& q.enabled == patched(params.enabled, p.enabled)
    &&& q.trade_size_sol == patched(params.trade_size_sol, p.trade_size_sol)
    &&& q.trade_size_usdc == patched(params.trade_size_usdc, p.trade_size_usdc)
    &&& q.min_fee_pool == patched(params.min_fee_pool, p.min_fee_pool)
    &&& q.target_fee_pool == patched(params.target_fee_pool, p.target_fee_pool)
    &&& q.max_slippage_bps == patched(params.max_slippage_bps, p.max_slippage_bps)
    &&& q.protocol_fee_bps == patched(params.protocol_fee_bps, p.protocol_fee_bps)
    &&& q.relayer_refund_lamports == patched(params.relayer_refund_lamports, p.relayer_refund_lamports)
    &&& q.daily_limit == patched(params.daily_limit, p.daily_limit)
    &&& match params.keeper_allowlist {
        Some(list) => holds_allowlist(q.keeper_allowlist, q.keeper_count, list@),
        None => q.keeper_allowlist == p.keeper_allowlist && q.keeper_count == p.keeper_count,
    }
    &&& q.executions_today == p.executions_today
    &&& q.last_execution_day == p.last_execution_day
    &&& q.last_execution == p.last_execution
    &&& q.nonce == p.nonce
    &&& q.bump == p.bump
}

/// The patched value of one field.
pub fn pick<T: Copy>(field: Option<T>, current: T) -> (r: T)
    ensures
        r == patched(field, current),
{
    match field {
        Some(v) => v,
        None => current,
    }
}

/// `list` cut to the allowlist's capacity, with the count of kept entries.
pub fn truncated_allowlist(list: &Vec<Pubkey>) -> (r: ([Pubkey; 5], u8))
    ensures
        holds_allowlist(r.0, r.1, list@),
{
    let count: usize = if list.len() < MAX_KEEPERS {
        list.len()
    } else {
        MAX_KEEPERS
    };
    let zero = Pubkey::zeroed();
    let mut new_list: [Pubkey; 5] = [zero, zero, zero, zero, zero];
    let mut i: usize = 0;
    while i < count
        invariant
            i <= count,
            count <= MAX_KEEPERS,
            count <= list@.len(),
            count == list@.len() || count == MAX_KEEPERS,
            new_list@.len() == MAX_KEEPERS,
            forall|j: int| 0 <= j < i ==> #[trigger] new_list@[j] == list@[j],
            forall|j: int| i <= j < MAX_KEEPERS ==> #[trigger] new_list@[j].bytes@ == zero_key_bytes(),
        decreases count - i,
    {
        new_list[i] = list[i];
        i = i + 1;
    }
    (new_list, count as u8)
}

/// Applies `params` to the caller's record; only its owner may update it.
pub fn handler(ctx: &mut UpdateProfile, params: UpdateProfileParams) -> (r: Result<(), SwapDexError>)
    ensures
        same_key(old(ctx).user, old(ctx).profile.owner) ==> r == Ok::<(), SwapDexError>(())
            && final(ctx).user == old(ctx).user
            && spec_patched(old(ctx).profile, params, final(ctx).profile),
        !same_key(old(ctx).user, old(ctx).profile.owner) ==> r == Err::<(), SwapDexError>(
            SwapDexError::UnauthorizedKeeper,
        ) && *final(ctx) == *old(ctx),
        final(ctx).profile.wf() || !old(ctx).profile.wf(),
{
    if ctx.user != ctx.profile.owner {
        return Err(SwapDexError::UnauthorizedKeeper);
    }
    let p = ctx.profile;
    let (keeper_allowlist, keeper_count) = match &params.keeper_allowlist {
        Some(list) => {
            let t = truncated_allowlist(list);
            assert(t.1 <= MAX_KEEPERS);
            t
        },
        None => (p.keeper_allowlist, p.keeper_count),
    };
    ctx.profile = UserProfile {
        enabled: pick(params.enabled, p.enabled),
        trade_size_sol: pick(params.trade_size_sol, p.trade_size_sol),
        trade_size_usdc: pick(params.trade_size_usdc, p.trade_size_usdc),
        min_fee_pool: pick(params.min_fee_pool, p.min_fee_pool),
        target_fee_pool: pick(params.target_fee_pool, p.target_fee_pool),
        max_slippage_bps: pick(params.max_slippage_bps, p.max_slippage_bps),
        protocol_fee_bps: pick(params.protocol_fee_bps, p.protocol_fee_bps),
        relayer_refund_lamports: pick(params.relayer_refund_lamports, p.relayer_refund_lamports),
        keeper_allowlist,
        keeper_count,
        daily_limit: pick(params.daily_limit, p.daily_limit),
        ..p
    };
    assert(spec_patched(p, params, ctx.profile));
    Ok(())
}

} // verus!
