use vstd::prelude::*;

use crate::errors::SwapDexError;
use crate::instructions::execute_signal::{
    spec_check, spec_execute, spec_source_balance, spec_trade_size, ExecuteSignal,
};
use crate::state::{Pubkey, UserProfile};
use crate::utils::{spec_calculate_fee, spec_day};
use crate::vault::{same_key, spec_withdraw_fee};

verus! {

/// A fee at no more than 10000 basis points always fits and never exceeds
/// the amount it is taken from; at zero basis points it is zero.
pub proof fn lemma_fee_at_most_amount(amount: u64, fee_bps: u16)
    requires
        fee_bps <= 10_000,
    ensures
        spec_calculate_fee(amount, fee_bps) is Ok,
        spec_calculate_fee(amount, fee_bps)->Ok_0 <= amount,
        fee_bps == 0 ==> spec_calculate_fee(amount, fee_bps) == Ok::<u64, SwapDexError>(0),
{
    assert(amount as int * fee_bps as int <= amount as int * 10_000) by (nonlinear_arith)
        requires
            fee_bps <= 10_000,
    ;
    assert(amount as int * fee_bps as int / 10_000 <= amount as int) by (nonlinear_arith)
        requires
            amount as int * fee_bps as int <= amount as int * 10_000,
    ;
    assert(amount as int * fee_bps as int >= 0) by (nonlinear_arith);
}

/// A keeper in one of the first `keeper_count` slots is authorized; a key
/// found in none of them is not, whatever the slots past the count hold.
pub proof fn lemma_keeper_slots(p: UserProfile, keeper: Pubkey)
    requires
        p.wf(),
    ensures
        (exists|i: int| 0 <= i < p.keeper_count && same_key(#[trigger] p.keeper_allowlist@[i], keeper))
            ==> p.spec_is_keeper(keeper),
        (forall|i: int| 0 <= i < p.keeper_count ==> !same_key(#[trigger] p.keeper_allowlist@[i], keeper))
            ==> !p.spec_is_keeper(keeper),
{
}

/// An execution by a keeper outside the allowlist is refused as such, so
/// (by the handler's contract) it changes neither counters nor balances.
pub proof fn lemma_unauthorized_changes_nothing(
    ctx: ExecuteSignal,
    signal_type: u8,
    min_out: u64,
    amount_out: u64,
    now: i64,
    min_reserve: u64,
)
    requires
        !ctx.profile.spec_is_keeper(ctx.keeper),
    ensures
        spec_execute(ctx, signal_type, min_out, amount_out, now, min_reserve) == Err::<
            (ExecuteSignal, crate::instructions::execute_signal::SignalReceipt),
            SwapDexError,
        >(SwapDexError::UnauthorizedKeeper),
{
}

/// With a positive daily limit, an authorized request on a day whose count
/// has reached the limit is refused as over the limit; once a later day has
/// begun, the limit no longer refuses it.
pub proof fn lemma_daily_limit(ctx: ExecuteSignal, signal_type: u8, now: i64)
    requires
        ctx.profile.spec_is_keeper(ctx.keeper),
        ctx.profile.enabled,
        ctx.profile.daily_limit > 0,
    ensures
        spec_day(now as int) <= ctx.profile.last_execution_day && ctx.profile.executions_today
            >= ctx.profile.daily_limit ==> spec_check(ctx, signal_type, now as int) == Err::<
            u64,
            SwapDexError,
        >(SwapDexError::DailyLimitExceeded),
        spec_day(now as int) > ctx.profile.last_execution_day ==> spec_check(
            ctx,
            signal_type,
            now as int,
        ) != Err::<u64, SwapDexError>(SwapDexError::DailyLimitExceeded),
{
}

/// Once the nonce is at its maximum, an execution that passes every guard
/// and the output floor fails with an overflow, and so changes nothing.
pub proof fn lemma_nonce_overflow(
    ctx: ExecuteSignal,
    signal_type: u8,
    min_out: u64,
    amount_out: u64,
    now: i64,
    min_reserve: u64,
)
    requires
        ctx.profile.nonce == u64::MAX,
        spec_check(ctx, signal_type, now as int) is Ok,
        amount_out >= min_out,
    ensures
        spec_execute(ctx, signal_type, min_out, amount_out, now, min_reserve) == Err::<
            (ExecuteSignal, crate::instructions::execute_signal::SignalReceipt),
            SwapDexError,
        >(SwapDexError::ArithmeticOverflow),
{
}

/// A successful execution raises the nonce by exactly one, never moves the
/// day of the last rollover backwards, keeps the owner and the allowlist
/// (so the record stays well formed), and sells exactly the fixed trade size.
pub proof fn lemma_execution_advances_counters(
    ctx: ExecuteSignal,
    signal_type: u8,
    min_out: u64,
    amount_out: u64,
    now: i64,
    min_reserve: u64,
)
    requires
        ctx.profile.wf(),
        spec_execute(ctx, signal_type, min_out, amount_out, now, min_reserve) is Ok,
    ensures
        ({
            let after = spec_execute(ctx, signal_type, min_out, amount_out, now, min_reserve)->Ok_0.0;
            &&& after.profile.nonce == ctx.profile.nonce + 1
            &&& after.profile.last_execution_day >= ctx.profile.last_execution_day
            &&& after.profile.owner == ctx.profile.owner
            &&& after.profile.keeper_allowlist == ctx.profile.keeper_allowlist
            &&& after.profile.keeper_count == ctx.profile.keeper_count
            &&& after.profile.wf()
            &&& spec_source_balance(after, signal_type) + spec_trade_size(ctx.profile, signal_type)
                == spec_source_balance(ctx, signal_type)
        }),
{
}

/// A fee pool that holds exactly its reserve refuses every positive
/// withdrawal by its owner; one unit above the reserve, a withdrawal of one
/// unit goes through.
pub proof fn lemma_fee_pool_reserve(user: Pubkey, owner: Pubkey, min_reserve: u64, amount: u64)
    requires
        same_key(user, owner),
        amount > 0,
    ensures
        spec_withdraw_fee(user, owner, min_reserve, amount, min_reserve) == Err::<u64, SwapDexError>(
            SwapDexError::InsufficientFeePool,
        ),
        min_reserve < u64::MAX ==> spec_withdraw_fee(user, owner, (min_reserve + 1) as u64, 1, min_reserve)
            == Ok::<u64, SwapDexError>(min_reserve),
{
}

} // verus!
