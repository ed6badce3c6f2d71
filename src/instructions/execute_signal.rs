use vstd::prelude::*;

use crate::errors::SwapDexError;
use crate::events::{FeeCollected, RelayerRefunded, SignalExecuted};
use crate::state::{Pubkey, UserProfile, SIGNAL_SOL_TO_USDC, SIGNAL_USDC_TO_SOL};
use crate::utils::{calculate_fee, day_index, spec_calculate_fee, spec_day};

verus! {

/// What an execution reads and writes: the calling keeper, the user's
/// policy record, the balances of the user's two asset vaults and fee
/// pool, and the account that receives protocol fees.
#[derive(Clone, Copy, Debug)]
pub struct ExecuteSignal {
    pub keeper: Pubkey,
    pub profile: UserProfile,
    pub sol_vault: u64,
    pub usdc_vault: u64,
    pub fee_pool: u64,
    pub fee_recipient: Pubkey,
}

/// The notifications of one successful execution.
#[derive(Clone, Copy, Debug, PartialEq, Eq)]
pub struct SignalReceipt {
    pub executed: SignalExecuted,
    pub fee_collected: Option<FeeCollected>,
    pub relayer_refunded: Option<RelayerRefunded>,
}

/// Executions already counted on the day of `now`, after any rollover.
pub open spec fn spec_counted_today(p: UserProfile, now: int) -> int {
    if spec_day(now) > p.last_execution_day {
        0
    } else {
        p.executions_today as int
    }
}

/// Fixed trade size of a recognized signal.
pub open spec fn spec_trade_size(p: UserProfile, signal_type: u8) -> u64 {
    if signal_type == SIGNAL_SOL_TO_USDC {
        p.trade_size_sol
    } else {
        p.trade_size_usdc
    }
}

/// Balance of the vault a recognized signal sells from.
pub open spec fn spec_source_balance(ctx: ExecuteSignal, signal_type: u8) -> u64 {
    if signal_type == SIGNAL_SOL_TO_USDC {
        ctx.sol_vault
    } else {
        ctx.usdc_vault
    }
}

/// Balance of the vault a recognized signal buys into.
pub open spec fn spec_dest_balance(ctx: ExecuteSignal, signal_type: u8) -> u64 {
    if signal_type == SIGNAL_SOL_TO_USDC {
        ctx.usdc_vault
    } else {
        ctx.sol_vault
    }
}

/// The guards that precede the swap, in order; on success the amount to sell.
pub open spec fn spec_check(ctx: ExecuteSignal, signal_type: u8, now: int) -> Result<u64, SwapDexError> {
    let p = ctx.profile;
    if !p.spec_is_keeper(ctx.keeper) {
        Err(SwapDexError::UnauthorizedKeeper)
    } else if !p.enabled {
        Err(SwapDexError::ProfileDisabled)
    } else if p.daily_limit > 0 && spec_counted_today(p, now) >= p.daily_limit {
        Err(SwapDexError::DailyLimitExceeded)
    } else if signal_type != SIGNAL_SOL_TO_USDC && signal_type != SIGNAL_USDC_TO_SOL {
        Err(SwapDexError::InvalidSignalType)
    } else if spec_source_balance(ctx, signal_type) < spec_trade_size(p, signal_type) {
        Err(SwapDexError::InsufficientBalance)
    } else {
        Ok(spec_trade_size(p, signal_type))
    }
}

/// The part of the fee pool above the reserve it must keep.
pub open spec fn spec_spendable(balance: u64, min_reserve: u64) -> int {
    if balance >= min_reserve {
        balance - min_reserve
    } else {
        0
    }
}

/// Whether the keeper is reimbursed: a refund is configured and the pool can spare it.
pub open spec fn spec_refunds(ctx: ExecuteSignal, min_reserve: u64) -> bool {
    ctx.profile.relayer_refund_lamports > 0
        && spec_spendable(ctx.fee_pool, min_reserve) >= ctx.profile.relayer_refund_lamports
}

/// The record and balances after a successful execution.
pub open spec fn spec_after(
    ctx: ExecuteSignal,
    signal_type: u8,
    amount_out: u64,
    fee: u64,
    now: i64,
    min_reserve: u64,
) -> ExecuteSignal {
    let p = ctx.profile;
    let amount_in = spec_trade_size(p, signal_type);
    let credited = amount_out - fee;
    let profile = UserProfile {
        executions_today: (spec_counted_today(p, now as int) + 1) as u16,
        last_execution_day: if spec_day(now as int) > p.last_execution_day {
            spec_day(now as int) as i64
        } else {
            p.last_execution_day
        },
        last_execution: now,
        nonce: (p.nonce + 1) as u64,
        ..p
    };
    let fee_pool = if spec_refunds(ctx, min_reserve) {
        (ctx.fee_pool - p.relayer_refund_lamports) as u64
    } else {
        ctx.fee_pool
    };
    if signal_type == SIGNAL_SOL_TO_USDC {
        ExecuteSignal {
            profile,
            sol_vault: (ctx.sol_vault - amount_in) as u64,
            usdc_vault: (ctx.usdc_vault + credited) as u64,
            fee_pool,
            ..ctx
        }
    } else {
        ExecuteSignal {
            profile,
            usdc_vault: (ctx.usdc_vault - amount_in) as u64,
            sol_vault: (ctx.sol_vault + credited) as u64,
            fee_pool,
            ..ctx
        }
    }
}

/// The notifications of a successful execution.
pub open spec fn spec_receipt(
    ctx: ExecuteSignal,
    signal_type: u8,
    amount_out: u64,
    fee: u64,
    now: i64,
    min_reserve: u64,
) -> SignalReceipt {
    let p = ctx.profile;
    SignalReceipt {
        executed: SignalExecuted {
            user: p.owner,
            signal_type,
            amount_in: spec_trade_size(p, signal_type),
            amount_out,
            fee,
            nonce: (p.nonce + 1) as u64,
            timestamp: now,
        },
        fee_collected: if fee > 0 {
            Some(FeeCollected { user: p.owner, amount: fee, recipient: ctx.fee_recipient, timestamp: now })
        } else {
            None
        },
        relayer_refunded: if spec_refunds(ctx, min_reserve) {
            Some(
                RelayerRefunded {
                    user: p.owner,
                    keeper: ctx.keeper,
                    amount: p.relayer_refund_lamports,
                    timestamp: now,
                },
            )
        } else {
            None
        },
    }
}

/// The whole execution: the first failing guard, or the new state and its receipt.
pub open spec fn spec_execute(
    ctx: ExecuteSignal,
    signal_type: u8,
    min_out: u64,
    amount_out: u64,
    now: i64,
    min_reserve: u64,
) -> Result<(ExecuteSignal, SignalReceipt), SwapDexError> {
    let p = ctx.profile;
    match spec_check(ctx, signal_type, now as int) {
        Err(e) => Err(e),
        Ok(amount_in) => if amount_out < min_out {
            Err(SwapDexError::SlippageExceeded)
        } else {
            match spec_calculate_fee(amount_out, p.protocol_fee_bps) {
                Err(e) => Err(e),
                Ok(fee) => if fee > amount_out
                    || spec_dest_balance(ctx, signal_type) + (amount_out - fee) > u64::MAX
                    || p.nonce == u64::MAX
                    || spec_counted_today(p, now as int) == u16::MAX {
                    Err(SwapDexError::ArithmeticOverflow)
                } else {
                    Ok(
                        (
                            spec_after(ctx, signal_type, amount_out, fee, now, min_reserve),
                            spec_receipt(ctx, signal_type, amount_out, fee, now, min_reserve),
                        ),
                    )
                },
            }
        },
    }
}

/// Runs the guards that precede the swap, without changing anything; on
/// success returns the amount the swap venue is to be handed.
pub fn check_signal(ctx: &ExecuteSignal, signal_type: u8, now: i64) -> (r: Result<u64, SwapDexError>)
    requires
        ctx.profile.wf(),
    ensures
        r == spec_check(*ctx, signal_type, now as int),
{
    let p = &ctx.profile;
    if !p.is_keeper_authorized(&ctx.keeper) {
        return Err(SwapDexError::UnauthorizedKeeper);
    }
    if !p.enabled {
        return Err(SwapDexError::ProfileDisabled);
    }
    let today = day_index(now);
    let counted: u16 = if today > p.last_execution_day {
        0
    } else {
        p.executions_today
    };
    if p.daily_limit > 0 && counted >= p.daily_limit {
        return Err(SwapDexError::DailyLimitExceeded);
    }
    if signal_type != SIGNAL_SOL_TO_USDC && signal_type != SIGNAL_USDC_TO_SOL {
        return Err(SwapDexError::InvalidSignalType);
    }
    let (amount_in, vault_balance) = if signal_type == SIGNAL_SOL_TO_USDC {
        (p.trade_size_sol, ctx.sol_vault)
    } else {
        (p.trade_size_usdc, ctx.usdc_vault)
    };
    if vault_balance < amount_in {
        return Err(SwapDexError::InsufficientBalance);
    }
    Ok(amount_in)
}

/// Executes a signal whose swap returned `amount_out` against the floor
/// `min_out`. `now` is the current timestamp and `min_reserve` the balance
/// the fee pool must keep. All or nothing: on error nothing changes.
pub fn handler(
    ctx: &mut ExecuteSignal,
    signal_type: u8,
    min_out: u64,
    amount_out: u64,
    now: i64,
    min_reserve: u64,
) -> (r: Result<SignalReceipt, SwapDexError>)
    requires
        old(ctx).profile.wf(),
    ensures
        match spec_execute(*old(ctx), signal_type, min_out, amount_out, now, min_reserve) {
            Ok((after, receipt)) => *final(ctx) == after && r == Ok::<SignalReceipt, SwapDexError>(
                receipt,
            ),
            Err(e) => *final(ctx) == *old(ctx) && r == Err::<SignalReceipt, SwapDexError>(e),
        },
{
    let amount_in = match check_signal(ctx, signal_type, now) {
        Ok(a) => a,
        Err(e) => return Err(e),
    };
    if amount_out < min_out {
        return Err(SwapDexError::SlippageExceeded);
    }
    let p = ctx.profile;
    let fee = match calculate_fee(amount_out, p.protocol_fee_bps) {
        Ok(f) => f,
        Err(e) => return Err(e),
    };
    if fee > amount_out {
        return Err(SwapDexError::ArithmeticOverflow);
    }
    let credited = amount_out - fee;
    let dest = if signal_type == SIGNAL_SOL_TO_USDC {
        ctx.usdc_vault
    } else {
        ctx.sol_vault
    };
    let new_dest = match dest.checked_add(credited) {
        Some(v) => v,
        None => return Err(SwapDexError::ArithmeticOverflow),
    };
    let new_nonce = match p.nonce.checked_add(1) {
        Some(v) => v,
        None => return Err(SwapDexError::ArithmeticOverflow),
    };
    let today = day_index(now);
    let rollover = today > p.last_execution_day;
    let counted: u16 = if rollover {
        0
    } else {
        p.executions_today
    };
    let new_count = match counted.checked_add(1) {
        Some(v) => v,
        None => return Err(SwapDexError::ArithmeticOverflow),
    };
    // Point of no return: every check has passed.
    let refund = p.relayer_refund_lamports;
    let spendable = ctx.fee_pool.saturating_sub(min_reserve);
    let refunded = refund > 0 && spendable >= refund;
    if refunded {
        ctx.fee_pool = ctx.fee_pool - refund;
    }
    if signal_type == SIGNAL_SOL_TO_USDC {
        ctx.sol_vault = ctx.sol_vault - amount_in;
        ctx.usdc_vault = new_dest;
    } else {
        ctx.usdc_vault = ctx.usdc_vault - amount_in;
        ctx.sol_vault = new_dest;
    }
    if rollover {
        ctx.profile.last_execution_day = today;
    }
    ctx.profile.executions_today = new_count;
    ctx.profile.last_execution = now;
    ctx.profile.nonce = new_nonce;
    let owner = p.owner;
    let fee_collected = if fee > 0 {
        Some(FeeCollected { user: owner, amount: fee, recipient: ctx.fee_recipient, timestamp: now })
    } else {
        None
    };
    let relayer_refunded = if refunded {
        Some(RelayerRefunded { user: owner, keeper: ctx.keeper, amount: refund, timestamp: now })
    } else {
        None
    };
    let executed = SignalExecuted {
        user: owner,
        signal_type,
        amount_in,
        amount_out,
        fee,
        nonce: new_nonce,
        timestamp: now,
    };
    Ok(SignalReceipt { executed, fee_collected, relayer_refunded })
}

} // verus!
