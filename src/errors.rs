use vstd::prelude::*;

verus! {

/// Every way an operation of this library can be refused.
#[derive(Clone, Copy, Debug, PartialEq, Eq, Structural)]
pub enum SwapDexError {
    ProfileDisabled,
    UnauthorizedKeeper,
    DailyLimitExceeded,
    InsufficientBalance,
    InsufficientFeePool,
    SlippageExceeded,
    InvalidSignalType,
    CooldownActive,
    InvalidMint,
    ArithmeticOverflow,
}

impl SwapDexError {
    /// The human-readable message of each error.
    pub open spec fn spec_message(self) -> &'static str {
        match self {
            SwapDexError::ProfileDisabled => "Profile is disabled",
            SwapDexError::UnauthorizedKeeper => "Unauthorized keeper",
            SwapDexError::DailyLimitExceeded => "Daily execution limit exceeded",
            SwapDexError::InsufficientBalance => "Insufficient balance",
            SwapDexError::InsufficientFeePool => "Insufficient fee pool balance",
            SwapDexError::SlippageExceeded => "Slippage exceeded maximum allowed",
            SwapDexError::InvalidSignalType => "Invalid signal type",
            SwapDexError::CooldownActive => "Cooldown period is still active",
            SwapDexError::InvalidMint => "Invalid token mint",
            SwapDexError::ArithmeticOverflow => "Arithmetic overflow",
        }
    }

    pub fn message(&self) -> (r: &'static str)
        ensures
            r == self.spec_message(),
    {
        match self {
            SwapDexError::ProfileDisabled => "Profile is disabled",
            SwapDexError::UnauthorizedKeeper => "Unauthorized keeper",
            SwapDexError::DailyLimitExceeded => "Daily execution limit exceeded",
            SwapDexError::InsufficientBalance => "Insufficient balance",
            SwapDexError::InsufficientFeePool => "Insufficient fee pool balance",
            SwapDexError::SlippageExceeded => "Slippage exceeded maximum allowed",
            SwapDexError::InvalidSignalType => "Invalid signal type",
            SwapDexError::CooldownActive => "Cooldown period is still active",
            SwapDexError::InvalidMint => "Invalid token mint",
            SwapDexError::ArithmeticOverflow => "Arithmetic overflow",
        }
    }
}

} // verus!
