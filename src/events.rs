use vstd::prelude::*;

use crate::state::Pubkey;

verus! {

/// Which of a user's holdings an operation touched.
#[derive(Clone, Copy, Debug, PartialEq, Eq, Structural)]
pub enum VaultKind {
    Sol,
    Usdc,
    Fee,
    Initialization,
}

impl VaultKind {
    pub open spec fn spec_label(self) -> &'static str {
        match self {
            VaultKind::Sol => "sol",
            VaultKind::Usdc => "usdc",
            VaultKind::Fee => "fee",
            VaultKind::Initialization => "initialization",
        }
    }

    /// The label observers see for this holding.
    pub fn label(&self) -> (r: &'static str)
        ensures
            r == self.spec_label(),
    {
        match self {
            VaultKind::Sol => "sol",
            VaultKind::Usdc => "usdc",
            VaultKind::Fee => "fee",
            VaultKind::Initialization => "initialization",
        }
    }
}

/// Emitted once per successful signal execution.
#[derive(Clone, Copy, Debug, PartialEq, Eq)]
pub struct SignalExecuted {
    pub user: Pubkey,
    pub signal_type: u8,
    pub amount_in: u64,
    pub amount_out: u64,
    pub fee: u64,
    pub nonce: u64,
    pub timestamp: i64,
}

/// Emitted when value enters a vault (and once at initialization, with amount 0).
#[derive(Clone, Copy, Debug, PartialEq, Eq)]
pub struct DepositMade {
    pub user: Pubkey,
    pub vault_type: VaultKind,
    pub amount: u64,
    pub timestamp: i64,
}

/// Emitted when value leaves a vault to its owner.
#[derive(Clone, Copy, Debug, PartialEq, Eq)]
pub struct WithdrawalMade {
    pub user: Pubkey,
    pub vault_type: VaultKind,
    pub amount: u64,
    pub timestamp: i64,
}

/// Emitted when a non-zero protocol fee is taken from a swap's output.
#[derive(Clone, Copy, Debug, PartialEq, Eq)]
pub struct FeeCollected {
    pub user: Pubkey,
    pub amount: u64,
    pub recipient: Pubkey,
    pub timestamp: i64,
}

/// Emitted when the executing keeper is reimbursed from the fee pool.
#[derive(Clone, Copy, Debug, PartialEq, Eq)]
pub struct RelayerRefunded {
    pub user: Pubkey,
    pub keeper: Pubkey,
    pub amount: u64,
    pub timestamp: i64,
}

} // verus!
