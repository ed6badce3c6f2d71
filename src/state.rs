use vstd::prelude::*;

verus! {

/// Signal that sells the primary asset for the secondary one.
pub const SIGNAL_SOL_TO_USDC: u8 = 0;

/// Signal that sells the secondary asset for the primary one.
pub const SIGNAL_USDC_TO_SOL: u8 = 1;

/// Capacity of a profile's keeper allowlist.
pub const MAX_KEEPERS: usize = 5;

/// Length of a day in seconds; day indices are timestamps divided by it.
pub const SECONDS_PER_DAY: i64 = 86_400;

/// A 32-byte account identity.
#[derive(Clone, Copy, Debug)]
pub struct Pubkey {
    pub bytes: [u8; 32],
}

impl Pubkey {
    /// The all-zero identity, used for unused allowlist slots.
    pub fn zeroed() -> (r: Pubkey)
        ensures
            r.bytes@ == Seq::new(32, |i: int| 0u8),
    {
        let r = Pubkey { bytes: [0u8; 32] };
        assert(r.bytes@ =~= Seq::new(32, |i: int| 0u8));
        r
    }

    pub fn new(bytes: [u8; 32]) -> (r: Pubkey)
        ensures
            r.bytes == bytes,
    {
        Pubkey { bytes }
    }
}

impl PartialEq for Pubkey {
    fn eq(&self, other: &Pubkey) -> (r: bool) {
        let mut i: usize = 0;
        while i < 32
            invariant
                i <= 32,
                forall|j: int| 0 <= j < i ==> self.bytes@[j] == other.bytes@[j],
            decreases 32 - i,
        {
            if self.bytes[i] != other.bytes[i] {
                return false;
            }
            i = i + 1;
        }
        assert(self.bytes@ =~= other.bytes@);
        true
    }
}

impl vstd::std_specs::cmp::PartialEqSpecImpl for Pubkey {
    open spec fn obeys_eq_spec() -> bool {
        true
    }

    open spec fn eq_spec(&self, other: &Pubkey) -> bool {
        self.bytes@ == other.bytes@
    }
}

impl Eq for Pubkey {
}

/// The per-user policy record: configuration and rolling counters.
#[derive(Clone, Copy, Debug)]
pub struct UserProfile {
    /// Owner wallet address.
    pub owner: Pubkey,
    /// Whether the profile accepts signal execution at all.
    pub enabled: bool,
    /// Amount sold per primary-to-secondary signal.
    pub trade_size_sol: u64,
    /// Amount sold per secondary-to-primary signal.
    pub trade_size_usdc: u64,
    /// Fee pool level below which a top-up is advised.
    pub min_fee_pool: u64,
    /// Fee pool level a top-up aims for.
    pub target_fee_pool: u64,
    /// Slippage ceiling in basis points (stored, not evaluated).
    pub max_slippage_bps: u16,
    /// Protocol fee in basis points, charged on the swap output.
    pub protocol_fee_bps: u16,
    /// Native units paid to the keeper per successful execution.
    pub relayer_refund_lamports: u64,
    /// Authorized keepers; only the first `keeper_count` slots count.
    pub keeper_allowlist: [Pubkey; 5],
    /// Number of active allowlist slots.
    pub keeper_count: u8,
    /// Maximum executions per day; 0 means unlimited.
    pub daily_limit: u16,
    /// Executions counted since the last day rollover.
    pub executions_today: u16,
    /// Day index of the last rollover.
    pub last_execution_day: i64,
    /// Timestamp of the last successful execution.
    pub last_execution: i64,
    /// Number of successful executions so far.
    pub nonce: u64,
    /// Derivation bump of the record's address.
    pub bump: u8,
}

impl UserProfile {
    /// Serialized size: discriminator, then each field in order.
    pub const LEN: usize = 8 + 32 + 1 + 8 + 8 + 8 + 8 + 2 + 2 + 8 + (32 * 5) + 1 + 2 + 2 + 8 + 8 + 8 + 1;

    /// The allowlist never claims more slots than it has.
    pub open spec fn wf(self) -> bool {
        self.keeper_count as int <= MAX_KEEPERS
    }

    /// `keeper` occupies one of the active allowlist slots.
    pub open spec fn spec_is_keeper(self, keeper: Pubkey) -> bool {
        exists|i: int|
            0 <= i < self.keeper_count && #[trigger] self.keeper_allowlist@[i].bytes@ == keeper.bytes@
    }

    pub fn is_keeper_authorized(&self, keeper: &Pubkey) -> (r: bool)
        requires
            self.wf(),
        ensures
            r == self.spec_is_keeper(*keeper),
    {
        let count = self.keeper_count as usize;
        let mut i: usize = 0;
        while i < count
            invariant
                i <= count,
                count == self.keeper_count,
                count <= MAX_KEEPERS,
                forall|j: int| 0 <= j < i ==> self.keeper_allowlist@[j].bytes@ != keeper.bytes@,
            decreases count - i,
        {
            if self.keeper_allowlist[i] == *keeper {
                return true;
            }
            i = i + 1;
        }
        false
    }
}

} // verus!
