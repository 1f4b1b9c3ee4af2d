use vstd::prelude::*;

verus! {

/// Every way an operation on the staking ledger can fail. Each operation is
/// all-or-nothing: when it returns an error, no state has changed.
#[derive(Clone, Copy, Debug, PartialEq, Eq, Structural)]
pub enum ErrorCode {
    /// A stake of zero tokens was requested.
    NoTokens,
    /// The requested lock duration matches no tier of the bonus schedule.
    InvalidStakePeriod,
    /// The stake period has not been met.
    StakePeriodNotMet,
    /// A calculation could not be carried out.
    CalculationError,
    /// The ledger holds no stakes.
    NoStakes,
    /// The stake index is outside the ledger.
    InvalidStakeIndex,
    /// The entry has already been destaked.
    AlreadyDestaked,
    /// An arithmetic operation overflowed.
    ArithmeticOverflow,
    /// Growing the ledger's storage failed.
    ReallocError,
    /// The entry already carries a locked collectible.
    NftAlreadyLocked,
    /// The collectible does not belong to the authorized collection.
    InvalidCollection,
    /// An arithmetic operation overflowed.
    MathOverflow,
    /// The reward could not be computed without overflow.
    RewardCalculationFailed,
    /// The base lock period has not ended.
    BaseLockPeriodNotEnded,
    /// The collectible's lock period has not ended.
    NftLockPeriodNotEnded,
    /// The entry has not been destaked yet.
    StakeNotDestaked,
    /// No collectible is locked in this entry.
    NoNftLocked,
    /// The collectible offered is not the one locked in this entry.
    InvalidNftMint,
    /// Locking would push the collectible past its lifetime lock-duration cap.
    ExceedsMaxLockDuration,
    /// The entry has already been restaked.
    AlreadyRestaked,
    /// The restake request came after the allowed window.
    RestakeTooLate,
}

} // verus!
