//! Default configuration values, fixed at deployment.

use vstd::prelude::*;

verus! {

/// Number of seconds in one day, the unit in which lock durations are
/// counted.
pub const SECONDS_PER_DAY: u64 = 86400;

/// Days a plain stake is locked before it can be destaked.
pub const STAKE_LOCK_DAYS: u16 = 14;

/// Base interest rate, in basis points with two decimal digits: 5.50%.
pub const BASE_APY: u16 = 550;

/// Cap on the bonus reward a single entry can ever pay, in whole tokens
/// (converted to base units with the token's decimals at initialization).
pub const MAX_NFT_REWARD: u64 = 750_000;

/// Cap on the cumulative days a collectible can spend bonus-locked.
pub const MAX_NFT_APY_DURATION_DAYS: u16 = 90;

/// Fractional digits carried by an interest rate: 550 means 5.50%.
pub const APY_DECIMALS: u8 = 2;

/// The default bonus schedule: 30, 60 and 90 day tiers at 29.50%,
/// 59.50% and 104.50%.
pub open spec fn spec_default_nft_days_apy() -> Seq<crate::state::NftApy> {
    seq![
        crate::state::NftApy { days: 30, apy: 2950 },
        crate::state::NftApy { days: 60, apy: 5950 },
        crate::state::NftApy { days: 90, apy: 10450 },
    ]
}

/// The default bonus schedule a deployment starts from.
pub fn default_nft_days_apy() -> (schedule: [crate::state::NftApy; 3])
    ensures
        schedule@ == spec_default_nft_days_apy(),
{
    let schedule = [
        crate::state::NftApy { days: 30, apy: 2950 },
        crate::state::NftApy { days: 60, apy: 5950 },
        crate::state::NftApy { days: 90, apy: 10450 },
    ];
    proof {
        assert(schedule@ =~= spec_default_nft_days_apy());
    }
    schedule
}

} // verus!
