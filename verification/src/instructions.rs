//! The stake-entry lifecycle state machine: every operation a caller can
//! issue against a ledger. Each operation takes the instant `now` read
//! once by the caller, validates its preconditions, computes any owed
//! amount, and mutates the ledger — or fails and leaves every record
//! exactly as it was. The custody transfers an operation requires are
//! returned as plain values for the caller to settle.

use vstd::prelude::*;

use crate::constants::{
    BASE_APY, MAX_NFT_APY_DURATION_DAYS, MAX_NFT_REWARD, SECONDS_PER_DAY, STAKE_LOCK_DAYS,
};
use crate::decimal::pow10;
use crate::error::ErrorCode;
use crate::state::{
    restaked_have_successor, sat_add_u16, sat_add_u64, Config, NftApy, NftInfo, Pubkey, StakeEntry,
    StakeInfo,
};
use crate::utils::{
    calculate_claimable_reward, calculate_days_passed, get_apy, spec_claimable_reward,
    spec_days_passed, spec_get_apy, to_lamports,
};

verus! {

/// What a successful destake hands back: the settled reward, and the
/// principal to return — unless the entry had been restaked, in which
/// case the principal already carried forward to the successor and must
/// not be paid out twice.
#[derive(Clone, Copy, Debug, PartialEq, Eq, Structural)]
pub struct DestakeOutcome {
    /// Reward settled at the destake instant, to be paid from the
    /// reward vault.
    pub reward: u64,
    /// Principal to hand back, or nothing for a restaked entry.
    pub principal: Option<u64>,
}

/// An administrative configuration update: only the fields that are
/// present are overwritten.
#[derive(Clone, Copy, Debug)]
pub struct UpdateConfigArgs {
    pub admin: Option<Pubkey>,
    pub base_lock_days: Option<u16>,
    pub max_nft_apy_duration_days: Option<u16>,
    pub base_apy: Option<u16>,
    pub max_nft_reward_lamports: Option<u64>,
    pub nft_days_apy: Option<[NftApy; 3]>,
}

/// A ledger whose links held keeps them when entries are only rewritten
/// in place without marking new restakes, and new entries are appended
/// unrestaked.
proof fn lemma_successor_preserved(s1: Seq<StakeEntry>, s2: Seq<StakeEntry>)
    requires
        restaked_have_successor(s1),
        s1.len() <= s2.len(),
        forall|i: int|
            0 <= i < s1.len() ==> (#[trigger] s2[i]).parent_stake_index
                == s1[i].parent_stake_index,
        forall|i: int|
            0 <= i < s1.len() && (#[trigger] s2[i]).restake_time.is_some()
                ==> s1[i].restake_time.is_some(),
        forall|i: int| s1.len() <= i < s2.len() ==> (#[trigger] s2[i]).restake_time.is_none(),
    ensures
        restaked_have_successor(s2),
{
    assert forall|i: int|
        0 <= i < s2.len() && (#[trigger] s2[i]).restake_time.is_some() implies exists|j: int|
        0 <= j < s2.len() && (#[trigger] s2[j]).parent_stake_index == Some(i as u64) by {
        assert(s1[i].restake_time.is_some());
        let j = choose|j: int|
            0 <= j < s1.len() && (#[trigger] s1[j]).parent_stake_index == Some(i as u64);
        assert(s2[j].parent_stake_index == Some(i as u64));
    }
}

/// Rewriting one entry in place — without marking a new restake and
/// without touching its parent link — keeps the whole ledger well
/// formed.
proof fn lemma_wf_after_update(si1: StakeInfo, si2: StakeInfo, idx: int, entry: StakeEntry)
    requires
        si1.wf(),
        0 <= idx < si1.stakes.len(),
        si2.stakes@ == si1.stakes@.update(idx, entry),
        entry.wf(),
        entry.parent_stake_index == si1.stakes[idx].parent_stake_index,
        entry.restake_time.is_some() ==> si1.stakes[idx].restake_time.is_some(),
    ensures
        si2.wf(),
{
    lemma_successor_preserved(si1.stakes@, si2.stakes@);
}

/// Appending a fresh, unrestaked entry keeps the whole ledger well
/// formed, provided its parent link (if any) points strictly before the
/// new index.
proof fn lemma_wf_after_push(si1: StakeInfo, si2: StakeInfo, entry: StakeEntry)
    requires
        si1.wf(),
        si2.stakes@ == si1.stakes@.push(entry),
        entry.wf(),
        entry.restake_time.is_none(),
        entry.parent_stake_index matches Some(p) ==> p < si1.stakes.len(),
    ensures
        si2.wf(),
{
    lemma_successor_preserved(si1.stakes@, si2.stakes@);
}

/// A fresh, empty ledger for one participant.
pub fn initialize_stake_info(address: Pubkey) -> (info: StakeInfo)
    ensures
        info.address == address,
        info.stakes@ =~= Seq::<StakeEntry>::empty(),
        info.wf(),
{
    StakeInfo { address, stakes: Vec::new() }
}

/// The entry a stake of `amount` at `now` creates: terms snapshotted
/// from the configuration, nothing paid, no bonus, no lifecycle mark.
pub open spec fn spec_new_entry(amount: u64, now: i64, config: Config) -> StakeEntry {
    StakeEntry {
        amount,
        start_time: now,
        stake_lock_days: config.base_lock_days,
        base_apy: config.base_apy,
        nft: None,
        nft_lock_time: None,
        nft_lock_days: None,
        nft_apy: None,
        nft_unlock_time: None,
        destake_time: None,
        restake_time: None,
        parent_stake_index: None,
        paid_amount: 0u64,
        max_nft_reward_lamports: config.max_nft_reward_lamports,
        max_nft_apy_duration_days: config.max_nft_apy_duration_days,
    }
}

/// Open a new position of `amount` base units. The caller settles the
/// matching custody transfer of the principal into the vault, and must
/// have arranged storage for one more entry beforehand. Fails with
/// `NoTokens` exactly on a zero amount.
pub fn stake(stake_info: &mut StakeInfo, config: &Config, amount: u64, now: i64) -> (r: Result<
    (),
    ErrorCode,
>)
    requires
        old(stake_info).wf(),
    ensures
        final(stake_info).wf(),
        final(stake_info).address == old(stake_info).address,
        amount == 0 ==> r == Err::<(), ErrorCode>(ErrorCode::NoTokens) && final(stake_info).stakes@
            == old(stake_info).stakes@,
        amount > 0 ==> r is Ok && final(stake_info).stakes@ == old(stake_info).stakes@.push(
            spec_new_entry(amount, now, *config),
        ),
{
    if amount == 0 {
        return Err(ErrorCode::NoTokens);
    }
    let new_stake = StakeEntry::new(
        amount,
        now,
        config.base_lock_days,
        config.base_apy,
        config.max_nft_reward_lamports,
        config.max_nft_apy_duration_days,
        None,
    );
    stake_info.stakes.push(new_stake);
    proof {
        lemma_wf_after_push(*old(stake_info), *stake_info, spec_new_entry(amount, now, *config));
    }
    Ok(())
}

/// The claim outcome owed at `now`: the claimable reward of the
/// addressed entry, or the exact error — an index outside the ledger,
/// an entry already destaked, or an overflowing reward computation.
pub open spec fn spec_claim_result(si: StakeInfo, stake_index: u64, now: i64) -> Result<
    u64,
    ErrorCode,
> {
    if stake_index >= si.stakes.len() {
        Err(ErrorCode::InvalidStakeIndex)
    } else if si.stakes[stake_index as int].destake_time.is_some() {
        Err(ErrorCode::AlreadyDestaked)
    } else {
        match spec_claimable_reward(si.stakes[stake_index as int], now) {
            None => Err(ErrorCode::RewardCalculationFailed),
            Some(v) => Ok(v),
        }
    }
}

/// Pay out everything the addressed entry has accrued beyond what it
/// was already paid. On success the payout is added to the entry's paid
/// total and returned for the caller to transfer from the reward vault;
/// claiming again at the same instant then yields exactly zero.
pub fn claim(stake_info: &mut StakeInfo, stake_index: u64, now: i64) -> (r: Result<u64, ErrorCode>)
    requires
        old(stake_info).wf(),
    ensures
        final(stake_info).wf(),
        final(stake_info).address == old(stake_info).address,
        r == spec_claim_result(*old(stake_info), stake_index, now),
        r is Err ==> final(stake_info).stakes@ == old(stake_info).stakes@,
        r matches Ok(v) ==> final(stake_info).stakes@ == old(stake_info).stakes@.update(
            stake_index as int,
            (StakeEntry {
                paid_amount: sat_add_u64(
                    old(stake_info).stakes[stake_index as int].paid_amount,
                    v,
                ),
                ..old(stake_info).stakes[stake_index as int]
            }),
        ),
        r is Ok ==> spec_claimable_reward(final(stake_info).stakes[stake_index as int], now)
            == Some(0u64),
{
    if stake_index >= stake_info.stakes.len() as u64 {
        return Err(ErrorCode::InvalidStakeIndex);
    }
    let idx = stake_index as usize;
    let mut entry = stake_info.stakes[idx];
    if entry.destake_time.is_some() {
        return Err(ErrorCode::AlreadyDestaked);
    }

    let claimable_reward = match calculate_claimable_reward(&entry, now) {
        Ok(v) => v,
        Err(e) => {
            return Err(e);
        },
    };

    entry.add_payment(claimable_reward);
    stake_info.stakes[idx] = entry;
    proof {
        lemma_wf_after_update(*old(stake_info), *stake_info, idx as int, entry);
    }
    Ok(claimable_reward)
}

/// The destake outcome owed at `now`: the settled reward and the
/// principal to return, or the exact error — an index outside the
/// ledger, an entry already destaked, a base or bonus lock period not
/// yet ended, or an overflowing reward computation.
pub open spec fn spec_destake_result(si: StakeInfo, stake_index: u64, now: i64) -> Result<
    DestakeOutcome,
    ErrorCode,
> {
    if stake_index >= si.stakes.len() {
        Err(ErrorCode::InvalidStakeIndex)
    } else {
        let e = si.stakes[stake_index as int];
        if e.destake_time.is_some() {
            Err(ErrorCode::AlreadyDestaked)
        } else if spec_days_passed(e.start_time, now) < e.stake_lock_days as int {
            Err(ErrorCode::BaseLockPeriodNotEnded)
        } else if e.nft_lock_time.is_some() && e.nft_lock_days.is_some() && spec_days_passed(
            e.nft_lock_time.unwrap(),
            now,
        ) < e.nft_lock_days.unwrap() as int {
            Err(ErrorCode::NftLockPeriodNotEnded)
        } else {
            match spec_claimable_reward(e, now) {
                None => Err(ErrorCode::RewardCalculationFailed),
                Some(v) => Ok(
                    DestakeOutcome {
                        reward: v,
                        principal: if e.restake_time.is_none() {
                            Some(e.amount)
                        } else {
                            None
                        },
                    },
                ),
            }
        }
    }
}

/// Close the addressed position: allowed once the base lock has elapsed
/// — and, when a bonus is attached, once the bonus lock has elapsed too.
/// Settles the reward exactly as a claim would, marks the entry
/// destaked, and tells the caller which transfers to make. The base
/// lock ending day itself already qualifies.
pub fn destake(stake_info: &mut StakeInfo, stake_index: u64, now: i64) -> (r: Result<
    DestakeOutcome,
    ErrorCode,
>)
    requires
        old(stake_info).wf(),
    ensures
        final(stake_info).wf(),
        final(stake_info).address == old(stake_info).address,
        r == spec_destake_result(*old(stake_info), stake_index, now),
        r is Err ==> final(stake_info).stakes@ == old(stake_info).stakes@,
        r matches Ok(out) ==> final(stake_info).stakes@ == old(stake_info).stakes@.update(
            stake_index as int,
            (StakeEntry {
                destake_time: Some(now),
                paid_amount: sat_add_u64(
                    old(stake_info).stakes[stake_index as int].paid_amount,
                    out.reward,
                ),
                ..old(stake_info).stakes[stake_index as int]
            }),
        ),
{
    if stake_index >= stake_info.stakes.len() as u64 {
        return Err(ErrorCode::InvalidStakeIndex);
    }
    let idx = stake_index as usize;
    let mut entry = stake_info.stakes[idx];
    if entry.destake_time.is_some() {
        return Err(ErrorCode::AlreadyDestaked);
    }

    let base_days_passed = calculate_days_passed(entry.start_time, now);
    if base_days_passed < entry.stake_lock_days as i64 {
        return Err(ErrorCode::BaseLockPeriodNotEnded);
    }

    match (entry.nft_lock_time, entry.nft_lock_days) {
        (Some(nft_lock_time), Some(nft_lock_days)) => {
            let nft_days_passed = calculate_days_passed(nft_lock_time, now);
            if nft_days_passed < nft_lock_days as i64 {
                return Err(ErrorCode::NftLockPeriodNotEnded);
            }
        },
        _ => {},
    }

    let claimable_reward = match calculate_claimable_reward(&entry, now) {
        Ok(v) => v,
        Err(e) => {
            return Err(e);
        },
    };

    let principal = if entry.restake_time.is_none() {
        Some(entry.amount)
    } else {
        None
    };

    entry.destake_time = Some(now);
    entry.add_payment(claimable_reward);
    stake_info.stakes[idx] = entry;
    proof {
        lemma_wf_after_update(*old(stake_info), *stake_info, idx as int, entry);
    }
    Ok(DestakeOutcome { reward: claimable_reward, principal })
}

/// The earliest instant a restake of a bonus locked at `lock_time` for
/// `lock_days` may be credited: one third of the bonus period, floored
/// to whole days, past the lock instant.
pub open spec fn spec_min_restake_time(lock_time: i64, lock_days: u16) -> int {
    lock_time + (lock_days as int / 3) * (SECONDS_PER_DAY as int)
}

/// The instant a restake requested at `now` is credited: never earlier
/// than one third of the bonus period, but any time at or past that
/// boundary.
pub open spec fn spec_restake_time(lock_time: i64, lock_days: u16, now: i64) -> int {
    let earliest = spec_min_restake_time(lock_time, lock_days);
    if earliest >= now {
        earliest
    } else {
        now as int
    }
}

/// The successor entry a restake at `effective_time` spawns: the same
/// principal and base terms (with the lock duration re-read from the
/// configuration), the bonus carried forward from `effective_time` with
/// the same item, duration and rate, and a parent link back to the
/// restaked entry.
pub open spec fn spec_restake_successor(
    e: StakeEntry,
    config: Config,
    effective_time: i64,
    stake_index: u64,
) -> StakeEntry {
    StakeEntry {
        amount: e.amount,
        start_time: effective_time,
        stake_lock_days: config.base_lock_days,
        base_apy: e.base_apy,
        nft: e.nft,
        nft_lock_time: Some(effective_time),
        nft_lock_days: e.nft_lock_days,
        nft_apy: e.nft_apy,
        nft_unlock_time: None,
        destake_time: None,
        restake_time: None,
        parent_stake_index: Some(stake_index),
        paid_amount: 0u64,
        max_nft_reward_lamports: e.max_nft_reward_lamports,
        max_nft_apy_duration_days: e.max_nft_apy_duration_days,
    }
}

/// The restake outcome at `now`: the effective time and the reward
/// settled up to it, or the exact error — an index outside the ledger,
/// an entry already restaked or already destaked, no bonus attached, an
/// effective time past the greatest representable instant, or an
/// overflowing reward computation.
pub open spec fn spec_restake_result(si: StakeInfo, stake_index: u64, now: i64) -> Result<
    u64,
    ErrorCode,
> {
    if stake_index >= si.stakes.len() {
        Err(ErrorCode::InvalidStakeIndex)
    } else {
        let e = si.stakes[stake_index as int];
        if e.restake_time.is_some() {
            Err(ErrorCode::AlreadyRestaked)
        } else if e.destake_time.is_some() {
            Err(ErrorCode::AlreadyDestaked)
        } else if !(e.nft.is_some() && e.nft_lock_time.is_some() && e.nft_lock_days.is_some()
            && e.nft_apy.is_some()) {
            Err(ErrorCode::NoNftLocked)
        } else if spec_min_restake_time(e.nft_lock_time.unwrap(), e.nft_lock_days.unwrap())
            > i64::MAX {
            Err(ErrorCode::ArithmeticOverflow)
        } else {
            let t = spec_restake_time(e.nft_lock_time.unwrap(), e.nft_lock_days.unwrap(), now);
            match spec_claimable_reward(e, t as i64) {
                None => Err(ErrorCode::RewardCalculationFailed),
                Some(v) => Ok(v),
            }
        }
    }
}

/// Roll a still bonus-locked position into a fresh one. The current
/// entry is settled and closed at the effective time — its destake,
/// restake and bonus-unlock instants all equal it — and a successor
/// entry carrying the bonus forward is appended, pointing back at it.
/// The principal stays in custody, reassigned to the successor; only
/// the settled reward is returned for the caller to transfer. The
/// caller must have arranged storage for one more entry beforehand.
pub fn restake(stake_info: &mut StakeInfo, config: &Config, stake_index: u64, now: i64) -> (r:
    Result<u64, ErrorCode>)
    requires
        old(stake_info).wf(),
    ensures
        final(stake_info).wf(),
        final(stake_info).address == old(stake_info).address,
        r == spec_restake_result(*old(stake_info), stake_index, now),
        r is Err ==> final(stake_info).stakes@ == old(stake_info).stakes@,
        r matches Ok(v) ==> ({
            let e = old(stake_info).stakes[stake_index as int];
            let t = spec_restake_time(
                e.nft_lock_time.unwrap(),
                e.nft_lock_days.unwrap(),
                now,
            ) as i64;
            final(stake_info).stakes@ == old(stake_info).stakes@.update(
                stake_index as int,
                (StakeEntry {
                    restake_time: Some(t),
                    destake_time: Some(t),
                    nft_unlock_time: Some(t),
                    paid_amount: sat_add_u64(e.paid_amount, v),
                    ..e
                }),
            ).push(spec_restake_successor(e, *config, t, stake_index))
        }),
{
    if stake_index >= stake_info.stakes.len() as u64 {
        return Err(ErrorCode::InvalidStakeIndex);
    }
    let idx = stake_index as usize;
    let mut entry = stake_info.stakes[idx];
    if entry.restake_time.is_some() {
        return Err(ErrorCode::AlreadyRestaked);
    }
    if entry.destake_time.is_some() {
        return Err(ErrorCode::AlreadyDestaked);
    }

    let (nft, nft_lock_time, nft_lock_days, nft_apy) = match (
        entry.nft,
        entry.nft_lock_time,
        entry.nft_lock_days,
        entry.nft_apy,
    ) {
        (Some(nft), Some(lock_time), Some(lock_days), Some(apy)) => (
            nft,
            lock_time,
            lock_days,
            apy,
        ),
        _ => {
            return Err(ErrorCode::NoNftLocked);
        },
    };

    let one_third_lock_period_days: i64 = (nft_lock_days as i64) / 3;
    let one_third_lock_period_seconds: i64 = one_third_lock_period_days * (SECONDS_PER_DAY as i64);
    let min_restake_start_time = match nft_lock_time.checked_add(one_third_lock_period_seconds) {
        Some(v) => v,
        None => {
            return Err(ErrorCode::ArithmeticOverflow);
        },
    };

    let restake_time = if min_restake_start_time >= now {
        min_restake_start_time
    } else {
        now
    };

    let claimable_reward = match calculate_claimable_reward(&entry, restake_time) {
        Ok(v) => v,
        Err(e) => {
            return Err(e);
        },
    };

    let mut new_stake = StakeEntry::new(
        entry.amount,
        restake_time,
        config.base_lock_days,
        entry.base_apy,
        entry.max_nft_reward_lamports,
        entry.max_nft_apy_duration_days,
        Some(stake_index),
    );
    new_stake.add_nft_info(nft, restake_time, nft_lock_days, nft_apy);

    entry.restake_time = Some(restake_time);
    entry.destake_time = Some(restake_time);
    entry.nft_unlock_time = Some(restake_time);
    entry.add_payment(claimable_reward);
    stake_info.stakes[idx] = entry;
    stake_info.stakes.push(new_stake);

    proof {
        let s1 = old(stake_info).stakes@;
        let s2 = stake_info.stakes@;
        assert forall|i: int|
            0 <= i < s2.len() && (#[trigger] s2[i]).restake_time.is_some() implies exists|j: int|
            0 <= j < s2.len() && (#[trigger] s2[j]).parent_stake_index == Some(i as u64) by {
            if i == idx {
                assert(s2[s1.len() as int].parent_stake_index == Some(i as u64));
            } else if i < s1.len() {
                assert(s1[i].restake_time.is_some());
                let j = choose|j: int|
                    0 <= j < s1.len() && (#[trigger] s1[j]).parent_stake_index == Some(i as u64);
                assert(s2[j].parent_stake_index == Some(i as u64));
            }
        }
    }
    Ok(claimable_reward)
}

/// The bonus-lock outcome: the bonus rate attached, or the exact error
/// — an index outside the ledger, an unverified collection, an entry
/// already destaked or already carrying a bonus, a duration matching no
/// schedule tier, or a lock that would push the collectible past its
/// lifetime cap.
pub open spec fn spec_lock_nft_result(
    si: StakeInfo,
    nft_info: NftInfo,
    config: Config,
    stake_index: u64,
    lock_days: u16,
    collection_verified: bool,
) -> Result<u16, ErrorCode> {
    if stake_index >= si.stakes.len() {
        Err(ErrorCode::InvalidStakeIndex)
    } else if !collection_verified {
        Err(ErrorCode::InvalidCollection)
    } else {
        let e = si.stakes[stake_index as int];
        if e.destake_time.is_some() {
            Err(ErrorCode::AlreadyDestaked)
        } else if e.nft.is_some() {
            Err(ErrorCode::NftAlreadyLocked)
        } else {
            match spec_get_apy(config.nft_days_apy, lock_days) {
                None => Err(ErrorCode::InvalidStakePeriod),
                Some(apy) => if sat_add_u16(nft_info.days_locked, lock_days)
                    > e.max_nft_apy_duration_days {
                    Err(ErrorCode::ExceedsMaxLockDuration)
                } else {
                    Ok(apy)
                },
            }
        }
    }
}

/// Attach a collectible to an open entry for a bonus rate. The caller
/// verifies the item's collection membership through the metadata
/// collaborator and passes the verdict in; on success it settles the
/// custody transfer of the item into the lock vault. The item's
/// recorded lifetime lock days grow by `lock_days` and stay within the
/// entry's snapshotted ceiling.
pub fn lock_nft(
    stake_info: &mut StakeInfo,
    nft_info: &mut NftInfo,
    config: &Config,
    stake_index: u64,
    lock_days: u16,
    nft_mint: Pubkey,
    collection_verified: bool,
    now: i64,
) -> (r: Result<(), ErrorCode>)
    requires
        old(stake_info).wf(),
    ensures
        final(stake_info).wf(),
        final(stake_info).address == old(stake_info).address,
        (match r {
            Ok(()) => spec_lock_nft_result(
                *old(stake_info),
                *old(nft_info),
                *config,
                stake_index,
                lock_days,
                collection_verified,
            ) is Ok,
            Err(e) => spec_lock_nft_result(
                *old(stake_info),
                *old(nft_info),
                *config,
                stake_index,
                lock_days,
                collection_verified,
            ) == Err::<u16, ErrorCode>(e),
        }),
        r is Err ==> final(stake_info).stakes@ == old(stake_info).stakes@ && *final(nft_info)
            == *old(nft_info),
        r is Ok ==> ({
            let apy = spec_lock_nft_result(
                *old(stake_info),
                *old(nft_info),
                *config,
                stake_index,
                lock_days,
                collection_verified,
            ).unwrap();
            final(stake_info).stakes@ == old(stake_info).stakes@.update(
                stake_index as int,
                (StakeEntry {
                    nft: Some(nft_mint),
                    nft_lock_time: Some(now),
                    nft_lock_days: Some(lock_days),
                    nft_apy: Some(apy),
                    ..old(stake_info).stakes[stake_index as int]
                }),
            )
        }),
        r is Ok ==> final(nft_info).days_locked == sat_add_u16(
            old(nft_info).days_locked,
            lock_days,
        ) && final(nft_info).days_locked
            <= old(stake_info).stakes[stake_index as int].max_nft_apy_duration_days,
{
    if stake_index >= stake_info.stakes.len() as u64 {
        return Err(ErrorCode::InvalidStakeIndex);
    }
    if !collection_verified {
        return Err(ErrorCode::InvalidCollection);
    }
    let idx = stake_index as usize;
    let mut entry = stake_info.stakes[idx];
    if entry.destake_time.is_some() {
        return Err(ErrorCode::AlreadyDestaked);
    }
    if entry.nft.is_some() {
        return Err(ErrorCode::NftAlreadyLocked);
    }

    let apy = match get_apy(lock_days, config.nft_days_apy) {
        Ok(v) => v,
        Err(e) => {
            return Err(e);
        },
    };

    if !nft_info.can_lock(lock_days, entry.max_nft_apy_duration_days) {
        return Err(ErrorCode::ExceedsMaxLockDuration);
    }

    entry.add_nft_info(nft_mint, now, lock_days, apy);
    stake_info.stakes[idx] = entry;
    nft_info.add_days(lock_days);
    proof {
        lemma_wf_after_update(*old(stake_info), *stake_info, idx as int, entry);
    }
    Ok(())
}

/// The bonus-unlock outcome: the identity of the collectible to hand
/// back, or the exact error — an index outside the ledger, no
/// collectible locked, the wrong collectible offered, an entry not yet
/// destaked, or a collectible already handed back.
pub open spec fn spec_unlock_nft_result(si: StakeInfo, stake_index: u64, nft_mint: Pubkey) -> Result<
    Pubkey,
    ErrorCode,
> {
    if stake_index >= si.stakes.len() {
        Err(ErrorCode::InvalidStakeIndex)
    } else {
        let e = si.stakes[stake_index as int];
        if e.nft.is_none() {
            Err(ErrorCode::NoNftLocked)
        } else if e.nft.unwrap() != nft_mint {
            Err(ErrorCode::InvalidNftMint)
        } else if e.destake_time.is_none() {
            Err(ErrorCode::StakeNotDestaked)
        } else if e.nft_unlock_time.is_some() {
            Err(ErrorCode::NoNftLocked)
        } else {
            Ok(e.nft.unwrap())
        }
    }
}

/// Hand a locked collectible back to the participant, once the entry is
/// destaked. Records the unlock instant — set exactly once — and
/// returns the item's identity for the caller to transfer out of the
/// lock vault.
pub fn unlock_nft(stake_info: &mut StakeInfo, stake_index: u64, nft_mint: Pubkey, now: i64) -> (r:
    Result<Pubkey, ErrorCode>)
    requires
        old(stake_info).wf(),
    ensures
        final(stake_info).wf(),
        final(stake_info).address == old(stake_info).address,
        r == spec_unlock_nft_result(*old(stake_info), stake_index, nft_mint),
        r is Err ==> final(stake_info).stakes@ == old(stake_info).stakes@,
        r is Ok ==> final(stake_info).stakes@ == old(stake_info).stakes@.update(
            stake_index as int,
            (StakeEntry {
                nft_unlock_time: Some(now),
                ..old(stake_info).stakes[stake_index as int]
            }),
        ),
{
    if stake_index >= stake_info.stakes.len() as u64 {
        return Err(ErrorCode::InvalidStakeIndex);
    }
    let idx = stake_index as usize;
    let mut entry = stake_info.stakes[idx];
    let locked_nft = match entry.nft {
        Some(k) => k,
        None => {
            return Err(ErrorCode::NoNftLocked);
        },
    };
    if !(locked_nft == nft_mint) {
        return Err(ErrorCode::InvalidNftMint);
    }
    if entry.destake_time.is_none() {
        return Err(ErrorCode::StakeNotDestaked);
    }
    if entry.nft_unlock_time.is_some() {
        return Err(ErrorCode::NoNftLocked);
    }

    entry.nft_unlock_time = Some(now);
    stake_info.stakes[idx] = entry;
    proof {
        lemma_wf_after_update(*old(stake_info), *stake_info, idx as int, entry);
    }
    Ok(locked_nft)
}

/// Overwrite exactly the configuration fields the update carries;
/// everything else, the authorized collection included, is unchanged.
/// That only the admin identity may issue the update is enforced by the
/// authorization collaborator around this crate.
pub fn update_config(config: &mut Config, args: UpdateConfigArgs)
    ensures
        final(config).admin == (if args.admin is Some {
            args.admin.unwrap()
        } else {
            old(config).admin
        }),
        final(config).base_lock_days == (if args.base_lock_days is Some {
            args.base_lock_days.unwrap()
        } else {
            old(config).base_lock_days
        }),
        final(config).base_apy == (if args.base_apy is Some {
            args.base_apy.unwrap()
        } else {
            old(config).base_apy
        }),
        final(config).max_nft_reward_lamports == (if args.max_nft_reward_lamports is Some {
            args.max_nft_reward_lamports.unwrap()
        } else {
            old(config).max_nft_reward_lamports
        }),
        final(config).max_nft_apy_duration_days == (if args.max_nft_apy_duration_days is Some {
            args.max_nft_apy_duration_days.unwrap()
        } else {
            old(config).max_nft_apy_duration_days
        }),
        final(config).nft_days_apy@ == (if args.nft_days_apy is Some {
            args.nft_days_apy.unwrap()@
        } else {
            old(config).nft_days_apy@
        }),
        final(config).nft_collection == old(config).nft_collection,
{
    match args.admin {
        Some(admin) => {
            config.admin = admin;
        },
        None => {},
    }
    match args.base_lock_days {
        Some(base_lock_days) => {
            config.base_lock_days = base_lock_days;
        },
        None => {},
    }
    match args.base_apy {
        Some(base_apy) => {
            config.base_apy = base_apy;
        },
        None => {},
    }
    match args.max_nft_reward_lamports {
        Some(max_nft_reward_lamports) => {
            config.max_nft_reward_lamports = max_nft_reward_lamports;
        },
        None => {},
    }
    match args.max_nft_apy_duration_days {
        Some(max_nft_apy_duration_days) => {
            config.max_nft_apy_duration_days = max_nft_apy_duration_days;
        },
        None => {},
    }
    match args.nft_days_apy {
        Some(nft_days_apy) => {
            config.nft_days_apy = nft_days_apy;
        },
        None => {},
    }
}

/// The configuration a deployment starts from: the deployer as admin,
/// the authorized collection, the fixed base terms and the default
/// bonus schedule, with the bonus-reward cap converted to base units
/// using the token's decimals. Fails with `MathOverflow` exactly when
/// that conversion does not fit in a `u64`.
pub fn initialize(admin: Pubkey, nft_collection: Pubkey, mint_decimals: u8) -> (r: Result<
    Config,
    ErrorCode,
>)
    ensures
        r is Ok <==> (pow10(mint_decimals as nat) <= u64::MAX as nat && MAX_NFT_REWARD * pow10(
            mint_decimals as nat,
        ) <= u64::MAX as nat),
        r is Err ==> r == Err::<Config, ErrorCode>(ErrorCode::MathOverflow),
        r matches Ok(c) ==> c.admin == admin && c.nft_collection == nft_collection
            && c.max_nft_reward_lamports == MAX_NFT_REWARD * pow10(mint_decimals as nat)
            && c.max_nft_apy_duration_days == MAX_NFT_APY_DURATION_DAYS && c.base_lock_days
            == STAKE_LOCK_DAYS && c.base_apy == BASE_APY && c.nft_days_apy@
            == crate::constants::spec_default_nft_days_apy(),
{
    let max_nft_reward_lamports = match to_lamports(MAX_NFT_REWARD, mint_decimals) {
        Ok(v) => v,
        Err(e) => {
            return Err(e);
        },
    };
    Ok(
        Config {
            admin,
            nft_collection,
            max_nft_reward_lamports,
            max_nft_apy_duration_days: MAX_NFT_APY_DURATION_DAYS,
            base_lock_days: STAKE_LOCK_DAYS,
            base_apy: BASE_APY,
            nft_days_apy: crate::constants::default_nft_days_apy(),
        },
    )
}

} // verus!
