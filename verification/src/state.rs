//! The ledger's data model: the administered configuration, a
//! participant's ledger of stake entries, and the per-collectible
//! lock-duration tracker.

use vstd::prelude::*;

verus! {

/// A 32-byte account identity (a participant, a token mint, a
/// collection), written out as two halves so the ledger can store and
/// compare identities as plain values. Deriving and verifying the keys
/// themselves is the authorization collaborator's business, outside this
/// crate.
#[derive(Clone, Copy, Debug, PartialEq, Eq, Structural)]
pub struct Pubkey {
    pub hi: u128,
    pub lo: u128,
}

/// One tier of the bonus schedule: an exact lock duration in days and
/// the interest rate it earns, in basis points with two decimal digits.
#[derive(Clone, Copy, Debug, PartialEq, Eq, Structural)]
pub struct NftApy {
    pub days: u16,
    pub apy: u16,
}

/// The administered configuration. Rates and caps are snapshotted into
/// every entry at creation, so later edits never change an existing
/// entry's terms.
#[derive(Clone, Copy, Debug)]
pub struct Config {
    /// Identity allowed to update this configuration.
    pub admin: Pubkey,
    /// Collection a collectible must belong to in order to earn a bonus.
    pub nft_collection: Pubkey,
    /// Cap on the bonus reward a single entry can ever pay, in base units.
    pub max_nft_reward_lamports: u64,
    /// Cap on the cumulative days a collectible can spend bonus-locked.
    pub max_nft_apy_duration_days: u16,
    /// Days a new stake is locked before it can be destaked.
    pub base_lock_days: u16,
    /// Interest rate earned by every stake, in basis points.
    pub base_apy: u16,
    /// The bonus schedule: exactly three tiers, matched exactly by days.
    pub nft_days_apy: [NftApy; 3],
}

impl Config {
    /// Bytes a stored configuration record occupies: an 8-byte record
    /// tag, two 32-byte identities, one u64, two u16 fields, one u16,
    /// and three 4-byte schedule tiers.
    pub fn len() -> (n: usize)
        ensures
            n == 98,
    {
        8 + 32 + 32 + 8 + 2 + 2 + 2 + 12
    }
}

/// One stake position: principal, its terms as snapshotted at creation,
/// the optional collectible bonus sub-record, and its lifecycle marks.
/// An entry is never deleted; a closed entry remains as a permanent,
/// queryable record.
#[derive(Clone, Copy, Debug, PartialEq, Eq, Structural)]
pub struct StakeEntry {
    /// Principal, in integer base units.
    pub amount: u64,
    /// Instant the position was opened.
    pub start_time: i64,
    /// Days the principal is locked, snapshotted from the configuration.
    pub stake_lock_days: u16,
    /// Base interest rate in basis points, snapshotted.
    pub base_apy: u16,
    /// Identity of the locked collectible, when a bonus is attached.
    pub nft: Option<Pubkey>,
    /// Instant the bonus lock began.
    pub nft_lock_time: Option<i64>,
    /// Days the collectible is bonus-locked.
    pub nft_lock_days: Option<u16>,
    /// Bonus interest rate in basis points.
    pub nft_apy: Option<u16>,
    /// Instant the collectible was handed back; set at most once.
    pub nft_unlock_time: Option<i64>,
    /// Instant the position was economically closed; set at most once.
    pub destake_time: Option<i64>,
    /// Instant the position was rolled into a successor; set at most once.
    pub restake_time: Option<i64>,
    /// Index of the entry this one was restaked out of, on a successor.
    pub parent_stake_index: Option<u64>,
    /// Total reward already paid out; never decreases.
    pub paid_amount: u64,
    /// Per-entry cap on the total bonus reward, snapshotted.
    pub max_nft_reward_lamports: u64,
    /// Per-entry cap on bonus-lock days, snapshotted.
    pub max_nft_apy_duration_days: u16,
}

impl StakeEntry {
    /// The bonus sub-record is all-or-nothing, an unlock presupposes a
    /// bonus and a closed position, and a restaked entry was closed and
    /// had its collectible released at the restake instant itself.
    pub open spec fn wf(self) -> bool {
        &&& self.nft.is_some() == self.nft_lock_time.is_some()
        &&& self.nft.is_some() == self.nft_lock_days.is_some()
        &&& self.nft.is_some() == self.nft_apy.is_some()
        &&& self.nft_unlock_time.is_some() ==> self.nft.is_some() && self.destake_time.is_some()
        &&& self.restake_time.is_some() ==> self.destake_time == self.restake_time
            && self.nft_unlock_time == self.restake_time
    }

    /// A fresh entry: no bonus, nothing paid, no lifecycle mark.
    pub fn new(
        amount: u64,
        start_time: i64,
        stake_lock_days: u16,
        base_apy: u16,
        max_nft_reward_lamports: u64,
        max_nft_apy_duration_days: u16,
        parent_stake_index: Option<u64>,
    ) -> (entry: StakeEntry)
        ensures
            entry == (StakeEntry {
                amount,
                start_time,
                stake_lock_days,
                base_apy,
                nft: None,
                nft_lock_time: None,
                nft_lock_days: None,
                nft_apy: None,
                nft_unlock_time: None,
                destake_time: None,
                restake_time: None,
                parent_stake_index,
                paid_amount: 0u64,
                max_nft_reward_lamports,
                max_nft_apy_duration_days,
            }),
            entry.wf(),
    {
        StakeEntry {
            amount,
            start_time,
            stake_lock_days,
            base_apy,
            nft: None,
            nft_lock_time: None,
            nft_lock_days: None,
            nft_apy: None,
            nft_unlock_time: None,
            destake_time: None,
            restake_time: None,
            parent_stake_index,
            paid_amount: 0,
            max_nft_reward_lamports,
            max_nft_apy_duration_days,
        }
    }

    /// Attach the bonus sub-record. Attaching is done at most once per
    /// entry: a new bonus lock requires a new entry.
    pub fn add_nft_info(&mut self, nft: Pubkey, lock_time: i64, lock_days: u16, apy: u16)
        ensures
            *final(self) == (StakeEntry {
                nft: Some(nft),
                nft_lock_time: Some(lock_time),
                nft_lock_days: Some(lock_days),
                nft_apy: Some(apy),
                ..*old(self)
            }),
    {
        self.nft = Some(nft);
        self.nft_lock_time = Some(lock_time);
        self.nft_lock_days = Some(lock_days);
        self.nft_apy = Some(apy);
    }

    /// Record a payout; the running total saturates rather than wraps.
    pub fn add_payment(&mut self, payment: u64)
        ensures
            *final(self) == (StakeEntry {
                paid_amount: sat_add_u64(old(self).paid_amount, payment),
                ..*old(self)
            }),
    {
        self.paid_amount = self.paid_amount.saturating_add(payment);
    }

    /// A bonus is attached and the collectible has not been handed back.
    pub fn is_nft_locked(&self) -> (locked: bool)
        ensures
            locked == (self.nft.is_some() && self.nft_lock_time.is_some()
                && self.nft_unlock_time.is_none()),
    {
        self.nft.is_some() && self.nft_lock_time.is_some() && self.nft_unlock_time.is_none()
    }
}

/// Addition on `u64` that stops at the greatest representable value.
pub open spec fn sat_add_u64(a: u64, b: u64) -> u64 {
    if a + b > u64::MAX {
        u64::MAX
    } else {
        (a + b) as u64
    }
}

/// Subtraction on `u64` that stops at zero.
pub open spec fn sat_sub_u64(a: u64, b: u64) -> u64 {
    if a >= b {
        (a - b) as u64
    } else {
        0u64
    }
}

/// Addition on `u16` that stops at the greatest representable value.
pub open spec fn sat_add_u16(a: u16, b: u16) -> u16 {
    if a + b > u16::MAX {
        u16::MAX
    } else {
        (a + b) as u16
    }
}

/// One participant's ledger: an ordered, append-only sequence of stake
/// entries. Indices are stable once assigned and are how every operation
/// addresses an entry.
pub struct StakeInfo {
    /// The participant this ledger belongs to.
    pub address: Pubkey,
    /// The entries, oldest first.
    pub stakes: Vec<StakeEntry>,
}

impl StakeInfo {
    /// Every entry is well formed, a successor's parent stands strictly
    /// before it, and every restaked entry has a successor pointing back
    /// at it.
    pub open spec fn wf(self) -> bool {
        &&& forall|i: int|
            0 <= i < self.stakes.len() ==> (#[trigger] self.stakes[i]).wf()
        &&& forall|i: int|
            0 <= i < self.stakes.len() ==> ((#[trigger] self.stakes[i]).parent_stake_index
                matches Some(p) ==> p < i)
        &&& restaked_have_successor(self.stakes@)
    }
}

/// Every entry marked restaked has a successor entry whose parent index
/// points back at it.
pub open spec fn restaked_have_successor(stakes: Seq<StakeEntry>) -> bool {
    forall|i: int|
        0 <= i < stakes.len() && (#[trigger] stakes[i]).restake_time.is_some()
            ==> exists|j: int|
                0 <= j < stakes.len() && (#[trigger] stakes[j]).parent_stake_index
                    == Some(i as u64)
}

impl StakeEntry {
    /// Runtime test of this entry's well-formedness, for a caller that
    /// loads a ledger from storage rather than building it through this
    /// crate's operations.
    pub fn check_well_formed(&self) -> (b: bool)
        ensures
            b == self.wf(),
    {
        let bonus_consistent = self.nft.is_some() == self.nft_lock_time.is_some()
            && self.nft.is_some() == self.nft_lock_days.is_some()
            && self.nft.is_some() == self.nft_apy.is_some();
        let unlock_consistent = match self.nft_unlock_time {
            Some(_) => self.nft.is_some() && self.destake_time.is_some(),
            None => true,
        };
        let restake_consistent = match self.restake_time {
            Some(t) => {
                let destake_matches = match self.destake_time {
                    Some(d) => d == t,
                    None => false,
                };
                let unlock_matches = match self.nft_unlock_time {
                    Some(u) => u == t,
                    None => false,
                };
                destake_matches && unlock_matches
            },
            None => true,
        };
        bonus_consistent && unlock_consistent && restake_consistent
    }
}

impl StakeInfo {
    /// Runtime test that every entry is well formed and the ledger's
    /// restake links hold, for a caller that loads a ledger from
    /// storage rather than building it through this crate's operations.
    pub fn check_well_formed(&self) -> (b: bool)
        ensures
            b == self.wf(),
    {
        let n = self.stakes.len();
        let mut i: usize = 0;
        while i < n
            invariant
                0 <= i <= n,
                n == self.stakes.len(),
                forall|k: int| 0 <= k < i ==> (#[trigger] self.stakes[k]).wf(),
                forall|k: int|
                    0 <= k < i ==> ((#[trigger] self.stakes[k]).parent_stake_index
                        matches Some(p) ==> p < k),
                forall|k: int|
                    0 <= k < i && (#[trigger] self.stakes[k]).restake_time.is_some()
                        ==> exists|j: int|
                            0 <= j < n && (#[trigger] self.stakes[j]).parent_stake_index
                                == Some(k as u64),
            decreases n - i,
        {
            let entry = self.stakes[i];
            if !entry.check_well_formed() {
                return false;
            }
            match entry.parent_stake_index {
                Some(p) => {
                    if p >= i as u64 {
                        return false;
                    }
                },
                None => {},
            }
            if entry.restake_time.is_some() {
                let mut j: usize = 0;
                let mut found = false;
                while j < n
                    invariant
                        0 <= j <= n,
                        n == self.stakes.len(),
                        i < n,
                        found ==> exists|l: int|
                            0 <= l < n && (#[trigger] self.stakes[l]).parent_stake_index
                                == Some(i as u64),
                        !found ==> forall|l: int|
                            0 <= l < j ==> (#[trigger] self.stakes[l]).parent_stake_index
                                != Some(i as u64),
                    decreases n - j,
                {
                    match self.stakes[j].parent_stake_index {
                        Some(p) => {
                            if p == i as u64 {
                                found = true;
                            }
                        },
                        None => {},
                    }
                    j = j + 1;
                }
                if !found {
                    return false;
                }
            }
            i = i + 1;
        }
        true
    }
}

/// The per-collectible lock-duration tracker: cumulative days the item
/// has spent bonus-locked, across every stake that ever locked it.
#[derive(Clone, Copy, Debug, PartialEq, Eq, Structural)]
pub struct NftInfo {
    /// Cumulative bonus-lock days recorded for the collectible.
    pub days_locked: u16,
}

impl NftInfo {
    /// Record further bonus-lock days; the total saturates rather than
    /// wraps.
    pub fn add_days(&mut self, days_to_add: u16)
        ensures
            final(self).days_locked == sat_add_u16(old(self).days_locked, days_to_add),
    {
        self.days_locked = self.days_locked.saturating_add(days_to_add);
    }

    /// Whether `additional_days` more days of bonus lock would keep the
    /// collectible's recorded total within `max_days`.
    pub fn can_lock(&self, additional_days: u16, max_days: u16) -> (ok: bool)
        ensures
            ok == (sat_add_u16(self.days_locked, additional_days) <= max_days),
    {
        let total_lock_days = self.days_locked.saturating_add(additional_days);

        total_lock_days <= max_days
    }
}

} // verus!
