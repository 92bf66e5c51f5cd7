//! The reward token of a campaign: how much of it each party gets, and when.
use vstd::prelude::*;

use crate::address::{optional_address_view, optional_address_views};
use crate::error::ContractError;
use crate::wide::{pow2_256, Wide};

verus! {

/// Contribution weighting: reward in proportion to the contribution.
pub const LINEAR_WEIGHT: u8 = 1;

/// Contribution weighting by square root. Not implemented: every campaign is
/// weighted linearly.
pub const SQRT_WEIGHT: u8 = 2;

/// Contribution weighting by logarithm. Not implemented: every campaign is
/// weighted linearly.
pub const LOG_WEIGHT: u8 = 3;

/// The whole, in parts per thousand.
pub const PER_MILLE_DENOM: u16 = 1000;

/// The block from which a share of a reward can be claimed.
#[derive(Clone, Copy, Debug, PartialEq, Eq, Structural)]
pub struct VestingEvent {
    pub block: u64,
    pub per_mille: u16,
}

/// How much of the reward a beneficiary can claim from a given block on.
#[derive(Clone, Copy, Debug, PartialEq, Eq, Structural)]
pub struct VestingReward {
    pub block: u64,
    pub amount: u128,
}

/// A vesting reward together with whether it has been claimed.
#[derive(Clone, Copy, Debug, PartialEq, Eq, Structural)]
pub struct VestingRewardStatus {
    pub amount: u128,
    pub block: u64,
    pub received: bool,
}

/// The reward token and its allocation, set once when the campaign is
/// created. Addresses are canonical.
#[derive(Debug)]
pub struct Snip24RewardInit {
    pub reward_snip24_code_id: u64,
    pub reward_snip24_code_hash: String,
    pub name: String,
    pub admin: Option<Vec<u8>>,
    pub symbol: String,
    pub decimals: u8,
    pub public_total_supply: bool,
    pub enable_deposit: bool,
    pub enable_redeem: bool,
    pub enable_mint: bool,
    pub enable_burn: bool,
    /// The number of tokens to mint.
    pub amount: u128,
    /// When the contributors' tokens are released.
    pub contributors_vesting_schedule: Vec<VestingEvent>,
    /// The contributors' part of `amount`.
    pub contributors_per_mille: u16,
    /// Below this contribution there is no reward.
    pub minimum_contribution: u128,
    /// What a contribution counts for at most; zero for no limit.
    pub maximum_contribution: u128,
    pub contribution_weight: u8,
    /// When the creator's tokens are released.
    pub creator_vesting_schedule: Vec<VestingEvent>,
    /// The creator's part of `amount`.
    pub creator_per_mille: u16,
    /// The addresses among which the creator's part is split, if not the
    /// creator alone.
    pub creator_addresses: Option<Vec<Vec<u8>>>,
}

/// The mathematical content of a [`Snip24RewardInit`].
pub ghost struct RewardView {
    pub reward_snip24_code_id: u64,
    pub reward_snip24_code_hash: Seq<char>,
    pub name: Seq<char>,
    pub admin: Option<Seq<u8>>,
    pub symbol: Seq<char>,
    pub decimals: u8,
    pub public_total_supply: bool,
    pub enable_deposit: bool,
    pub enable_redeem: bool,
    pub enable_mint: bool,
    pub enable_burn: bool,
    pub amount: nat,
    pub contributors_vesting_schedule: Seq<VestingEvent>,
    pub contributors_per_mille: nat,
    pub minimum_contribution: nat,
    pub maximum_contribution: nat,
    pub contribution_weight: u8,
    pub creator_vesting_schedule: Seq<VestingEvent>,
    pub creator_per_mille: nat,
    pub creator_addresses: Option<Seq<Seq<u8>>>,
}

impl View for Snip24RewardInit {
    type V = RewardView;

    open spec fn view(&self) -> RewardView {
        RewardView {
            reward_snip24_code_id: self.reward_snip24_code_id,
            reward_snip24_code_hash: self.reward_snip24_code_hash@,
            name: self.name@,
            admin: optional_address_view(self.admin),
            symbol: self.symbol@,
            decimals: self.decimals,
            public_total_supply: self.public_total_supply,
            enable_deposit: self.enable_deposit,
            enable_redeem: self.enable_redeem,
            enable_mint: self.enable_mint,
            enable_burn: self.enable_burn,
            amount: self.amount as nat,
            contributors_vesting_schedule: self.contributors_vesting_schedule@,
            contributors_per_mille: self.contributors_per_mille as nat,
            minimum_contribution: self.minimum_contribution as nat,
            maximum_contribution: self.maximum_contribution as nat,
            contribution_weight: self.contribution_weight,
            creator_vesting_schedule: self.creator_vesting_schedule@,
            creator_per_mille: self.creator_per_mille as nat,
            creator_addresses: optional_address_views(self.creator_addresses),
        }
    }
}

/// A message shown to contributors who gave at least `threshold`.
#[derive(Debug)]
pub struct RewardMessage {
    pub threshold: u128,
    pub message: String,
}

/// A [`RewardMessage`] as the campaign keeps it.
#[derive(Debug)]
pub struct StoredRewardMessage {
    pub threshold: u128,
    pub message: String,
}

/// The mathematical content of a reward message.
pub ghost struct RewardMessageView {
    pub threshold: nat,
    pub message: Seq<char>,
}

impl View for RewardMessage {
    type V = RewardMessageView;

    open spec fn view(&self) -> RewardMessageView {
        RewardMessageView { threshold: self.threshold as nat, message: self.message@ }
    }
}

impl View for StoredRewardMessage {
    type V = RewardMessageView;

    open spec fn view(&self) -> RewardMessageView {
        RewardMessageView { threshold: self.threshold as nat, message: self.message@ }
    }
}

/// The views of a list of reward messages.
pub open spec fn reward_message_views(s: Seq<RewardMessage>) -> Seq<RewardMessageView> {
    s.map_values(|m: RewardMessage| m@)
}

/// The views of a list of stored reward messages.
pub open spec fn stored_message_views(s: Seq<StoredRewardMessage>) -> Seq<RewardMessageView> {
    s.map_values(|m: StoredRewardMessage| m@)
}

/// The balance that a freshly minted token starts with.
#[derive(Debug)]
pub struct InitialBalance {
    /// The holder's address, as the host prints it.
    pub address: String,
    pub amount: u128,
}

/// The switches of a freshly minted token.
#[derive(Clone, Copy, Debug, PartialEq, Eq, Structural)]
pub struct InitConfig {
    pub public_total_supply: Option<bool>,
    pub enable_deposit: Option<bool>,
    pub enable_redeem: Option<bool>,
    pub enable_mint: Option<bool>,
    pub enable_burn: Option<bool>,
}

impl Default for InitConfig {
    fn default() -> (r: InitConfig)
        ensures
            r == (InitConfig {
                public_total_supply: None,
                enable_deposit: None,
                enable_redeem: None,
                enable_mint: None,
                enable_burn: None,
            }),
    {
        InitConfig {
            public_total_supply: None,
            enable_deposit: None,
            enable_redeem: None,
            enable_mint: None,
            enable_burn: None,
        }
    }
}

/// The request that creates the reward token.
#[derive(Debug)]
pub struct Snip24InstantiateMsg {
    pub name: String,
    pub admin: Option<Vec<u8>>,
    pub symbol: String,
    pub decimals: u8,
    pub initial_balances: Option<Vec<InitialBalance>>,
    pub prng_seed: Vec<u8>,
    pub config: Option<InitConfig>,
}

/// The sum of the per-mille shares of a schedule.
pub open spec fn schedule_sum(schedule: Seq<VestingEvent>) -> nat
    decreases schedule.len(),
{
    if schedule.len() == 0 {
        0
    } else {
        schedule_sum(schedule.drop_last()) + schedule.last().per_mille as nat
    }
}

/// A schedule is valid if it is empty, which releases everything at once, or
/// if its shares sum to exactly 1000 per mille.
pub open spec fn schedule_is_valid(schedule: Seq<VestingEvent>) -> bool {
    schedule.len() == 0 || schedule_sum(schedule) == 1000
}

/// The sum of a schedule only grows with its length.
pub proof fn lemma_schedule_sum_monotonic(schedule: Seq<VestingEvent>, i: int)
    requires
        0 <= i <= schedule.len(),
    ensures
        schedule_sum(schedule.subrange(0, i)) <= schedule_sum(schedule),
    decreases schedule.len() - i,
{
    if i == schedule.len() {
        assert(schedule.subrange(0, i) =~= schedule);
    } else {
        lemma_schedule_sum_monotonic(schedule, i + 1);
        assert(schedule.subrange(0, i + 1).drop_last() =~= schedule.subrange(0, i));
    }
}

/// Whether a schedule is valid.
pub fn check_schedule(schedule: &Vec<VestingEvent>) -> (r: bool)
    ensures
        r == schedule_is_valid(schedule@),
{
    if schedule.len() == 0 {
        return true;
    }
    let mut sum: u16 = 0;
    let mut i: usize = 0;
    while i < schedule.len()
        invariant
            i <= schedule@.len(),
            sum == schedule_sum(schedule@.subrange(0, i as int)),
            sum <= 1000,
        decreases schedule@.len() - i,
    {
        let share = schedule[i].per_mille;
        proof {
            assert(schedule@.subrange(0, i + 1).drop_last() =~= schedule@.subrange(0, i as int));
            assert(schedule@.subrange(0, i + 1).last() == schedule@[i as int]);
        }
        if share > PER_MILLE_DENOM - sum {
            proof {
                lemma_schedule_sum_monotonic(schedule@, i + 1);
            }
            return false;
        }
        sum = sum + share;
        i += 1;
    }
    assert(schedule@.subrange(0, schedule@.len() as int) =~= schedule@);
    sum == PER_MILLE_DENOM
}

/// What a contribution counts for: the contribution itself, capped by the
/// maximum where there is one.
pub open spec fn valid_contribution(contribution: nat, maximum: nat) -> nat {
    if maximum > 0 && maximum < contribution {
        maximum
    } else {
        contribution
    }
}

/// `amount * per_mille / 1000`, rounded down.
pub open spec fn per_mille_of(amount: nat, per_mille: nat) -> nat {
    (amount * per_mille) / 1000
}

/// A contributor's part of the reward: the contributors' part of the minted
/// amount, scaled by the contribution's part in all that was raised. Each
/// division rounds down, in this order.
pub open spec fn contributor_total_share(
    amount: nat,
    contributors_per_mille: nat,
    valid: nat,
    total_raised: nat,
) -> nat {
    (per_mille_of(amount, contributors_per_mille) * valid) / total_raised
}

/// `amount * per_mille / 1000` rounded down, or `Overflow` exactly when that
/// is more than a `u128` holds.
pub fn compute_per_mille(amount: u128, per_mille: u16) -> (r: Result<u128, ContractError>)
    ensures
        match r {
            Ok(v) => v == per_mille_of(amount as nat, per_mille as nat),
            Err(e) => e == ContractError::Overflow && per_mille_of(amount as nat, per_mille as nat)
                > u128::MAX,
        },
{
    let product = match Wide::from_u128(amount).checked_mul(Wide::from_u128(per_mille as u128)) {
        Some(p) => p,
        None => {
            proof {
                assert((amount as nat) * (per_mille as nat) < pow2_256()) by (nonlinear_arith)
                    requires
                        amount < 0x1_0000_0000_0000_0000_0000_0000_0000_0000,
                        per_mille < 0x1_0000,
                ;
            }
            return Err(ContractError::Overflow);
        },
    };
    let quotient = match product.checked_div(Wide::from_u128(PER_MILLE_DENOM as u128)) {
        Some(q) => q,
        None => {
            return Err(ContractError::DivisionByZero);
        },
    };
    match quotient.to_u128() {
        Some(v) => Ok(v),
        None => Err(ContractError::Overflow),
    }
}

/// A contributor's part of the reward, see [`contributor_total_share`].
///
/// Fails with `Overflow` when the scaled amount needs more than 256 bits or
/// the share more than 128, and with `DivisionByZero` when nothing was
/// raised.
pub fn compute_contributor_share(
    amount: u128,
    contributors_per_mille: u16,
    valid: u128,
    total_raised: u128,
) -> (r: Result<u128, ContractError>)
    ensures
        match r {
            Ok(v) => total_raised != 0 && per_mille_of(
                amount as nat,
                contributors_per_mille as nat,
            ) * valid < pow2_256() && v == contributor_total_share(
                amount as nat,
                contributors_per_mille as nat,
                valid as nat,
                total_raised as nat,
            ),
            Err(e) => if per_mille_of(amount as nat, contributors_per_mille as nat) * valid
                >= pow2_256() {
                e == ContractError::Overflow
            } else if total_raised == 0 {
                e == ContractError::DivisionByZero
            } else {
                e == ContractError::Overflow && contributor_total_share(
                    amount as nat,
                    contributors_per_mille as nat,
                    valid as nat,
                    total_raised as nat,
                ) > u128::MAX
            },
        },
{
    let product = match Wide::from_u128(amount).checked_mul(
        Wide::from_u128(contributors_per_mille as u128),
    ) {
        Some(p) => p,
        None => {
            proof {
                assert((amount as nat) * (contributors_per_mille as nat) < pow2_256())
                    by (nonlinear_arith)
                    requires
                        amount < 0x1_0000_0000_0000_0000_0000_0000_0000_0000,
                        contributors_per_mille < 0x1_0000,
                ;
            }
            return Err(ContractError::Overflow);
        },
    };
    let part = match product.checked_div(Wide::from_u128(PER_MILLE_DENOM as u128)) {
        Some(q) => q,
        None => {
            return Err(ContractError::DivisionByZero);
        },
    };
    let scaled = match part.checked_mul(Wide::from_u128(valid)) {
        Some(p) => p,
        None => {
            return Err(ContractError::Overflow);
        },
    };
    let share = match scaled.checked_div(Wide::from_u128(total_raised)) {
        Some(q) => q,
        None => {
            return Err(ContractError::DivisionByZero);
        },
    };
    match share.to_u128() {
        Some(v) => Ok(v),
        None => Err(ContractError::Overflow),
    }
}

/// The amounts that vest at each milestone of a schedule: `share * per_mille
/// / 1000` at each, or all of `share` at block 0 where the schedule is empty.
pub open spec fn vesting_of(share: nat, schedule: Seq<VestingEvent>) -> Seq<(u64, nat)> {
    if schedule.len() == 0 {
        seq![(0u64, share)]
    } else {
        Seq::new(
            schedule.len(),
            |i: int| (schedule[i].block, per_mille_of(share, schedule[i].per_mille as nat)),
        )
    }
}

/// What a list of vesting rewards holds: each block with its amount.
pub open spec fn reward_pairs(rewards: Seq<VestingReward>) -> Seq<(u64, nat)> {
    Seq::new(rewards.len(), |i: int| (rewards[i].block, rewards[i].amount as nat))
}

/// Whether one of the amounts of [`vesting_of`] is more than a `u128` holds.
pub open spec fn vesting_overflows(share: nat, schedule: Seq<VestingEvent>) -> bool {
    exists|i: int|
        0 <= i < vesting_of(share, schedule).len() && (#[trigger] vesting_of(share, schedule)[i]).1
            > u128::MAX
}

/// Splits a share over a vesting schedule, see [`vesting_of`]. Fails with
/// `Overflow` exactly when one of the amounts is more than a `u128` holds.
pub fn vest(share: u128, schedule: &Vec<VestingEvent>) -> (r: Result<Vec<VestingReward>, ContractError>)
    ensures
        match r {
            Ok(rewards) => !vesting_overflows(share as nat, schedule@) && reward_pairs(rewards@)
                == vesting_of(share as nat, schedule@),
            Err(e) => e == ContractError::Overflow && vesting_overflows(share as nat, schedule@),
        },
{
    let mut rewards: Vec<VestingReward> = Vec::new();
    if schedule.len() == 0 {
        rewards.push(VestingReward { block: 0, amount: share });
        assert(reward_pairs(rewards@) =~= vesting_of(share as nat, schedule@));
        assert(vesting_of(share as nat, schedule@)[0].1 == share);
        return Ok(rewards);
    }
    let mut i: usize = 0;
    while i < schedule.len()
        invariant
            schedule@.len() > 0,
            i <= schedule@.len(),
            rewards@.len() == i,
            forall|j: int|
                0 <= j < i ==> (#[trigger] rewards@[j]).block == schedule@[j].block && rewards@[j].amount
                    == per_mille_of(share as nat, schedule@[j].per_mille as nat),
        decreases schedule@.len() - i,
    {
        let event = schedule[i];
        match compute_per_mille(share, event.per_mille) {
            Ok(amount) => {
                rewards.push(VestingReward { block: event.block, amount });
            },
            Err(e) => {
                assert(vesting_of(share as nat, schedule@)[i as int].1 > u128::MAX);
                return Err(ContractError::Overflow);
            },
        }
        i += 1;
    }
    assert(reward_pairs(rewards@) =~= vesting_of(share as nat, schedule@));
    assert forall|k: int| 0 <= k < vesting_of(share as nat, schedule@).len() implies (
    #[trigger] vesting_of(share as nat, schedule@)[k]).1 <= u128::MAX by {
        assert(vesting_of(share as nat, schedule@)[k].1 == rewards@[k].amount);
    }
    Ok(rewards)
}

} // verus!
