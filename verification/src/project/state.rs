//! The state of one campaign and the operations that keep its ledger.
//!
//! A [`Campaign`] holds everything the campaign remembers between calls. Its
//! view, a [`CampaignView`], is the mathematical model that the contracts
//! speak of: amounts are natural numbers, lists are sequences.
use vstd::prelude::*;
use vstd::string::*;

use crate::address::{
    address_position, address_views, addresses_distinct, copy_optional_address, find_address,
    lemma_address_position, lemma_position_after_push, optional_address_view,
};
use crate::encoding::{base64_bytes, base64_text, decode, encode};
use crate::error::ContractError;
use crate::paging::{page_bounds, page_of};
use crate::project::random::{sha256_of, sha_256};
use crate::project::reward::{
    reward_message_views, stored_message_views, RewardMessage, RewardMessageView, RewardView,
    Snip24RewardInit, StoredRewardMessage,
};
use crate::text::{bytes_to_vec, copy_vec};

verus! {

/// The campaign collects contributions.
pub const FUNDRAISING: u8 = 1;

/// The deadline passed before the goal was reached, or the creator
/// cancelled.
pub const EXPIRED: u8 = 2;

/// The goal was reached.
pub const SUCCESSFUL: u8 = 3;

/// The contracts that a campaign talks to. Addresses are canonical.
#[derive(Debug)]
pub struct Config {
    pub platform_contract: Vec<u8>,
    pub platform_hash: String,
    pub snip20_contract: Vec<u8>,
    pub snip20_hash: String,
}

/// The mathematical content of a [`Config`].
pub ghost struct ConfigView {
    pub platform_contract: Seq<u8>,
    pub platform_hash: Seq<char>,
    pub snip20_contract: Seq<u8>,
    pub snip20_hash: Seq<char>,
}

impl View for Config {
    type V = ConfigView;

    open spec fn view(&self) -> ConfigView {
        ConfigView {
            platform_contract: self.platform_contract@,
            platform_hash: self.platform_hash@,
            snip20_contract: self.snip20_contract@,
            snip20_hash: self.snip20_hash@,
        }
    }
}

/// The platform's fee: a rate, and what the creator has paid of it up front.
#[derive(Debug)]
pub struct FeeConfig {
    pub commission_rate_nom: u128,
    pub commission_rate_denom: u128,
    pub upfront: u128,
    pub commission_addr: Vec<u8>,
}

/// The mathematical content of a [`FeeConfig`].
pub ghost struct FeeView {
    pub commission_rate_nom: nat,
    pub commission_rate_denom: nat,
    pub upfront: nat,
    pub commission_addr: Seq<u8>,
}

impl View for FeeConfig {
    type V = FeeView;

    open spec fn view(&self) -> FeeView {
        FeeView {
            commission_rate_nom: self.commission_rate_nom as nat,
            commission_rate_denom: self.commission_rate_denom as nat,
            upfront: self.upfront as nat,
            commission_addr: self.commission_addr@,
        }
    }
}

/// What happens to the funds of a successful campaign. It is chosen when the
/// campaign is created.
#[derive(Debug)]
pub enum PayoutScheme {
    /// All that was raised goes to the creator.
    Plain,
    /// The platform takes a commission.
    Commission(FeeConfig),
    /// All that was raised goes to the creator, and a reward token is minted
    /// and vested to contributors and creator.
    TokenReward(Snip24RewardInit),
}

/// The mathematical content of a [`PayoutScheme`].
pub ghost enum PayoutSchemeView {
    Plain,
    Commission(FeeView),
    TokenReward(RewardView),
}

impl View for PayoutScheme {
    type V = PayoutSchemeView;

    open spec fn view(&self) -> PayoutSchemeView {
        match self {
            PayoutScheme::Plain => PayoutSchemeView::Plain,
            PayoutScheme::Commission(fee) => PayoutSchemeView::Commission(fee@),
            PayoutScheme::TokenReward(reward) => PayoutSchemeView::TokenReward(reward@),
        }
    }
}

/// The number of claims that a vesting schedule gives rise to: one for each
/// milestone, and one where there is no milestone.
pub open spec fn schedule_slots(schedule_len: nat) -> nat {
    if schedule_len <= 1 {
        1
    } else {
        schedule_len
    }
}

impl PayoutSchemeView {
    /// The number of rewards that a contributor may come to claim.
    pub open spec fn contributor_slots(self) -> nat {
        match self {
            PayoutSchemeView::TokenReward(reward) => schedule_slots(
                reward.contributors_vesting_schedule.len(),
            ),
            _ => 0,
        }
    }

    /// The number of rewards that the creator may come to claim.
    pub open spec fn creator_slots(self) -> nat {
        match self {
            PayoutSchemeView::TokenReward(reward) => schedule_slots(
                reward.creator_vesting_schedule.len(),
            ),
            _ => 0,
        }
    }
}

/// What the campaign keeps of one contributor.
#[derive(Debug)]
pub struct StoredFunder {
    /// The contributor's place in the order of first contributions.
    pub idx: u32,
    /// Whether the contributor's identity is withheld from listings.
    pub anonymous: bool,
    /// The contributor's balance.
    pub amount: u128,
    /// Which of the contributor's rewards have been claimed.
    pub snip24_rewards_received: Vec<bool>,
}

/// The mathematical content of a [`StoredFunder`].
pub ghost struct FunderRecord {
    pub idx: nat,
    pub anonymous: bool,
    pub amount: nat,
    pub snip24_rewards_received: Seq<bool>,
}

impl View for StoredFunder {
    type V = FunderRecord;

    open spec fn view(&self) -> FunderRecord {
        FunderRecord {
            idx: self.idx as nat,
            anonymous: self.anonymous,
            amount: self.amount as nat,
            snip24_rewards_received: self.snip24_rewards_received@,
        }
    }
}

/// The views of a list of funder records.
pub open spec fn record_views(records: Seq<StoredFunder>) -> Seq<FunderRecord> {
    records.map_values(|f: StoredFunder| f@)
}

/// A contributor as a listing shows it: the identity is withheld where the
/// contributor is anonymous.
#[derive(Debug)]
pub struct Funder {
    pub address: Option<Vec<u8>>,
    pub amount: u128,
}

/// The mathematical content of a [`Funder`].
pub ghost struct FunderListing {
    pub address: Option<Seq<u8>>,
    pub amount: nat,
}

impl View for Funder {
    type V = FunderListing;

    open spec fn view(&self) -> FunderListing {
        FunderListing { address: optional_address_view(self.address), amount: self.amount as nat }
    }
}

/// The views of a list of listed funders.
pub open spec fn listing_views(funders: Seq<Funder>) -> Seq<FunderListing> {
    funders.map_values(|f: Funder| f@)
}

/// The views of a list of comments.
pub open spec fn comment_views(comments: Seq<String>) -> Seq<Seq<char>> {
    comments.map_values(|c: String| c@)
}

/// The state of one campaign.
#[derive(Debug)]
pub struct Campaign {
    pub config: Config,
    pub prng_seed: Vec<u8>,
    pub entropy_pool: [u8; 32],
    pub status: u8,
    pub creator: Vec<u8>,
    /// Which of the creator's rewards have been claimed.
    pub creator_snip24_allocation_received: Vec<bool>,
    pub title: String,
    pub subtitle: String,
    pub description: Vec<u8>,
    pub pledged_message: Vec<u8>,
    pub funded_message: Vec<u8>,
    pub goal: u128,
    pub deadline: u64,
    pub deadman: u64,
    pub categories: Vec<u16>,
    pub reward_messages: Vec<StoredRewardMessage>,
    pub scheme: PayoutScheme,
    /// The reward token, once it has been created.
    pub snip24_reward_address: Option<Vec<u8>>,
    /// The sum of all balances.
    pub total: u128,
    pub spam_count: u32,
    /// The contributors in the order of their first contribution.
    pub funders: Vec<Vec<u8>>,
    /// The record of each contributor, in the same order.
    pub funder_records: Vec<StoredFunder>,
    pub comments: Vec<String>,
    pub paid_out: bool,
    /// The identities that have ever set a spam flag.
    pub spam_addresses: Vec<Vec<u8>>,
    /// The spam flag of each of them, in the same order.
    pub spam_flags: Vec<bool>,
    /// The identities that have a viewing key.
    pub key_owners: Vec<Vec<u8>>,
    /// The hash of the viewing key of each of them, in the same order.
    pub key_hashes: Vec<Vec<u8>>,
}

/// The mathematical model of a campaign.
pub ghost struct CampaignView {
    pub config: ConfigView,
    pub prng_seed: Seq<u8>,
    pub entropy_pool: Seq<u8>,
    pub status: u8,
    pub creator: Seq<u8>,
    pub creator_snip24_allocation_received: Seq<bool>,
    pub title: Seq<char>,
    pub subtitle: Seq<char>,
    pub description: Seq<u8>,
    pub pledged_message: Seq<u8>,
    pub funded_message: Seq<u8>,
    pub goal: nat,
    pub deadline: nat,
    pub deadman: nat,
    pub categories: Seq<u16>,
    pub reward_messages: Seq<RewardMessageView>,
    pub scheme: PayoutSchemeView,
    pub snip24_reward_address: Option<Seq<u8>>,
    pub total: nat,
    pub spam_count: nat,
    pub funders: Seq<Seq<u8>>,
    pub funder_records: Seq<FunderRecord>,
    pub comments: Seq<Seq<char>>,
    pub paid_out: bool,
    pub spam_addresses: Seq<Seq<u8>>,
    pub spam_flags: Seq<bool>,
    pub key_owners: Seq<Seq<u8>>,
    pub key_hashes: Seq<Seq<u8>>,
}

impl View for Campaign {
    type V = CampaignView;

    open spec fn view(&self) -> CampaignView {
        CampaignView {
            config: self.config@,
            prng_seed: self.prng_seed@,
            entropy_pool: self.entropy_pool@,
            status: self.status,
            creator: self.creator@,
            creator_snip24_allocation_received: self.creator_snip24_allocation_received@,
            title: self.title@,
            subtitle: self.subtitle@,
            description: self.description@,
            pledged_message: self.pledged_message@,
            funded_message: self.funded_message@,
            goal: self.goal as nat,
            deadline: self.deadline as nat,
            deadman: self.deadman as nat,
            categories: self.categories@,
            reward_messages: stored_message_views(self.reward_messages@),
            scheme: self.scheme@,
            snip24_reward_address: optional_address_view(self.snip24_reward_address),
            total: self.total as nat,
            spam_count: self.spam_count as nat,
            funders: address_views(self.funders@),
            funder_records: record_views(self.funder_records@),
            comments: comment_views(self.comments@),
            paid_out: self.paid_out,
            spam_addresses: address_views(self.spam_addresses@),
            spam_flags: self.spam_flags@,
            key_owners: address_views(self.key_owners@),
            key_hashes: address_views(self.key_hashes@),
        }
    }
}

/// The sum of the balances of a list of records.
pub open spec fn ledger_sum(records: Seq<FunderRecord>) -> nat
    decreases records.len(),
{
    if records.len() == 0 {
        0
    } else {
        ledger_sum(records.drop_last()) + records.last().amount
    }
}

/// A record that is appended adds its balance to the sum.
pub proof fn lemma_ledger_sum_push(records: Seq<FunderRecord>, record: FunderRecord)
    ensures
        ledger_sum(records.push(record)) == ledger_sum(records) + record.amount,
{
    assert(records.push(record).drop_last() =~= records);
}

/// A record that is replaced changes the sum by the difference of the
/// balances.
pub proof fn lemma_ledger_sum_update(records: Seq<FunderRecord>, i: int, record: FunderRecord)
    requires
        0 <= i < records.len(),
    ensures
        ledger_sum(records.update(i, record)) + records[i].amount == ledger_sum(records)
            + record.amount,
    decreases records.len(),
{
    let updated = records.update(i, record);
    if i == records.len() - 1 {
        assert(updated.drop_last() =~= records.drop_last());
    } else {
        lemma_ledger_sum_update(records.drop_last(), i, record);
        assert(updated.drop_last() =~= records.drop_last().update(i, record));
    }
}

/// No balance is above the sum of all.
pub proof fn lemma_ledger_sum_bounds(records: Seq<FunderRecord>, i: int)
    requires
        0 <= i < records.len(),
    ensures
        records[i].amount <= ledger_sum(records),
    decreases records.len(),
{
    if i < records.len() - 1 {
        lemma_ledger_sum_bounds(records.drop_last(), i);
    }
}

impl CampaignView {
    /// The ledger has a record for each contributor and for nobody else.
    pub open spec fn ledger_shape(self) -> bool {
        self.funders.len() == self.funder_records.len()
    }

    /// The ledger is in order: each contributor is listed once, the records
    /// are numbered as they came, and `total` is the sum of the balances.
    pub open spec fn ledger_wf(self) -> bool {
        &&& self.ledger_shape()
        &&& self.funders.len() <= u32::MAX
        &&& addresses_distinct(self.funders)
        &&& forall|i: int| 0 <= i < self.funder_records.len() ==> self.funder_records[i].idx == i
        &&& self.total == ledger_sum(self.funder_records)
        &&& self.total <= u128::MAX
    }

    /// The claim flags of every beneficiary are as many as the rewards that
    /// the payout scheme gives.
    pub open spec fn claims_wf(self) -> bool {
        &&& self.creator_snip24_allocation_received.len() == self.scheme.creator_slots()
        &&& forall|i: int|
            0 <= i < self.funder_records.len()
                ==> (#[trigger] self.funder_records[i]).snip24_rewards_received.len()
                == self.scheme.contributor_slots()
    }

    /// The campaign is in one of the three states, and paid out only if it
    /// was successful.
    pub open spec fn status_wf(self) -> bool {
        &&& (self.status == FUNDRAISING || self.status == EXPIRED || self.status == SUCCESSFUL)
        &&& self.paid_out ==> self.status == SUCCESSFUL
    }

    /// Each identity with a spam flag or a viewing key has exactly one.
    pub open spec fn books_wf(self) -> bool {
        &&& self.spam_addresses.len() == self.spam_flags.len()
        &&& self.key_owners.len() == self.key_hashes.len()
    }

    /// All that a campaign keeps true of itself.
    pub open spec fn wf(self) -> bool {
        &&& self.ledger_wf()
        &&& self.claims_wf()
        &&& self.status_wf()
        &&& self.books_wf()
    }

    /// Where `addr` stands among the contributors, or -1.
    pub open spec fn position(self, addr: Seq<u8>) -> int {
        address_position(self.funders, addr)
    }

    /// Whether `addr` has ever contributed.
    pub open spec fn has_funder(self, addr: Seq<u8>) -> bool {
        self.position(addr) >= 0
    }

    /// The balance of `addr`: zero for one who never contributed.
    pub open spec fn balance_of(self, addr: Seq<u8>) -> nat {
        if self.has_funder(addr) {
            self.funder_records[self.position(addr)].amount
        } else {
            0
        }
    }

    /// The ledger after `addr` has contributed `amount`. A new contributor
    /// goes to the end of the list with `flags` for claim flags; one who tops
    /// up keeps place and claim flags. The latest choice of anonymity counts.
    pub open spec fn add_funds(
        self,
        addr: Seq<u8>,
        anonymous: bool,
        amount: nat,
        flags: Seq<bool>,
    ) -> CampaignView {
        let pos = self.position(addr);
        if pos >= 0 {
            let before = self.funder_records[pos];
            CampaignView {
                funder_records: self.funder_records.update(
                    pos,
                    FunderRecord { anonymous, amount: before.amount + amount, ..before },
                ),
                total: self.total + amount,
                ..self
            }
        } else {
            CampaignView {
                funders: self.funders.push(addr),
                funder_records: self.funder_records.push(
                    FunderRecord {
                        idx: self.funders.len(),
                        anonymous,
                        amount,
                        snip24_rewards_received: flags,
                    },
                ),
                total: self.total + amount,
                ..self
            }
        }
    }

    /// The ledger after the balance of `addr` has been taken out: the record
    /// stays, with no balance and no name.
    pub open spec fn clear_funds(self, addr: Seq<u8>) -> CampaignView {
        let pos = self.position(addr);
        if pos >= 0 {
            let before = self.funder_records[pos];
            CampaignView {
                funder_records: self.funder_records.update(
                    pos,
                    FunderRecord { anonymous: true, amount: 0, ..before },
                ),
                total: if before.amount > 0 {
                    (self.total - before.amount) as nat
                } else {
                    self.total
                },
                ..self
            }
        } else {
            self
        }
    }
}

/// Adding funds keeps the ledger in order.
pub proof fn lemma_add_funds_keeps_ledger(
    c: CampaignView,
    addr: Seq<u8>,
    anonymous: bool,
    amount: nat,
    flags: Seq<bool>,
)
    requires
        c.ledger_wf(),
        c.total + amount <= u128::MAX,
        c.has_funder(addr) || c.funders.len() < u32::MAX,
    ensures
        c.add_funds(addr, anonymous, amount, flags).ledger_wf(),
{
    let after = c.add_funds(addr, anonymous, amount, flags);
    let pos = c.position(addr);
    lemma_address_position(c.funders, addr);
    if pos >= 0 {
        lemma_ledger_sum_update(c.funder_records, pos, after.funder_records[pos]);
    } else {
        lemma_ledger_sum_push(c.funder_records, after.funder_records.last());
    }
}

/// Clearing funds keeps the ledger in order.
pub proof fn lemma_clear_funds_keeps_ledger(c: CampaignView, addr: Seq<u8>)
    requires
        c.ledger_wf(),
    ensures
        c.clear_funds(addr).ledger_wf(),
        c.clear_funds(addr).total + c.balance_of(addr) == c.total,
{
    let after = c.clear_funds(addr);
    let pos = c.position(addr);
    lemma_address_position(c.funders, addr);
    if pos >= 0 {
        lemma_ledger_sum_update(c.funder_records, pos, after.funder_records[pos]);
        lemma_ledger_sum_bounds(c.funder_records, pos);
    }
}

/// Writes the record of a listed contributor. Fails with `NotFound`, and
/// changes nothing, where `funder_addr` is not listed.
pub fn set_funder(
    storage: &mut Campaign,
    funder_addr: &[u8],
    idx: u32,
    anonymous: bool,
    amount: u128,
    snip24_rewards_received: Vec<bool>,
) -> (r: Result<(), ContractError>)
    requires
        old(storage)@.ledger_shape(),
    ensures
        match r {
            Ok(()) => old(storage)@.has_funder(funder_addr@) && final(storage)@ == (CampaignView {
                funder_records: old(storage)@.funder_records.update(
                    old(storage)@.position(funder_addr@),
                    FunderRecord {
                        idx: idx as nat,
                        anonymous,
                        amount: amount as nat,
                        snip24_rewards_received: snip24_rewards_received@,
                    },
                ),
                ..old(storage)@
            }),
            Err(e) => e == ContractError::NotFound && !old(storage)@.has_funder(funder_addr@)
                && final(storage)@ == old(storage)@,
        },
{
    proof {
        lemma_address_position(storage@.funders, funder_addr@);
    }
    match find_address(&storage.funders, funder_addr) {
        Some(i) => {
            storage.funder_records[i] = StoredFunder { idx, anonymous, amount, snip24_rewards_received };
            assert(storage@.funder_records =~= old(storage)@.funder_records.update(
                i as int,
                FunderRecord {
                    idx: idx as nat,
                    anonymous,
                    amount: amount as nat,
                    snip24_rewards_received: snip24_rewards_received@,
                },
            ));
            Ok(())
        },
        None => Err(ContractError::NotFound),
    }
}

/// The record of a contributor, or `NotFound` for one who never contributed.
pub fn get_funder<'a>(storage: &'a Campaign, funder_addr: &[u8]) -> (r: Result<
    &'a StoredFunder,
    ContractError,
>)
    requires
        storage@.ledger_shape(),
    ensures
        match r {
            Ok(funder) => storage@.has_funder(funder_addr@) && funder@
                == storage@.funder_records[storage@.position(funder_addr@)],
            Err(e) => e == ContractError::NotFound && !storage@.has_funder(funder_addr@),
        },
{
    proof {
        lemma_address_position(storage@.funders, funder_addr@);
    }
    match find_address(&storage.funders, funder_addr) {
        Some(i) => Ok(&storage.funder_records[i]),
        None => Err(ContractError::NotFound),
    }
}

/// Appends `funder_addr` to the list of contributors, with a record that
/// holds nothing, and returns its place. Fails with `Overflow`, and changes
/// nothing, where the list is full.
pub fn push_funder(storage: &mut Campaign, funder_addr: &[u8]) -> (r: Result<u32, ContractError>)
    requires
        old(storage)@.ledger_shape(),
    ensures
        match r {
            Ok(idx) => idx == old(storage)@.funders.len() && idx < u32::MAX && final(storage)@
                == (CampaignView {
                funders: old(storage)@.funders.push(funder_addr@),
                funder_records: old(storage)@.funder_records.push(
                    FunderRecord {
                        idx: idx as nat,
                        anonymous: true,
                        amount: 0,
                        snip24_rewards_received: Seq::empty(),
                    },
                ),
                ..old(storage)@
            }),
            Err(e) => e == ContractError::Overflow && old(storage)@.funders.len() >= u32::MAX
                && final(storage)@ == old(storage)@,
        },
{
    let len = storage.funders.len();
    if len >= u32::MAX as usize {
        return Err(ContractError::Overflow);
    }
    let idx = len as u32;
    storage.funders.push(bytes_to_vec(funder_addr));
    storage.funder_records.push(
        StoredFunder { idx, anonymous: true, amount: 0, snip24_rewards_received: Vec::new() },
    );
    proof {
        assert(storage@.funders =~= old(storage)@.funders.push(funder_addr@));
        assert(storage@.funder_records =~= old(storage)@.funder_records.push(
            FunderRecord {
                idx: idx as nat,
                anonymous: true,
                amount: 0,
                snip24_rewards_received: Seq::empty(),
            },
        ));
    }
    Ok(idx)
}

/// Adds `amount` to the balance of `funder_addr` and to the total, see
/// [`CampaignView::add_funds`]. Fails with `Overflow`, and changes nothing,
/// where the total would exceed 128 bits or the list of contributors is full.
pub fn add_funds(
    storage: &mut Campaign,
    funder_addr: &[u8],
    anonymous: bool,
    amount: u128,
    snip24_rewards_received: Vec<bool>,
) -> (r: Result<(), ContractError>)
    requires
        old(storage)@.ledger_wf(),
    ensures
        final(storage)@.ledger_wf(),
        match r {
            Ok(()) => final(storage)@ == old(storage)@.add_funds(
                funder_addr@,
                anonymous,
                amount as nat,
                snip24_rewards_received@,
            ),
            Err(e) => e == ContractError::Overflow && final(storage)@ == old(storage)@,
        },
        r is Err <==> old(storage)@.total + amount > u128::MAX || (!old(storage)@.has_funder(
            funder_addr@,
        ) && old(storage)@.funders.len() >= u32::MAX),
{
    let ghost before = storage@;
    if amount > u128::MAX - storage.total {
        return Err(ContractError::Overflow);
    }
    proof {
        lemma_address_position(before.funders, funder_addr@);
    }
    match find_address(&storage.funders, funder_addr) {
        Some(i) => {
            proof {
                lemma_ledger_sum_bounds(before.funder_records, i as int);
            }
            storage.funder_records[i].anonymous = anonymous;
            storage.funder_records[i].amount = storage.funder_records[i].amount + amount;
            assert(storage@.funder_records =~= before.add_funds(
                funder_addr@,
                anonymous,
                amount as nat,
                snip24_rewards_received@,
            ).funder_records);
        },
        None => {
            let idx = match push_funder(storage, funder_addr) {
                Ok(idx) => idx,
                Err(e) => {
                    return Err(ContractError::Overflow);
                },
            };
            proof {
                lemma_position_after_push(before.funders, funder_addr@, funder_addr@);
            }
            let ghost flags = snip24_rewards_received@;
            let done = set_funder(storage, funder_addr, idx, anonymous, amount, snip24_rewards_received);
            assert(done is Ok);
            assert(storage@.funder_records =~= before.add_funds(
                funder_addr@,
                anonymous,
                amount as nat,
                flags,
            ).funder_records);
        },
    }
    storage.total = storage.total + amount;
    proof {
        lemma_add_funds_keeps_ledger(
            before,
            funder_addr@,
            anonymous,
            amount as nat,
            snip24_rewards_received@,
        );
    }
    Ok(())
}

/// Takes the balance of `funder_addr` out of the ledger and returns it, see
/// [`CampaignView::clear_funds`]. Fails with `NotFound`, and changes nothing,
/// for one who never contributed.
pub fn clear_funds(storage: &mut Campaign, funder_addr: &[u8]) -> (r: Result<u128, ContractError>)
    requires
        old(storage)@.ledger_wf(),
    ensures
        final(storage)@.ledger_wf(),
        final(storage)@ == old(storage)@.clear_funds(funder_addr@),
        match r {
            Ok(amount) => old(storage)@.has_funder(funder_addr@) && amount == old(storage)@.balance_of(funder_addr@),
            Err(e) => e == ContractError::NotFound && !old(storage)@.has_funder(funder_addr@),
        },
{
    let ghost before = storage@;
    proof {
        lemma_address_position(before.funders, funder_addr@);
        lemma_clear_funds_keeps_ledger(before, funder_addr@);
    }
    match find_address(&storage.funders, funder_addr) {
        Some(i) => {
            proof {
                lemma_ledger_sum_bounds(before.funder_records, i as int);
            }
            let amount = storage.funder_records[i].amount;
            if amount > 0 {
                storage.total = storage.total - amount;
            }
            storage.funder_records[i].anonymous = true;
            storage.funder_records[i].amount = 0;
            assert(storage@.funder_records =~= before.clear_funds(funder_addr@).funder_records);
            Ok(amount)
        },
        None => Err(ContractError::NotFound),
    }
}


/// A contributor as a listing shows it.
pub open spec fn listing_of(address: Seq<u8>, record: FunderRecord) -> FunderListing {
    FunderListing {
        address: if record.anonymous {
            None
        } else {
            Some(address)
        },
        amount: record.amount,
    }
}

impl CampaignView {
    /// All contributors in the order of their first contribution, each with
    /// its balance, and with its identity unless it is anonymous.
    pub open spec fn funder_listing(self) -> Seq<FunderListing> {
        Seq::new(self.funders.len(), |i: int| listing_of(self.funders[i], self.funder_records[i]))
    }
}

/// A page of the contributors in the order of their first contribution, see
/// [`CampaignView::funder_listing`]. Fails with `InvalidPageSize` exactly
/// when `page_size` is below one.
pub fn get_funders(storage: &Campaign, page: u32, page_size: u32) -> (r: Result<
    Vec<Funder>,
    ContractError,
>)
    requires
        storage@.ledger_shape(),
    ensures
        match r {
            Ok(funders) => page_size >= 1 && listing_views(funders@) == page_of(
                storage@.funder_listing(),
                page as nat,
                page_size as nat,
            ),
            Err(e) => e == ContractError::InvalidPageSize && page_size < 1,
        },
{
    if page_size < 1 {
        return Err(ContractError::InvalidPageSize);
    }
    let (start, end) = page_bounds(storage.funders.len(), page, page_size);
    let ghost listing = storage@.funder_listing();
    let mut funders: Vec<Funder> = Vec::new();
    let mut i: usize = start;
    while i < end
        invariant
            start <= i <= end <= storage.funders@.len(),
            storage@.ledger_shape(),
            listing == storage@.funder_listing(),
            funders@.len() == i - start,
            forall|k: int| 0 <= k < funders@.len() ==> (#[trigger] funders@[k])@ == listing[start + k],
        decreases end - i,
    {
        let record = &storage.funder_records[i];
        let address = if record.anonymous {
            None
        } else {
            Some(bytes_to_vec(storage.funders[i].as_slice()))
        };
        funders.push(Funder { address, amount: record.amount });
        i += 1;
    }
    assert(listing_views(funders@) =~= listing.subrange(start as int, end as int));
    Ok(funders)
}

/// Sets the contracts that the campaign talks to.
pub fn set_config(
    storage: &mut Campaign,
    platform_contract: Vec<u8>,
    platform_hash: String,
    snip20_contract: Vec<u8>,
    snip20_hash: String,
)
    ensures
        final(storage)@ == (CampaignView {
            config: ConfigView {
                platform_contract: platform_contract@,
                platform_hash: platform_hash@,
                snip20_contract: snip20_contract@,
                snip20_hash: snip20_hash@,
            },
            ..old(storage)@
        }),
{
    storage.config = Config { platform_contract, platform_hash, snip20_contract, snip20_hash };
}

/// The contracts that the campaign talks to.
pub fn get_config(storage: &Campaign) -> (r: &Config)
    ensures
        r@ == storage@.config,
{
    &storage.config
}

/// Sets the seed from which viewing keys are derived.
pub fn set_prng_seed(storage: &mut Campaign, prng_seed: &Vec<u8>)
    ensures
        final(storage)@ == (CampaignView { prng_seed: prng_seed@, ..old(storage)@ }),
{
    storage.prng_seed = bytes_to_vec(prng_seed.as_slice());
}

/// The seed from which viewing keys are derived.
pub fn get_prng_seed(storage: &Campaign) -> (r: Vec<u8>)
    ensures
        r@ == storage@.prng_seed,
{
    bytes_to_vec(storage.prng_seed.as_slice())
}

/// Sets the lifecycle state. Fails with `InvalidStatus`, and changes nothing,
/// exactly when `new_status` is none of the three states.
pub fn set_status(storage: &mut Campaign, new_status: u8) -> (r: Result<(), ContractError>)
    ensures
        match r {
            Ok(()) => 1 <= new_status <= 3 && final(storage)@ == (CampaignView {
                status: new_status,
                ..old(storage)@
            }),
            Err(e) => e == ContractError::InvalidStatus && !(1 <= new_status <= 3) && final(storage)@ == old(storage)@,
        },
{
    if new_status < 1 || new_status > 3 {
        return Err(ContractError::InvalidStatus);
    }
    storage.status = new_status;
    Ok(())
}

/// The lifecycle state.
pub fn get_status(storage: &Campaign) -> (r: u8)
    ensures
        r == storage@.status,
{
    storage.status
}

/// Sets the creator.
pub fn set_creator(storage: &mut Campaign, creator: &[u8])
    ensures
        final(storage)@ == (CampaignView { creator: creator@, ..old(storage)@ }),
{
    storage.creator = bytes_to_vec(creator);
}

/// The creator.
pub fn get_creator(storage: &Campaign) -> (r: Vec<u8>)
    ensures
        r@ == storage@.creator,
{
    bytes_to_vec(storage.creator.as_slice())
}

/// Sets which of the creator's rewards have been claimed.
pub fn set_creator_snip24_allocation_received(storage: &mut Campaign, allocation_received: Vec<bool>)
    ensures
        final(storage)@ == (CampaignView {
            creator_snip24_allocation_received: allocation_received@,
            ..old(storage)@
        }),
{
    storage.creator_snip24_allocation_received = allocation_received;
}

/// Which of the creator's rewards have been claimed.
pub fn get_creator_snip24_allocation_received(storage: &Campaign) -> (r: Vec<bool>)
    ensures
        r@ == storage@.creator_snip24_allocation_received,
{
    copy_vec(&storage.creator_snip24_allocation_received)
}

/// Sets the title.
pub fn set_title(storage: &mut Campaign, title: String)
    ensures
        final(storage)@ == (CampaignView { title: title@, ..old(storage)@ }),
{
    storage.title = title;
}

/// The title.
pub fn get_title(storage: &Campaign) -> (r: String)
    ensures
        r@ == storage@.title,
{
    storage.title.clone()
}

/// Sets the subtitle.
pub fn set_subtitle(storage: &mut Campaign, subtitle: String)
    ensures
        final(storage)@ == (CampaignView { subtitle: subtitle@, ..old(storage)@ }),
{
    storage.subtitle = subtitle;
}

/// The subtitle.
pub fn get_subtitle(storage: &Campaign) -> (r: String)
    ensures
        r@ == storage@.subtitle,
{
    storage.subtitle.clone()
}

/// Sets the description, which comes as base64. Fails with `InvalidBase64`,
/// and changes nothing, exactly when it is not base64.
pub fn set_description(storage: &mut Campaign, description: String) -> (r: Result<
    (),
    ContractError,
>)
    ensures
        match r {
            Ok(()) => base64_bytes(description@) is Some && final(storage)@ == (CampaignView {
                description: base64_bytes(description@).unwrap(),
                ..old(storage)@
            }),
            Err(e) => e == ContractError::InvalidBase64 && base64_bytes(description@) is None
                && final(storage)@ == old(storage)@,
        },
{
    let bytes = decode(description.as_str())?;
    storage.description = bytes;
    Ok(())
}

/// The description, as base64.
pub fn get_description(storage: &Campaign) -> (r: String)
    ensures
        r@ == base64_text(storage@.description),
{
    encode(storage.description.as_slice())
}

/// Sets the message for those who have pledged, which comes as base64. Fails
/// with `InvalidBase64`, and changes nothing, exactly when it is not base64.
pub fn set_pledged_message(storage: &mut Campaign, pledged_message: String) -> (r: Result<
    (),
    ContractError,
>)
    ensures
        match r {
            Ok(()) => base64_bytes(pledged_message@) is Some && final(storage)@ == (CampaignView {
                pledged_message: base64_bytes(pledged_message@).unwrap(),
                ..old(storage)@
            }),
            Err(e) => e == ContractError::InvalidBase64 && base64_bytes(pledged_message@) is None
                && final(storage)@ == old(storage)@,
        },
{
    let bytes = decode(pledged_message.as_str())?;
    storage.pledged_message = bytes;
    Ok(())
}

/// The message for those who have pledged, as base64.
pub fn get_pledged_message(storage: &Campaign) -> (r: String)
    ensures
        r@ == base64_text(storage@.pledged_message),
{
    encode(storage.pledged_message.as_slice())
}

/// Sets the message for the contributors of a funded campaign, which comes
/// as base64. Fails with `InvalidBase64`, and changes nothing, exactly when
/// it is not base64.
pub fn set_funded_message(storage: &mut Campaign, funded_message: String) -> (r: Result<
    (),
    ContractError,
>)
    ensures
        match r {
            Ok(()) => base64_bytes(funded_message@) is Some && final(storage)@ == (CampaignView {
                funded_message: base64_bytes(funded_message@).unwrap(),
                ..old(storage)@
            }),
            Err(e) => e == ContractError::InvalidBase64 && base64_bytes(funded_message@) is None
                && final(storage)@ == old(storage)@,
        },
{
    let bytes = decode(funded_message.as_str())?;
    storage.funded_message = bytes;
    Ok(())
}

/// The message for the contributors of a funded campaign, as base64.
pub fn get_funded_message(storage: &Campaign) -> (r: String)
    ensures
        r@ == base64_text(storage@.funded_message),
{
    encode(storage.funded_message.as_slice())
}

/// Sets the goal.
pub fn set_goal(storage: &mut Campaign, goal: u128)
    ensures
        final(storage)@ == (CampaignView { goal: goal as nat, ..old(storage)@ }),
{
    storage.goal = goal;
}

/// The goal.
pub fn get_goal(storage: &Campaign) -> (r: u128)
    ensures
        r == storage@.goal,
{
    storage.goal
}

/// Sets the deadline.
pub fn set_deadline(storage: &mut Campaign, deadline: u64)
    ensures
        final(storage)@ == (CampaignView { deadline: deadline as nat, ..old(storage)@ }),
{
    storage.deadline = deadline;
}

/// The deadline.
pub fn get_deadline(storage: &Campaign) -> (r: u64)
    ensures
        r == storage@.deadline,
{
    storage.deadline
}

/// Sets the length of the payout window.
pub fn set_deadman(storage: &mut Campaign, deadman: u64)
    ensures
        final(storage)@ == (CampaignView { deadman: deadman as nat, ..old(storage)@ }),
{
    storage.deadman = deadman;
}

/// The length of the payout window.
pub fn get_deadman(storage: &Campaign) -> (r: u64)
    ensures
        r == storage@.deadman,
{
    storage.deadman
}

/// Sets the categories.
pub fn set_categories(storage: &mut Campaign, categories: Vec<u16>)
    ensures
        final(storage)@ == (CampaignView { categories: categories@, ..old(storage)@ }),
{
    storage.categories = categories;
}

/// The categories.
pub fn get_categories(storage: &Campaign) -> (r: Vec<u16>)
    ensures
        r@ == storage@.categories,
{
    copy_vec(&storage.categories)
}

/// Sets the reward messages.
pub fn set_reward_messages(storage: &mut Campaign, messages: Vec<RewardMessage>)
    ensures
        final(storage)@ == (CampaignView {
            reward_messages: reward_message_views(messages@),
            ..old(storage)@
        }),
{
    let mut stored: Vec<StoredRewardMessage> = Vec::new();
    let mut i: usize = 0;
    while i < messages.len()
        invariant
            i <= messages@.len(),
            stored@.len() == i,
            forall|k: int| 0 <= k < i ==> (#[trigger] stored@[k])@ == messages@[k]@,
        decreases messages@.len() - i,
    {
        stored.push(
            StoredRewardMessage {
                threshold: messages[i].threshold,
                message: messages[i].message.clone(),
            },
        );
        i += 1;
    }
    assert(stored_message_views(stored@) =~= reward_message_views(messages@));
    storage.reward_messages = stored;
}

/// The reward messages.
pub fn get_reward_messages(storage: &Campaign) -> (r: Vec<RewardMessage>)
    ensures
        reward_message_views(r@) == storage@.reward_messages,
{
    let mut messages: Vec<RewardMessage> = Vec::new();
    let mut i: usize = 0;
    while i < storage.reward_messages.len()
        invariant
            i <= storage.reward_messages@.len(),
            messages@.len() == i,
            forall|k: int| 0 <= k < i ==> (#[trigger] messages@[k])@ == storage.reward_messages@[k]@,
        decreases storage.reward_messages@.len() - i,
    {
        messages.push(
            RewardMessage {
                threshold: storage.reward_messages[i].threshold,
                message: storage.reward_messages[i].message.clone(),
            },
        );
        i += 1;
    }
    assert(reward_message_views(messages@) =~= storage@.reward_messages);
    messages
}

/// Sets the reward token: with `Some`, the campaign mints and vests it; with
/// `None`, all that is raised goes to the creator and there is no reward.
pub fn set_snip24_reward(storage: &mut Campaign, reward: Option<Snip24RewardInit>)
    ensures
        final(storage)@ == (CampaignView {
            scheme: match reward {
                Some(reward) => PayoutSchemeView::TokenReward(reward@),
                None => PayoutSchemeView::Plain,
            },
            ..old(storage)@
        }),
{
    storage.scheme = match reward {
        Some(reward) => PayoutScheme::TokenReward(reward),
        None => PayoutScheme::Plain,
    };
}

/// The reward token, where the campaign has one.
pub fn get_snip24_reward(storage: &Campaign) -> (r: Option<&Snip24RewardInit>)
    ensures
        match r {
            Some(reward) => storage@.scheme == PayoutSchemeView::TokenReward(reward@),
            None => !(storage@.scheme is TokenReward),
        },
{
    match &storage.scheme {
        PayoutScheme::TokenReward(reward) => Some(reward),
        _ => None,
    }
}

/// Sets the platform's fee: the campaign pays a commission and has no reward
/// token.
pub fn set_fee_config(storage: &mut Campaign, fee: FeeConfig)
    ensures
        final(storage)@ == (CampaignView {
            scheme: PayoutSchemeView::Commission(fee@),
            ..old(storage)@
        }),
{
    storage.scheme = PayoutScheme::Commission(fee);
}

/// The platform's fee, where the campaign pays one.
pub fn get_fee_config(storage: &Campaign) -> (r: Option<&FeeConfig>)
    ensures
        match r {
            Some(fee) => storage@.scheme == PayoutSchemeView::Commission(fee@),
            None => !(storage@.scheme is Commission),
        },
{
    match &storage.scheme {
        PayoutScheme::Commission(fee) => Some(fee),
        _ => None,
    }
}

/// Sets the address of the reward token.
pub fn set_snip24_reward_address(storage: &mut Campaign, addr: Option<Vec<u8>>)
    ensures
        final(storage)@ == (CampaignView {
            snip24_reward_address: optional_address_view(addr),
            ..old(storage)@
        }),
{
    storage.snip24_reward_address = addr;
}

/// The address of the reward token, once it has been created.
pub fn get_snip24_reward_address(storage: &Campaign) -> (r: Option<Vec<u8>>)
    ensures
        optional_address_view(r) == storage@.snip24_reward_address,
{
    copy_optional_address(&storage.snip24_reward_address)
}

/// Sets the total.
pub fn set_total(storage: &mut Campaign, total: u128)
    ensures
        final(storage)@ == (CampaignView { total: total as nat, ..old(storage)@ }),
{
    storage.total = total;
}

/// The total: the sum of all balances.
pub fn get_total(storage: &Campaign) -> (r: u128)
    ensures
        r == storage@.total,
{
    storage.total
}

/// Appends a comment and returns its place. Fails with `Overflow`, and
/// changes nothing, where the list is full.
pub fn push_comment(storage: &mut Campaign, comment: String) -> (r: Result<u32, ContractError>)
    ensures
        match r {
            Ok(idx) => idx == old(storage)@.comments.len() && idx < u32::MAX && final(storage)@
                == (CampaignView {
                comments: old(storage)@.comments.push(comment@),
                ..old(storage)@
            }),
            Err(e) => e == ContractError::Overflow && old(storage)@.comments.len() >= u32::MAX
                && final(storage)@ == old(storage)@,
        },
{
    let len = storage.comments.len();
    if len >= u32::MAX as usize {
        return Err(ContractError::Overflow);
    }
    storage.comments.push(comment);
    assert(storage@.comments =~= old(storage)@.comments.push(comment@));
    Ok(len as u32)
}

/// A page of the comments, oldest first. A page of size zero is empty.
pub fn get_comments(storage: &Campaign, page: u32, page_size: u32) -> (r: Vec<String>)
    ensures
        comment_views(r@) == page_of(storage@.comments, page as nat, page_size as nat),
{
    let (start, end) = page_bounds(storage.comments.len(), page, page_size);
    let mut comments: Vec<String> = Vec::new();
    let mut i: usize = start;
    while i < end
        invariant
            start <= i <= end <= storage.comments@.len(),
            comments@.len() == i - start,
            forall|k: int| 0 <= k < comments@.len() ==> (#[trigger] comments@[k])@
                == storage.comments@[start + k]@,
        decreases end - i,
    {
        comments.push(storage.comments[i].clone());
        i += 1;
    }
    assert(comment_views(comments@) =~= storage@.comments.subrange(start as int, end as int));
    comments
}

/// Records that the campaign has been paid out.
pub fn paid_out(storage: &mut Campaign)
    ensures
        final(storage)@ == (CampaignView { paid_out: true, ..old(storage)@ }),
{
    storage.paid_out = true;
}

/// Whether the campaign has been paid out.
pub fn is_paid_out(storage: &Campaign) -> (r: bool)
    ensures
        r == storage@.paid_out,
{
    storage.paid_out
}

impl CampaignView {
    /// Whether `addr` has flagged the campaign as spam.
    pub open spec fn spam_flag_of(self, addr: Seq<u8>) -> bool {
        let pos = address_position(self.spam_addresses, addr);
        pos >= 0 && self.spam_flags[pos]
    }

    /// The campaign after `addr` has set its spam flag to `spam`. Where that
    /// is the flag's value already, nothing changes; else the count of flags
    /// goes up or down by one, and not below zero.
    pub open spec fn set_spam_flag(self, addr: Seq<u8>, spam: bool) -> CampaignView {
        let pos = address_position(self.spam_addresses, addr);
        if spam == self.spam_flag_of(addr) {
            self
        } else if spam {
            if pos >= 0 {
                CampaignView {
                    spam_flags: self.spam_flags.update(pos, true),
                    spam_count: self.spam_count + 1,
                    ..self
                }
            } else {
                CampaignView {
                    spam_addresses: self.spam_addresses.push(addr),
                    spam_flags: self.spam_flags.push(true),
                    spam_count: self.spam_count + 1,
                    ..self
                }
            }
        } else {
            CampaignView {
                spam_flags: self.spam_flags.update(pos, false),
                spam_count: if self.spam_count == 0 {
                    0
                } else {
                    (self.spam_count - 1) as nat
                },
                ..self
            }
        }
    }

    /// The hash of the viewing key of `owner`, where it has one.
    pub open spec fn viewing_key_of(self, owner: Seq<u8>) -> Option<Seq<u8>> {
        let pos = address_position(self.key_owners, owner);
        if pos >= 0 {
            Some(self.key_hashes[pos])
        } else {
            None
        }
    }

    /// The campaign after `owner` has been given the viewing key with the
    /// hash `hash`.
    pub open spec fn write_viewing_key(self, owner: Seq<u8>, hash: Seq<u8>) -> CampaignView {
        let pos = address_position(self.key_owners, owner);
        if pos >= 0 {
            CampaignView { key_hashes: self.key_hashes.update(pos, hash), ..self }
        } else {
            CampaignView {
                key_owners: self.key_owners.push(owner),
                key_hashes: self.key_hashes.push(hash),
                ..self
            }
        }
    }
}

/// Sets the spam flag of `addr`, see [`CampaignView::set_spam_flag`]. Fails
/// with `Overflow`, and changes nothing, where the count of flags cannot go
/// up.
pub fn set_spam_flag(storage: &mut Campaign, addr: &[u8], spam: bool) -> (r: Result<
    (),
    ContractError,
>)
    requires
        old(storage)@.books_wf(),
    ensures
        final(storage)@.books_wf(),
        match r {
            Ok(()) => final(storage)@ == old(storage)@.set_spam_flag(addr@, spam),
            Err(e) => e == ContractError::Overflow && final(storage)@ == old(storage)@,
        },
        r is Err <==> spam && !old(storage)@.spam_flag_of(addr@) && old(storage)@.spam_count
            >= u32::MAX,
{
    let ghost before = storage@;
    proof {
        lemma_address_position(before.spam_addresses, addr@);
    }
    let current = get_spam_flag(storage, addr);
    if spam == current {
        return Ok(());
    }
    if spam {
        if storage.spam_count >= u32::MAX {
            return Err(ContractError::Overflow);
        }
        match find_address(&storage.spam_addresses, addr) {
            Some(i) => {
                storage.spam_flags[i] = true;
            },
            None => {
                storage.spam_addresses.push(bytes_to_vec(addr));
                storage.spam_flags.push(true);
                assert(storage@.spam_addresses =~= before.spam_addresses.push(addr@));
            },
        }
        let count = increment_spam_count(storage);
        assert(count is Ok);
    } else {
        match find_address(&storage.spam_addresses, addr) {
            Some(i) => {
                storage.spam_flags[i] = false;
            },
            None => {},
        }
        decrement_spam_count(storage);
    }
    Ok(())
}

/// Whether `addr` has flagged the campaign as spam.
pub fn get_spam_flag(storage: &Campaign, addr: &[u8]) -> (r: bool)
    requires
        storage@.books_wf(),
    ensures
        r == storage@.spam_flag_of(addr@),
{
    proof {
        lemma_address_position(storage@.spam_addresses, addr@);
    }
    match find_address(&storage.spam_addresses, addr) {
        Some(i) => storage.spam_flags[i],
        None => false,
    }
}

/// Counts one more spam flag and returns the count. Fails with `Overflow`,
/// and changes nothing, where the count is at its maximum.
pub fn increment_spam_count(storage: &mut Campaign) -> (r: Result<u32, ContractError>)
    ensures
        match r {
            Ok(count) => count == old(storage)@.spam_count + 1 && final(storage)@ == (CampaignView {
                spam_count: count as nat,
                ..old(storage)@
            }),
            Err(e) => e == ContractError::Overflow && old(storage)@.spam_count >= u32::MAX
                && final(storage)@ == old(storage)@,
        },
{
    if storage.spam_count >= u32::MAX {
        return Err(ContractError::Overflow);
    }
    storage.spam_count = storage.spam_count + 1;
    Ok(storage.spam_count)
}

/// Counts one spam flag less, but not below zero, and returns the count.
pub fn decrement_spam_count(storage: &mut Campaign) -> (r: u32)
    ensures
        r == if old(storage)@.spam_count == 0 {
            0
        } else {
            old(storage)@.spam_count - 1
        },
        final(storage)@ == (CampaignView { spam_count: r as nat, ..old(storage)@ }),
{
    if storage.spam_count == 0 {
        return 0;
    }
    storage.spam_count = storage.spam_count - 1;
    storage.spam_count
}

/// The number of spam flags that are set.
pub fn get_spam_count(storage: &Campaign) -> (r: u32)
    ensures
        r == storage@.spam_count,
{
    storage.spam_count
}

/// The hash under which a viewing key is kept: the SHA-256 digest of its
/// text.
pub open spec fn hashed_key(key: &str) -> Seq<u8> {
    sha256_of(key.spec_bytes())
}

/// Gives `owner` the viewing key `key`, of which the campaign keeps the
/// hash.
pub fn write_viewing_key(storage: &mut Campaign, owner: &[u8], key: &str)
    requires
        old(storage)@.books_wf(),
    ensures
        final(storage)@.books_wf(),
        final(storage)@ == old(storage)@.write_viewing_key(owner@, hashed_key(key)),
{
    let ghost before = storage@;
    proof {
        lemma_address_position(before.key_owners, owner@);
    }
    let hash = sha_256(key.as_bytes());
    let hash = bytes_to_vec(hash.as_slice());
    match find_address(&storage.key_owners, owner) {
        Some(i) => {
            storage.key_hashes[i] = hash;
            assert(storage@.key_hashes =~= before.key_hashes.update(i as int, hashed_key(key)));
        },
        None => {
            storage.key_owners.push(bytes_to_vec(owner));
            storage.key_hashes.push(hash);
            assert(storage@.key_owners =~= before.key_owners.push(owner@));
            assert(storage@.key_hashes =~= before.key_hashes.push(hashed_key(key)));
        },
    }
}

/// The hash of the viewing key of `owner`, where it has one.
pub fn read_viewing_key(storage: &Campaign, owner: &[u8]) -> (r: Option<Vec<u8>>)
    requires
        storage@.books_wf(),
    ensures
        optional_address_view(r) == storage@.viewing_key_of(owner@),
{
    proof {
        lemma_address_position(storage@.key_owners, owner@);
    }
    match find_address(&storage.key_owners, owner) {
        Some(i) => Some(bytes_to_vec(storage.key_hashes[i].as_slice())),
        None => None,
    }
}


/// The sum of the first balances is at most the sum of all.
pub proof fn lemma_ledger_sum_prefix(records: Seq<FunderRecord>, n: int)
    requires
        0 <= n <= records.len(),
    ensures
        ledger_sum(records.subrange(0, n)) <= ledger_sum(records),
    decreases records.len() - n,
{
    if n == records.len() {
        assert(records.subrange(0, n) =~= records);
    } else {
        lemma_ledger_sum_prefix(records, n + 1);
        assert(records.subrange(0, n + 1).drop_last() =~= records.subrange(0, n));
    }
}

fn check_distinct(list: &Vec<Vec<u8>>) -> (r: bool)
    ensures
        r == addresses_distinct(address_views(list@)),
{
    let ghost views = address_views(list@);
    let mut j: usize = 0;
    while j < list.len()
        invariant
            j <= list@.len(),
            views == address_views(list@),
            forall|a: int, b: int| 0 <= a < b < j ==> views[a] != views[b],
        decreases list@.len() - j,
    {
        match find_address(list, list[j].as_slice()) {
            Some(first) => {
                proof {
                    lemma_address_position(views, list@[j as int]@);
                }
                if first != j {
                    assert(views[first as int] == views[j as int]);
                    return false;
                }
            },
            None => {
                proof {
                    lemma_address_position(views, list@[j as int]@);
                    assert(views[j as int] == list@[j as int]@);
                }
                return false;
            },
        }
        proof {
            lemma_address_position(views, list@[j as int]@);
        }
        j += 1;
    }
    true
}

fn check_records(storage: &Campaign, slots: usize) -> (r: bool)
    requires
        storage@.ledger_shape(),
    ensures
        r == ({
            &&& forall|i: int|
                0 <= i < storage@.funder_records.len() ==> storage@.funder_records[i].idx == i
            &&& storage@.total == ledger_sum(storage@.funder_records)
            &&& forall|i: int|
                0 <= i < storage@.funder_records.len()
                    ==> (#[trigger] storage@.funder_records[i]).snip24_rewards_received.len()
                    == slots
        }),
{
    let ghost records = storage@.funder_records;
    let mut sum: u128 = 0;
    let mut i: usize = 0;
    assert(records.subrange(0, 0) =~= Seq::<FunderRecord>::empty());
    while i < storage.funder_records.len()
        invariant
            i <= storage.funder_records@.len(),
            records == storage@.funder_records,
            sum == ledger_sum(records.subrange(0, i as int)),
            forall|k: int| 0 <= k < i ==> records[k].idx == k,
            forall|k: int| 0 <= k < i ==> (#[trigger] records[k]).snip24_rewards_received.len()
                == slots,
        decreases storage.funder_records@.len() - i,
    {
        let record = &storage.funder_records[i];
        proof {
            assert(records.subrange(0, i + 1).drop_last() =~= records.subrange(0, i as int));
            assert(records.subrange(0, i + 1).last() == record@);
            lemma_ledger_sum_prefix(records, i + 1);
        }
        if record.idx as usize != i || record.snip24_rewards_received.len() != slots {
            assert(records[i as int] == record@);
            return false;
        }
        if record.amount > u128::MAX - sum {
            return false;
        }
        sum = sum + record.amount;
        i += 1;
    }
    assert(records.subrange(0, records.len() as int) =~= records);
    sum == storage.total
}

/// Whether the campaign is in order, see [`CampaignView::wf`]. State that was
/// not made by the functions of this crate is to be checked before it is
/// handed to them.
pub fn check_wf(storage: &Campaign) -> (r: bool)
    ensures
        r == storage@.wf(),
{
    if storage.funders.len() != storage.funder_records.len() {
        return false;
    }
    if storage.funders.len() > u32::MAX as usize {
        return false;
    }
    if storage.spam_addresses.len() != storage.spam_flags.len() {
        return false;
    }
    if storage.key_owners.len() != storage.key_hashes.len() {
        return false;
    }
    if !(storage.status == FUNDRAISING || storage.status == EXPIRED || storage.status
        == SUCCESSFUL) {
        return false;
    }
    if storage.paid_out && storage.status != SUCCESSFUL {
        return false;
    }
    let (contributor_slots, creator_slots) = match &storage.scheme {
        PayoutScheme::TokenReward(reward) => {
            let contributors = reward.contributors_vesting_schedule.len();
            let creator = reward.creator_vesting_schedule.len();
            (
                if contributors <= 1 {
                    1
                } else {
                    contributors
                },
                if creator <= 1 {
                    1
                } else {
                    creator
                },
            )
        },
        _ => (0, 0),
    };
    if storage.creator_snip24_allocation_received.len() != creator_slots {
        return false;
    }
    if !check_distinct(&storage.funders) {
        return false;
    }
    check_records(storage, contributor_slots)
}

} // verus!
