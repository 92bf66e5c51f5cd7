//! The commands and questions of a campaign.
//!
//! Every command first lets the deadline take effect: a campaign that is
//! still fundraising after its deadline is expired from then on. A command
//! that returns an error has changed nothing.
use vstd::prelude::*;
use vstd::string::*;

use crate::address::{copy_optional_address, find_address, lemma_address_position};
use crate::encoding::{base64_bytes, base64_text, decode, encode};
use crate::error::ContractError;
use crate::host::{Env, MessageInfo};
use crate::paging::page_of;
use crate::project::msg::{
    balance_views, outbound_views, AnswerView, ExecuteAnswer, ExecuteMsg, ExecuteReceiveMsg,
    InstantiateMsg, OutboundMsg, OutboundView, PlatformExecuteMsg, PlatformExecuteView, QueryAnswer,
    QueryMsg, Response, ResponseStatus, ResponseView, Snip24InstantiateView,
};
use crate::project::payout::{compute_payout, payout_split};
use crate::project::random::{
    chacha_words, next_random_u64, sha256_of, sha_256, supply_more_entropy,
};
use crate::project::reward::{
    check_schedule, compute_contributor_share, compute_per_mille, per_mille_of,
    reward_message_views, reward_pairs, schedule_is_valid, valid_contribution, vest, vesting_of,
    vesting_overflows, InitConfig, InitialBalance, RewardMessage, RewardMessageView, RewardView,
    Snip24InstantiateMsg, Snip24RewardInit, VestingEvent, VestingReward, VestingRewardStatus,
};
use crate::project::state::{
    add_funds, clear_funds, comment_views, get_categories, get_comments, get_creator,
    get_description, get_funded_message, get_funder, get_pledged_message, get_reward_messages,
    get_snip24_reward, get_spam_flag, get_subtitle, get_title, lemma_clear_funds_keeps_ledger,
    lemma_ledger_sum_update, push_comment, read_viewing_key, set_reward_messages,
    set_snip24_reward_address, set_spam_flag, write_viewing_key, EXPIRED, FUNDRAISING, SUCCESSFUL,
    Campaign, CampaignView, Config, ConfigView, FunderRecord, PayoutScheme, PayoutSchemeView,
};
use crate::text::{
    be_bytes, bytes_eq, bytes_to_vec, concat_bytes, decimal_text, join, joined, push_decimal,
    string_views, u64_to_be_bytes, with_decimal,
};
use crate::wide::pow2_256;

verus! {

/// The request id under which the reward token's creation is acknowledged.
pub const SNIP24_INSTANTIATE_REPLY_ID: u64 = 1;

/// The size to which answers are padded.
pub const RESPONSE_BLOCK_SIZE: usize = 256;

/// Whether a contribution is to be anonymous.
pub open spec fn wants_anonymity(msg: Option<ExecuteReceiveMsg>) -> bool {
    msg matches Some(ExecuteReceiveMsg::ReceiveContribution { anon }) && anon
}

/// Claim flags of a beneficiary who has claimed nothing.
pub open spec fn fresh_flags(slots: nat) -> Seq<bool> {
    Seq::new(slots, |i: int| false)
}

/// A response that carries an answer and no instruction.
pub open spec fn answer_only(answer: AnswerView) -> ResponseView {
    ResponseView { messages: Seq::empty(), data: Some(answer) }
}

/// A response that carries an answer and one instruction.
pub open spec fn answer_with(message: OutboundView, answer: AnswerView) -> ResponseView {
    ResponseView { messages: seq![message], data: Some(answer) }
}

impl CampaignView {
    /// The campaign once the deadline has taken effect: still fundraising
    /// after the deadline means expired.
    pub open spec fn expire_if_due(self, height: nat) -> CampaignView {
        if height > self.deadline && self.status == FUNDRAISING {
            CampaignView { status: EXPIRED, ..self }
        } else {
            self
        }
    }

    /// Whether contributions are taken at `height`: not by an expired or
    /// paid-out campaign, and not after the deadline.
    pub open spec fn accepts_contributions(self, height: nat) -> bool {
        self.status != EXPIRED && !self.paid_out && height <= self.deadline
    }

    /// The campaign after `from` tried to contribute `amount` at `height`. A
    /// contribution that is taken goes to the ledger, and makes the campaign
    /// successful if the total then reaches the goal.
    pub open spec fn receive(
        self,
        height: nat,
        from: Seq<u8>,
        amount: nat,
        anonymous: bool,
    ) -> CampaignView {
        let due = self.expire_if_due(height);
        if due.accepts_contributions(height) && amount > 0 {
            let added = due.add_funds(
                from,
                anonymous,
                amount,
                fresh_flags(due.scheme.contributor_slots()),
            );
            if added.total >= added.goal {
                CampaignView { status: SUCCESSFUL, ..added }
            } else {
                added
            }
        } else {
            due
        }
    }

    /// Why a contribution is aborted, if it is: it does not come from the
    /// campaign's token, it comes from the creator, or the ledger cannot hold
    /// it.
    pub open spec fn receive_error(
        self,
        height: nat,
        token: Seq<u8>,
        from: Seq<u8>,
        amount: nat,
    ) -> Option<ContractError> {
        if token != self.config.snip20_contract {
            Some(ContractError::IncorrectToken)
        } else if self.expire_if_due(height).accepts_contributions(height) && amount > 0 {
            if from == self.creator {
                Some(ContractError::SelfFunding)
            } else if self.total + amount > u128::MAX || (!self.has_funder(from)
                && self.funders.len() >= u32::MAX) {
                Some(ContractError::Overflow)
            } else {
                None
            }
        } else {
            None
        }
    }

    /// The response to a contribution that is not aborted. What is not taken
    /// is sent back.
    pub open spec fn receive_response(self, height: nat, from: Seq<u8>, amount: nat) -> ResponseView {
        let back = OutboundView::Snip20Transfer { recipient: from, amount };
        if !self.expire_if_due(height).accepts_contributions(height) {
            answer_with(
                back,
                AnswerView::Receive {
                    status: ResponseStatus::Failure,
                    msg: "Project is not accepting contributions"@,
                },
            )
        } else if amount == 0 {
            answer_with(
                back,
                AnswerView::Receive { status: ResponseStatus::Failure, msg: "No coins sent"@ },
            )
        } else {
            answer_only(
                AnswerView::Receive {
                    status: ResponseStatus::Success,
                    msg: "Successfully contributed "@ + decimal_text(amount),
                },
            )
        }
    }

    /// Whether refunds are open at `height`: never after the payout, and for
    /// a successful campaign only once the payout window has passed.
    pub open spec fn refund_permitted(self, height: nat) -> bool {
        !self.paid_out && (self.status != SUCCESSFUL || height > self.deadline + self.deadman)
    }

    /// The campaign after `sender` asked for a refund at `height`.
    pub open spec fn refund(self, height: nat, sender: Seq<u8>) -> CampaignView {
        let due = self.expire_if_due(height);
        if due.refund_permitted(height) {
            due.clear_funds(sender)
        } else {
            due
        }
    }

    /// The response to a request for a refund.
    pub open spec fn refund_response(self, height: nat, sender: Seq<u8>) -> ResponseView {
        if !self.expire_if_due(height).refund_permitted(height) {
            answer_only(
                AnswerView::Refund {
                    status: ResponseStatus::Failure,
                    msg: "Cannot receive refund after project successfully funded"@,
                },
            )
        } else if self.balance_of(sender) == 0 {
            answer_only(
                AnswerView::Refund { status: ResponseStatus::Failure, msg: "No funds to refund"@ },
            )
        } else {
            answer_with(
                OutboundView::Snip20Transfer { recipient: sender, amount: self.balance_of(sender) },
                AnswerView::Refund {
                    status: ResponseStatus::Success,
                    msg: decimal_text(self.balance_of(sender)) + " refunded"@,
                },
            )
        }
    }

    /// The campaign after its creator cancelled at `height`: expired, if it
    /// was still fundraising.
    pub open spec fn cancel(self, height: nat) -> CampaignView {
        let due = self.expire_if_due(height);
        if due.status == FUNDRAISING && !due.paid_out {
            CampaignView { status: EXPIRED, ..due }
        } else {
            due
        }
    }

    /// The response to the creator's cancellation.
    pub open spec fn cancel_response(self, height: nat) -> ResponseView {
        let due = self.expire_if_due(height);
        if due.status == EXPIRED {
            answer_only(
                AnswerView::Cancel {
                    status: ResponseStatus::Failure,
                    msg: "Cannot cancel an expired project"@,
                },
            )
        } else if due.status == SUCCESSFUL || due.paid_out {
            answer_only(
                AnswerView::Cancel {
                    status: ResponseStatus::Failure,
                    msg: "Cannot cancel a funded project"@,
                },
            )
        } else {
            answer_only(AnswerView::Cancel { status: ResponseStatus::Success, msg: ""@ })
        }
    }

    /// Whether comments are taken at `height`: only while the campaign is
    /// fundraising.
    pub open spec fn accepts_comments(self, height: nat) -> bool {
        let due = self.expire_if_due(height);
        due.status == FUNDRAISING && !due.paid_out
    }

    /// The campaign after a comment was sent at `height`.
    pub open spec fn comment(self, height: nat, text: Seq<char>) -> CampaignView {
        let due = self.expire_if_due(height);
        if self.accepts_comments(height) {
            CampaignView { comments: due.comments.push(text), ..due }
        } else {
            due
        }
    }

    /// The response to a comment. It goes out under the tag of a
    /// cancellation.
    pub open spec fn comment_response(self, height: nat) -> ResponseView {
        let due = self.expire_if_due(height);
        if due.status == EXPIRED {
            answer_only(
                AnswerView::Cancel {
                    status: ResponseStatus::Failure,
                    msg: "Cannot comment on an expired project"@,
                },
            )
        } else if due.status == SUCCESSFUL || due.paid_out {
            answer_only(
                AnswerView::Cancel {
                    status: ResponseStatus::Failure,
                    msg: "Cannot comment on a funded project"@,
                },
            )
        } else {
            answer_only(
                AnswerView::Cancel { status: ResponseStatus::Success, msg: "Comment added"@ },
            )
        }
    }

    /// The campaign after `sender` set its spam flag at `height`.
    pub open spec fn flag_spam(self, height: nat, sender: Seq<u8>, flag: bool) -> CampaignView {
        self.expire_if_due(height).set_spam_flag(sender, flag)
    }
}

/// Lets the deadline take effect, see [`CampaignView::expire_if_due`].
pub fn apply_deadline(storage: &mut Campaign, env: &Env)
    ensures
        final(storage)@ == old(storage)@.expire_if_due(env.block_height as nat),
{
    if env.block_height > storage.deadline && storage.status == FUNDRAISING {
        storage.status = EXPIRED;
    }
}

/// Claim flags for `slots` rewards, none of them claimed.
pub fn new_claim_flags(slots: usize) -> (r: Vec<bool>)
    ensures
        r@ == fresh_flags(slots as nat),
{
    let mut flags: Vec<bool> = Vec::new();
    let mut i: usize = 0;
    while i < slots
        invariant
            i <= slots,
            flags@.len() == i,
            forall|k: int| 0 <= k < i ==> !flags@[k],
        decreases slots - i,
    {
        flags.push(false);
        i += 1;
    }
    assert(flags@ =~= fresh_flags(slots as nat));
    flags
}

/// The number of claims that a schedule of `len` milestones gives rise to.
pub fn slots_of(len: usize) -> (r: usize)
    ensures
        r == crate::project::state::schedule_slots(len as nat),
{
    if len <= 1 {
        1
    } else {
        len
    }
}

/// The number of rewards that a contributor of this campaign may come to
/// claim.
pub fn contributor_slots(storage: &Campaign) -> (r: usize)
    ensures
        r == storage@.scheme.contributor_slots(),
{
    match &storage.scheme {
        PayoutScheme::TokenReward(reward) => slots_of(reward.contributors_vesting_schedule.len()),
        _ => 0,
    }
}

/// The number of rewards that the creator of this campaign may come to
/// claim.
pub fn creator_slots(storage: &Campaign) -> (r: usize)
    ensures
        r == storage@.scheme.creator_slots(),
{
    match &storage.scheme {
        PayoutScheme::TokenReward(reward) => slots_of(reward.creator_vesting_schedule.len()),
        _ => 0,
    }
}

fn respond(answer: ExecuteAnswer) -> (r: Response)
    ensures
        r@ == answer_only(answer@),
{
    let r = Response { messages: Vec::new(), data: Some(answer) };
    assert(r@.messages =~= Seq::empty());
    r
}

fn respond_with(message: OutboundMsg, answer: ExecuteAnswer) -> (r: Response)
    ensures
        r@ == answer_with(message@, answer@),
{
    let mut messages: Vec<OutboundMsg> = Vec::new();
    messages.push(message);
    let r = Response { messages, data: Some(answer) };
    assert(r@.messages =~= seq![message@]);
    r
}

/// A contribution of `amount` by `from`, reported by the token `info.sender`
/// at the height of `env`. See [`CampaignView::receive`] for what becomes of
/// the campaign, [`CampaignView::receive_response`] for the answer and
/// [`CampaignView::receive_error`] for the errors.
pub fn try_receive(
    storage: &mut Campaign,
    env: &Env,
    info: &MessageInfo,
    from: &[u8],
    amount: u128,
    msg: Option<ExecuteReceiveMsg>,
) -> (r: Result<Response, ContractError>)
    requires
        old(storage)@.wf(),
    ensures
        final(storage)@.wf(),
        match r {
            Ok(response) => old(storage)@.receive_error(
                env.block_height as nat,
                info.sender@,
                from@,
                amount as nat,
            ) is None && final(storage)@ == old(storage)@.receive(
                env.block_height as nat,
                from@,
                amount as nat,
                wants_anonymity(msg),
            ) && response@ == old(storage)@.receive_response(
                env.block_height as nat,
                from@,
                amount as nat,
            ),
            Err(e) => old(storage)@.receive_error(
                env.block_height as nat,
                info.sender@,
                from@,
                amount as nat,
            ) == Some(e) && final(storage)@ == old(storage)@,
        },
{
    let ghost before = storage@;
    let ghost height = env.block_height as nat;
    if !bytes_eq(info.sender.as_slice(), storage.config.snip20_contract.as_slice()) {
        return Err(ContractError::IncorrectToken);
    }
    let anonymous = match msg {
        Some(ExecuteReceiveMsg::ReceiveContribution { anon }) => anon,
        None => false,
    };
    let accepting = storage.status != EXPIRED && !storage.paid_out && env.block_height
        <= storage.deadline;
    if !accepting {
        apply_deadline(storage, env);
        let back = OutboundMsg::Snip20Transfer { recipient: bytes_to_vec(from), amount };
        return Ok(
            respond_with(
                back,
                ExecuteAnswer::Receive {
                    status: ResponseStatus::Failure,
                    msg: String::from_str("Project is not accepting contributions"),
                },
            ),
        );
    }
    assert(before.expire_if_due(height) == before);
    if amount == 0 {
        let back = OutboundMsg::Snip20Transfer { recipient: bytes_to_vec(from), amount };
        return Ok(
            respond_with(
                back,
                ExecuteAnswer::Receive {
                    status: ResponseStatus::Failure,
                    msg: String::from_str("No coins sent"),
                },
            ),
        );
    }
    if bytes_eq(from, storage.creator.as_slice()) {
        return Err(ContractError::SelfFunding);
    }
    let flags = new_claim_flags(contributor_slots(storage));
    match add_funds(storage, from, anonymous, amount, flags) {
        Ok(()) => {},
        Err(e) => {
            return Err(ContractError::Overflow);
        },
    }
    proof {
        lemma_address_position(before.funders, from@);
    }
    if storage.total >= storage.goal {
        storage.status = SUCCESSFUL;
    }
    Ok(
        respond(
            ExecuteAnswer::Receive {
                status: ResponseStatus::Success,
                msg: with_decimal("Successfully contributed ", amount),
            },
        ),
    )
}

/// A request of `info.sender` to have its contribution back. See
/// [`CampaignView::refund`] for what becomes of the campaign and
/// [`CampaignView::refund_response`] for the answer. A request that finds
/// nothing to refund is answered with a failure and leaves the total as it
/// is.
pub fn try_refund(storage: &mut Campaign, env: &Env, info: &MessageInfo) -> (r: Result<
    Response,
    ContractError,
>)
    requires
        old(storage)@.wf(),
    ensures
        final(storage)@.wf(),
        final(storage)@ == old(storage)@.refund(env.block_height as nat, info.sender@),
        r matches Ok(response) && response@ == old(storage)@.refund_response(
            env.block_height as nat,
            info.sender@,
        ),
{
    let ghost before = storage@;
    let ghost height = env.block_height as nat;
    apply_deadline(storage, env);
    let ghost due = storage@;
    let window_end: u128 = storage.deadline as u128 + storage.deadman as u128;
    let permitted = !storage.paid_out && (storage.status != SUCCESSFUL || env.block_height as u128
        > window_end);
    if !permitted {
        return Ok(
            respond(
                ExecuteAnswer::Refund {
                    status: ResponseStatus::Failure,
                    msg: String::from_str("Cannot receive refund after project successfully funded"),
                },
            ),
        );
    }
    proof {
        lemma_clear_funds_keeps_ledger(due, info.sender@);
        lemma_address_position(due.funders, info.sender@);
    }
    let refund_amount = match clear_funds(storage, info.sender.as_slice()) {
        Ok(amount) => amount,
        Err(e) => 0,
    };
    if refund_amount == 0 {
        return Ok(
            respond(
                ExecuteAnswer::Refund {
                    status: ResponseStatus::Failure,
                    msg: String::from_str("No funds to refund"),
                },
            ),
        );
    }
    let mut text = String::new();
    push_decimal(&mut text, refund_amount);
    text.append(" refunded");
    assert(text@ =~= decimal_text(refund_amount as nat) + " refunded"@);
    Ok(
        respond_with(
            OutboundMsg::Snip20Transfer {
                recipient: bytes_to_vec(info.sender.as_slice()),
                amount: refund_amount,
            },
            ExecuteAnswer::Refund { status: ResponseStatus::Success, msg: text },
        ),
    )
}

/// The creator ends the campaign. Fails with `Unauthorized`, and changes
/// nothing, exactly when `info.sender` is not the creator. See
/// [`CampaignView::cancel`] for what becomes of the campaign and
/// [`CampaignView::cancel_response`] for the answer.
pub fn try_cancel(storage: &mut Campaign, env: &Env, info: &MessageInfo) -> (r: Result<
    Response,
    ContractError,
>)
    requires
        old(storage)@.wf(),
    ensures
        final(storage)@.wf(),
        match r {
            Ok(response) => info.sender@ == old(storage)@.creator && final(storage)@ == old(storage)@.cancel(env.block_height as nat) && response@ == old(storage)@.cancel_response(
                env.block_height as nat,
            ),
            Err(e) => e == ContractError::Unauthorized && info.sender@ != old(storage)@.creator
                && final(storage)@ == old(storage)@,
        },
{
    if !bytes_eq(info.sender.as_slice(), storage.creator.as_slice()) {
        return Err(ContractError::Unauthorized);
    }
    apply_deadline(storage, env);
    if storage.status == EXPIRED {
        Ok(
            respond(
                ExecuteAnswer::Cancel {
                    status: ResponseStatus::Failure,
                    msg: String::from_str("Cannot cancel an expired project"),
                },
            ),
        )
    } else if storage.status == SUCCESSFUL || storage.paid_out {
        Ok(
            respond(
                ExecuteAnswer::Cancel {
                    status: ResponseStatus::Failure,
                    msg: String::from_str("Cannot cancel a funded project"),
                },
            ),
        )
    } else {
        storage.status = EXPIRED;
        Ok(respond(ExecuteAnswer::Cancel { status: ResponseStatus::Success, msg: String::from_str("") }))
    }
}

/// A comment on the campaign. It is taken only while the campaign is
/// fundraising. Fails with `Overflow`, and changes nothing, exactly when the
/// comment would be taken and the list of comments is full. See
/// [`CampaignView::comment`] for what becomes of the campaign and
/// [`CampaignView::comment_response`] for the answer.
pub fn try_comment(storage: &mut Campaign, env: &Env, info: &MessageInfo, comment: String) -> (r:
    Result<Response, ContractError>)
    requires
        old(storage)@.wf(),
    ensures
        final(storage)@.wf(),
        match r {
            Ok(response) => final(storage)@ == old(storage)@.comment(
                env.block_height as nat,
                comment@,
            ) && response@ == old(storage)@.comment_response(env.block_height as nat),
            Err(e) => e == ContractError::Overflow && final(storage)@ == old(storage)@,
        },
        r is Err <==> old(storage)@.accepts_comments(env.block_height as nat) && old(storage)@.comments.len() >= u32::MAX,
{
    let ghost before = storage@;
    let taking = storage.status == FUNDRAISING && !storage.paid_out && env.block_height
        <= storage.deadline;
    if taking {
        assert(before.expire_if_due(env.block_height as nat) == before);
        match push_comment(storage, comment) {
            Ok(_) => Ok(
                respond(
                    ExecuteAnswer::Cancel {
                        status: ResponseStatus::Success,
                        msg: String::from_str("Comment added"),
                    },
                ),
            ),
            Err(e) => Err(ContractError::Overflow),
        }
    } else {
        apply_deadline(storage, env);
        if storage.status == EXPIRED {
            Ok(
                respond(
                    ExecuteAnswer::Cancel {
                        status: ResponseStatus::Failure,
                        msg: String::from_str("Cannot comment on an expired project"),
                    },
                ),
            )
        } else {
            Ok(
                respond(
                    ExecuteAnswer::Cancel {
                        status: ResponseStatus::Failure,
                        msg: String::from_str("Cannot comment on a funded project"),
                    },
                ),
            )
        }
    }
}

/// `info.sender` sets or clears its spam flag. The answer carries the count
/// of flags afterwards. Fails with `Overflow`, and changes nothing, exactly
/// when a flag is to be set and the count is at its maximum. See
/// [`CampaignView::flag_spam`] for what becomes of the campaign.
pub fn try_flag_spam(storage: &mut Campaign, env: &Env, info: &MessageInfo, flag: bool) -> (r:
    Result<Response, ContractError>)
    requires
        old(storage)@.wf(),
    ensures
        final(storage)@.wf(),
        match r {
            Ok(response) => final(storage)@ == old(storage)@.flag_spam(
                env.block_height as nat,
                info.sender@,
                flag,
            ) && response@ == answer_only(
                AnswerView::FlagSpam {
                    spam_count: final(storage).spam_count,
                    status: ResponseStatus::Success,
                    msg: "Flag spam updated"@,
                },
            ),
            Err(e) => e == ContractError::Overflow && final(storage)@ == old(storage)@,
        },
        r is Err <==> flag && !old(storage)@.spam_flag_of(info.sender@) && old(storage)@.spam_count
            >= u32::MAX,
{
    if flag && storage.spam_count >= u32::MAX && !get_spam_flag(storage, info.sender.as_slice()) {
        return Err(ContractError::Overflow);
    }
    apply_deadline(storage, env);
    let done = set_spam_flag(storage, info.sender.as_slice(), flag);
    assert(done is Ok);
    Ok(
        respond(
            ExecuteAnswer::FlagSpam {
                spam_count: storage.spam_count,
                status: ResponseStatus::Success,
                msg: String::from_str("Flag spam updated"),
            },
        ),
    )
}


/// A share split over a schedule, or `Overflow` where an amount is more than
/// a `u128` holds.
pub open spec fn share_vesting(share: nat, schedule: Seq<VestingEvent>) -> Result<
    Seq<(u64, nat)>,
    ContractError,
> {
    if vesting_overflows(share, schedule) {
        Err(ContractError::Overflow)
    } else {
        Ok(vesting_of(share, schedule))
    }
}

impl CampaignView {
    /// The rewards of the contributor `addr`: each block with the amount
    /// that can be claimed from it on.
    ///
    /// Without a reward token, and below the minimum contribution, there are
    /// none. Else the contribution counts up to the maximum, and the share is
    /// the contributors' part of the minted amount, times what counts,
    /// divided by the total, split over the contributors' schedule. One who
    /// never contributed is `NotFound`.
    pub open spec fn contributor_rewards(self, addr: Seq<u8>) -> Result<
        Seq<(u64, nat)>,
        ContractError,
    > {
        match self.scheme {
            PayoutSchemeView::TokenReward(reward) => {
                if !self.has_funder(addr) {
                    Err(ContractError::NotFound)
                } else if self.balance_of(addr) < reward.minimum_contribution {
                    Ok(Seq::empty())
                } else {
                    let valid = valid_contribution(
                        self.balance_of(addr),
                        reward.maximum_contribution,
                    );
                    let scaled = per_mille_of(reward.amount, reward.contributors_per_mille) * valid;
                    if scaled >= pow2_256() {
                        Err(ContractError::Overflow)
                    } else if self.total == 0 {
                        Err(ContractError::DivisionByZero)
                    } else if scaled / self.total > u128::MAX {
                        Err(ContractError::Overflow)
                    } else {
                        share_vesting(scaled / self.total, reward.contributors_vesting_schedule)
                    }
                }
            },
            _ => Ok(Seq::empty()),
        }
    }

    /// The rewards of the creator: the creator's part of the minted amount,
    /// split over the creator's schedule.
    pub open spec fn creator_rewards(self) -> Result<Seq<(u64, nat)>, ContractError> {
        match self.scheme {
            PayoutSchemeView::TokenReward(reward) => {
                let share = per_mille_of(reward.amount, reward.creator_per_mille);
                if share > u128::MAX {
                    Err(ContractError::Overflow)
                } else {
                    share_vesting(share, reward.creator_vesting_schedule)
                }
            },
            _ => Ok(Seq::empty()),
        }
    }

    /// The rewards of `sender`, as creator or as contributor.
    pub open spec fn rewards_of(self, sender: Seq<u8>) -> Result<Seq<(u64, nat)>, ContractError> {
        if sender == self.creator {
            self.creator_rewards()
        } else {
            self.contributor_rewards(sender)
        }
    }

    /// The claim flags of `sender`, as creator or as contributor.
    pub open spec fn claim_flags_of(self, sender: Seq<u8>) -> Seq<bool> {
        if sender == self.creator {
            self.creator_snip24_allocation_received
        } else {
            self.funder_records[self.position(sender)].snip24_rewards_received
        }
    }

    /// Why a claim is aborted, if it is: the rewards cannot be computed, or
    /// there is no reward with the number `idx`.
    pub open spec fn claim_error(self, sender: Seq<u8>, idx: nat) -> Option<ContractError> {
        if !self.paid_out {
            None
        } else {
            match self.rewards_of(sender) {
                Err(e) => Some(e),
                Ok(rewards) => if idx >= rewards.len() {
                    Some(ContractError::InvalidMilestone)
                } else {
                    None
                },
            }
        }
    }

    /// Whether `sender` gets the reward number `idx` at `height`: after the
    /// payout, once the reward has vested, and only once.
    pub open spec fn claim_succeeds(self, height: nat, sender: Seq<u8>, idx: nat) -> bool {
        &&& self.paid_out
        &&& self.rewards_of(sender) matches Ok(rewards)
        &&& idx < rewards.len()
        &&& !self.claim_flags_of(sender)[idx as int]
        &&& height >= rewards[idx as int].0
    }

    /// The campaign after `sender` claimed the reward number `idx` at
    /// `height`: a claim that succeeds is marked.
    pub open spec fn claim(self, height: nat, sender: Seq<u8>, idx: nat) -> CampaignView {
        let due = self.expire_if_due(height);
        if !self.claim_succeeds(height, sender, idx) {
            due
        } else if sender == self.creator {
            CampaignView {
                creator_snip24_allocation_received: self.creator_snip24_allocation_received.update(
                    idx as int,
                    true,
                ),
                ..due
            }
        } else {
            let pos = self.position(sender);
            let record = self.funder_records[pos];
            CampaignView {
                funder_records: self.funder_records.update(
                    pos,
                    FunderRecord {
                        snip24_rewards_received: record.snip24_rewards_received.update(
                            idx as int,
                            true,
                        ),
                        ..record
                    },
                ),
                ..due
            }
        }
    }

    /// The response to a claim that is not aborted. Only a claim that
    /// succeeds moves tokens.
    pub open spec fn claim_response(self, height: nat, sender: Seq<u8>, idx: nat) -> ResponseView {
        if !self.paid_out {
            answer_only(
                AnswerView::ClaimReward {
                    status: ResponseStatus::Failure,
                    msg: "Cannot claim reward"@,
                },
            )
        } else if self.claim_flags_of(sender)[idx as int] {
            answer_only(
                AnswerView::ClaimReward {
                    status: ResponseStatus::Failure,
                    msg: "Already claimed reward"@,
                },
            )
        } else if height < self.rewards_of(sender).unwrap()[idx as int].0 {
            answer_only(
                AnswerView::ClaimReward {
                    status: ResponseStatus::Failure,
                    msg: "Vesting time has not been reached"@,
                },
            )
        } else {
            let amount = self.rewards_of(sender).unwrap()[idx as int].1;
            answer_with(
                OutboundView::RewardTransfer { recipient: sender, amount },
                AnswerView::ClaimReward {
                    status: ResponseStatus::Success,
                    msg: "Receive "@ + decimal_text(amount) + " tokens"@,
                },
            )
        }
    }
}

/// The rewards of the contributor `address`, see
/// [`CampaignView::contributor_rewards`].
pub fn calculate_contributor_snip24_rewards(storage: &Campaign, address: &[u8]) -> (r: Result<
    Vec<VestingReward>,
    ContractError,
>)
    requires
        storage@.ledger_shape(),
    ensures
        match r {
            Ok(rewards) => storage@.contributor_rewards(address@) == Ok::<
                Seq<(u64, nat)>,
                ContractError,
            >(reward_pairs(rewards@)),
            Err(e) => storage@.contributor_rewards(address@) == Err::<Seq<(u64, nat)>, ContractError>(
                e,
            ),
        },
{
    match get_snip24_reward(storage) {
        Some(reward) => {
            proof {
                lemma_address_position(storage@.funders, address@);
            }
            let funder = get_funder(storage, address)?;
            if funder.amount < reward.minimum_contribution {
                let rewards: Vec<VestingReward> = Vec::new();
                assert(reward_pairs(rewards@) =~= Seq::empty());
                return Ok(rewards);
            }
            let valid_amount = if reward.maximum_contribution == 0 {
                funder.amount
            } else if funder.amount < reward.maximum_contribution {
                funder.amount
            } else {
                reward.maximum_contribution
            };
            let share = compute_contributor_share(
                reward.amount,
                reward.contributors_per_mille,
                valid_amount,
                storage.total,
            )?;
            vest(share, &reward.contributors_vesting_schedule)
        },
        None => {
            let rewards: Vec<VestingReward> = Vec::new();
            assert(reward_pairs(rewards@) =~= Seq::empty());
            Ok(rewards)
        },
    }
}

/// The rewards of the creator, see [`CampaignView::creator_rewards`].
pub fn calculate_creator_snip24_allocation(storage: &Campaign) -> (r: Result<
    Vec<VestingReward>,
    ContractError,
>)
    ensures
        match r {
            Ok(rewards) => storage@.creator_rewards() == Ok::<Seq<(u64, nat)>, ContractError>(
                reward_pairs(rewards@),
            ),
            Err(e) => storage@.creator_rewards() == Err::<Seq<(u64, nat)>, ContractError>(e),
        },
{
    match get_snip24_reward(storage) {
        Some(reward) => {
            let share = compute_per_mille(reward.amount, reward.creator_per_mille)?;
            vest(share, &reward.creator_vesting_schedule)
        },
        None => {
            let rewards: Vec<VestingReward> = Vec::new();
            assert(reward_pairs(rewards@) =~= Seq::empty());
            Ok(rewards)
        },
    }
}

/// `info.sender` claims the reward number `idx`. See
/// [`CampaignView::claim`] for what becomes of the campaign,
/// [`CampaignView::claim_response`] for the answer and
/// [`CampaignView::claim_error`] for the errors. A reward that was claimed
/// is not paid again.
pub fn try_claim_reward(storage: &mut Campaign, env: &Env, info: &MessageInfo, idx: u32) -> (r:
    Result<Response, ContractError>)
    requires
        old(storage)@.wf(),
    ensures
        final(storage)@.wf(),
        match r {
            Ok(response) => old(storage)@.claim_error(info.sender@, idx as nat) is None && final(storage)@ == old(storage)@.claim(env.block_height as nat, info.sender@, idx as nat)
                && response@ == old(storage)@.claim_response(
                env.block_height as nat,
                info.sender@,
                idx as nat,
            ),
            Err(e) => old(storage)@.claim_error(info.sender@, idx as nat) == Some(e) && final(storage)@ == old(storage)@,
        },
{
    let ghost before = storage@;
    if !storage.paid_out {
        apply_deadline(storage, env);
        return Ok(
            respond(
                ExecuteAnswer::ClaimReward {
                    status: ResponseStatus::Failure,
                    msg: String::from_str("Cannot claim reward"),
                },
            ),
        );
    }
    assert(before.expire_if_due(env.block_height as nat) == before);
    let is_creator = bytes_eq(info.sender.as_slice(), storage.creator.as_slice());
    let rewards = if is_creator {
        calculate_creator_snip24_allocation(storage)?
    } else {
        calculate_contributor_snip24_rewards(storage, info.sender.as_slice())?
    };
    let ghost pairs = reward_pairs(rewards@);
    assert(before.rewards_of(info.sender@) == Ok::<Seq<(u64, nat)>, ContractError>(pairs));
    let i = idx as usize;
    if i >= rewards.len() {
        return Err(ContractError::InvalidMilestone);
    }
    let reward = rewards[i];
    assert(pairs[i as int] == (reward.block, reward.amount as nat));
    proof {
        lemma_address_position(before.funders, info.sender@);
        lemma_reward_slots(before, info.sender@);
    }
    let position = if is_creator {
        0
    } else {
        match find_address(&storage.funders, info.sender.as_slice()) {
            Some(p) => p,
            None => 0,
        }
    };
    let received = if is_creator {
        storage.creator_snip24_allocation_received[i]
    } else {
        storage.funder_records[position].snip24_rewards_received[i]
    };
    if received {
        return Ok(
            respond(
                ExecuteAnswer::ClaimReward {
                    status: ResponseStatus::Failure,
                    msg: String::from_str("Already claimed reward"),
                },
            ),
        );
    }
    if env.block_height < reward.block {
        return Ok(
            respond(
                ExecuteAnswer::ClaimReward {
                    status: ResponseStatus::Failure,
                    msg: String::from_str("Vesting time has not been reached"),
                },
            ),
        );
    }
    if is_creator {
        storage.creator_snip24_allocation_received[i] = true;
    } else {
        storage.funder_records[position].snip24_rewards_received[i] = true;
        proof {
            let after = before.claim(env.block_height as nat, info.sender@, idx as nat);
            assert(storage@.funder_records =~= after.funder_records);
            lemma_ledger_sum_update(
                before.funder_records,
                position as int,
                after.funder_records[position as int],
            );
        }
    }
    let mut text = with_decimal("Receive ", reward.amount);
    text.append(" tokens");
    Ok(
        respond_with(
            OutboundMsg::RewardTransfer {
                recipient: bytes_to_vec(info.sender.as_slice()),
                amount: reward.amount,
            },
            ExecuteAnswer::ClaimReward { status: ResponseStatus::Success, msg: text },
        ),
    )
}

/// A beneficiary has as many claim flags as rewards, if it has rewards at
/// all.
pub proof fn lemma_reward_slots(c: CampaignView, sender: Seq<u8>)
    requires
        c.wf(),
    ensures
        c.rewards_of(sender) matches Ok(rewards) ==> rewards.len() == 0 || rewards.len()
            == c.claim_flags_of(sender).len(),
{
    lemma_address_position(c.funders, sender);
}


/// The seed of the reward token: the digest of a random word, most
/// significant byte first, followed by what the call brought along.
pub open spec fn token_seed(word: u64, entropy: Seq<u8>) -> Seq<u8> {
    sha256_of(be_bytes(word) + entropy)
}

/// The instruction that creates the reward token: all of the minted amount
/// goes to `holder`, the campaign itself, which does the vesting.
pub open spec fn reward_token_request(
    reward: RewardView,
    holder: Seq<char>,
    height: nat,
    seed: Seq<u8>,
) -> OutboundView {
    OutboundView::InstantiateSnip24 {
        code_id: reward.reward_snip24_code_id,
        code_hash: reward.reward_snip24_code_hash,
        msg: Snip24InstantiateView {
            name: reward.name,
            admin: reward.admin,
            symbol: reward.symbol,
            decimals: reward.decimals,
            initial_balances: Some(seq![(holder, reward.amount)]),
            prng_seed: seed,
            config: Some(
                InitConfig {
                    public_total_supply: Some(reward.public_total_supply),
                    enable_deposit: Some(reward.enable_deposit),
                    enable_redeem: Some(reward.enable_redeem),
                    enable_mint: Some(reward.enable_mint),
                    enable_burn: Some(reward.enable_burn),
                },
            ),
        },
        label: reward.name + "-"@ + reward.symbol + "-"@ + decimal_text(height),
        reply_id: SNIP24_INSTANTIATE_REPLY_ID,
    }
}

impl CampaignView {
    /// Whether the campaign can be paid out at `height`: it is successful,
    /// the deadline has passed, the payout window has not, and it has not
    /// been paid out before.
    pub open spec fn payout_open(self, height: nat) -> bool {
        &&& self.status == SUCCESSFUL
        &&& height > self.deadline
        &&& height <= self.deadline + self.deadman
        &&& !self.paid_out
    }

    /// Why a payout is aborted, if it is: the caller is not the creator, the
    /// campaign has been paid out, or the commission cannot be computed.
    pub open spec fn pay_out_error(self, height: nat, sender: Seq<u8>) -> Option<ContractError> {
        if sender != self.creator {
            Some(ContractError::Unauthorized)
        } else if self.paid_out {
            Some(ContractError::AlreadyPaidOut)
        } else if self.payout_open(height) {
            match self.scheme {
                PayoutSchemeView::Commission(fee) => match payout_split(self.total, fee) {
                    Err(e) => Some(e),
                    Ok(_) => None,
                },
                _ => None,
            }
        } else {
            None
        }
    }

    /// The campaign after its creator asked for the payout at `height`.
    pub open spec fn pay_out(self, height: nat) -> CampaignView {
        let due = self.expire_if_due(height);
        if due.payout_open(height) {
            CampaignView { paid_out: true, ..due }
        } else {
            due
        }
    }

    /// What the creator gets in a payout.
    pub open spec fn payment(self) -> nat {
        match self.scheme {
            PayoutSchemeView::Commission(fee) => match payout_split(self.total, fee) {
                Ok(split) => split.0,
                Err(_) => 0,
            },
            _ => self.total,
        }
    }

    /// The instructions of a payout, in their order: the creation of the
    /// reward token, where there is one; the payment to the creator; the
    /// commission to the platform, where there is one.
    pub open spec fn pay_out_messages(
        self,
        height: nat,
        holder: Seq<char>,
        seed: Seq<u8>,
    ) -> Seq<OutboundView> {
        let payment = OutboundView::Snip20Transfer {
            recipient: self.creator,
            amount: self.payment(),
        };
        match self.scheme {
            PayoutSchemeView::Plain => seq![payment],
            PayoutSchemeView::TokenReward(reward) => seq![
                reward_token_request(reward, holder, height, seed),
                payment,
            ],
            PayoutSchemeView::Commission(fee) => match payout_split(self.total, fee) {
                Ok(split) => if split.1 > 0 {
                    seq![
                        payment,
                        OutboundView::Snip20Transfer {
                            recipient: fee.commission_addr,
                            amount: split.1,
                        },
                    ]
                } else {
                    seq![payment]
                },
                Err(_) => seq![payment],
            },
        }
    }

    /// The response to a request for the payout that is not aborted.
    pub open spec fn pay_out_response(
        self,
        height: nat,
        holder: Seq<char>,
        seed: Seq<u8>,
    ) -> ResponseView {
        if self.status == SUCCESSFUL && height > self.deadline {
            if height > self.deadline + self.deadman {
                answer_only(
                    AnswerView::PayOut {
                        status: ResponseStatus::Failure,
                        msg: "Project was funded, but the deadman time has elapsed and funding has expired"@,
                    },
                )
            } else {
                ResponseView {
                    messages: self.pay_out_messages(height, holder, seed),
                    data: Some(
                        AnswerView::PayOut {
                            status: ResponseStatus::Success,
                            msg: "Pay out "@ + decimal_text(self.payment()) + " tokens"@,
                        },
                    ),
                }
            }
        } else {
            answer_only(
                AnswerView::PayOut {
                    status: ResponseStatus::Failure,
                    msg: "Cannot receive pay out unless project successfully funded and deadline past"@,
                },
            )
        }
    }

    /// What a payout with the random word `word` comes to: the next state
    /// `after` and the result `r`.
    pub open spec fn pay_out_post(
        self,
        height: nat,
        sender: Seq<u8>,
        holder: Seq<char>,
        entropy: Seq<u8>,
        word: u64,
        after: CampaignView,
        r: Result<Response, ContractError>,
    ) -> bool {
        match r {
            Ok(response) => self.pay_out_error(height, sender) is None && after == self.pay_out(
                height,
            ) && response@ == self.pay_out_response(height, holder, token_seed(word, entropy)),
            Err(e) => self.pay_out_error(height, sender) == Some(e) && after == self,
        }
    }
}

fn reward_token_message(reward: &Snip24RewardInit, env: &Env, seed: Vec<u8>) -> (r: OutboundMsg)
    ensures
        r@ == reward_token_request(
            reward@,
            env.contract_address@,
            env.block_height as nat,
            seed@,
        ),
{
    let mut balances: Vec<InitialBalance> = Vec::new();
    balances.push(InitialBalance { address: env.contract_address.clone(), amount: reward.amount });
    assert(balance_views(balances@) =~= seq![(env.contract_address@, reward.amount as nat)]);
    let mut label = reward.name.clone();
    label.append("-");
    label.append(reward.symbol.as_str());
    label.append("-");
    push_decimal(&mut label, env.block_height as u128);
    OutboundMsg::InstantiateSnip24 {
        code_id: reward.reward_snip24_code_id,
        code_hash: reward.reward_snip24_code_hash.clone(),
        msg: Snip24InstantiateMsg {
            name: reward.name.clone(),
            admin: copy_optional_address(&reward.admin),
            symbol: reward.symbol.clone(),
            decimals: reward.decimals,
            initial_balances: Some(balances),
            prng_seed: seed,
            config: Some(
                InitConfig {
                    public_total_supply: Some(reward.public_total_supply),
                    enable_deposit: Some(reward.enable_deposit),
                    enable_redeem: Some(reward.enable_redeem),
                    enable_mint: Some(reward.enable_mint),
                    enable_burn: Some(reward.enable_burn),
                },
            ),
        },
        label,
        reply_id: SNIP24_INSTANTIATE_REPLY_ID,
    }
}

/// The seed of the reward token, see [`token_seed`].
pub fn make_token_seed(word: u64, entropy: &[u8]) -> (r: Vec<u8>)
    ensures
        r@ == token_seed(word, entropy@),
{
    let word_bytes = u64_to_be_bytes(word);
    let source = concat_bytes(word_bytes.as_slice(), entropy);
    let digest = sha_256(source.as_slice());
    bytes_to_vec(digest.as_slice())
}

/// The payout, given the random word from which the reward token's seed is
/// made. See [`CampaignView::pay_out`] for what becomes of the campaign,
/// [`CampaignView::pay_out_response`] for the answer and
/// [`CampaignView::pay_out_error`] for the errors. A campaign that has been
/// paid out is not paid out again: the call is aborted and changes nothing.
pub fn pay_out_with(
    storage: &mut Campaign,
    env: &Env,
    info: &MessageInfo,
    entropy: &[u8],
    word: u64,
) -> (r: Result<Response, ContractError>)
    requires
        old(storage)@.wf(),
    ensures
        final(storage)@.wf(),
        old(storage)@.pay_out_post(
            env.block_height as nat,
            info.sender@,
            env.contract_address@,
            entropy@,
            word,
            final(storage)@,
            r,
        ),
{
    let ghost before = storage@;
    let ghost height = env.block_height as nat;
    if !bytes_eq(info.sender.as_slice(), storage.creator.as_slice()) {
        return Err(ContractError::Unauthorized);
    }
    if storage.paid_out {
        return Err(ContractError::AlreadyPaidOut);
    }
    if !(env.block_height > storage.deadline && storage.status == SUCCESSFUL) {
        apply_deadline(storage, env);
        return Ok(
            respond(
                ExecuteAnswer::PayOut {
                    status: ResponseStatus::Failure,
                    msg: String::from_str(
                        "Cannot receive pay out unless project successfully funded and deadline past",
                    ),
                },
            ),
        );
    }
    assert(before.expire_if_due(height) == before);
    let window_end: u128 = storage.deadline as u128 + storage.deadman as u128;
    if env.block_height as u128 > window_end {
        return Ok(
            respond(
                ExecuteAnswer::PayOut {
                    status: ResponseStatus::Failure,
                    msg: String::from_str(
                        "Project was funded, but the deadman time has elapsed and funding has expired",
                    ),
                },
            ),
        );
    }
    let mut messages: Vec<OutboundMsg> = Vec::new();
    let payment: u128;
    match &storage.scheme {
        PayoutScheme::Plain => {
            payment = storage.total;
            messages.push(
                OutboundMsg::Snip20Transfer {
                    recipient: bytes_to_vec(info.sender.as_slice()),
                    amount: payment,
                },
            );
        },
        PayoutScheme::TokenReward(reward) => {
            payment = storage.total;
            let seed = make_token_seed(word, entropy);
            messages.push(reward_token_message(reward, env, seed));
            messages.push(
                OutboundMsg::Snip20Transfer {
                    recipient: bytes_to_vec(info.sender.as_slice()),
                    amount: payment,
                },
            );
        },
        PayoutScheme::Commission(fee) => {
            let split = compute_payout(storage.total, fee)?;
            payment = split.payment;
            messages.push(
                OutboundMsg::Snip20Transfer {
                    recipient: bytes_to_vec(info.sender.as_slice()),
                    amount: payment,
                },
            );
            if split.commission > 0 {
                messages.push(
                    OutboundMsg::Snip20Transfer {
                        recipient: bytes_to_vec(fee.commission_addr.as_slice()),
                        amount: split.commission,
                    },
                );
            }
        },
    }
    assert(outbound_views(messages@) =~= before.pay_out_messages(
        height,
        env.contract_address@,
        token_seed(word, entropy@),
    ));
    storage.paid_out = true;
    let mut text = with_decimal("Pay out ", payment);
    text.append(" tokens");
    Ok(
        Response {
            messages,
            data: Some(ExecuteAnswer::PayOut { status: ResponseStatus::Success, msg: text }),
        },
    )
}

/// The creator collects what was raised. `entropy` is stirred into the seed
/// of the reward token, together with the first word of the generator that
/// is seeded with the campaign's pool. The call does what [`pay_out_with`]
/// does with that word.
pub fn try_pay_out(storage: &mut Campaign, env: &Env, info: &MessageInfo, entropy: &[u8]) -> (r:
    Result<Response, ContractError>)
    requires
        old(storage)@.wf(),
    ensures
        final(storage)@.wf(),
        old(storage)@.pay_out_post(
            env.block_height as nat,
            info.sender@,
            env.contract_address@,
            entropy@,
            chacha_words(old(storage)@.entropy_pool)[0nat],
            final(storage)@,
            r,
        ),
{
    let word = next_random_u64(storage);
    pay_out_with(storage, env, info, entropy, word)
}


/// The text of an optional string.
pub open spec fn optional_text(text: Option<String>) -> Option<Seq<char>> {
    match text {
        Some(text) => Some(text@),
        None => None,
    }
}

/// The bytes that an optional base64 text stands for: `current` where there
/// is no text.
pub open spec fn decoded_or(text: Option<Seq<char>>, current: Seq<u8>) -> Seq<u8> {
    match text {
        Some(text) => base64_bytes(text).unwrap(),
        None => current,
    }
}

/// Whether an optional text is there and is not base64.
pub open spec fn is_invalid_base64(text: Option<Seq<char>>) -> bool {
    text matches Some(t) && base64_bytes(t) is None
}

/// `names` with `name` at its end, if `present`.
pub open spec fn with_name(names: Seq<Seq<char>>, present: bool, name: Seq<char>) -> Seq<Seq<char>> {
    if present {
        names.push(name)
    } else {
        names
    }
}

/// What the creator wants to change of the campaign's texts: for each text
/// the new one, or `None` to keep the one there is.
pub ghost struct TextChanges {
    pub title: Option<Seq<char>>,
    pub subtitle: Option<Seq<char>>,
    pub description: Option<Seq<char>>,
    pub pledged_message: Option<Seq<char>>,
    pub funded_message: Option<Seq<char>>,
    pub reward_messages: Option<Seq<RewardMessageView>>,
    pub categories: Option<Seq<u16>>,
}

/// What a request to change texts asks for.
pub open spec fn text_changes(
    title: Option<String>,
    subtitle: Option<String>,
    description: Option<String>,
    pledged_message: Option<String>,
    funded_message: Option<String>,
    reward_messages: Option<Vec<RewardMessage>>,
    categories: Option<Vec<u16>>,
) -> TextChanges {
    TextChanges {
        title: optional_text(title),
        subtitle: optional_text(subtitle),
        description: optional_text(description),
        pledged_message: optional_text(pledged_message),
        funded_message: optional_text(funded_message),
        reward_messages: match reward_messages {
            Some(m) => Some(reward_message_views(m@)),
            None => None,
        },
        categories: match categories {
            Some(c) => Some(c@),
            None => None,
        },
    }
}

impl TextChanges {
    /// The names of what is changed, in the order in which a campaign lists
    /// them.
    pub open spec fn names(self) -> Seq<Seq<char>> {
        let n0 = Seq::<Seq<char>>::empty();
        let n1 = with_name(n0, self.title is Some, "title"@);
        let n2 = with_name(n1, self.subtitle is Some, "subtitle"@);
        let n3 = with_name(n2, self.description is Some, "description"@);
        let n4 = with_name(n3, self.pledged_message is Some, "pledged message"@);
        let n5 = with_name(n4, self.funded_message is Some, "funded message"@);
        let n6 = with_name(n5, self.reward_messages is Some, "reward messages"@);
        with_name(n6, self.categories is Some, "categories"@)
    }

    /// Whether one of the long texts is not base64.
    pub open spec fn has_invalid_base64(self) -> bool {
        is_invalid_base64(self.description) || is_invalid_base64(self.pledged_message)
            || is_invalid_base64(self.funded_message)
    }
}

impl CampaignView {
    /// Whether the texts can be changed at `height`: only while the campaign
    /// is fundraising.
    pub open spec fn changeable(self, height: nat) -> bool {
        let due = self.expire_if_due(height);
        due.status == FUNDRAISING && !due.paid_out
    }

    /// Why a change of texts is aborted, if it is: the caller is not the
    /// creator, or a long text is not base64.
    pub open spec fn change_text_error(
        self,
        height: nat,
        sender: Seq<u8>,
        changes: TextChanges,
    ) -> Option<ContractError> {
        if sender != self.creator {
            Some(ContractError::Unauthorized)
        } else if self.changeable(height) && changes.has_invalid_base64() {
            Some(ContractError::InvalidBase64)
        } else {
            None
        }
    }

    /// The campaign after its creator changed texts at `height`.
    pub open spec fn change_text(self, height: nat, changes: TextChanges) -> CampaignView {
        let due = self.expire_if_due(height);
        if self.changeable(height) {
            CampaignView {
                title: match changes.title {
                    Some(t) => t,
                    None => due.title,
                },
                subtitle: match changes.subtitle {
                    Some(t) => t,
                    None => due.subtitle,
                },
                description: decoded_or(changes.description, due.description),
                pledged_message: decoded_or(changes.pledged_message, due.pledged_message),
                funded_message: decoded_or(changes.funded_message, due.funded_message),
                reward_messages: match changes.reward_messages {
                    Some(m) => m,
                    None => due.reward_messages,
                },
                categories: match changes.categories {
                    Some(c) => c,
                    None => due.categories,
                },
                ..due
            }
        } else {
            due
        }
    }

    /// The response to a change of texts that is not aborted.
    pub open spec fn change_text_response(self, height: nat, changes: TextChanges) -> ResponseView {
        if !self.changeable(height) {
            answer_only(
                AnswerView::ChangeText {
                    status: ResponseStatus::Failure,
                    msg: "Cannot change a project that has been completed"@,
                },
            )
        } else if changes.names().len() > 0 {
            answer_only(
                AnswerView::ChangeText {
                    status: ResponseStatus::Success,
                    msg: "Updated "@ + joined(changes.names(), ", "@),
                },
            )
        } else {
            answer_only(
                AnswerView::ChangeText {
                    status: ResponseStatus::Failure,
                    msg: "Nothing was updated"@,
                },
            )
        }
    }
}

fn push_name(names: &mut Vec<String>, present: bool, name: &str)
    ensures
        string_views(final(names)@) == with_name(string_views(old(names)@), present, name@),
{
    if present {
        names.push(String::from_str(name));
        assert(string_views(names@) =~= string_views(old(names)@).push(name@));
    }
}

fn replace_texts(
    storage: &mut Campaign,
    title: Option<String>,
    subtitle: Option<String>,
    description: Option<Vec<u8>>,
    pledged_message: Option<Vec<u8>>,
    funded_message: Option<Vec<u8>>,
    reward_messages: Option<Vec<RewardMessage>>,
    categories: Option<Vec<u16>>,
)
    ensures
        final(storage)@ == (CampaignView {
            title: match title {
                Some(t) => t@,
                None => old(storage)@.title,
            },
            subtitle: match subtitle {
                Some(t) => t@,
                None => old(storage)@.subtitle,
            },
            description: match description {
                Some(b) => b@,
                None => old(storage)@.description,
            },
            pledged_message: match pledged_message {
                Some(b) => b@,
                None => old(storage)@.pledged_message,
            },
            funded_message: match funded_message {
                Some(b) => b@,
                None => old(storage)@.funded_message,
            },
            reward_messages: match reward_messages {
                Some(m) => reward_message_views(m@),
                None => old(storage)@.reward_messages,
            },
            categories: match categories {
                Some(c) => c@,
                None => old(storage)@.categories,
            },
            ..old(storage)@
        }),
{
    if let Some(title) = title {
        storage.title = title;
    }
    if let Some(subtitle) = subtitle {
        storage.subtitle = subtitle;
    }
    if let Some(bytes) = description {
        storage.description = bytes;
    }
    if let Some(bytes) = pledged_message {
        storage.pledged_message = bytes;
    }
    if let Some(bytes) = funded_message {
        storage.funded_message = bytes;
    }
    if let Some(messages) = reward_messages {
        set_reward_messages(storage, messages);
    }
    if let Some(categories) = categories {
        storage.categories = categories;
    }
}

fn decode_optional(text: &Option<String>) -> (r: Result<Option<Vec<u8>>, ContractError>)
    ensures
        match r {
            Ok(Some(bytes)) => text matches Some(t) && base64_bytes(t@) == Some(bytes@),
            Ok(None) => *text is None,
            Err(e) => e == ContractError::InvalidBase64 && is_invalid_base64(optional_text(*text)),
        },
{
    match text {
        Some(t) => {
            let bytes = decode(t.as_str())?;
            Ok(Some(bytes))
        },
        None => Ok(None),
    }
}

/// The creator changes texts of the campaign: each of them that is given
/// replaces the one there is. The long texts come as base64. See
/// [`CampaignView::change_text`] for what becomes of the campaign,
/// [`CampaignView::change_text_response`] for the answer and
/// [`CampaignView::change_text_error`] for the errors.
pub fn try_change_text(
    storage: &mut Campaign,
    env: &Env,
    info: &MessageInfo,
    title: Option<String>,
    subtitle: Option<String>,
    description: Option<String>,
    pledged_message: Option<String>,
    funded_message: Option<String>,
    reward_messages: Option<Vec<RewardMessage>>,
    categories: Option<Vec<u16>>,
) -> (r: Result<Response, ContractError>)
    requires
        old(storage)@.wf(),
    ensures
        final(storage)@.wf(),
        ({
            let changes = text_changes(
                title,
                subtitle,
                description,
                pledged_message,
                funded_message,
                reward_messages,
                categories,
            );
            match r {
                Ok(response) => old(storage)@.change_text_error(
                    env.block_height as nat,
                    info.sender@,
                    changes,
                ) is None && final(storage)@ == old(storage)@.change_text(
                    env.block_height as nat,
                    changes,
                ) && response@ == old(storage)@.change_text_response(
                    env.block_height as nat,
                    changes,
                ),
                Err(e) => old(storage)@.change_text_error(
                    env.block_height as nat,
                    info.sender@,
                    changes,
                ) == Some(e) && final(storage)@ == old(storage)@,
            }
        }),
{
    let ghost before = storage@;
    let ghost changes = text_changes(
        title,
        subtitle,
        description,
        pledged_message,
        funded_message,
        reward_messages,
        categories,
    );
    if !bytes_eq(info.sender.as_slice(), storage.creator.as_slice()) {
        return Err(ContractError::Unauthorized);
    }
    let open = storage.status == FUNDRAISING && !storage.paid_out && env.block_height
        <= storage.deadline;
    if !open {
        apply_deadline(storage, env);
        return Ok(
            respond(
                ExecuteAnswer::ChangeText {
                    status: ResponseStatus::Failure,
                    msg: String::from_str("Cannot change a project that has been completed"),
                },
            ),
        );
    }
    assert(before.expire_if_due(env.block_height as nat) == before);
    let description_bytes = decode_optional(&description)?;
    let pledged_bytes = decode_optional(&pledged_message)?;
    let funded_bytes = decode_optional(&funded_message)?;
    let mut updates: Vec<String> = Vec::new();
    assert(string_views(updates@) =~= Seq::<Seq<char>>::empty());
    push_name(&mut updates, title.is_some(), "title");
    push_name(&mut updates, subtitle.is_some(), "subtitle");
    push_name(&mut updates, description_bytes.is_some(), "description");
    push_name(&mut updates, pledged_bytes.is_some(), "pledged message");
    push_name(&mut updates, funded_bytes.is_some(), "funded message");
    push_name(&mut updates, reward_messages.is_some(), "reward messages");
    push_name(&mut updates, categories.is_some(), "categories");
    assert(string_views(updates@) == changes.names());
    replace_texts(
        storage,
        title,
        subtitle,
        description_bytes,
        pledged_bytes,
        funded_bytes,
        reward_messages,
        categories,
    );
    if updates.len() > 0 {
        let mut text = String::from_str("Updated ");
        let list = join(&updates, ", ");
        text.append(list.as_str());
        Ok(respond(ExecuteAnswer::ChangeText { status: ResponseStatus::Success, msg: text }))
    } else {
        Ok(
            respond(
                ExecuteAnswer::ChangeText {
                    status: ResponseStatus::Failure,
                    msg: String::from_str("Nothing was updated"),
                },
            ),
        )
    }
}

/// `info.sender` sets the viewing key that was generated for it. The
/// campaign keeps the key's hash and answers with the key.
pub fn try_generate_viewing_key(storage: &mut Campaign, env: &Env, info: &MessageInfo, key: String) -> (r:
    Result<Response, ContractError>)
    requires
        old(storage)@.wf(),
    ensures
        final(storage)@.wf(),
        final(storage)@ == old(storage)@.expire_if_due(env.block_height as nat).write_viewing_key(
            info.sender@,
            sha256_of(vstd::utf8::encode_utf8(key@)),
        ),
        r matches Ok(response) && response@ == answer_only(
            AnswerView::GenerateViewingKey { key: key@ },
        ),
{
    apply_deadline(storage, env);
    write_viewing_key(storage, info.sender.as_slice(), key.as_str());
    Ok(respond(ExecuteAnswer::GenerateViewingKey { key }))
}

/// Whether `key` is the viewing key with the hash `hash`.
pub fn check_viewing_key(key: &str, hash: &[u8]) -> (r: bool)
    ensures
        r <==> sha256_of(vstd::utf8::encode_utf8(key@)) == hash@,
{
    let own = sha_256(key.as_bytes());
    bytes_eq(own.as_slice(), hash)
}

/// Records the address of the reward token, once its creation has been
/// acknowledged.
pub fn handle_instantiate_reply(storage: &mut Campaign, contract_address: Vec<u8>) -> (r: Response)
    ensures
        final(storage)@ == (CampaignView {
            snip24_reward_address: Some(contract_address@),
            ..old(storage)@
        }),
        r@ == (ResponseView { messages: Seq::empty(), data: None }),
{
    set_snip24_reward_address(storage, Some(contract_address));
    let r = Response { messages: Vec::new(), data: None };
    assert(r@.messages =~= Seq::empty());
    r
}

/// The acknowledgment of a request that the campaign made under `id`: the
/// new contract's address is `contract_address`. The only request that a
/// campaign makes is the one for its reward token. Fails with
/// `UnknownReplyId`, and changes nothing, exactly for any other `id`. An
/// acknowledgment that comes twice leaves the campaign as the first did.
pub fn reply(storage: &mut Campaign, id: u64, contract_address: Vec<u8>) -> (r: Result<
    Response,
    ContractError,
>)
    ensures
        match r {
            Ok(response) => id == SNIP24_INSTANTIATE_REPLY_ID && final(storage)@ == (CampaignView {
                snip24_reward_address: Some(contract_address@),
                ..old(storage)@
            }) && response@ == (ResponseView { messages: Seq::empty(), data: None }),
            Err(e) => id != SNIP24_INSTANTIATE_REPLY_ID && e == ContractError::UnknownReplyId(id)
                && final(storage)@ == old(storage)@,
        },
{
    if id == SNIP24_INSTANTIATE_REPLY_ID {
        Ok(handle_instantiate_reply(storage, contract_address))
    } else {
        Err(ContractError::UnknownReplyId(id))
    }
}


/// Why a payout scheme is refused, if it is: a vesting schedule is neither
/// empty nor sums to 1000 per mille. The contributors' schedule is looked at
/// first.
pub open spec fn reward_validation_error(reward: Option<RewardView>) -> Option<ContractError> {
    match reward {
        Some(reward) => if !schedule_is_valid(reward.contributors_vesting_schedule) {
            Some(ContractError::ContributorsScheduleSum)
        } else if !schedule_is_valid(reward.creator_vesting_schedule) {
            Some(ContractError::CreatorScheduleSum)
        } else {
            None
        },
        None => None,
    }
}

/// The reward of a payout scheme, if it has one.
pub open spec fn reward_of(scheme: PayoutSchemeView) -> Option<RewardView> {
    match scheme {
        PayoutSchemeView::TokenReward(reward) => Some(reward),
        _ => None,
    }
}

/// The view of an optional reward.
pub open spec fn optional_reward_view(reward: Option<&Snip24RewardInit>) -> Option<RewardView> {
    match reward {
        Some(reward) => Some(reward@),
        None => None,
    }
}

/// Checks the vesting schedules of a reward, see
/// [`reward_validation_error`]. A schedule whose shares do not sum to
/// exactly 1000 per mille is refused, unless it is empty.
pub fn validate_snip24_reward_init(reward_init: Option<&Snip24RewardInit>) -> (r: Result<
    (),
    ContractError,
>)
    ensures
        match r {
            Ok(()) => reward_validation_error(optional_reward_view(reward_init)) is None,
            Err(e) => reward_validation_error(optional_reward_view(reward_init)) == Some(e),
        },
{
    match reward_init {
        Some(reward) => {
            if !check_schedule(&reward.contributors_vesting_schedule) {
                return Err(ContractError::ContributorsScheduleSum);
            }
            if !check_schedule(&reward.creator_vesting_schedule) {
                return Err(ContractError::CreatorScheduleSum);
            }
            Ok(())
        },
        None => Ok(()),
    }
}

/// The seed that a campaign derives from the entropy it is created with: the
/// digest of the entropy's base64 text.
pub open spec fn seed_of(entropy: Seq<char>) -> Seq<u8> {
    sha256_of(vstd::utf8::encode_utf8(base64_text(vstd::utf8::encode_utf8(entropy))))
}

/// Why a campaign is not created, if it is not. The checks are made in this
/// order: the deadline has not passed, the long texts are base64, the
/// vesting schedules are valid, the goal is not zero.
pub open spec fn instantiate_error(height: nat, msg: InstantiateMsg) -> Option<ContractError> {
    if height > msg.deadline {
        Some(ContractError::DeadlineInPast)
    } else if base64_bytes(msg.description@) is None || is_invalid_base64(
        optional_text(msg.pledged_message),
    ) || is_invalid_base64(optional_text(msg.funded_message)) {
        Some(ContractError::InvalidBase64)
    } else if reward_validation_error(reward_of(msg.scheme@)) is Some {
        reward_validation_error(reward_of(msg.scheme@))
    } else if msg.goal == 0 {
        Some(ContractError::GoalIsZero)
    } else {
        None
    }
}

/// The campaign that `msg` creates: fundraising, with nothing raised, no
/// comment, no flag and no key.
pub open spec fn initial_campaign(msg: InstantiateMsg) -> CampaignView {
    CampaignView {
        config: ConfigView {
            platform_contract: msg.source_contract@,
            platform_hash: msg.source_hash@,
            snip20_contract: msg.snip20_contract@,
            snip20_hash: msg.snip20_hash@,
        },
        prng_seed: seed_of(msg.entropy@),
        entropy_pool: Seq::new(32, |i: int| 0u8),
        status: FUNDRAISING,
        creator: msg.creator@,
        creator_snip24_allocation_received: fresh_flags(msg.scheme@.creator_slots()),
        title: msg.title@,
        subtitle: match msg.subtitle {
            Some(t) => t@,
            None => Seq::empty(),
        },
        description: base64_bytes(msg.description@).unwrap(),
        pledged_message: decoded_or(optional_text(msg.pledged_message), Seq::empty()),
        funded_message: decoded_or(optional_text(msg.funded_message), Seq::empty()),
        goal: msg.goal as nat,
        deadline: msg.deadline as nat,
        deadman: msg.deadman as nat,
        categories: msg.categories@,
        reward_messages: reward_message_views(msg.reward_messages@),
        scheme: msg.scheme@,
        snip24_reward_address: None,
        total: 0,
        spam_count: 0,
        funders: Seq::empty(),
        funder_records: Seq::empty(),
        comments: Seq::empty(),
        paid_out: false,
        spam_addresses: Seq::empty(),
        spam_flags: Seq::empty(),
        key_owners: Seq::empty(),
        key_hashes: Seq::empty(),
    }
}

/// What a new campaign asks of the host: to register it with the registry,
/// to have the contribution token report contributions to it, and to set
/// its viewing key there.
pub open spec fn instantiate_response(env: Env, entropy: Seq<char>) -> ResponseView {
    ResponseView {
        messages: seq![
            OutboundView::Platform(
                PlatformExecuteView::Register {
                    contract_addr: env.contract_address@,
                    contract_code_hash: env.contract_code_hash@,
                },
            ),
            OutboundView::Snip20RegisterReceive { code_hash: env.contract_code_hash@ },
            OutboundView::Snip20SetViewingKey { key: base64_text(seed_of(entropy)) },
        ],
        data: None,
    }
}

fn decode_or_empty(text: &Option<String>) -> (r: Result<Vec<u8>, ContractError>)
    ensures
        match r {
            Ok(bytes) => !is_invalid_base64(optional_text(*text)) && bytes@ == decoded_or(
                optional_text(*text),
                Seq::empty(),
            ),
            Err(e) => e == ContractError::InvalidBase64 && is_invalid_base64(optional_text(*text)),
        },
{
    match text {
        Some(t) => decode(t.as_str()),
        None => Ok(Vec::new()),
    }
}

/// Creates a campaign. See [`initial_campaign`] for the campaign,
/// [`instantiate_response`] for what it asks of the host and
/// [`instantiate_error`] for the errors.
pub fn instantiate(env: &Env, info: &MessageInfo, msg: InstantiateMsg) -> (r: Result<
    (Campaign, Response),
    ContractError,
>)
    ensures
        match r {
            Ok((campaign, response)) => instantiate_error(env.block_height as nat, msg) is None
                && campaign@ == initial_campaign(msg) && campaign@.wf() && response@
                == instantiate_response(*env, msg.entropy@),
            Err(e) => instantiate_error(env.block_height as nat, msg) == Some(e),
        },
{
    let ghost expected = initial_campaign(msg);
    let encoded_entropy = encode(msg.entropy.as_str().as_bytes());
    let digest = sha_256(encoded_entropy.as_str().as_bytes());
    let prng_seed = bytes_to_vec(digest.as_slice());
    assert(prng_seed@ == seed_of(msg.entropy@));
    if env.block_height > msg.deadline {
        return Err(ContractError::DeadlineInPast);
    }
    let description = decode(msg.description.as_str())?;
    let pledged_message = decode_or_empty(&msg.pledged_message)?;
    let funded_message = decode_or_empty(&msg.funded_message)?;
    let creator_flags = match &msg.scheme {
        PayoutScheme::TokenReward(reward) => {
            validate_snip24_reward_init(Some(reward))?;
            new_claim_flags(slots_of(reward.creator_vesting_schedule.len()))
        },
        _ => new_claim_flags(0),
    };
    if msg.goal == 0 {
        return Err(ContractError::GoalIsZero);
    }
    let viewing_key = encode(prng_seed.as_slice());
    let subtitle = match msg.subtitle {
        Some(t) => t,
        None => String::new(),
    };
    let mut campaign = Campaign {
        config: Config {
            platform_contract: msg.source_contract,
            platform_hash: msg.source_hash,
            snip20_contract: msg.snip20_contract,
            snip20_hash: msg.snip20_hash,
        },
        prng_seed,
        entropy_pool: [0u8; 32],
        status: FUNDRAISING,
        creator: msg.creator,
        creator_snip24_allocation_received: creator_flags,
        title: msg.title,
        subtitle,
        description,
        pledged_message,
        funded_message,
        goal: msg.goal,
        deadline: msg.deadline,
        deadman: msg.deadman,
        categories: msg.categories,
        reward_messages: Vec::new(),
        scheme: msg.scheme,
        snip24_reward_address: None,
        total: 0,
        spam_count: 0,
        funders: Vec::new(),
        funder_records: Vec::new(),
        comments: Vec::new(),
        paid_out: false,
        spam_addresses: Vec::new(),
        spam_flags: Vec::new(),
        key_owners: Vec::new(),
        key_hashes: Vec::new(),
    };
    set_reward_messages(&mut campaign, msg.reward_messages);
    proof {
        assert(campaign@.entropy_pool =~= expected.entropy_pool);
        assert(campaign@.funders =~= expected.funders);
        assert(campaign@.funder_records =~= expected.funder_records);
        assert(campaign@.comments =~= expected.comments);
        assert(campaign@.spam_addresses =~= expected.spam_addresses);
        assert(campaign@.key_owners =~= expected.key_owners);
        assert(campaign@.key_hashes =~= expected.key_hashes);
        assert(campaign@ == expected);
    }
    let mut messages: Vec<OutboundMsg> = Vec::new();
    messages.push(
        OutboundMsg::Platform(
            PlatformExecuteMsg::Register {
                contract_addr: env.contract_address.clone(),
                contract_code_hash: env.contract_code_hash.clone(),
            },
        ),
    );
    messages.push(OutboundMsg::Snip20RegisterReceive { code_hash: env.contract_code_hash.clone() });
    messages.push(OutboundMsg::Snip20SetViewingKey { key: viewing_key });
    let response = Response { messages, data: None };
    assert(response@.messages =~= instantiate_response(*env, msg.entropy@).messages);
    Ok((campaign, response))
}

/// The name of a lifecycle state.
pub open spec fn status_text(status: u8) -> Seq<char> {
    if status == FUNDRAISING {
        "fundraising"@
    } else if status == EXPIRED {
        "expired"@
    } else {
        "successful"@
    }
}

fn status_string(status: u8) -> (r: Result<String, ContractError>)
    ensures
        match r {
            Ok(text) => 1 <= status <= 3 && text@ == status_text(status),
            Err(e) => e == ContractError::InvalidStatus && !(1 <= status <= 3),
        },
{
    if status == FUNDRAISING {
        Ok(String::from_str("fundraising"))
    } else if status == EXPIRED {
        Ok(String::from_str("expired"))
    } else if status == SUCCESSFUL {
        Ok(String::from_str("successful"))
    } else {
        Err(ContractError::InvalidStatus)
    }
}

/// The messages of `messages` whose threshold `amount` reaches, in their
/// order.
pub open spec fn messages_within(messages: Seq<RewardMessageView>, amount: nat) -> Seq<
    RewardMessageView,
>
    decreases messages.len(),
{
    if messages.len() == 0 {
        Seq::empty()
    } else {
        let before = messages_within(messages.drop_last(), amount);
        if amount >= messages.last().threshold {
            before.push(messages.last())
        } else {
            before
        }
    }
}

/// Each reward with whether it has been claimed: amount, block, flag.
pub open spec fn status_triples(rewards: Seq<(u64, nat)>, flags: Seq<bool>) -> Seq<(nat, u64, bool)> {
    Seq::new(rewards.len(), |i: int| (rewards[i].1, rewards[i].0, flags[i]))
}

/// What a list of reward statuses holds: amount, block, flag.
pub open spec fn status_views(statuses: Seq<VestingRewardStatus>) -> Seq<(nat, u64, bool)> {
    Seq::new(
        statuses.len(),
        |i: int| (statuses[i].amount as nat, statuses[i].block, statuses[i].received),
    )
}

impl CampaignView {
    /// Whether `addr` is shown the message for those who have pledged: the
    /// creator, and who has a balance in a campaign that is not expired.
    pub open spec fn sees_pledged_message(self, addr: Seq<u8>) -> bool {
        addr == self.creator || (self.balance_of(addr) > 0 && self.status != EXPIRED)
    }

    /// Whether `addr` is shown the message for contributors of a funded
    /// campaign: the creator, and who has a balance in a campaign that is
    /// paid out.
    pub open spec fn sees_funded_message(self, addr: Seq<u8>) -> bool {
        addr == self.creator || (self.balance_of(addr) > 0 && self.status == SUCCESSFUL
            && self.paid_out)
    }

    /// The reward messages that `addr` is shown: all of them for the
    /// creator, and for a contributor of a campaign that is paid out those
    /// whose threshold the balance reaches.
    pub open spec fn visible_reward_messages(self, addr: Seq<u8>) -> Seq<RewardMessageView> {
        if addr == self.creator {
            self.reward_messages
        } else if self.sees_funded_message(addr) {
            messages_within(self.reward_messages, self.balance_of(addr))
        } else {
            Seq::empty()
        }
    }

    /// The balance of `addr` as a contributor; `None` for the creator and
    /// for one who never contributed.
    pub open spec fn contribution_of(self, addr: Seq<u8>) -> Option<nat> {
        if addr != self.creator && self.has_funder(addr) {
            Some(self.balance_of(addr))
        } else {
            None
        }
    }

    /// The rewards of `addr` with their claim flags; none for one who is
    /// neither creator nor contributor.
    pub open spec fn reward_statuses(self, addr: Seq<u8>) -> Result<
        Seq<(nat, u64, bool)>,
        ContractError,
    > {
        if addr != self.creator && !self.has_funder(addr) {
            Ok(Seq::empty())
        } else {
            match self.rewards_of(addr) {
                Ok(rewards) => Ok(status_triples(rewards, self.claim_flags_of(addr))),
                Err(e) => Err(e),
            }
        }
    }

    /// What everybody may know of the campaign.
    pub open spec fn status_post(self, r: Result<QueryAnswer, ContractError>) -> bool {
        match r {
            Ok(
                QueryAnswer::Status {
                    creator,
                    status,
                    paid_out,
                    goal,
                    total,
                    deadline,
                    deadman,
                    title,
                    subtitle,
                    description,
                    categories,
                    spam_count,
                },
            ) => {
                &&& 1 <= self.status <= 3
                &&& creator@ == self.creator
                &&& status@ == status_text(self.status)
                &&& paid_out == self.paid_out
                &&& goal == self.goal
                &&& total == self.total
                &&& deadline == self.deadline
                &&& deadman == self.deadman
                &&& title@ == self.title
                &&& subtitle@ == self.subtitle
                &&& description@ == base64_text(self.description)
                &&& categories@ == self.categories
                &&& spam_count == self.spam_count
            },
            Ok(_) => false,
            Err(e) => e == ContractError::InvalidStatus && !(1 <= self.status <= 3),
        }
    }

    /// What `addr` may know of the campaign: what everybody may know, and
    /// the messages, rewards and contribution that are its own, or all of
    /// them for the creator.
    pub open spec fn status_auth_post(
        self,
        addr: Seq<u8>,
        r: Result<QueryAnswer, ContractError>,
    ) -> bool {
        match r {
            Ok(
                QueryAnswer::StatusAuth {
                    creator,
                    status,
                    paid_out,
                    goal,
                    total,
                    deadline,
                    deadman,
                    title,
                    subtitle,
                    description,
                    categories,
                    spam_count,
                    pledged_message,
                    funded_message,
                    reward_messages,
                    snip24_rewards,
                    contribution,
                },
            ) => {
                &&& 1 <= self.status <= 3
                &&& creator@ == self.creator
                &&& status@ == status_text(self.status)
                &&& paid_out == self.paid_out
                &&& goal == self.goal
                &&& total == self.total
                &&& deadline == self.deadline
                &&& deadman == self.deadman
                &&& title@ == self.title
                &&& subtitle@ == self.subtitle
                &&& description@ == base64_text(self.description)
                &&& categories@ == self.categories
                &&& spam_count == self.spam_count
                &&& optional_text(pledged_message) == if self.sees_pledged_message(addr) {
                    Some(base64_text(self.pledged_message))
                } else {
                    None
                }
                &&& optional_text(funded_message) == if self.sees_funded_message(addr) {
                    Some(base64_text(self.funded_message))
                } else {
                    None
                }
                &&& reward_message_views(reward_messages@) == self.visible_reward_messages(addr)
                &&& self.reward_statuses(addr) == Ok::<Seq<(nat, u64, bool)>, ContractError>(
                    status_views(snip24_rewards@),
                )
                &&& match contribution {
                    Some(amount) => self.contribution_of(addr) == Some(amount as nat),
                    None => self.contribution_of(addr) is None,
                }
            },
            Ok(_) => false,
            Err(e) => if !(1 <= self.status <= 3) {
                e == ContractError::InvalidStatus
            } else {
                self.reward_statuses(addr) == Err::<Seq<(nat, u64, bool)>, ContractError>(e)
            },
        }
    }
}

/// What everybody may know of the campaign, see
/// [`CampaignView::status_post`].
pub fn query_status(storage: &Campaign) -> (r: Result<QueryAnswer, ContractError>)
    ensures
        storage@.status_post(r),
{
    let status = status_string(storage.status)?;
    Ok(
        QueryAnswer::Status {
            creator: get_creator(storage),
            status,
            paid_out: storage.paid_out,
            goal: storage.goal,
            total: storage.total,
            deadline: storage.deadline,
            deadman: storage.deadman,
            title: get_title(storage),
            subtitle: get_subtitle(storage),
            description: get_description(storage),
            categories: get_categories(storage),
            spam_count: storage.spam_count,
        },
    )
}

fn messages_for(storage: &Campaign, amount: u128) -> (r: Vec<RewardMessage>)
    ensures
        reward_message_views(r@) == messages_within(storage@.reward_messages, amount as nat),
{
    let ghost all = storage@.reward_messages;
    let mut out: Vec<RewardMessage> = Vec::new();
    let mut i: usize = 0;
    assert(reward_message_views(out@) =~= messages_within(all.subrange(0, 0), amount as nat));
    while i < storage.reward_messages.len()
        invariant
            i <= storage.reward_messages@.len(),
            all == storage@.reward_messages,
            reward_message_views(out@) == messages_within(all.subrange(0, i as int), amount as nat),
        decreases storage.reward_messages@.len() - i,
    {
        let stored = &storage.reward_messages[i];
        proof {
            assert(all.subrange(0, i + 1).drop_last() =~= all.subrange(0, i as int));
            assert(all.subrange(0, i + 1).last() == stored@);
        }
        if amount >= stored.threshold {
            let ghost before = out@;
            out.push(RewardMessage { threshold: stored.threshold, message: stored.message.clone() });
            assert(reward_message_views(out@) =~= reward_message_views(before).push(stored@));
        }
        i += 1;
    }
    assert(all.subrange(0, all.len() as int) =~= all);
    out
}

fn with_flags(rewards: &Vec<VestingReward>, flags: &Vec<bool>) -> (r: Vec<VestingRewardStatus>)
    requires
        rewards@.len() <= flags@.len(),
    ensures
        status_views(r@) == status_triples(reward_pairs(rewards@), flags@),
{
    let mut out: Vec<VestingRewardStatus> = Vec::new();
    let mut i: usize = 0;
    while i < rewards.len()
        invariant
            i <= rewards@.len() <= flags@.len(),
            out@.len() == i,
            forall|k: int|
                0 <= k < i ==> (#[trigger] out@[k]).amount == rewards@[k].amount && out@[k].block
                    == rewards@[k].block && out@[k].received == flags@[k],
        decreases rewards@.len() - i,
    {
        out.push(
            VestingRewardStatus {
                amount: rewards[i].amount,
                block: rewards[i].block,
                received: flags[i],
            },
        );
        i += 1;
    }
    assert(status_views(out@) =~= status_triples(reward_pairs(rewards@), flags@));
    out
}

/// What `address` may know of the campaign, see
/// [`CampaignView::status_auth_post`].
pub fn query_status_auth(storage: &Campaign, address: &[u8]) -> (r: Result<
    QueryAnswer,
    ContractError,
>)
    requires
        storage@.wf(),
    ensures
        storage@.status_auth_post(address@, r),
{
    let status = status_string(storage.status)?;
    let is_creator = bytes_eq(address, storage.creator.as_slice());
    let mut pledged_message: Option<String> = None;
    let mut funded_message: Option<String> = None;
    let mut reward_messages: Vec<RewardMessage> = Vec::new();
    let mut snip24_rewards: Vec<VestingRewardStatus> = Vec::new();
    let mut contribution: Option<u128> = None;
    proof {
        lemma_address_position(storage@.funders, address@);
        lemma_reward_slots(storage@, address@);
        assert(reward_message_views(reward_messages@) =~= Seq::empty());
        assert(status_views(snip24_rewards@) =~= Seq::empty());
    }
    if is_creator {
        pledged_message = Some(get_pledged_message(storage));
        funded_message = Some(get_funded_message(storage));
        reward_messages = get_reward_messages(storage);
        let allocation = calculate_creator_snip24_allocation(storage)?;
        snip24_rewards = with_flags(&allocation, &storage.creator_snip24_allocation_received);
    } else {
        match find_address(&storage.funders, address) {
            Some(position) => {
                let funder = &storage.funder_records[position];
                if funder.amount > 0 {
                    if storage.status != EXPIRED {
                        pledged_message = Some(get_pledged_message(storage));
                    }
                    if storage.status == SUCCESSFUL && storage.paid_out {
                        funded_message = Some(get_funded_message(storage));
                        reward_messages = messages_for(storage, funder.amount);
                    }
                }
                contribution = Some(funder.amount);
                let rewards = calculate_contributor_snip24_rewards(storage, address)?;
                snip24_rewards = with_flags(&rewards, &funder.snip24_rewards_received);
            },
            None => {},
        }
    }
    Ok(
        QueryAnswer::StatusAuth {
            creator: get_creator(storage),
            status,
            paid_out: storage.paid_out,
            goal: storage.goal,
            total: storage.total,
            deadline: storage.deadline,
            deadman: storage.deadman,
            title: get_title(storage),
            subtitle: get_subtitle(storage),
            description: get_description(storage),
            categories: get_categories(storage),
            spam_count: storage.spam_count,
            pledged_message,
            funded_message,
            reward_messages,
            snip24_rewards,
            contribution,
        },
    )
}

/// A page of the comments, oldest first.
pub fn query_comments(storage: &Campaign, page: u32, page_size: u32) -> (r: Result<
    QueryAnswer,
    ContractError,
>)
    ensures
        r matches Ok(QueryAnswer::Comments { comments }) && comment_views(comments@) == page_of(
            storage@.comments,
            page as nat,
            page_size as nat,
        ),
{
    Ok(QueryAnswer::Comments { comments: get_comments(storage, page, page_size) })
}

/// What `address` may know of the campaign, if `key` is its viewing key:
/// see [`CampaignView::status_auth_post`]. Fails with `Unauthorized` exactly
/// when `address` has no viewing key or another one.
pub fn authenticated_queries(storage: &Campaign, address: &[u8], key: &str) -> (r: Result<
    QueryAnswer,
    ContractError,
>)
    requires
        storage@.wf(),
    ensures
        if storage@.viewing_key_of(address@) == Some(sha256_of(vstd::utf8::encode_utf8(key@))) {
            storage@.status_auth_post(address@, r)
        } else {
            r matches Err(e) && e == ContractError::Unauthorized
        },
{
    match read_viewing_key(storage, address) {
        Some(expected) => {
            if check_viewing_key(key, expected.as_slice()) {
                query_status_auth(storage, address)
            } else {
                Err(ContractError::Unauthorized)
            }
        },
        None => Err(ContractError::Unauthorized),
    }
}

/// The answer to a question, see [`QueryMsg`].
pub fn query(storage: &Campaign, msg: QueryMsg) -> (r: Result<QueryAnswer, ContractError>)
    requires
        storage@.wf(),
    ensures
        match msg {
            QueryMsg::Status {  } => storage@.status_post(r),
            QueryMsg::StatusAuth { address, key } => if storage@.viewing_key_of(address@) == Some(
                sha256_of(vstd::utf8::encode_utf8(key@)),
            ) {
                storage@.status_auth_post(address@, r)
            } else {
                r matches Err(e) && e == ContractError::Unauthorized
            },
            QueryMsg::StatusWithPermit { address } => storage@.status_auth_post(address@, r),
            QueryMsg::Comments { page, page_size } => r matches Ok(
                QueryAnswer::Comments { comments },
            ) && comment_views(comments@) == page_of(
                storage@.comments,
                page as nat,
                page_size as nat,
            ),
        },
{
    match msg {
        QueryMsg::Status {  } => query_status(storage),
        QueryMsg::StatusAuth { address, key } => authenticated_queries(
            storage,
            address.as_slice(),
            key.as_str(),
        ),
        QueryMsg::StatusWithPermit { address } => query_status_auth(storage, address.as_slice()),
        QueryMsg::Comments { page, page_size } => query_comments(storage, page, page_size),
    }
}


impl CampaignView {
    /// The campaign after `bytes` were stirred into its pool of entropy.
    pub open spec fn stir(self, bytes: Seq<u8>) -> CampaignView {
        CampaignView { entropy_pool: sha256_of(self.entropy_pool + bytes), ..self }
    }

    /// What the command `msg` comes to in the campaign `self`: the next
    /// state `after` and the result `r`. Each command is what the function
    /// of its name does.
    pub open spec fn command_post(
        self,
        height: nat,
        sender: Seq<u8>,
        holder: Seq<char>,
        msg: ExecuteMsg,
        call_bytes: Seq<u8>,
        after: CampaignView,
        r: Result<Response, ContractError>,
    ) -> bool {
        match msg {
            ExecuteMsg::ChangeText {
                title,
                subtitle,
                description,
                pledged_message,
                funded_message,
                reward_messages,
                categories,
            } => {
                let changes = text_changes(
                    title,
                    subtitle,
                    description,
                    pledged_message,
                    funded_message,
                    reward_messages,
                    categories,
                );
                match r {
                    Ok(response) => self.change_text_error(height, sender, changes) is None && after
                        == self.change_text(height, changes) && response@
                        == self.change_text_response(height, changes),
                    Err(e) => self.change_text_error(height, sender, changes) == Some(e) && after
                        == self,
                }
            },
            ExecuteMsg::Cancel {  } => match r {
                Ok(response) => sender == self.creator && after == self.cancel(height) && response@
                    == self.cancel_response(height),
                Err(e) => e == ContractError::Unauthorized && sender != self.creator && after
                    == self,
            },
            ExecuteMsg::Receive { sender: _, from, amount, msg } => match r {
                Ok(response) => self.receive_error(height, sender, from@, amount as nat) is None
                    && after == self.receive(height, from@, amount as nat, wants_anonymity(msg))
                    && response@ == self.receive_response(height, from@, amount as nat),
                Err(e) => self.receive_error(height, sender, from@, amount as nat) == Some(e)
                    && after == self,
            },
            ExecuteMsg::Refund {  } => {
                &&& after == self.refund(height, sender)
                &&& r matches Ok(response)
                &&& response@ == self.refund_response(height, sender)
            },
            ExecuteMsg::PayOut {  } => self.pay_out_post(
                height,
                sender,
                holder,
                call_bytes,
                chacha_words(self.entropy_pool)[0nat],
                after,
                r,
            ),
            ExecuteMsg::ClaimReward { idx } => match r {
                Ok(response) => self.claim_error(sender, idx as nat) is None && after == self.claim(
                    height,
                    sender,
                    idx as nat,
                ) && response@ == self.claim_response(height, sender, idx as nat),
                Err(e) => self.claim_error(sender, idx as nat) == Some(e) && after == self,
            },
            ExecuteMsg::Comment { comment } => match r {
                Ok(response) => !(self.accepts_comments(height) && self.comments.len() >= u32::MAX)
                    && after == self.comment(height, comment@) && response@
                    == self.comment_response(height),
                Err(e) => e == ContractError::Overflow && self.accepts_comments(height)
                    && self.comments.len() >= u32::MAX && after == self,
            },
            ExecuteMsg::FlagSpam { flag } => match r {
                Ok(response) => after == self.flag_spam(height, sender, flag) && response@
                    == answer_only(
                    AnswerView::FlagSpam {
                        spam_count: after.spam_count as u32,
                        status: ResponseStatus::Success,
                        msg: "Flag spam updated"@,
                    },
                ),
                Err(e) => e == ContractError::Overflow && flag && !self.spam_flag_of(sender)
                    && self.spam_count >= u32::MAX && after == self,
            },
            ExecuteMsg::GenerateViewingKey { key } => {
                &&& after == self.expire_if_due(height).write_viewing_key(
                    sender,
                    sha256_of(vstd::utf8::encode_utf8(key@)),
                )
                &&& r matches Ok(response)
                &&& response@ == answer_only(AnswerView::GenerateViewingKey { key: key@ })
            },
        }
    }
}

/// Carries out a command. `msg_bytes` is the command as it came over the
/// wire and `call_bytes` what the host told of the call; both are stirred
/// into the pool of entropy before the command runs, see
/// [`CampaignView::stir`]. The command then does what
/// [`CampaignView::command_post`] says. A command that is aborted leaves the
/// campaign as it was, pool included.
pub fn execute(
    storage: &mut Campaign,
    env: &Env,
    info: &MessageInfo,
    msg: ExecuteMsg,
    msg_bytes: &[u8],
    call_bytes: &[u8],
) -> (r: Result<Response, ContractError>)
    requires
        old(storage)@.wf(),
    ensures
        final(storage)@.wf(),
        match r {
            Ok(_) => old(storage)@.stir(msg_bytes@ + call_bytes@).command_post(
                env.block_height as nat,
                info.sender@,
                env.contract_address@,
                msg,
                call_bytes@,
                final(storage)@,
                r,
            ),
            Err(_) => final(storage)@ == old(storage)@ && old(storage)@.stir(
                msg_bytes@ + call_bytes@,
            ).command_post(
                env.block_height as nat,
                info.sender@,
                env.contract_address@,
                msg,
                call_bytes@,
                old(storage)@.stir(msg_bytes@ + call_bytes@),
                r,
            ),
        },
{
    let saved = storage.entropy_pool;
    let fresh_entropy = concat_bytes(msg_bytes, call_bytes);
    supply_more_entropy(storage, fresh_entropy.as_slice());
    let ghost stirred = storage@;
    let response = match msg {
        ExecuteMsg::ChangeText {
            title,
            subtitle,
            description,
            pledged_message,
            funded_message,
            reward_messages,
            categories,
        } => try_change_text(
            storage,
            env,
            info,
            title,
            subtitle,
            description,
            pledged_message,
            funded_message,
            reward_messages,
            categories,
        ),
        ExecuteMsg::Cancel {  } => try_cancel(storage, env, info),
        ExecuteMsg::Receive { sender: _, from, amount, msg } => try_receive(
            storage,
            env,
            info,
            from.as_slice(),
            amount,
            msg,
        ),
        ExecuteMsg::Refund {  } => try_refund(storage, env, info),
        ExecuteMsg::PayOut {  } => try_pay_out(storage, env, info, call_bytes),
        ExecuteMsg::ClaimReward { idx } => try_claim_reward(storage, env, info, idx),
        ExecuteMsg::Comment { comment } => try_comment(storage, env, info, comment),
        ExecuteMsg::FlagSpam { flag } => try_flag_spam(storage, env, info, flag),
        ExecuteMsg::GenerateViewingKey { key } => try_generate_viewing_key(storage, env, info, key),
    };
    if response.is_err() {
        assert(storage@ == stirred);
        storage.entropy_pool = saved;
    }
    response
}

} // verus!
