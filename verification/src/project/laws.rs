//! What holds of a campaign whatever is done to it.
use vstd::prelude::*;

use crate::address::lemma_address_position;
use crate::error::ContractError;
use crate::paging::{lemma_pages_round_trip, pages_up_to};
use crate::project::contract::answer_only;
use crate::project::msg::{AnswerView, Response, ResponseStatus};
use crate::project::state::{
    ledger_sum, lemma_add_funds_keeps_ledger, lemma_clear_funds_keeps_ledger,
    lemma_ledger_sum_update, FUNDRAISING, CampaignView,
};

verus! {

/// A contribution or a request for a refund, as it reaches a campaign.
pub ghost enum LedgerOp {
    /// `from` contributes `amount` at `height`, through the token `token`.
    Contribute { height: nat, token: Seq<u8>, from: Seq<u8>, amount: nat, anonymous: bool },
    /// `sender` asks for a refund at `height`.
    Refund { height: nat, sender: Seq<u8> },
}

impl CampaignView {
    /// The campaign after `op`: a contribution that is aborted changes
    /// nothing.
    pub open spec fn after_op(self, op: LedgerOp) -> CampaignView {
        match op {
            LedgerOp::Contribute { height, token, from, amount, anonymous } => {
                if self.receive_error(height, token, from, amount) is None {
                    self.receive(height, from, amount, anonymous)
                } else {
                    self
                }
            },
            LedgerOp::Refund { height, sender } => self.refund(height, sender),
        }
    }

    /// The campaign after the operations of `ops`, one after the other.
    pub open spec fn after_ops(self, ops: Seq<LedgerOp>) -> CampaignView
        decreases ops.len(),
    {
        if ops.len() == 0 {
            self
        } else {
            self.after_ops(ops.drop_last()).after_op(ops.last())
        }
    }
}

/// A contribution that is not aborted leaves the campaign in order.
pub proof fn lemma_receive_keeps_wf(
    c: CampaignView,
    height: nat,
    token: Seq<u8>,
    from: Seq<u8>,
    amount: nat,
    anonymous: bool,
)
    requires
        c.wf(),
        c.receive_error(height, token, from, amount) is None,
    ensures
        c.receive(height, from, amount, anonymous).wf(),
{
    let due = c.expire_if_due(height);
    lemma_address_position(due.funders, from);
    if due.accepts_contributions(height) && amount > 0 {
        lemma_add_funds_keeps_ledger(
            due,
            from,
            anonymous,
            amount,
            crate::project::contract::fresh_flags(due.scheme.contributor_slots()),
        );
    }
}

/// A request for a refund leaves the campaign in order.
pub proof fn lemma_refund_keeps_wf(c: CampaignView, height: nat, sender: Seq<u8>)
    requires
        c.wf(),
    ensures
        c.refund(height, sender).wf(),
{
    let due = c.expire_if_due(height);
    lemma_address_position(due.funders, sender);
    lemma_clear_funds_keeps_ledger(due, sender);
}

/// Contributions and refunds, in any number and order, leave the campaign in
/// order.
pub proof fn lemma_ops_keep_wf(c: CampaignView, ops: Seq<LedgerOp>)
    requires
        c.wf(),
    ensures
        c.after_ops(ops).wf(),
    decreases ops.len(),
{
    if ops.len() > 0 {
        lemma_ops_keep_wf(c, ops.drop_last());
        let before = c.after_ops(ops.drop_last());
        match ops.last() {
            LedgerOp::Contribute { height, token, from, amount, anonymous } => {
                if before.receive_error(height, token, from, amount) is None {
                    lemma_receive_keeps_wf(before, height, token, from, amount, anonymous);
                }
            },
            LedgerOp::Refund { height, sender } => {
                lemma_refund_keeps_wf(before, height, sender);
            },
        }
    }
}

/// The total is the sum of the balances at every point: after each of any
/// number of contributions and refunds, in any order.
pub proof fn lemma_total_is_sum_of_balances(c: CampaignView, ops: Seq<LedgerOp>, n: int)
    requires
        c.wf(),
        0 <= n <= ops.len(),
    ensures
        c.after_ops(ops.subrange(0, n)).total == ledger_sum(
            c.after_ops(ops.subrange(0, n)).funder_records,
        ),
{
    lemma_ops_keep_wf(c, ops.subrange(0, n));
}

/// A contribution never changes the state of a campaign that is expired or
/// successful: it does not go back to fundraising.
pub proof fn lemma_contribution_keeps_final_status(
    c: CampaignView,
    height: nat,
    from: Seq<u8>,
    amount: nat,
    anonymous: bool,
)
    requires
        c.status != FUNDRAISING,
    ensures
        c.receive(height, from, amount, anonymous).status == c.status || c.receive(
            height,
            from,
            amount,
            anonymous,
        ).status == crate::project::state::SUCCESSFUL,
        c.receive(height, from, amount, anonymous).status != FUNDRAISING,
{
}

/// No number of contributions and refunds brings a campaign that is expired
/// or successful back to fundraising.
pub proof fn lemma_status_is_monotonic(c: CampaignView, ops: Seq<LedgerOp>)
    requires
        c.status != FUNDRAISING,
    ensures
        c.after_ops(ops).status != FUNDRAISING,
    decreases ops.len(),
{
    if ops.len() > 0 {
        lemma_status_is_monotonic(c, ops.drop_last());
        let before = c.after_ops(ops.drop_last());
        match ops.last() {
            LedgerOp::Contribute { height, token, from, amount, anonymous } => {
                lemma_contribution_keeps_final_status(before, height, from, amount, anonymous);
            },
            LedgerOp::Refund { height, sender } => {},
        }
    }
}

/// A campaign that has been paid out is not paid out again: whoever asks,
/// whenever, the request is aborted and the campaign stays as it is.
pub proof fn lemma_paid_out_is_final(
    c: CampaignView,
    height: nat,
    sender: Seq<u8>,
    holder: Seq<char>,
    entropy: Seq<u8>,
    word: u64,
    after: CampaignView,
    r: Result<Response, ContractError>,
)
    requires
        c.paid_out,
        c.pay_out_post(height, sender, holder, entropy, word, after, r),
    ensures
        r is Err,
        after == c,
        after.paid_out,
{
}

/// A request for a refund by one who has no balance is answered with a
/// failure, moves nothing, and leaves the total as it is.
pub proof fn lemma_refund_of_nothing(c: CampaignView, height: nat, sender: Seq<u8>)
    requires
        c.balance_of(sender) == 0,
    ensures
        c.refund_response(height, sender).messages.len() == 0,
        c.refund_response(height, sender).data matches Some(AnswerView::Refund { status, .. })
            && status == ResponseStatus::Failure,
        c.refund(height, sender).total == c.total,
{
}

/// A reward is claimed once: after a claim that succeeded, the same claim is
/// answered with a failure, moves nothing and changes nothing, whenever it
/// comes.
pub proof fn lemma_claim_once(
    c: CampaignView,
    first: nat,
    second: nat,
    sender: Seq<u8>,
    idx: nat,
)
    requires
        c.wf(),
        c.claim_succeeds(first, sender, idx),
    ensures
        ({
            let claimed = c.claim(first, sender, idx);
            &&& claimed.wf()
            &&& !claimed.claim_succeeds(second, sender, idx)
            &&& claimed.claim_error(sender, idx) is None
            &&& claimed.claim_response(second, sender, idx) == answer_only(
                AnswerView::ClaimReward {
                    status: ResponseStatus::Failure,
                    msg: "Already claimed reward"@,
                },
            )
            &&& claimed.claim(second, sender, idx) == claimed
        }),
{
    let claimed = c.claim(first, sender, idx);
    lemma_address_position(c.funders, sender);
    crate::project::contract::lemma_reward_slots(c, sender);
    if sender != c.creator {
        let pos = c.position(sender);
        lemma_ledger_sum_update(c.funder_records, pos, claimed.funder_records[pos]);
        assert(claimed.funders == c.funders);
        assert(claimed.balance_of(sender) == c.balance_of(sender));
    }
    assert(claimed.rewards_of(sender) == c.rewards_of(sender));
    assert(claimed.claim_flags_of(sender)[idx as int]);
}

/// The pages of the list of contributors, of a fixed size of at least one,
/// taken until the list is used up and put one after the other, are the list
/// of contributors: each of them once, in the order of first contributions.
pub proof fn lemma_funder_pages_round_trip(c: CampaignView, page_size: nat, pages: nat)
    requires
        page_size >= 1,
        pages * page_size >= c.funders.len(),
    ensures
        pages_up_to(c.funder_listing(), page_size, pages) == c.funder_listing(),
{
    lemma_pages_round_trip(c.funder_listing(), page_size, pages);
}

} // verus!
