//! The requests that a campaign takes and the answers it gives.
use vstd::prelude::*;

use crate::address::optional_address_view;
use crate::project::reward::{
    InitConfig, InitialBalance, RewardMessage, Snip24InstantiateMsg, VestingRewardStatus,
};
use crate::project::state::PayoutScheme;

verus! {

/// What creates a campaign. Addresses are canonical.
#[derive(Debug)]
pub struct InstantiateMsg {
    pub creator: Vec<u8>,
    pub title: String,
    pub subtitle: Option<String>,
    /// Base64.
    pub description: String,
    /// Shown to those who have pledged, while the campaign runs. Base64.
    pub pledged_message: Option<String>,
    /// Shown to contributors once the campaign is paid out. Base64.
    pub funded_message: Option<String>,
    pub reward_messages: Vec<RewardMessage>,
    pub goal: u128,
    /// The last block in which contributions are taken.
    pub deadline: u64,
    /// For how many blocks after the deadline a successful campaign can be
    /// paid out.
    pub deadman: u64,
    pub categories: Vec<u16>,
    pub entropy: String,
    /// The registry that created the campaign.
    pub source_contract: Vec<u8>,
    pub source_hash: String,
    /// The token in which contributions are made.
    pub snip20_contract: Vec<u8>,
    pub snip20_hash: String,
    pub scheme: PayoutScheme,
}

/// What a campaign sends to its registry.
#[derive(Debug)]
pub enum PlatformExecuteMsg {
    Register { contract_addr: String, contract_code_hash: String },
}

/// The mathematical content of a [`PlatformExecuteMsg`].
pub ghost enum PlatformExecuteView {
    Register { contract_addr: Seq<char>, contract_code_hash: Seq<char> },
}

impl View for PlatformExecuteMsg {
    type V = PlatformExecuteView;

    open spec fn view(&self) -> PlatformExecuteView {
        match self {
            PlatformExecuteMsg::Register {
                contract_addr,
                contract_code_hash,
            } => PlatformExecuteView::Register {
                contract_addr: contract_addr@,
                contract_code_hash: contract_code_hash@,
            },
        }
    }
}

/// The commands of a campaign.
#[derive(Debug)]
pub enum ExecuteMsg {
    /// The creator changes the campaign's texts.
    ChangeText {
        title: Option<String>,
        subtitle: Option<String>,
        description: Option<String>,
        pledged_message: Option<String>,
        funded_message: Option<String>,
        reward_messages: Option<Vec<RewardMessage>>,
        categories: Option<Vec<u16>>,
    },
    /// The contribution token reports a contribution of `amount` by `from`.
    Receive { sender: Vec<u8>, from: Vec<u8>, amount: u128, msg: Option<ExecuteReceiveMsg> },
    /// A contributor takes back what they gave.
    Refund {  },
    /// The creator ends the campaign.
    Cancel {  },
    /// The creator collects what was raised.
    PayOut {  },
    /// A beneficiary claims the reward of a milestone.
    ClaimReward { idx: u32 },
    Comment { comment: String },
    FlagSpam { flag: bool },
    /// The caller sets the viewing key that was generated for them.
    GenerateViewingKey { key: String },
}

/// What comes with a contribution.
#[derive(Clone, Copy, Debug, PartialEq, Eq, Structural)]
pub enum ExecuteReceiveMsg {
    ReceiveContribution { anon: bool },
}

/// Whether a command did what it was asked.
#[derive(Clone, Copy, Debug, PartialEq, Eq, Structural)]
pub enum ResponseStatus {
    Success,
    Failure,
}

/// The answer to a command.
#[derive(Debug)]
pub enum ExecuteAnswer {
    ChangeText { status: ResponseStatus, msg: String },
    Cancel { status: ResponseStatus, msg: String },
    Receive { status: ResponseStatus, msg: String },
    Refund { status: ResponseStatus, msg: String },
    PayOut { status: ResponseStatus, msg: String },
    ClaimReward { status: ResponseStatus, msg: String },
    Comment { status: ResponseStatus, msg: String },
    FlagSpam { spam_count: u32, status: ResponseStatus, msg: String },
    GenerateViewingKey { key: String },
}

/// The mathematical content of an [`ExecuteAnswer`].
pub ghost enum AnswerView {
    ChangeText { status: ResponseStatus, msg: Seq<char> },
    Cancel { status: ResponseStatus, msg: Seq<char> },
    Receive { status: ResponseStatus, msg: Seq<char> },
    Refund { status: ResponseStatus, msg: Seq<char> },
    PayOut { status: ResponseStatus, msg: Seq<char> },
    ClaimReward { status: ResponseStatus, msg: Seq<char> },
    Comment { status: ResponseStatus, msg: Seq<char> },
    FlagSpam { spam_count: u32, status: ResponseStatus, msg: Seq<char> },
    GenerateViewingKey { key: Seq<char> },
}

impl View for ExecuteAnswer {
    type V = AnswerView;

    open spec fn view(&self) -> AnswerView {
        match self {
            ExecuteAnswer::ChangeText { status, msg } => AnswerView::ChangeText {
                status: *status,
                msg: msg@,
            },
            ExecuteAnswer::Cancel { status, msg } => AnswerView::Cancel { status: *status, msg: msg@ },
            ExecuteAnswer::Receive { status, msg } => AnswerView::Receive {
                status: *status,
                msg: msg@,
            },
            ExecuteAnswer::Refund { status, msg } => AnswerView::Refund { status: *status, msg: msg@ },
            ExecuteAnswer::PayOut { status, msg } => AnswerView::PayOut { status: *status, msg: msg@ },
            ExecuteAnswer::ClaimReward { status, msg } => AnswerView::ClaimReward {
                status: *status,
                msg: msg@,
            },
            ExecuteAnswer::Comment { status, msg } => AnswerView::Comment {
                status: *status,
                msg: msg@,
            },
            ExecuteAnswer::FlagSpam { spam_count, status, msg } => AnswerView::FlagSpam {
                spam_count: *spam_count,
                status: *status,
                msg: msg@,
            },
            ExecuteAnswer::GenerateViewingKey { key } => AnswerView::GenerateViewingKey { key: key@ },
        }
    }
}

/// The mathematical content of the request that creates the reward token.
pub ghost struct Snip24InstantiateView {
    pub name: Seq<char>,
    pub admin: Option<Seq<u8>>,
    pub symbol: Seq<char>,
    pub decimals: u8,
    /// Each first holder with its balance, or `None`.
    pub initial_balances: Option<Seq<(Seq<char>, nat)>>,
    pub prng_seed: Seq<u8>,
    pub config: Option<InitConfig>,
}

/// The holders and balances of a list of initial balances.
pub open spec fn balance_views(balances: Seq<InitialBalance>) -> Seq<(Seq<char>, nat)> {
    balances.map_values(|b: InitialBalance| (b.address@, b.amount as nat))
}

impl View for Snip24InstantiateMsg {
    type V = Snip24InstantiateView;

    open spec fn view(&self) -> Snip24InstantiateView {
        Snip24InstantiateView {
            name: self.name@,
            admin: optional_address_view(self.admin),
            symbol: self.symbol@,
            decimals: self.decimals,
            initial_balances: match self.initial_balances {
                Some(balances) => Some(balance_views(balances@)),
                None => None,
            },
            prng_seed: self.prng_seed@,
            config: self.config,
        }
    }
}

/// An instruction that a campaign hands to the host, to be carried out after
/// the call. Addresses are canonical.
#[derive(Debug)]
pub enum OutboundMsg {
    /// A call of the registry.
    Platform(PlatformExecuteMsg),
    /// Asks the contribution token to report contributions to the campaign,
    /// whose code hash is `code_hash`.
    Snip20RegisterReceive { code_hash: String },
    /// Sets the campaign's viewing key at the contribution token.
    Snip20SetViewingKey { key: String },
    /// Moves `amount` of the contribution token to `recipient`.
    Snip20Transfer { recipient: Vec<u8>, amount: u128 },
    /// Moves `amount` of the reward token to `recipient`.
    RewardTransfer { recipient: Vec<u8>, amount: u128 },
    /// Creates the reward token. The acknowledgment comes back under
    /// `reply_id`.
    InstantiateSnip24 {
        code_id: u64,
        code_hash: String,
        msg: Snip24InstantiateMsg,
        label: String,
        reply_id: u64,
    },
}

/// The mathematical content of an [`OutboundMsg`].
pub ghost enum OutboundView {
    Platform(PlatformExecuteView),
    Snip20RegisterReceive { code_hash: Seq<char> },
    Snip20SetViewingKey { key: Seq<char> },
    Snip20Transfer { recipient: Seq<u8>, amount: nat },
    RewardTransfer { recipient: Seq<u8>, amount: nat },
    InstantiateSnip24 {
        code_id: u64,
        code_hash: Seq<char>,
        msg: Snip24InstantiateView,
        label: Seq<char>,
        reply_id: u64,
    },
}

impl View for OutboundMsg {
    type V = OutboundView;

    open spec fn view(&self) -> OutboundView {
        match self {
            OutboundMsg::Platform(msg) => OutboundView::Platform(msg@),
            OutboundMsg::Snip20RegisterReceive { code_hash } => OutboundView::Snip20RegisterReceive {
                code_hash: code_hash@,
            },
            OutboundMsg::Snip20SetViewingKey { key } => OutboundView::Snip20SetViewingKey {
                key: key@,
            },
            OutboundMsg::Snip20Transfer { recipient, amount } => OutboundView::Snip20Transfer {
                recipient: recipient@,
                amount: *amount as nat,
            },
            OutboundMsg::RewardTransfer { recipient, amount } => OutboundView::RewardTransfer {
                recipient: recipient@,
                amount: *amount as nat,
            },
            OutboundMsg::InstantiateSnip24 {
                code_id,
                code_hash,
                msg,
                label,
                reply_id,
            } => OutboundView::InstantiateSnip24 {
                code_id: *code_id,
                code_hash: code_hash@,
                msg: msg@,
                label: label@,
                reply_id: *reply_id,
            },
        }
    }
}

/// The views of a list of instructions.
pub open spec fn outbound_views(messages: Seq<OutboundMsg>) -> Seq<OutboundView> {
    messages.map_values(|m: OutboundMsg| m@)
}

/// What a command returns: the instructions for the host, in the order in
/// which they are to be carried out, and the answer for the caller.
#[derive(Debug)]
pub struct Response {
    pub messages: Vec<OutboundMsg>,
    pub data: Option<ExecuteAnswer>,
}

/// The mathematical content of a [`Response`].
pub ghost struct ResponseView {
    pub messages: Seq<OutboundView>,
    pub data: Option<AnswerView>,
}

impl View for Response {
    type V = ResponseView;

    open spec fn view(&self) -> ResponseView {
        ResponseView {
            messages: outbound_views(self.messages@),
            data: match self.data {
                Some(answer) => Some(answer@),
                None => None,
            },
        }
    }
}

/// The questions that a campaign answers. Addresses are canonical.
#[derive(Debug)]
pub enum QueryMsg {
    /// What everybody may know of the campaign.
    Status {  },
    /// What `address` may know of the campaign, on showing its viewing key.
    StatusAuth { address: Vec<u8>, key: String },
    /// What `address` may know of the campaign, its permit having been
    /// validated.
    StatusWithPermit { address: Vec<u8> },
    /// A page of the comments.
    Comments { page: u32, page_size: u32 },
}

/// The answers to the questions of [`QueryMsg`]. Addresses are canonical and
/// long texts base64.
#[derive(Debug)]
pub enum QueryAnswer {
    Status {
        creator: Vec<u8>,
        status: String,
        paid_out: bool,
        goal: u128,
        total: u128,
        deadline: u64,
        deadman: u64,
        title: String,
        subtitle: String,
        description: String,
        categories: Vec<u16>,
        spam_count: u32,
    },
    StatusAuth {
        creator: Vec<u8>,
        status: String,
        paid_out: bool,
        goal: u128,
        total: u128,
        deadline: u64,
        deadman: u64,
        title: String,
        subtitle: String,
        description: String,
        categories: Vec<u16>,
        spam_count: u32,
        pledged_message: Option<String>,
        funded_message: Option<String>,
        reward_messages: Vec<RewardMessage>,
        snip24_rewards: Vec<VestingRewardStatus>,
        contribution: Option<u128>,
    },
    Comments { comments: Vec<String> },
}

} // verus!
