//! The requests that the registry takes and the answers it gives.
use vstd::prelude::*;

use crate::platform::project::ProjectInstantiateMsg;
use crate::project::reward::RewardMessage;
use crate::project::state::PayoutScheme;

verus! {

/// What creates a registry. The owner's address is canonical.
#[derive(Debug)]
pub struct InstantiateMsg {
    /// The owner; the sender where there is none.
    pub owner: Option<Vec<u8>>,
    pub project_contract_code_id: u64,
    pub project_contract_code_hash: String,
    /// The payout window of the campaigns to come, in blocks.
    pub deadman: Option<u64>,
}

/// The commands of the registry. Addresses are canonical.
#[derive(Debug)]
pub enum ExecuteMsg {
    /// Creates a campaign.
    Create {
        title: String,
        subtitle: Option<String>,
        description: String,
        pledged_message: Option<String>,
        funded_message: Option<String>,
        reward_messages: Vec<RewardMessage>,
        goal: u128,
        deadline: u64,
        categories: Vec<u16>,
        entropy: String,
        snip20_contract: Vec<u8>,
        snip20_hash: String,
        scheme: PayoutScheme,
    },
    /// The owner changes the registry's settings.
    Config {
        owner: Option<Vec<u8>>,
        project_contract_code_id: Option<u64>,
        project_contract_code_hash: Option<String>,
        deadman: Option<u64>,
    },
    /// A campaign that was just created registers. `contract_addr` is its
    /// address as the host prints it, `contract_addr_raw` the canonical one.
    Register { contract_addr: String, contract_addr_raw: Vec<u8>, contract_code_hash: String },
}

/// Whether a command did what it was asked.
#[derive(Clone, Copy, Debug, PartialEq, Eq, Structural)]
pub enum ResponseStatus {
    Success,
    Failure,
}

/// The answer to a command.
#[derive(Debug)]
pub enum ExecuteAnswer {
    Create { status: ResponseStatus, msg: String },
    Config { status: ResponseStatus, msg: String },
    Register {
        status: ResponseStatus,
        msg: String,
        project_id: u32,
        project_address: String,
        project_code_hash: String,
    },
    RevokePermit { status: ResponseStatus },
}

/// The mathematical content of an [`ExecuteAnswer`].
pub ghost enum AnswerView {
    Create { status: ResponseStatus, msg: Seq<char> },
    Config { status: ResponseStatus, msg: Seq<char> },
    Register {
        status: ResponseStatus,
        msg: Seq<char>,
        project_id: u32,
        project_address: Seq<char>,
        project_code_hash: Seq<char>,
    },
    RevokePermit { status: ResponseStatus },
}

impl View for ExecuteAnswer {
    type V = AnswerView;

    open spec fn view(&self) -> AnswerView {
        match self {
            ExecuteAnswer::Create { status, msg } => AnswerView::Create { status: *status, msg: msg@ },
            ExecuteAnswer::Config { status, msg } => AnswerView::Config { status: *status, msg: msg@ },
            ExecuteAnswer::Register {
                status,
                msg,
                project_id,
                project_address,
                project_code_hash,
            } => AnswerView::Register {
                status: *status,
                msg: msg@,
                project_id: *project_id,
                project_address: project_address@,
                project_code_hash: project_code_hash@,
            },
            ExecuteAnswer::RevokePermit { status } => AnswerView::RevokePermit { status: *status },
        }
    }
}

/// The instruction to create a campaign from the template with the code
/// `code_id`.
#[derive(Debug)]
pub struct ProjectInstantiation {
    pub label: String,
    pub code_id: u64,
    pub code_hash: String,
    pub msg: ProjectInstantiateMsg,
}

/// What a command returns: the instructions for the host and the answer for
/// the caller.
#[derive(Debug)]
pub struct Response {
    pub messages: Vec<ProjectInstantiation>,
    pub data: Option<ExecuteAnswer>,
}

/// The questions that the registry answers.
#[derive(Clone, Copy, Debug, PartialEq, Eq, Structural)]
pub enum QueryMsg {
    /// A page of the campaigns, the latest first.
    Projects { page: u32, page_size: u32 },
}

/// The answers to the questions of [`QueryMsg`].
#[derive(Debug)]
pub enum QueryAnswer {
    Projects { projects: Vec<ContractInfo>, count: u32 },
}

/// The code hash and the address of a contract. The address is canonical.
#[derive(Debug)]
pub struct ContractInfo {
    pub code_hash: String,
    pub address: Vec<u8>,
}

/// The mathematical content of a [`ContractInfo`].
pub ghost struct ContractInfoView {
    pub code_hash: Seq<char>,
    pub address: Seq<u8>,
}

impl View for ContractInfo {
    type V = ContractInfoView;

    open spec fn view(&self) -> ContractInfoView {
        ContractInfoView { code_hash: self.code_hash@, address: self.address@ }
    }
}

/// The views of a list of contracts.
pub open spec fn contract_info_views(list: Seq<ContractInfo>) -> Seq<ContractInfoView> {
    list.map_values(|c: ContractInfo| c@)
}

/// How many spaces bring a message of `len` bytes to a multiple of
/// `block_size`.
pub open spec fn padding_needed(block_size: nat, len: nat) -> nat {
    if len % block_size == 0 {
        0
    } else {
        (block_size - len % block_size) as nat
    }
}

/// `message` with spaces at its end, up to the next multiple of
/// `block_size`.
pub open spec fn padded(block_size: nat, message: Seq<u8>) -> Seq<u8> {
    message + Seq::new(padding_needed(block_size, message.len()), |i: int| 0x20u8)
}

/// Pads `message` with spaces up to the next multiple of `block_size`, and
/// hands it back: what the caller does with the result is done to `message`.
pub fn space_pad(block_size: usize, message: &mut Vec<u8>) -> (r: &mut Vec<u8>)
    requires
        block_size > 0,
        old(message)@.len() + block_size <= usize::MAX,
    ensures
        r@ == padded(block_size as nat, old(message)@),
        *final(message) == *final(r),
{
    let len = message.len();
    let surplus = len % block_size;
    if surplus == 0 {
        assert(message@ =~= padded(block_size as nat, old(message)@));
        return message;
    }
    let missing = block_size - surplus;
    let mut i: usize = 0;
    while i < missing
        invariant
            i <= missing,
            missing == padding_needed(block_size as nat, old(message)@.len()),
            old(message)@.len() + missing <= usize::MAX,
            message@ == old(message)@ + Seq::new(i as nat, |k: int| 0x20u8),
        decreases missing - i,
    {
        message.push(0x20);
        i += 1;
        assert(message@ =~= old(message)@ + Seq::new(i as nat, |k: int| 0x20u8));
    }
    message
}

} // verus!
