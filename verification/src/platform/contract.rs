//! The commands and questions of the registry.
//!
//! A campaign comes into being in two steps. The registry sends out the
//! instruction to create it and raises a flag; the new campaign calls back
//! to register, which lowers the flag. Only while the flag is up does the
//! registry take a registration.
use vstd::prelude::*;
use vstd::string::*;

use crate::encoding::{base64_text, encode};
use crate::error::ContractError;
use crate::host::{Env, MessageInfo};
use crate::paging::page_of;
use crate::platform::msg::{
    contract_info_views, AnswerView, ContractInfo, ExecuteAnswer, ExecuteMsg, InstantiateMsg,
    ProjectInstantiation, QueryAnswer, QueryMsg, Response, ResponseStatus,
};
use crate::platform::project::ProjectInstantiateMsg;
use crate::platform::state::{
    add_project, get_projects, project_count, stored_info_views, Config, ConfigView, Registry,
    RegistryView, StoredContractInfo,
};
use crate::project::contract::{reward_of, reward_validation_error, validate_snip24_reward_init};
use crate::project::reward::RewardMessage;
use crate::project::state::PayoutScheme;
use crate::text::{bytes_eq, bytes_to_vec, decimal_text, hex_text, push_decimal, push_hex};

verus! {

/// The size to which answers are padded.
pub const RESPONSE_BLOCK_SIZE: usize = 256;

/// The payout window of a campaign, where the registry is given none: about
/// thirty days of blocks.
pub const DEFAULT_DEADMAN: u64 = 259200;

/// Creates a registry: with no campaign, and none being created. The owner
/// is the one that `msg` names, or else the sender.
pub fn instantiate(env: &Env, info: &MessageInfo, msg: InstantiateMsg) -> (r: Registry)
    ensures
        r@.wf(),
        r@ == (RegistryView {
            config: ConfigView {
                owner: match msg.owner {
                    Some(owner) => owner@,
                    None => info.sender@,
                },
                project_contract_code_id: msg.project_contract_code_id,
                project_contract_code_hash: msg.project_contract_code_hash@,
                contract_address: env.contract_address@,
                deadman: match msg.deadman {
                    Some(deadman) => deadman,
                    None => DEFAULT_DEADMAN,
                },
            },
            creating_project: false,
            projects: Seq::empty(),
        }),
{
    let owner = match msg.owner {
        Some(owner) => owner,
        None => bytes_to_vec(info.sender.as_slice()),
    };
    let deadman = match msg.deadman {
        Some(deadman) => deadman,
        None => DEFAULT_DEADMAN,
    };
    let registry = Registry {
        config: Config {
            owner,
            project_contract_code_id: msg.project_contract_code_id,
            project_contract_code_hash: msg.project_contract_code_hash,
            contract_address: env.contract_address.clone(),
            deadman,
        },
        creating_project: false,
        projects: Vec::new(),
    };
    assert(registry@.projects =~= Seq::empty());
    registry
}

/// The label of the campaign that a registry at `address` creates when it
/// has `count` campaigns and the block's time reads `time`.
pub open spec fn project_label(address: Seq<char>, count: nat, time: Seq<char>) -> Seq<char> {
    address + "-Mage-Hands-Project-"@ + decimal_text(count) + "-"@ + base64_text(
        vstd::utf8::encode_utf8(time),
    )
}

/// Why a campaign is not created, if it is not: the goal is zero, the
/// deadline has passed, or a vesting schedule is neither empty nor sums to
/// 1000 per mille.
pub open spec fn create_error(height: nat, goal: nat, deadline: nat, scheme: PayoutScheme) -> Option<
    ContractError,
> {
    if goal == 0 {
        Some(ContractError::GoalIsZero)
    } else if height > deadline {
        Some(ContractError::DeadlineInPast)
    } else {
        reward_validation_error(reward_of(scheme@))
    }
}

/// What a request to create a campaign comes to: the next state `after` and
/// the result `r`.
pub open spec fn create_post(
    before: RegistryView,
    env: Env,
    sender: Seq<u8>,
    title: String,
    subtitle: Option<String>,
    description: String,
    pledged_message: Option<String>,
    funded_message: Option<String>,
    reward_messages: Vec<RewardMessage>,
    goal: u128,
    deadline: u64,
    categories: Vec<u16>,
    snip20_contract: Vec<u8>,
    snip20_hash: String,
    scheme: PayoutScheme,
    entropy: String,
    after: RegistryView,
    r: Result<Response, ContractError>,
) -> bool {
    match r {
        Ok(response) => {
            let label = project_label(
                env.contract_address@,
                before.projects.len(),
                env.block_time@,
            );
            &&& create_error(env.block_height as nat, goal as nat, deadline as nat, scheme)
                is None
            &&& after == (RegistryView { creating_project: true, ..before })
            &&& response.data matches Some(answer)
            &&& answer@ == (AnswerView::Create {
                status: ResponseStatus::Success,
                msg: "Created project contract "@ + label,
            })
            &&& response.messages@.len() == 1
            &&& response.messages@[0].label@ == label
            &&& response.messages@[0].code_id == before.config.project_contract_code_id
            &&& response.messages@[0].code_hash@ == before.config.project_contract_code_hash
            &&& response.messages@[0].msg.creator@ == sender
            &&& response.messages@[0].msg.title == title
            &&& response.messages@[0].msg.subtitle == subtitle
            &&& response.messages@[0].msg.description == description
            &&& response.messages@[0].msg.pledged_message == pledged_message
            &&& response.messages@[0].msg.funded_message == funded_message
            &&& response.messages@[0].msg.reward_messages == reward_messages
            &&& response.messages@[0].msg.goal == goal
            &&& response.messages@[0].msg.deadline == deadline
            &&& response.messages@[0].msg.deadman == before.config.deadman
            &&& response.messages@[0].msg.categories == categories
            &&& response.messages@[0].msg.entropy == entropy
            &&& response.messages@[0].msg.source_contract@ == env.contract_address@
            &&& response.messages@[0].msg.source_hash@ == env.contract_code_hash@
            &&& response.messages@[0].msg.snip20_contract == snip20_contract
            &&& response.messages@[0].msg.snip20_hash == snip20_hash
            &&& response.messages@[0].msg.scheme == scheme
        },
        Err(e) => create_error(env.block_height as nat, goal as nat, deadline as nat, scheme)
            == Some(e) && after == before,
    }
}

/// Creates a campaign for `info.sender`. The request is checked first, see
/// [`create_error`]; one that fails changes nothing. Then the flag goes up
/// and the instruction to create the campaign goes out, under a label made
/// of the registry's address, the number of campaigns and the block's time,
/// see [`project_label`]. The campaign gets the registry's payout window.
pub fn try_create(
    storage: &mut Registry,
    env: &Env,
    info: &MessageInfo,
    title: String,
    subtitle: Option<String>,
    description: String,
    pledged_message: Option<String>,
    funded_message: Option<String>,
    reward_messages: Vec<RewardMessage>,
    goal: u128,
    deadline: u64,
    categories: Vec<u16>,
    snip20_contract: Vec<u8>,
    snip20_hash: String,
    scheme: PayoutScheme,
    entropy: String,
) -> (r: Result<Response, ContractError>)
    requires
        old(storage)@.wf(),
    ensures
        final(storage)@.wf(),
        create_post(
            old(storage)@,
            *env,
            info.sender@,
            title,
            subtitle,
            description,
            pledged_message,
            funded_message,
            reward_messages,
            goal,
            deadline,
            categories,
            snip20_contract,
            snip20_hash,
            scheme,
            entropy,
            final(storage)@,
            r,
        ),
{
    if goal == 0 {
        return Err(ContractError::GoalIsZero);
    }
    if env.block_height > deadline {
        return Err(ContractError::DeadlineInPast);
    }
    match &scheme {
        PayoutScheme::TokenReward(reward) => {
            validate_snip24_reward_init(Some(reward))?;
        },
        _ => {},
    }
    storage.creating_project = true;
    let mut label = env.contract_address.clone();
    label.append("-Mage-Hands-Project-");
    push_decimal(&mut label, project_count(storage) as u128);
    label.append("-");
    let salt = encode(env.block_time.as_str().as_bytes());
    label.append(salt.as_str());
    let mut text = String::from_str("Created project contract ");
    text.append(label.as_str());
    let project_init_msg = ProjectInstantiateMsg {
        creator: bytes_to_vec(info.sender.as_slice()),
        title,
        subtitle,
        description,
        pledged_message,
        funded_message,
        reward_messages,
        goal,
        deadline,
        deadman: storage.config.deadman,
        categories,
        entropy,
        source_contract: env.contract_address.clone(),
        source_hash: env.contract_code_hash.clone(),
        snip20_contract,
        snip20_hash,
        scheme,
    };
    let mut messages: Vec<ProjectInstantiation> = Vec::new();
    messages.push(
        ProjectInstantiation {
            label,
            code_id: storage.config.project_contract_code_id,
            code_hash: storage.config.project_contract_code_hash.clone(),
            msg: project_init_msg,
        },
    );
    Ok(
        Response {
            messages,
            data: Some(ExecuteAnswer::Create { status: ResponseStatus::Success, msg: text }),
        },
    )
}

/// What a registration comes to: the next state `after` and the result
/// `r`.
pub open spec fn register_post(
    before: RegistryView,
    contract_addr: String,
    contract_addr_raw: Vec<u8>,
    contract_code_hash: String,
    after: RegistryView,
    r: Result<Response, ContractError>,
) -> bool {
    match r {
        Ok(response) => {
            &&& before.creating_project
            &&& before.projects.len() < u32::MAX
            &&& after == (RegistryView {
                creating_project: false,
                projects: before.projects.push(
                    crate::platform::msg::ContractInfoView {
                        code_hash: contract_code_hash@,
                        address: contract_addr_raw@,
                    },
                ),
                ..before
            })
            &&& response.messages@.len() == 0
            &&& response.data matches Some(answer)
            &&& answer@ == (AnswerView::Register {
                status: ResponseStatus::Success,
                msg: "Registered contract "@ + contract_addr@,
                project_id: before.projects.len() as u32,
                project_address: contract_addr@,
                project_code_hash: contract_code_hash@,
            })
        },
        Err(e) => after == before && if !before.creating_project {
            e == ContractError::Unauthorized
        } else {
            e == ContractError::Overflow && before.projects.len() >= u32::MAX
        },
    }
}

/// A campaign registers. The registry takes the registration only while the
/// flag is up: the flag goes down, and the campaign goes to the end of the
/// list, with the next number. Fails with `Unauthorized` when the flag is
/// down, and with `Overflow` when the flag is up and the numbers have run
/// out; either way nothing changes.
pub fn try_register(
    storage: &mut Registry,
    env: &Env,
    info: &MessageInfo,
    contract_addr: String,
    contract_addr_raw: Vec<u8>,
    contract_code_hash: String,
) -> (r: Result<Response, ContractError>)
    requires
        old(storage)@.wf(),
    ensures
        final(storage)@.wf(),
        register_post(
            old(storage)@,
            contract_addr,
            contract_addr_raw,
            contract_code_hash,
            final(storage)@,
            r,
        ),
{
    if !storage.creating_project {
        return Err(ContractError::Unauthorized);
    }
    let contract_info = StoredContractInfo {
        address: contract_addr_raw,
        code_hash: contract_code_hash.clone(),
    };
    let project_id = add_project(storage, contract_info)?;
    storage.creating_project = false;
    let mut text = String::from_str("Registered contract ");
    text.append(contract_addr.as_str());
    Ok(
        Response {
            messages: Vec::new(),
            data: Some(
                ExecuteAnswer::Register {
                    status: ResponseStatus::Success,
                    msg: text,
                    project_id,
                    project_address: contract_addr,
                    project_code_hash: contract_code_hash,
                },
            ),
        },
    )
}

/// The settings after a change: each setting that is given replaces the one
/// there is.
pub open spec fn changed_config(
    config: ConfigView,
    owner: Option<Vec<u8>>,
    project_contract_code_id: Option<u64>,
    project_contract_code_hash: Option<String>,
    deadman: Option<u64>,
) -> ConfigView {
    ConfigView {
        owner: match owner {
            Some(owner) => owner@,
            None => config.owner,
        },
        project_contract_code_id: match project_contract_code_id {
            Some(id) => id,
            None => config.project_contract_code_id,
        },
        project_contract_code_hash: match project_contract_code_hash {
            Some(hash) => hash@,
            None => config.project_contract_code_hash,
        },
        deadman: match deadman {
            Some(deadman) => deadman,
            None => config.deadman,
        },
        ..config
    }
}

/// What the registry says of its settings: the owner in hexadecimal, the
/// template's code id and its code hash.
pub open spec fn config_text(config: ConfigView) -> Seq<char> {
    "New config: owner "@ + hex_text(config.owner) + ", project code id "@ + decimal_text(
        config.project_contract_code_id as nat,
    ) + ", project code hash "@ + config.project_contract_code_hash
}

/// What a change of settings comes to: the next state `after` and the
/// result `r`.
pub open spec fn config_post(
    before: RegistryView,
    sender: Seq<u8>,
    owner: Option<Vec<u8>>,
    project_contract_code_id: Option<u64>,
    project_contract_code_hash: Option<String>,
    deadman: Option<u64>,
    after: RegistryView,
    r: Result<Response, ContractError>,
) -> bool {
    match r {
        Ok(response) => {
            let config = changed_config(
                before.config,
                owner,
                project_contract_code_id,
                project_contract_code_hash,
                deadman,
            );
            &&& sender == before.config.owner
            &&& after == (RegistryView { config, ..before })
            &&& response.messages@.len() == 0
            &&& response.data matches Some(answer)
            &&& answer@ == (AnswerView::Config {
                status: ResponseStatus::Success,
                msg: config_text(config),
            })
        },
        Err(e) => e == ContractError::Unauthorized && sender != before.config.owner
            && after == before,
    }
}

/// The owner changes settings of the registry, see [`changed_config`].
/// Fails with `Unauthorized`, and changes nothing, exactly when
/// `info.sender` is not the owner.
pub fn try_config(
    storage: &mut Registry,
    env: &Env,
    info: &MessageInfo,
    owner: Option<Vec<u8>>,
    project_contract_code_id: Option<u64>,
    project_contract_code_hash: Option<String>,
    deadman: Option<u64>,
) -> (r: Result<Response, ContractError>)
    ensures
        config_post(
            old(storage)@,
            info.sender@,
            owner,
            project_contract_code_id,
            project_contract_code_hash,
            deadman,
            final(storage)@,
            r,
        ),
{
    if !bytes_eq(info.sender.as_slice(), storage.config.owner.as_slice()) {
        return Err(ContractError::Unauthorized);
    }
    if let Some(owner) = owner {
        storage.config.owner = owner;
    }
    if let Some(id) = project_contract_code_id {
        storage.config.project_contract_code_id = id;
    }
    if let Some(hash) = project_contract_code_hash {
        storage.config.project_contract_code_hash = hash;
    }
    if let Some(deadman) = deadman {
        storage.config.deadman = deadman;
    }
    let mut text = String::from_str("New config: owner ");
    push_hex(&mut text, storage.config.owner.as_slice());
    text.append(", project code id ");
    push_decimal(&mut text, storage.config.project_contract_code_id as u128);
    text.append(", project code hash ");
    text.append(storage.config.project_contract_code_hash.as_str());
    Ok(
        Response {
            messages: Vec::new(),
            data: Some(ExecuteAnswer::Config { status: ResponseStatus::Success, msg: text }),
        },
    )
}

/// Carries out a command: each is what the function of its name does.
pub fn execute(storage: &mut Registry, env: &Env, info: &MessageInfo, msg: ExecuteMsg) -> (r: Result<
    Response,
    ContractError,
>)
    requires
        old(storage)@.wf(),
    ensures
        final(storage)@.wf(),
        r is Err ==> final(storage)@ == old(storage)@,
        match msg {
            ExecuteMsg::Create {
                title,
                subtitle,
                description,
                pledged_message,
                funded_message,
                reward_messages,
                goal,
                deadline,
                categories,
                entropy,
                snip20_contract,
                snip20_hash,
                scheme,
            } => create_post(
                old(storage)@,
                *env,
                info.sender@,
                title,
                subtitle,
                description,
                pledged_message,
                funded_message,
                reward_messages,
                goal,
                deadline,
                categories,
                snip20_contract,
                snip20_hash,
                scheme,
                entropy,
                final(storage)@,
                r,
            ),
            ExecuteMsg::Config {
                owner,
                project_contract_code_id,
                project_contract_code_hash,
                deadman,
            } => config_post(
                old(storage)@,
                info.sender@,
                owner,
                project_contract_code_id,
                project_contract_code_hash,
                deadman,
                final(storage)@,
                r,
            ),
            ExecuteMsg::Register {
                contract_addr,
                contract_addr_raw,
                contract_code_hash,
            } => register_post(
                old(storage)@,
                contract_addr,
                contract_addr_raw,
                contract_code_hash,
                final(storage)@,
                r,
            ),
        },
{
    match msg {
        ExecuteMsg::Create {
            title,
            subtitle,
            description,
            pledged_message,
            funded_message,
            reward_messages,
            goal,
            deadline,
            categories,
            entropy,
            snip20_contract,
            snip20_hash,
            scheme,
        } => try_create(
            storage,
            env,
            info,
            title,
            subtitle,
            description,
            pledged_message,
            funded_message,
            reward_messages,
            goal,
            deadline,
            categories,
            snip20_contract,
            snip20_hash,
            scheme,
            entropy,
        ),
        ExecuteMsg::Config {
            owner,
            project_contract_code_id,
            project_contract_code_hash,
            deadman,
        } => try_config(
            storage,
            env,
            info,
            owner,
            project_contract_code_id,
            project_contract_code_hash,
            deadman,
        ),
        ExecuteMsg::Register { contract_addr, contract_addr_raw, contract_code_hash } => try_register(
            storage,
            env,
            info,
            contract_addr,
            contract_addr_raw,
            contract_code_hash,
        ),
    }
}

/// A page of the registered campaigns, the latest first, and the number of
/// all of them. Fails with `InvalidPageSize` exactly when `page_size` is
/// below one.
pub fn query_projects(storage: &Registry, page: u32, page_size: u32) -> (r: Result<
    QueryAnswer,
    ContractError,
>)
    requires
        storage@.wf(),
    ensures
        match r {
            Ok(QueryAnswer::Projects { projects, count }) => page_size >= 1 && count
                == storage@.projects.len() && contract_info_views(projects@) == page_of(
                storage@.projects.reverse(),
                page as nat,
                page_size as nat,
            ),
            Err(e) => e == ContractError::InvalidPageSize && page_size < 1,
        },
{
    if page_size < 1 {
        return Err(ContractError::InvalidPageSize);
    }
    let stored = get_projects(storage, page, page_size);
    let mut projects: Vec<ContractInfo> = Vec::new();
    let mut i: usize = 0;
    while i < stored.len()
        invariant
            i <= stored@.len(),
            projects@.len() == i,
            forall|k: int| 0 <= k < i ==> (#[trigger] projects@[k])@ == stored@[k]@,
        decreases stored@.len() - i,
    {
        projects.push(
            ContractInfo {
                code_hash: stored[i].code_hash.clone(),
                address: bytes_to_vec(stored[i].address.as_slice()),
            },
        );
        i += 1;
    }
    assert(contract_info_views(projects@) =~= stored_info_views(stored@));
    Ok(QueryAnswer::Projects { projects, count: project_count(storage) })
}

/// The answer to a question, see [`QueryMsg`].
pub fn query(storage: &Registry, msg: QueryMsg) -> (r: Result<QueryAnswer, ContractError>)
    requires
        storage@.wf(),
    ensures
        match msg {
            QueryMsg::Projects { page, page_size } => match r {
                Ok(QueryAnswer::Projects { projects, count }) => page_size >= 1 && count
                    == storage@.projects.len() && contract_info_views(projects@) == page_of(
                    storage@.projects.reverse(),
                    page as nat,
                    page_size as nat,
                ),
                Err(e) => e == ContractError::InvalidPageSize && page_size < 1,
            },
        },
{
    match msg {
        QueryMsg::Projects { page, page_size } => query_projects(storage, page, page_size),
    }
}


/// One creation, one registration: after a registration that was taken, the
/// flag is down, and a registration that follows it is refused and changes
/// nothing, whoever sends it.
pub proof fn lemma_register_once(
    before: RegistryView,
    first_addr: String,
    first_raw: Vec<u8>,
    first_hash: String,
    registered: RegistryView,
    first: Result<Response, ContractError>,
    second_addr: String,
    second_raw: Vec<u8>,
    second_hash: String,
    after: RegistryView,
    second: Result<Response, ContractError>,
)
    requires
        register_post(before, first_addr, first_raw, first_hash, registered, first),
        first is Ok,
        register_post(registered, second_addr, second_raw, second_hash, after, second),
    ensures
        !registered.creating_project,
        registered.projects.len() == before.projects.len() + 1,
        second matches Err(e) && e == ContractError::Unauthorized,
        after == registered,
{
}

} // verus!
