use mage_hands::error::ContractError;
use mage_hands::host::{Env, MessageInfo};
use mage_hands::platform::contract::{
    execute, instantiate, query, query_projects, try_config, try_create, try_register,
    DEFAULT_DEADMAN,
};
use mage_hands::platform::msg::{
    space_pad, ExecuteAnswer, ExecuteMsg, InstantiateMsg, QueryAnswer, QueryMsg, ResponseStatus,
};
use mage_hands::platform::state::{
    add_project, get_projects, is_creating_project, project_count, Registry, StoredContractInfo,
};
use mage_hands::project::reward::{Snip24RewardInit, VestingEvent};
use mage_hands::project::state::PayoutScheme;

fn env(height: u64) -> Env {
    Env {
        block_height: height,
        block_time: String::from("1571797419.879305533"),
        contract_address: String::from("secret1registry"),
        contract_code_hash: String::from("r3g"),
    }
}

fn from(sender: &[u8]) -> MessageInfo {
    MessageInfo { sender: sender.to_vec() }
}

fn registry() -> Registry {
    instantiate(
        &env(1),
        &from(b"owner"),
        InstantiateMsg {
            owner: None,
            project_contract_code_id: 5,
            project_contract_code_hash: String::from("pr0j"),
            deadman: None,
        },
    )
}

fn create(r: &mut Registry, height: u64, goal: u128, deadline: u64, scheme: PayoutScheme)
    -> Result<mage_hands::platform::msg::Response, ContractError> {
    try_create(
        r,
        &env(height),
        &from(b"creator"),
        String::from("Title"),
        Some(String::from("Sub")),
        String::from("ZGVzYw=="),
        None,
        None,
        vec![],
        goal,
        deadline,
        vec![1],
        b"token".to_vec(),
        String::from("t0k"),
        scheme,
        String::from("entropy"),
    )
}

fn reward(contributors: u16, creator: u16) -> Snip24RewardInit {
    Snip24RewardInit {
        reward_snip24_code_id: 7,
        reward_snip24_code_hash: String::from("snip24hash"),
        name: String::from("Reward"),
        admin: None,
        symbol: String::from("RWD"),
        decimals: 6,
        public_total_supply: true,
        enable_deposit: false,
        enable_redeem: false,
        enable_mint: true,
        enable_burn: false,
        amount: 10000,
        contributors_vesting_schedule: vec![VestingEvent { block: 5, per_mille: contributors }],
        contributors_per_mille: 600,
        minimum_contribution: 0,
        maximum_contribution: 0,
        contribution_weight: 1,
        creator_vesting_schedule: vec![VestingEvent { block: 5, per_mille: creator }],
        creator_per_mille: 400,
        creator_addresses: None,
    }
}

#[test]
fn registry_starts_empty() {
    let r = registry();
    assert_eq!(r.config.owner, b"owner".to_vec());
    assert_eq!(r.config.deadman, DEFAULT_DEADMAN);
    assert_eq!(r.config.deadman, 259200);
    assert_eq!(r.config.project_contract_code_id, 5);
    assert_eq!(r.config.contract_address, "secret1registry");
    assert!(!is_creating_project(&r));
    assert_eq!(project_count(&r), 0);
    let named = instantiate(
        &env(1),
        &from(b"sender"),
        InstantiateMsg {
            owner: Some(b"boss".to_vec()),
            project_contract_code_id: 5,
            project_contract_code_hash: String::from("pr0j"),
            deadman: Some(10),
        },
    );
    assert_eq!(named.config.owner, b"boss".to_vec());
    assert_eq!(named.config.deadman, 10);
}

#[test]
fn create_raises_the_flag_and_sends_the_instruction() {
    let mut r = registry();
    let response = create(&mut r, 10, 1000, 100, PayoutScheme::Plain).unwrap();
    assert!(is_creating_project(&r));
    let label = "secret1registry-Mage-Hands-Project-0-MTU3MTc5NzQxOS44NzkzMDU1MzM=";
    match response.data.as_ref().unwrap() {
        ExecuteAnswer::Create { status, msg } => {
            assert_eq!(*status, ResponseStatus::Success);
            assert_eq!(msg, &format!("Created project contract {}", label));
        }
        other => panic!("unexpected {:?}", other),
    }
    assert_eq!(response.messages.len(), 1);
    let sent = &response.messages[0];
    assert_eq!(sent.label, label);
    assert_eq!(sent.code_id, 5);
    assert_eq!(sent.code_hash, "pr0j");
    assert_eq!(sent.msg.creator, b"creator".to_vec());
    assert_eq!(sent.msg.title, "Title");
    assert_eq!(sent.msg.subtitle, Some(String::from("Sub")));
    assert_eq!(sent.msg.goal, 1000);
    assert_eq!(sent.msg.deadline, 100);
    assert_eq!(sent.msg.deadman, 259200);
    assert_eq!(sent.msg.categories, vec![1]);
    assert_eq!(sent.msg.entropy, "entropy");
    assert_eq!(sent.msg.source_contract, "secret1registry");
    assert_eq!(sent.msg.source_hash, "r3g");
    assert_eq!(sent.msg.snip20_contract, b"token".to_vec());
    assert_eq!(sent.msg.snip20_hash, "t0k");
}

#[test]
fn create_checks_before_it_changes_anything() {
    let mut r = registry();
    assert_eq!(
        create(&mut r, 10, 0, 100, PayoutScheme::Plain).err(),
        Some(ContractError::GoalIsZero)
    );
    assert!(!is_creating_project(&r));
    assert_eq!(
        create(&mut r, 101, 1000, 100, PayoutScheme::Plain).err(),
        Some(ContractError::DeadlineInPast)
    );
    assert!(!is_creating_project(&r));
    assert_eq!(
        create(&mut r, 10, 1000, 100, PayoutScheme::TokenReward(reward(999, 1000))).err(),
        Some(ContractError::ContributorsScheduleSum)
    );
    assert_eq!(
        create(&mut r, 10, 1000, 100, PayoutScheme::TokenReward(reward(1000, 1001))).err(),
        Some(ContractError::CreatorScheduleSum)
    );
    assert!(!is_creating_project(&r));
    assert!(create(&mut r, 100, 1000, 100, PayoutScheme::TokenReward(reward(1000, 1000))).is_ok());
    assert!(is_creating_project(&r));
}

#[test]
fn register_is_taken_once_per_creation() {
    let mut r = registry();
    let unasked = try_register(
        &mut r,
        &env(10),
        &from(b"campaign"),
        String::from("secret1campaign"),
        b"campaign".to_vec(),
        String::from("c0de"),
    );
    assert_eq!(unasked.err(), Some(ContractError::Unauthorized));
    assert_eq!(project_count(&r), 0);
    create(&mut r, 10, 1000, 100, PayoutScheme::Plain).unwrap();
    let response = try_register(
        &mut r,
        &env(10),
        &from(b"campaign"),
        String::from("secret1campaign"),
        b"campaign".to_vec(),
        String::from("c0de"),
    )
    .unwrap();
    match response.data.as_ref().unwrap() {
        ExecuteAnswer::Register {
            status,
            msg,
            project_id,
            project_address,
            project_code_hash,
        } => {
            assert_eq!(*status, ResponseStatus::Success);
            assert_eq!(msg, "Registered contract secret1campaign");
            assert_eq!(*project_id, 0);
            assert_eq!(project_address, "secret1campaign");
            assert_eq!(project_code_hash, "c0de");
        }
        other => panic!("unexpected {:?}", other),
    }
    assert!(response.messages.is_empty());
    assert!(!is_creating_project(&r));
    assert_eq!(project_count(&r), 1);
    assert_eq!(r.projects[0].address, b"campaign".to_vec());
    let again = try_register(
        &mut r,
        &env(10),
        &from(b"campaign"),
        String::from("secret1campaign"),
        b"campaign".to_vec(),
        String::from("c0de"),
    );
    assert_eq!(again.err(), Some(ContractError::Unauthorized));
    assert_eq!(project_count(&r), 1);
    let second = create(&mut r, 10, 1000, 100, PayoutScheme::Plain).unwrap();
    assert_eq!(
        second.messages[0].label,
        "secret1registry-Mage-Hands-Project-1-MTU3MTc5NzQxOS44NzkzMDU1MzM="
    );
}

#[test]
fn config_is_for_the_owner() {
    let mut r = registry();
    let refused = try_config(&mut r, &env(10), &from(b"other"), None, Some(9), None, None);
    assert_eq!(refused.err(), Some(ContractError::Unauthorized));
    assert_eq!(r.config.project_contract_code_id, 5);
    let response = try_config(
        &mut r,
        &env(10),
        &from(b"owner"),
        Some(vec![0x0a, 0xff]),
        Some(9),
        Some(String::from("n3w")),
        Some(77),
    )
    .unwrap();
    match response.data.as_ref().unwrap() {
        ExecuteAnswer::Config { status, msg } => {
            assert_eq!(*status, ResponseStatus::Success);
            assert_eq!(msg, "New config: owner 0AFF, project code id 9, project code hash n3w");
        }
        other => panic!("unexpected {:?}", other),
    }
    assert_eq!(r.config.owner, vec![0x0a, 0xff]);
    assert_eq!(r.config.project_contract_code_id, 9);
    assert_eq!(r.config.project_contract_code_hash, "n3w");
    assert_eq!(r.config.deadman, 77);
    assert_eq!(r.config.contract_address, "secret1registry");
    let old_owner = try_config(&mut r, &env(10), &from(b"owner"), None, None, None, None);
    assert_eq!(old_owner.err(), Some(ContractError::Unauthorized));
    let kept = try_config(&mut r, &env(10), &from(&[0x0a, 0xff]), None, None, None, None).unwrap();
    match kept.data.as_ref().unwrap() {
        ExecuteAnswer::Config { msg, .. } => {
            assert_eq!(msg, "New config: owner 0AFF, project code id 9, project code hash n3w")
        }
        other => panic!("unexpected {:?}", other),
    }
    assert_eq!(r.config.deadman, 77);
}

#[test]
fn projects_are_listed_latest_first() {
    let mut r = registry();
    for i in 0u8..5 {
        let id = add_project(
            &mut r,
            StoredContractInfo { code_hash: format!("h{}", i), address: vec![i] },
        )
        .unwrap();
        assert_eq!(id, i as u32);
    }
    let first = get_projects(&r, 0, 2);
    assert_eq!(first.len(), 2);
    assert_eq!(first[0].address, vec![4]);
    assert_eq!(first[0].code_hash, "h4");
    assert_eq!(first[1].address, vec![3]);
    let last = get_projects(&r, 2, 2);
    assert_eq!(last.len(), 1);
    assert_eq!(last[0].address, vec![0]);
    assert!(get_projects(&r, 3, 2).is_empty());
    match query_projects(&r, 1, 2).unwrap() {
        QueryAnswer::Projects { projects, count } => {
            assert_eq!(count, 5);
            assert_eq!(projects.len(), 2);
            assert_eq!(projects[0].address, vec![2]);
            assert_eq!(projects[1].address, vec![1]);
            assert_eq!(projects[1].code_hash, "h1");
        }
    }
    match query(&r, QueryMsg::Projects { page: 0, page_size: 10 }).unwrap() {
        QueryAnswer::Projects { projects, count } => {
            assert_eq!(count, 5);
            let order: Vec<u8> = projects.iter().map(|p| p.address[0]).collect();
            assert_eq!(order, vec![4, 3, 2, 1, 0]);
        }
    }
    assert_eq!(query_projects(&r, 0, 0).err(), Some(ContractError::InvalidPageSize));
}

#[test]
fn execute_dispatches_the_handshake() {
    let mut r = registry();
    let create = ExecuteMsg::Create {
        title: String::from("Title"),
        subtitle: None,
        description: String::from("ZGVzYw=="),
        pledged_message: None,
        funded_message: None,
        reward_messages: vec![],
        goal: 10,
        deadline: 100,
        categories: vec![],
        entropy: String::from("e"),
        snip20_contract: b"token".to_vec(),
        snip20_hash: String::from("t0k"),
        scheme: PayoutScheme::Plain,
    };
    execute(&mut r, &env(10), &from(b"creator"), create).unwrap();
    assert!(is_creating_project(&r));
    let register = ExecuteMsg::Register {
        contract_addr: String::from("secret1campaign"),
        contract_addr_raw: b"campaign".to_vec(),
        contract_code_hash: String::from("c0de"),
    };
    execute(&mut r, &env(10), &from(b"campaign"), register).unwrap();
    assert!(!is_creating_project(&r));
    assert_eq!(project_count(&r), 1);
    let config = ExecuteMsg::Config {
        owner: None,
        project_contract_code_id: None,
        project_contract_code_hash: None,
        deadman: Some(3),
    };
    let refused = execute(&mut r, &env(10), &from(b"creator"), config);
    assert_eq!(refused.err(), Some(ContractError::Unauthorized));
    assert_eq!(r.config.deadman, 259200);
}

#[test]
fn space_pad_fills_up_to_the_block() {
    let mut message = b"abc".to_vec();
    space_pad(8, &mut message);
    assert_eq!(message, b"abc     ".to_vec());
    let mut full = b"12345678".to_vec();
    space_pad(8, &mut full);
    assert_eq!(full, b"12345678".to_vec());
    let mut empty: Vec<u8> = vec![];
    space_pad(256, &mut empty);
    assert!(empty.is_empty());
    let mut long = vec![b'x'; 257];
    let padded = space_pad(256, &mut long);
    padded.push(b'!');
    assert_eq!(long.len(), 513);
    assert_eq!(long[256], b'x');
    assert_eq!(long[257], b' ');
    assert_eq!(long[511], b' ');
    assert_eq!(long[512], b'!');
    let mut one = b"a".to_vec();
    space_pad(1, &mut one);
    assert_eq!(one, b"a".to_vec());
}
