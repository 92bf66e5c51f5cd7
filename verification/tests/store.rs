use mage_hands::error::ContractError;
use mage_hands::host::{Env, MessageInfo};
use mage_hands::platform::state as registry;
use mage_hands::project::contract::instantiate;
use mage_hands::project::msg::InstantiateMsg;
use mage_hands::project::reward::{RewardMessage, Snip24RewardInit, VestingEvent};
use mage_hands::project::state::{
    add_funds, check_wf, clear_funds, decrement_spam_count, get_categories, get_config,
    get_creator, get_creator_snip24_allocation_received, get_deadline, get_deadman,
    get_description, get_fee_config, get_funded_message, get_funder, get_goal,
    get_pledged_message, get_prng_seed, get_reward_messages, get_snip24_reward,
    get_snip24_reward_address, get_spam_count, get_status, get_subtitle, get_title, get_total,
    increment_spam_count, is_paid_out, paid_out, push_comment, push_funder, read_viewing_key,
    set_categories, set_config, set_creator, set_creator_snip24_allocation_received, set_deadline,
    set_deadman, set_description, set_fee_config, set_funded_message, set_funder, set_goal,
    set_pledged_message, set_prng_seed, set_reward_messages, set_snip24_reward,
    set_snip24_reward_address, set_spam_flag, set_status, set_subtitle, set_title, set_total,
    write_viewing_key, Campaign, FeeConfig, PayoutScheme, EXPIRED, FUNDRAISING, SUCCESSFUL,
};

fn campaign() -> Campaign {
    let env = Env {
        block_height: 1,
        block_time: String::from("0.000000000"),
        contract_address: String::from("secret1campaign"),
        contract_code_hash: String::from("c0de"),
    };
    let msg = InstantiateMsg {
        creator: b"creator".to_vec(),
        title: String::from("A title"),
        subtitle: None,
        description: String::from("ZGVzYw=="),
        pledged_message: None,
        funded_message: None,
        reward_messages: vec![],
        goal: 1000,
        deadline: 100,
        deadman: 50,
        categories: vec![],
        entropy: String::from("entropy"),
        source_contract: b"registry".to_vec(),
        source_hash: String::from("r3g"),
        snip20_contract: b"token".to_vec(),
        snip20_hash: String::from("t0k"),
        scheme: PayoutScheme::Plain,
    };
    instantiate(&env, &MessageInfo { sender: b"registry".to_vec() }, msg).unwrap().0
}

fn reward(contributors: usize, creator: usize) -> Snip24RewardInit {
    Snip24RewardInit {
        reward_snip24_code_id: 7,
        reward_snip24_code_hash: String::from("snip24hash"),
        name: String::from("Reward"),
        admin: None,
        symbol: String::from("RWD"),
        decimals: 6,
        public_total_supply: true,
        enable_deposit: false,
        enable_redeem: false,
        enable_mint: true,
        enable_burn: false,
        amount: 10000,
        contributors_vesting_schedule: vec![VestingEvent { block: 5, per_mille: 0 }; contributors],
        contributors_per_mille: 600,
        minimum_contribution: 0,
        maximum_contribution: 0,
        contribution_weight: 1,
        creator_vesting_schedule: vec![VestingEvent { block: 5, per_mille: 0 }; creator],
        creator_per_mille: 400,
        creator_addresses: None,
    }
}

#[test]
fn plain_fields_are_set_and_read() {
    let mut c = campaign();
    set_config(&mut c, b"p".to_vec(), String::from("ph"), b"s".to_vec(), String::from("sh"));
    assert_eq!(get_config(&c).platform_contract, b"p".to_vec());
    assert_eq!(get_config(&c).platform_hash, "ph");
    assert_eq!(get_config(&c).snip20_contract, b"s".to_vec());
    assert_eq!(get_config(&c).snip20_hash, "sh");
    set_prng_seed(&mut c, &vec![1, 2, 3]);
    assert_eq!(get_prng_seed(&c), vec![1, 2, 3]);
    set_creator(&mut c, b"other");
    assert_eq!(get_creator(&c), b"other".to_vec());
    set_creator_snip24_allocation_received(&mut c, vec![true, false]);
    assert_eq!(get_creator_snip24_allocation_received(&c), vec![true, false]);
    set_title(&mut c, String::from("T"));
    assert_eq!(get_title(&c), "T");
    set_subtitle(&mut c, String::from("S"));
    assert_eq!(get_subtitle(&c), "S");
    set_goal(&mut c, 77);
    assert_eq!(get_goal(&c), 77);
    set_deadline(&mut c, 78);
    assert_eq!(get_deadline(&c), 78);
    set_deadman(&mut c, 79);
    assert_eq!(get_deadman(&c), 79);
    set_categories(&mut c, vec![9, 8]);
    assert_eq!(get_categories(&c), vec![9, 8]);
    set_total(&mut c, 5);
    assert_eq!(get_total(&c), 5);
    assert!(!is_paid_out(&c));
    paid_out(&mut c);
    assert!(is_paid_out(&c));
    assert_eq!(get_snip24_reward_address(&c), None);
    set_snip24_reward_address(&mut c, Some(b"r".to_vec()));
    assert_eq!(get_snip24_reward_address(&c), Some(b"r".to_vec()));
    set_snip24_reward_address(&mut c, None);
    assert_eq!(get_snip24_reward_address(&c), None);
}

#[test]
fn status_is_one_of_three() {
    let mut c = campaign();
    assert_eq!(get_status(&c), FUNDRAISING);
    assert_eq!(set_status(&mut c, 0), Err(ContractError::InvalidStatus));
    assert_eq!(set_status(&mut c, 4), Err(ContractError::InvalidStatus));
    assert_eq!(get_status(&c), FUNDRAISING);
    assert_eq!(set_status(&mut c, SUCCESSFUL), Ok(()));
    assert_eq!(get_status(&c), 3);
    assert_eq!(set_status(&mut c, EXPIRED), Ok(()));
    assert_eq!(get_status(&c), 2);
    assert_eq!(set_status(&mut c, FUNDRAISING), Ok(()));
    assert_eq!(get_status(&c), 1);
}

#[test]
fn long_texts_are_kept_decoded() {
    let mut c = campaign();
    assert_eq!(get_description(&c), "ZGVzYw==");
    assert_eq!(set_description(&mut c, String::from("aGVsbG8gd29ybGQ=")), Ok(()));
    assert_eq!(c.description, b"hello world".to_vec());
    assert_eq!(get_description(&c), "aGVsbG8gd29ybGQ=");
    assert_eq!(set_description(&mut c, String::from("@")), Err(ContractError::InvalidBase64));
    assert_eq!(get_description(&c), "aGVsbG8gd29ybGQ=");
    assert_eq!(get_pledged_message(&c), "");
    assert_eq!(set_pledged_message(&mut c, String::from("dGhhbmtz")), Ok(()));
    assert_eq!(c.pledged_message, b"thanks".to_vec());
    assert_eq!(get_pledged_message(&c), "dGhhbmtz");
    assert_eq!(set_pledged_message(&mut c, String::from("@")), Err(ContractError::InvalidBase64));
    assert_eq!(set_funded_message(&mut c, String::from("ZnVuZGVkIQ==")), Ok(()));
    assert_eq!(get_funded_message(&c), "ZnVuZGVkIQ==");
    assert_eq!(set_funded_message(&mut c, String::from("@")), Err(ContractError::InvalidBase64));
    assert_eq!(c.funded_message, b"funded!".to_vec());
}

#[test]
fn reward_messages_are_kept_in_order() {
    let mut c = campaign();
    set_reward_messages(
        &mut c,
        vec![
            RewardMessage { threshold: 5, message: String::from("five") },
            RewardMessage { threshold: 1, message: String::from("one") },
        ],
    );
    assert_eq!(c.reward_messages.len(), 2);
    assert_eq!(c.reward_messages[0].threshold, 5);
    assert_eq!(c.reward_messages[1].message, "one");
    let read = get_reward_messages(&c);
    assert_eq!(read.len(), 2);
    assert_eq!(read[0].threshold, 5);
    assert_eq!(read[0].message, "five");
    assert_eq!(read[1].threshold, 1);
}

#[test]
fn payout_scheme_is_one_of_three() {
    let mut c = campaign();
    assert!(get_snip24_reward(&c).is_none());
    assert!(get_fee_config(&c).is_none());
    set_snip24_reward(&mut c, Some(reward(2, 0)));
    assert_eq!(get_snip24_reward(&c).unwrap().amount, 10000);
    assert!(get_fee_config(&c).is_none());
    set_fee_config(
        &mut c,
        FeeConfig {
            commission_rate_nom: 1,
            commission_rate_denom: 10,
            upfront: 5,
            commission_addr: b"p".to_vec(),
        },
    );
    assert!(get_snip24_reward(&c).is_none());
    assert_eq!(get_fee_config(&c).unwrap().upfront, 5);
    set_snip24_reward(&mut c, None);
    assert!(get_snip24_reward(&c).is_none());
    assert!(get_fee_config(&c).is_none());
}

#[test]
fn ledger_keeps_one_record_per_contributor() {
    let mut c = campaign();
    assert_eq!(get_funder(&c, b"a").err(), Some(ContractError::NotFound));
    assert_eq!(clear_funds(&mut c, b"a"), Err(ContractError::NotFound));
    assert_eq!(add_funds(&mut c, b"a", false, 10, vec![]), Ok(()));
    assert_eq!(add_funds(&mut c, b"b", true, 20, vec![]), Ok(()));
    assert_eq!(add_funds(&mut c, b"a", true, 5, vec![true]), Ok(()));
    assert_eq!(c.funders, vec![b"a".to_vec(), b"b".to_vec()]);
    let a = get_funder(&c, b"a").unwrap();
    assert_eq!(a.idx, 0);
    assert_eq!(a.amount, 15);
    assert!(a.anonymous);
    assert!(a.snip24_rewards_received.is_empty());
    assert_eq!(get_funder(&c, b"b").unwrap().idx, 1);
    assert_eq!(get_total(&c), 35);
    assert_eq!(add_funds(&mut c, b"c", false, u128::MAX - 34, vec![]), Err(ContractError::Overflow));
    assert_eq!(c.funders.len(), 2);
    assert_eq!(get_total(&c), 35);
    assert_eq!(clear_funds(&mut c, b"a"), Ok(15));
    assert_eq!(get_total(&c), 20);
    assert_eq!(get_funder(&c, b"a").unwrap().amount, 0);
    assert_eq!(clear_funds(&mut c, b"a"), Ok(0));
    assert_eq!(get_total(&c), 20);
    assert!(check_wf(&c));
}

#[test]
fn records_are_written_where_the_address_is_listed() {
    let mut c = campaign();
    assert_eq!(set_funder(&mut c, b"a", 0, false, 5, vec![]), Err(ContractError::NotFound));
    assert!(c.funders.is_empty());
    assert_eq!(push_funder(&mut c, b"a"), Ok(0));
    assert_eq!(push_funder(&mut c, b"b"), Ok(1));
    assert_eq!(get_funder(&c, b"b").unwrap().amount, 0);
    assert!(get_funder(&c, b"b").unwrap().anonymous);
    assert_eq!(set_funder(&mut c, b"b", 1, false, 5, vec![true]), Ok(()));
    let b = get_funder(&c, b"b").unwrap();
    assert_eq!((b.idx, b.anonymous, b.amount), (1, false, 5));
    assert_eq!(b.snip24_rewards_received, vec![true]);
    assert_eq!(get_funder(&c, b"a").unwrap().amount, 0);
    assert_eq!(get_total(&c), 0);
    assert!(!check_wf(&c));
}

#[test]
fn comments_are_numbered_as_they_come() {
    let mut c = campaign();
    assert_eq!(push_comment(&mut c, String::from("a")), Ok(0));
    assert_eq!(push_comment(&mut c, String::from("b")), Ok(1));
    assert_eq!(c.comments, vec![String::from("a"), String::from("b")]);
}

#[test]
fn spam_counter_moves_by_one_and_stops_at_zero() {
    let mut c = campaign();
    assert_eq!(get_spam_count(&c), 0);
    assert_eq!(decrement_spam_count(&mut c), 0);
    assert_eq!(increment_spam_count(&mut c), Ok(1));
    assert_eq!(increment_spam_count(&mut c), Ok(2));
    assert_eq!(decrement_spam_count(&mut c), 1);
    assert_eq!(get_spam_count(&c), 1);
    c.spam_count = u32::MAX;
    assert_eq!(increment_spam_count(&mut c), Err(ContractError::Overflow));
    assert_eq!(get_spam_count(&c), u32::MAX);
    assert_eq!(set_spam_flag(&mut c, b"a", false), Ok(()));
    assert_eq!(set_spam_flag(&mut c, b"a", true), Err(ContractError::Overflow));
    c.spam_count = 0;
    assert_eq!(set_spam_flag(&mut c, b"a", true), Ok(()));
    c.spam_count = 0;
    assert_eq!(set_spam_flag(&mut c, b"a", false), Ok(()));
    assert_eq!(get_spam_count(&c), 0);
}

#[test]
fn viewing_keys_are_kept_hashed() {
    let mut c = campaign();
    assert_eq!(read_viewing_key(&c, b"a"), None);
    write_viewing_key(&mut c, b"a", "api_key_1");
    let hash = vec![
        64, 88, 95, 201, 79, 77, 119, 15, 228, 115, 73, 7, 211, 120, 222, 15, 243, 175, 89, 28, 73,
        2, 103, 50, 90, 159, 240, 178, 148, 74, 41, 205,
    ];
    assert_eq!(read_viewing_key(&c, b"a"), Some(hash.clone()));
    assert_eq!(read_viewing_key(&c, b"b"), None);
    write_viewing_key(&mut c, b"b", "api_key_1");
    write_viewing_key(&mut c, b"a", "another");
    assert_eq!(read_viewing_key(&c, b"b"), Some(hash.clone()));
    assert_ne!(read_viewing_key(&c, b"a"), Some(hash));
    assert_eq!(c.key_owners.len(), 2);
}

#[test]
fn sound_state_is_told_from_unsound() {
    let mut c = campaign();
    add_funds(&mut c, b"a", false, 10, vec![]).unwrap();
    add_funds(&mut c, b"b", false, 20, vec![]).unwrap();
    assert!(check_wf(&c));
    c.total = 31;
    assert!(!check_wf(&c));
    c.total = 30;
    c.funder_records[1].idx = 0;
    assert!(!check_wf(&c));
    c.funder_records[1].idx = 1;
    c.funders[1] = b"a".to_vec();
    assert!(!check_wf(&c));
    c.funders[1] = b"b".to_vec();
    c.status = 0;
    assert!(!check_wf(&c));
    c.status = EXPIRED;
    c.paid_out = true;
    assert!(!check_wf(&c));
    c.status = SUCCESSFUL;
    assert!(check_wf(&c));
    c.funder_records[0].amount = u128::MAX;
    assert!(!check_wf(&c));
    c.funder_records[0].amount = 10;
    c.funders.pop();
    assert!(!check_wf(&c));
    c.funders.push(b"b".to_vec());
    c.spam_flags.push(true);
    assert!(!check_wf(&c));
    c.spam_flags.pop();
    c.key_hashes.push(vec![]);
    assert!(!check_wf(&c));
    c.key_hashes.pop();
    c.funder_records[0].snip24_rewards_received.push(false);
    assert!(!check_wf(&c));
    c.funder_records[0].snip24_rewards_received.pop();
    c.creator_snip24_allocation_received.push(false);
    assert!(!check_wf(&c));
    c.creator_snip24_allocation_received.pop();
    assert!(check_wf(&c));
    c.scheme = PayoutScheme::TokenReward(reward(3, 0));
    assert!(!check_wf(&c));
    c.creator_snip24_allocation_received = vec![false];
    c.funder_records[0].snip24_rewards_received = vec![false; 3];
    c.funder_records[1].snip24_rewards_received = vec![false; 3];
    assert!(check_wf(&c));
}

#[test]
fn registry_flag_and_soundness() {
    let env = Env {
        block_height: 1,
        block_time: String::from("0.000000000"),
        contract_address: String::from("secret1registry"),
        contract_code_hash: String::from("r3g"),
    };
    let mut r = mage_hands::platform::contract::instantiate(
        &env,
        &MessageInfo { sender: b"owner".to_vec() },
        mage_hands::platform::msg::InstantiateMsg {
            owner: None,
            project_contract_code_id: 1,
            project_contract_code_hash: String::new(),
            deadman: None,
        },
    );
    assert!(registry::check_wf(&r));
    assert!(!registry::is_creating_project(&r));
    registry::set_creating_project(&mut r, registry::CREATING_PROJECT);
    assert!(registry::is_creating_project(&r));
    registry::set_creating_project(&mut r, false);
    assert!(!registry::is_creating_project(&r));
    registry::set_config(&mut r, b"o".to_vec(), 2, String::from("h"), String::from("a"), 3);
    let config = registry::get_config(&r);
    assert_eq!(config.owner, b"o".to_vec());
    assert_eq!(config.project_contract_code_id, 2);
    assert_eq!(config.project_contract_code_hash, "h");
    assert_eq!(config.contract_address, "a");
    assert_eq!(config.deadman, 3);
}
