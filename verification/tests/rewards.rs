use mage_hands::error::ContractError;
use mage_hands::host::{Env, MessageInfo};
use mage_hands::project::contract::{
    calculate_contributor_snip24_rewards, calculate_creator_snip24_allocation, instantiate,
    make_token_seed, pay_out_with, query_status_auth, try_claim_reward, try_pay_out, try_receive,
    validate_snip24_reward_init,
};
use mage_hands::project::msg::{
    ExecuteAnswer, InstantiateMsg, OutboundMsg, QueryAnswer, ResponseStatus,
};
use mage_hands::project::random::next_random_u64;
use mage_hands::project::reward::{
    check_schedule, compute_contributor_share, compute_per_mille, vest, InitConfig,
    Snip24RewardInit, VestingEvent, VestingReward, VestingRewardStatus, LINEAR_WEIGHT,
};
use mage_hands::project::state::{Campaign, PayoutScheme};

const CREATOR: &[u8] = b"creator";
const TOKEN: &[u8] = b"token";
const ALICE: &[u8] = b"alice";
const BOB: &[u8] = b"bob";

fn env(height: u64) -> Env {
    Env {
        block_height: height,
        block_time: String::from("1571797419.879305533"),
        contract_address: String::from("secret1campaign"),
        contract_code_hash: String::from("c0de"),
    }
}

fn from(sender: &[u8]) -> MessageInfo {
    MessageInfo { sender: sender.to_vec() }
}

fn schedule(events: &[(u64, u16)]) -> Vec<VestingEvent> {
    events.iter().map(|(block, per_mille)| VestingEvent { block: *block, per_mille: *per_mille }).collect()
}

fn reward(contributors: &[(u64, u16)], creator: &[(u64, u16)]) -> Snip24RewardInit {
    Snip24RewardInit {
        reward_snip24_code_id: 7,
        reward_snip24_code_hash: String::from("snip24hash"),
        name: String::from("Reward"),
        admin: Some(b"admin".to_vec()),
        symbol: String::from("RWD"),
        decimals: 6,
        public_total_supply: true,
        enable_deposit: false,
        enable_redeem: false,
        enable_mint: true,
        enable_burn: false,
        amount: 10000,
        contributors_vesting_schedule: schedule(contributors),
        contributors_per_mille: 600,
        minimum_contribution: 10,
        maximum_contribution: 0,
        contribution_weight: LINEAR_WEIGHT,
        creator_vesting_schedule: schedule(creator),
        creator_per_mille: 400,
        creator_addresses: None,
    }
}

fn campaign_with(reward: Snip24RewardInit) -> Campaign {
    let msg = InstantiateMsg {
        creator: CREATOR.to_vec(),
        title: String::from("A title"),
        subtitle: Some(String::from("sub")),
        description: String::from("ZGVzYw=="),
        pledged_message: None,
        funded_message: None,
        reward_messages: vec![],
        goal: 1000,
        deadline: 100,
        deadman: 50,
        categories: vec![],
        entropy: String::from("entropy"),
        source_contract: b"registry".to_vec(),
        source_hash: String::from("r3g"),
        snip20_contract: TOKEN.to_vec(),
        snip20_hash: String::from("t0k"),
        scheme: PayoutScheme::TokenReward(reward),
    };
    instantiate(&env(1), &from(b"registry"), msg).unwrap().0
}

fn funded(reward: Snip24RewardInit) -> Campaign {
    let mut c = campaign_with(reward);
    try_receive(&mut c, &env(10), &from(TOKEN), ALICE, 500, None).unwrap();
    try_receive(&mut c, &env(10), &from(TOKEN), BOB, 500, None).unwrap();
    c
}

fn answer(response: &mage_hands::project::msg::Response) -> (ResponseStatus, String) {
    match response.data.as_ref().unwrap() {
        ExecuteAnswer::ClaimReward { status, msg } => (*status, msg.clone()),
        other => panic!("unexpected {:?}", other),
    }
}

#[test]
fn schedule_must_sum_to_a_thousand_or_be_empty() {
    assert!(check_schedule(&schedule(&[])));
    assert!(check_schedule(&schedule(&[(5, 1000)])));
    assert!(check_schedule(&schedule(&[(5, 400), (9, 600)])));
    assert!(check_schedule(&schedule(&[(1, 0), (2, 1000), (3, 0)])));
    assert!(!check_schedule(&schedule(&[(5, 999)])));
    assert!(!check_schedule(&schedule(&[(5, 1001)])));
    assert!(!check_schedule(&schedule(&[(5, 400), (9, 601)])));
    assert!(!check_schedule(&schedule(&[(5, 0)])));
    assert!(!check_schedule(&schedule(&[(5, 1000), (6, 1)])));
    assert!(!check_schedule(&schedule(&[(5, 65535), (6, 1001)])));
    assert!(!check_schedule(&schedule(&[(5, 65535), (6, 65535), (7, 2002)])));
}

#[test]
fn reward_validation_names_the_schedule_at_fault() {
    assert_eq!(validate_snip24_reward_init(None), Ok(()));
    assert_eq!(validate_snip24_reward_init(Some(&reward(&[], &[]))), Ok(()));
    assert_eq!(
        validate_snip24_reward_init(Some(&reward(&[(1, 400), (2, 600)], &[(3, 1000)]))),
        Ok(())
    );
    assert_eq!(
        validate_snip24_reward_init(Some(&reward(&[(1, 400)], &[(3, 1000)]))),
        Err(ContractError::ContributorsScheduleSum)
    );
    assert_eq!(
        validate_snip24_reward_init(Some(&reward(&[(1, 1000)], &[(3, 1), (4, 1000)]))),
        Err(ContractError::CreatorScheduleSum)
    );
    assert_eq!(
        validate_snip24_reward_init(Some(&reward(&[(1, 1)], &[(3, 1)]))),
        Err(ContractError::ContributorsScheduleSum)
    );
}

#[test]
fn campaign_with_a_bad_schedule_is_not_created() {
    let msg = InstantiateMsg {
        creator: CREATOR.to_vec(),
        title: String::from("A title"),
        subtitle: None,
        description: String::from("ZGVzYw=="),
        pledged_message: None,
        funded_message: None,
        reward_messages: vec![],
        goal: 0,
        deadline: 100,
        deadman: 50,
        categories: vec![],
        entropy: String::from("entropy"),
        source_contract: b"registry".to_vec(),
        source_hash: String::from("r3g"),
        snip20_contract: TOKEN.to_vec(),
        snip20_hash: String::from("t0k"),
        scheme: PayoutScheme::TokenReward(reward(&[(1, 1000)], &[(3, 999)])),
    };
    let r = instantiate(&env(1), &from(b"registry"), msg);
    assert_eq!(r.err(), Some(ContractError::CreatorScheduleSum));
}

#[test]
fn per_mille_rounds_down() {
    assert_eq!(compute_per_mille(10000, 600), Ok(6000));
    assert_eq!(compute_per_mille(999, 1), Ok(0));
    assert_eq!(compute_per_mille(1999, 1), Ok(1));
    assert_eq!(compute_per_mille(3000, 400), Ok(1200));
    assert_eq!(compute_per_mille(3000, 600), Ok(1800));
    assert_eq!(compute_per_mille(u128::MAX, 1000), Ok(u128::MAX));
    assert_eq!(compute_per_mille(u128::MAX, 1001), Err(ContractError::Overflow));
    assert_eq!(compute_per_mille(u128::MAX, 0), Ok(0));
}

#[test]
fn contributor_share_divides_in_order() {
    assert_eq!(compute_contributor_share(10000, 600, 500, 1000), Ok(3000));
    assert_eq!(compute_contributor_share(1999, 1, 1000, 1), Ok(1000));
    assert_eq!(compute_contributor_share(10, 333, 7, 3), Ok(7));
    assert_eq!(compute_contributor_share(10000, 600, 500, 0), Err(ContractError::DivisionByZero));
    assert_eq!(
        compute_contributor_share(u128::MAX, 1000, u128::MAX, u128::MAX),
        Ok(u128::MAX)
    );
    assert_eq!(
        compute_contributor_share(u128::MAX, 1000, u128::MAX, 1),
        Err(ContractError::Overflow)
    );
    assert_eq!(
        compute_contributor_share(u128::MAX, 65535, u128::MAX, 0),
        Err(ContractError::Overflow)
    );
}

#[test]
fn vesting_splits_a_share_over_the_schedule() {
    assert_eq!(vest(3000, &schedule(&[])), Ok(vec![VestingReward { block: 0, amount: 3000 }]));
    assert_eq!(
        vest(3000, &schedule(&[(120, 400), (200, 600)])),
        Ok(vec![
            VestingReward { block: 120, amount: 1200 },
            VestingReward { block: 200, amount: 1800 }
        ])
    );
    assert_eq!(
        vest(10, &schedule(&[(1, 333), (2, 333), (3, 334)])),
        Ok(vec![
            VestingReward { block: 1, amount: 3 },
            VestingReward { block: 2, amount: 3 },
            VestingReward { block: 3, amount: 3 }
        ])
    );
    assert_eq!(vest(u128::MAX, &schedule(&[(1, 10), (2, 2000)])), Err(ContractError::Overflow));
}

#[test]
fn rewards_of_contributors_and_creator() {
    let c = funded(reward(&[(120, 400), (200, 600)], &[]));
    assert_eq!(
        calculate_contributor_snip24_rewards(&c, ALICE),
        Ok(vec![
            VestingReward { block: 120, amount: 1200 },
            VestingReward { block: 200, amount: 1800 }
        ])
    );
    assert_eq!(
        calculate_creator_snip24_allocation(&c),
        Ok(vec![VestingReward { block: 0, amount: 4000 }])
    );
    assert_eq!(
        calculate_contributor_snip24_rewards(&c, b"stranger"),
        Err(ContractError::NotFound)
    );
}

#[test]
fn contribution_band_limits_the_reward() {
    let mut config = reward(&[], &[]);
    config.minimum_contribution = 100;
    config.maximum_contribution = 300;
    let mut c = campaign_with(config);
    try_receive(&mut c, &env(10), &from(TOKEN), ALICE, 99, None).unwrap();
    try_receive(&mut c, &env(10), &from(TOKEN), BOB, 901, None).unwrap();
    assert_eq!(calculate_contributor_snip24_rewards(&c, ALICE), Ok(vec![]));
    assert_eq!(
        calculate_contributor_snip24_rewards(&c, BOB),
        Ok(vec![VestingReward { block: 0, amount: 1800 }])
    );
}

#[test]
fn campaign_without_reward_has_none() {
    let msg = InstantiateMsg {
        creator: CREATOR.to_vec(),
        title: String::from("A title"),
        subtitle: None,
        description: String::from("ZGVzYw=="),
        pledged_message: None,
        funded_message: None,
        reward_messages: vec![],
        goal: 10,
        deadline: 100,
        deadman: 50,
        categories: vec![],
        entropy: String::from("entropy"),
        source_contract: b"registry".to_vec(),
        source_hash: String::from("r3g"),
        snip20_contract: TOKEN.to_vec(),
        snip20_hash: String::from("t0k"),
        scheme: PayoutScheme::Plain,
    };
    let mut c = instantiate(&env(1), &from(b"registry"), msg).unwrap().0;
    try_receive(&mut c, &env(10), &from(TOKEN), ALICE, 10, None).unwrap();
    assert_eq!(calculate_contributor_snip24_rewards(&c, ALICE), Ok(vec![]));
    assert_eq!(calculate_contributor_snip24_rewards(&c, b"stranger"), Ok(vec![]));
    assert_eq!(calculate_creator_snip24_allocation(&c), Ok(vec![]));
    try_pay_out(&mut c, &env(101), &from(CREATOR), b"call").unwrap();
    let r = try_claim_reward(&mut c, &env(102), &from(ALICE), 0);
    assert_eq!(r.err(), Some(ContractError::InvalidMilestone));
}

#[test]
fn claims_at_two_milestones() {
    let mut c = funded(reward(&[(120, 400), (200, 600)], &[]));
    let early = try_claim_reward(&mut c, &env(101), &from(ALICE), 0).unwrap();
    assert_eq!(answer(&early), (ResponseStatus::Failure, String::from("Cannot claim reward")));
    assert!(early.messages.is_empty());
    try_pay_out(&mut c, &env(101), &from(CREATOR), b"call").unwrap();
    let unvested = try_claim_reward(&mut c, &env(119), &from(ALICE), 0).unwrap();
    assert_eq!(
        answer(&unvested),
        (ResponseStatus::Failure, String::from("Vesting time has not been reached"))
    );
    assert!(unvested.messages.is_empty());
    let first = try_claim_reward(&mut c, &env(120), &from(ALICE), 0).unwrap();
    assert_eq!(answer(&first), (ResponseStatus::Success, String::from("Receive 1200 tokens")));
    assert_eq!(first.messages.len(), 1);
    match &first.messages[0] {
        OutboundMsg::RewardTransfer { recipient, amount } => {
            assert_eq!(recipient, &ALICE.to_vec());
            assert_eq!(*amount, 1200);
        }
        other => panic!("unexpected {:?}", other),
    }
    let second = try_claim_reward(&mut c, &env(200), &from(ALICE), 1).unwrap();
    assert_eq!(answer(&second), (ResponseStatus::Success, String::from("Receive 1800 tokens")));
    match &second.messages[0] {
        OutboundMsg::RewardTransfer { amount, .. } => assert_eq!(*amount, 1800),
        other => panic!("unexpected {:?}", other),
    }
    let again = try_claim_reward(&mut c, &env(300), &from(ALICE), 0).unwrap();
    assert_eq!(answer(&again), (ResponseStatus::Failure, String::from("Already claimed reward")));
    assert!(again.messages.is_empty());
    assert_eq!(c.funder_records[0].snip24_rewards_received, vec![true, true]);
    assert_eq!(c.funder_records[1].snip24_rewards_received, vec![false, false]);
}

#[test]
fn claim_succeeds_once() {
    let mut c = funded(reward(&[], &[(130, 1000)]));
    try_pay_out(&mut c, &env(101), &from(CREATOR), b"call").unwrap();
    for who in [ALICE, BOB] {
        let first = try_claim_reward(&mut c, &env(110), &from(who), 0).unwrap();
        assert_eq!(answer(&first), (ResponseStatus::Success, String::from("Receive 3000 tokens")));
        assert_eq!(first.messages.len(), 1);
        let before = format!("{:?}", c);
        for height in [110u64, 111, 5000] {
            let next = try_claim_reward(&mut c, &env(height), &from(who), 0).unwrap();
            assert_eq!(
                answer(&next),
                (ResponseStatus::Failure, String::from("Already claimed reward"))
            );
            assert!(next.messages.is_empty());
            assert_eq!(format!("{:?}", c), before);
        }
    }
    let unvested = try_claim_reward(&mut c, &env(129), &from(CREATOR), 0).unwrap();
    assert_eq!(answer(&unvested).0, ResponseStatus::Failure);
    let creator = try_claim_reward(&mut c, &env(130), &from(CREATOR), 0).unwrap();
    assert_eq!(answer(&creator), (ResponseStatus::Success, String::from("Receive 4000 tokens")));
    let again = try_claim_reward(&mut c, &env(131), &from(CREATOR), 0).unwrap();
    assert_eq!(answer(&again), (ResponseStatus::Failure, String::from("Already claimed reward")));
    assert!(again.messages.is_empty());
    assert_eq!(c.creator_snip24_allocation_received, vec![true]);
}

#[test]
fn claim_of_a_milestone_that_is_not_there_is_aborted() {
    let mut c = funded(reward(&[(120, 400), (200, 600)], &[]));
    try_pay_out(&mut c, &env(101), &from(CREATOR), b"call").unwrap();
    assert_eq!(
        try_claim_reward(&mut c, &env(300), &from(ALICE), 2).err(),
        Some(ContractError::InvalidMilestone)
    );
    assert_eq!(
        try_claim_reward(&mut c, &env(300), &from(CREATOR), 1).err(),
        Some(ContractError::InvalidMilestone)
    );
    assert_eq!(
        try_claim_reward(&mut c, &env(300), &from(b"stranger"), 0).err(),
        Some(ContractError::NotFound)
    );
}

#[test]
fn top_up_keeps_the_claim_flags() {
    let mut c = funded(reward(&[(120, 400), (200, 600)], &[]));
    c.funder_records[0].snip24_rewards_received[0] = true;
    try_receive(&mut c, &env(20), &from(TOKEN), ALICE, 5, None).unwrap();
    assert_eq!(c.funder_records[0].snip24_rewards_received, vec![true, false]);
    assert_eq!(c.funder_records[0].amount, 505);
}

#[test]
fn status_lists_rewards_with_their_flags() {
    let mut c = funded(reward(&[(120, 400), (200, 600)], &[(150, 1000)]));
    try_pay_out(&mut c, &env(101), &from(CREATOR), b"call").unwrap();
    try_claim_reward(&mut c, &env(120), &from(ALICE), 0).unwrap();
    match query_status_auth(&c, ALICE).unwrap() {
        QueryAnswer::StatusAuth { snip24_rewards, .. } => assert_eq!(
            snip24_rewards,
            vec![
                VestingRewardStatus { amount: 1200, block: 120, received: true },
                VestingRewardStatus { amount: 1800, block: 200, received: false }
            ]
        ),
        other => panic!("unexpected {:?}", other),
    }
    match query_status_auth(&c, CREATOR).unwrap() {
        QueryAnswer::StatusAuth { snip24_rewards, .. } => assert_eq!(
            snip24_rewards,
            vec![VestingRewardStatus { amount: 4000, block: 150, received: false }]
        ),
        other => panic!("unexpected {:?}", other),
    }
}

#[test]
fn pay_out_creates_the_reward_token_first() {
    let mut c = funded(reward(&[(120, 400), (200, 600)], &[]));
    let response =
        pay_out_with(&mut c, &env(101), &from(CREATOR), b"call", 0x0102030405060708).unwrap();
    assert_eq!(response.messages.len(), 2);
    match &response.messages[0] {
        OutboundMsg::InstantiateSnip24 { code_id, code_hash, msg, label, reply_id } => {
            assert_eq!(*code_id, 7);
            assert_eq!(code_hash, "snip24hash");
            assert_eq!(label, "Reward-RWD-101");
            assert_eq!(*reply_id, 1);
            assert_eq!(msg.name, "Reward");
            assert_eq!(msg.symbol, "RWD");
            assert_eq!(msg.decimals, 6);
            assert_eq!(msg.admin, Some(b"admin".to_vec()));
            let balances = msg.initial_balances.as_ref().unwrap();
            assert_eq!(balances.len(), 1);
            assert_eq!(balances[0].address, "secret1campaign");
            assert_eq!(balances[0].amount, 10000);
            assert_eq!(
                msg.config,
                Some(InitConfig {
                    public_total_supply: Some(true),
                    enable_deposit: Some(false),
                    enable_redeem: Some(false),
                    enable_mint: Some(true),
                    enable_burn: Some(false),
                })
            );
            assert_eq!(
                msg.prng_seed,
                vec![
                    125, 134, 194, 178, 219, 254, 211, 24, 13, 244, 183, 47, 152, 225, 74, 39, 21,
                    112, 150, 96, 5, 92, 16, 174, 21, 31, 148, 95, 195, 63, 200, 109
                ]
            );
        }
        other => panic!("unexpected {:?}", other),
    }
    match &response.messages[1] {
        OutboundMsg::Snip20Transfer { recipient, amount } => {
            assert_eq!(recipient, &CREATOR.to_vec());
            assert_eq!(*amount, 1000);
        }
        other => panic!("unexpected {:?}", other),
    }
}

#[test]
fn token_seed_is_the_digest_of_word_and_entropy() {
    assert_eq!(
        make_token_seed(0x0102030405060708, b"call"),
        vec![
            125, 134, 194, 178, 219, 254, 211, 24, 13, 244, 183, 47, 152, 225, 74, 39, 21, 112,
            150, 96, 5, 92, 16, 174, 21, 31, 148, 95, 195, 63, 200, 109
        ]
    );
}

#[test]
fn default_token_switches_are_unset() {
    assert_eq!(
        InitConfig::default(),
        InitConfig {
            public_total_supply: None,
            enable_deposit: None,
            enable_redeem: None,
            enable_mint: None,
            enable_burn: None,
        }
    );
}

#[test]
fn pay_out_draws_the_token_seed_from_the_pool() {
    let mut c = funded(reward(&[(120, 400), (200, 600)], &[]));
    let word = next_random_u64(&c);
    assert_eq!(word, 0x903df1a0ade0b876);
    let response = try_pay_out(&mut c, &env(101), &from(CREATOR), b"call").unwrap();
    match &response.messages[0] {
        OutboundMsg::InstantiateSnip24 { msg, .. } => {
            assert_eq!(msg.prng_seed, make_token_seed(word, b"call"));
            assert_ne!(msg.prng_seed, make_token_seed(word + 1, b"call"));
        }
        other => panic!("unexpected {:?}", other),
    }
}
