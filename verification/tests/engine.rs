use mage_hands::address::find_address;
use mage_hands::encoding::{decode, encode};
use mage_hands::error::ContractError;
use mage_hands::paging::page_bounds;
use mage_hands::project::payout::{compute_commission, compute_payout, PayoutSplit};
use mage_hands::project::random::{
    get_random_number_generator, next_random_u64, sha_256, supply_more_entropy,
};
use mage_hands::project::state::FeeConfig;
use mage_hands::text::{bytes_eq, join, push_hex, u64_to_be_bytes, with_decimal};
use mage_hands::wide::Wide;

fn fee(nom: u128, denom: u128, upfront: u128) -> FeeConfig {
    FeeConfig {
        commission_rate_nom: nom,
        commission_rate_denom: denom,
        upfront,
        commission_addr: b"platform".to_vec(),
    }
}

#[test]
fn commission_of_a_tenth_less_fifty_upfront() {
    assert_eq!(compute_commission(1000, 1, 10), Ok(100));
    assert_eq!(
        compute_payout(1000, &fee(1, 10, 50)),
        Ok(PayoutSplit { payment: 950, commission: 50 })
    );
}

#[test]
fn commission_covered_by_the_upfront_fee() {
    assert_eq!(
        compute_payout(1000, &fee(1, 10, 200)),
        Ok(PayoutSplit { payment: 1000, commission: 0 })
    );
    assert_eq!(
        compute_payout(1000, &fee(1, 10, 100)),
        Ok(PayoutSplit { payment: 1000, commission: 0 })
    );
    assert_eq!(
        compute_payout(1000, &fee(1, 10, 99)),
        Ok(PayoutSplit { payment: 999, commission: 1 })
    );
}

#[test]
fn commission_edge_cases() {
    assert_eq!(compute_payout(1000, &fee(0, 0, 0)), Ok(PayoutSplit { payment: 1000, commission: 0 }));
    assert_eq!(compute_payout(1000, &fee(1, 0, 0)), Err(ContractError::DivisionByZero));
    assert_eq!(compute_payout(9, &fee(1, 10, 0)), Ok(PayoutSplit { payment: 9, commission: 0 }));
    assert_eq!(compute_payout(19, &fee(1, 10, 0)), Ok(PayoutSplit { payment: 18, commission: 1 }));
    assert_eq!(compute_payout(1000, &fee(1, 1, 0)), Ok(PayoutSplit { payment: 0, commission: 1000 }));
    assert_eq!(compute_payout(1000, &fee(2, 1, 0)), Err(ContractError::Overflow));
    assert_eq!(
        compute_payout(1000, &fee(2, 1, 1000)),
        Ok(PayoutSplit { payment: 0, commission: 1000 })
    );
    assert_eq!(
        compute_payout(u128::MAX, &fee(u128::MAX, u128::MAX, 0)),
        Ok(PayoutSplit { payment: 0, commission: u128::MAX })
    );
}

#[test]
fn commission_keeps_the_low_128_bits() {
    assert_eq!(compute_commission(u128::MAX, 2, 1), Ok(u128::MAX - 1));
    assert_eq!(compute_commission(1 << 127, 4, 2), Ok(0));
    assert_eq!(compute_commission(1000, 1, 0), Err(ContractError::DivisionByZero));
    assert_eq!(compute_commission(7, 3, 2), Ok(10));
}

#[test]
fn wide_arithmetic() {
    let a = Wide::from_u128(u128::MAX);
    assert_eq!(a.words, [u64::MAX, u64::MAX, 0, 0]);
    assert!(a.fits_u128());
    let square = a.checked_mul(a).unwrap();
    assert_eq!(square.words, [1, 0, u64::MAX - 1, u64::MAX]);
    assert!(!square.fits_u128());
    assert_eq!(square.to_u128(), None);
    assert_eq!(square.low_u128(), 1);
    assert!(square.checked_mul(Wide::from_u128(2)).is_none());
    assert!(square.checked_mul(Wide::from_u128(1)).is_some());
    assert_eq!(square.checked_div(a).unwrap().to_u128(), Some(u128::MAX));
    assert!(square.checked_div(Wide::from_u128(0)).is_none());
    assert_eq!(Wide::from_u128(7).checked_mul(Wide::from_u128(6)).unwrap().to_u128(), Some(42));
    assert_eq!(Wide::from_u128(43).checked_div(Wide::from_u128(6)).unwrap().to_u128(), Some(7));
    assert_eq!(Wide::from_u128(1 << 64).words, [0, 1, 0, 0]);
}

#[test]
fn base64_round_trip() {
    assert_eq!(encode(b"hello world"), "aGVsbG8gd29ybGQ=");
    assert_eq!(encode(b""), "");
    assert_eq!(encode(b"desc"), "ZGVzYw==");
    assert_eq!(decode("aGVsbG8gd29ybGQ="), Ok(b"hello world".to_vec()));
    assert_eq!(decode("ZGVzYw=="), Ok(b"desc".to_vec()));
    assert_eq!(decode(""), Ok(vec![]));
    assert_eq!(decode("not base64!"), Err(ContractError::InvalidBase64));
    assert_eq!(decode("a"), Err(ContractError::InvalidBase64));
    assert_eq!(decode("@@@@"), Err(ContractError::InvalidBase64));
}

#[test]
fn sha_256_of_abc() {
    assert_eq!(
        sha_256(b"abc"),
        [
            186, 120, 22, 191, 143, 1, 207, 234, 65, 65, 64, 222, 93, 174, 34, 35, 176, 3, 97, 163,
            150, 23, 122, 156, 180, 16, 255, 97, 242, 0, 21, 173
        ]
    );
}

#[test]
fn entropy_pool_is_a_chain_of_digests() {
    let msg = mage_hands::project::msg::InstantiateMsg {
        creator: b"creator".to_vec(),
        title: String::new(),
        subtitle: None,
        description: String::new(),
        pledged_message: None,
        funded_message: None,
        reward_messages: vec![],
        goal: 1,
        deadline: 10,
        deadman: 10,
        categories: vec![],
        entropy: String::new(),
        source_contract: vec![],
        source_hash: String::new(),
        snip20_contract: vec![],
        snip20_hash: String::new(),
        scheme: mage_hands::project::state::PayoutScheme::Plain,
    };
    let env = mage_hands::host::Env {
        block_height: 1,
        block_time: String::new(),
        contract_address: String::new(),
        contract_code_hash: String::new(),
    };
    let info = mage_hands::host::MessageInfo { sender: vec![] };
    let mut c = mage_hands::project::contract::instantiate(&env, &info, msg).unwrap().0;
    let first = next_random_u64(&c);
    assert_eq!(first, 0x903df1a0ade0b876);
    assert_eq!(next_random_u64(&c), first);
    let mut fresh = get_random_number_generator(&c);
    assert_eq!(rand::RngCore::next_u64(&mut fresh), 0x903df1a0ade0b876);
    assert_eq!(rand::RngCore::next_u64(&mut fresh), 0x28bd8653e56a5d40);
    supply_more_entropy(&mut c, b"msgcall");
    assert_eq!(
        c.entropy_pool,
        [
            4, 43, 170, 193, 53, 98, 57, 61, 213, 133, 135, 129, 219, 34, 131, 157, 218, 91, 37,
            26, 204, 253, 146, 30, 130, 197, 128, 237, 150, 46, 178, 204
        ]
    );
    let second = next_random_u64(&c);
    assert_ne!(first, second);
    let mut expected = c.entropy_pool.to_vec();
    expected.extend_from_slice(b"more");
    let expected = sha_256(&expected);
    supply_more_entropy(&mut c, b"more");
    assert_eq!(c.entropy_pool, expected);
    let mut rng = get_random_number_generator(&c);
    let mut other = get_random_number_generator(&c);
    assert_eq!(rand::RngCore::next_u64(&mut rng), rand::RngCore::next_u64(&mut other));
}

#[test]
fn text_helpers() {
    assert_eq!(with_decimal("n=", 0), "n=0");
    assert_eq!(with_decimal("", 9), "9");
    assert_eq!(with_decimal("", 10), "10");
    assert_eq!(with_decimal("", 1234567890), "1234567890");
    assert_eq!(with_decimal("", u128::MAX), "340282366920938463463374607431768211455");
    assert_eq!(join(&vec![], ", "), "");
    assert_eq!(join(&vec![String::from("a")], ", "), "a");
    assert_eq!(join(&vec![String::from("a"), String::from("b"), String::from("c")], ", "), "a, b, c");
    let mut hex = String::from("0x");
    push_hex(&mut hex, &[0, 10, 255, 0x1f, 0xa0]);
    assert_eq!(hex, "0x000AFF1FA0");
    assert_eq!(u64_to_be_bytes(0x0102030405060708), vec![1, 2, 3, 4, 5, 6, 7, 8]);
    assert_eq!(u64_to_be_bytes(u64::MAX), vec![255; 8]);
    assert_eq!(u64_to_be_bytes(256), 256u64.to_be_bytes().to_vec());
    assert!(bytes_eq(b"abc", b"abc"));
    assert!(!bytes_eq(b"abc", b"abd"));
    assert!(!bytes_eq(b"abc", b"ab"));
    assert!(bytes_eq(b"", b""));
}

#[test]
fn addresses_are_found_at_their_first_place() {
    let list = vec![b"a".to_vec(), b"bb".to_vec(), b"a".to_vec()];
    assert_eq!(find_address(&list, b"a"), Some(0));
    assert_eq!(find_address(&list, b"bb"), Some(1));
    assert_eq!(find_address(&list, b"b"), None);
    assert_eq!(find_address(&vec![], b"a"), None);
}

#[test]
fn page_bounds_skip_and_take() {
    assert_eq!(page_bounds(10, 0, 3), (0, 3));
    assert_eq!(page_bounds(10, 1, 3), (3, 6));
    assert_eq!(page_bounds(10, 3, 3), (9, 10));
    assert_eq!(page_bounds(10, 4, 3), (10, 10));
    assert_eq!(page_bounds(10, 0, 0), (0, 0));
    assert_eq!(page_bounds(10, 5, 0), (0, 0));
    assert_eq!(page_bounds(10, u32::MAX, u32::MAX), (10, 10));
    assert_eq!(page_bounds(0, 0, 5), (0, 0));
    assert_eq!(page_bounds(10, 0, u32::MAX), (0, 10));
}

#[test]
fn errors_have_a_text() {
    assert_eq!(ContractError::Unauthorized.message(), "Unauthorized");
    assert_eq!(ContractError::GoalIsZero.message(), "Goal must be greater than 0");
    assert_eq!(
        ContractError::DeadlineInPast.message(),
        "Cannot create project with deadline in the past"
    );
    assert_eq!(
        ContractError::CreatorScheduleSum.message(),
        "Creator's vesting schedule per mille does not sum to 1000"
    );
    assert_eq!(ContractError::UnknownReplyId(42).message(), "Unknown reply id: 42");
    assert_eq!(ContractError::AlreadyPaidOut.message(), "Already paid out");
}
