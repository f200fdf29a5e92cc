use dao_gov::decimal::{Decimal, DECIMAL_FRACTIONAL};
use dao_gov::error::{ContractError, StdError, ValidateError};
use dao_gov::keys::poll_key;
use dao_gov::math::{isqrt, multiply_ratio};
use dao_gov::scan::{key_less, page_limit};
use dao_gov::table::{find_key, Table};
use dao_gov::utils::{
    validate_description, validate_link, validate_texts, validate_title, verdict, Verdict,
};

#[test]
fn integer_square_roots() {
    let cases: [(u128, u128); 12] = [
        (0, 0),
        (1, 1),
        (2, 1),
        (3, 1),
        (4, 2),
        (8, 2),
        (9, 3),
        (99, 9),
        (100, 10),
        (101, 10),
        (u64::MAX as u128 * u64::MAX as u128, u64::MAX as u128),
        (u128::MAX, u64::MAX as u128),
    ];
    for (n, root) in cases {
        assert_eq!(isqrt(n), root);
    }
    let below = u64::MAX as u128 * u64::MAX as u128 - 1;
    assert_eq!(isqrt(below), u64::MAX as u128 - 1);
}

#[test]
fn ratios_round_down_over_256_bits() {
    assert_eq!(multiply_ratio(7, 3, 2), Some(10));
    assert_eq!(multiply_ratio(0, 3, 2), Some(0));
    assert_eq!(multiply_ratio(u128::MAX, u128::MAX, u128::MAX), Some(u128::MAX));
    assert_eq!(multiply_ratio(u128::MAX, 2, 3), Some(226854911280625642308916404954512140970));
    assert_eq!(multiply_ratio(u128::MAX, 2, 1), None);
    assert_eq!(multiply_ratio(1, 1, 0), None);
}

#[test]
fn decimals_from_ratios() {
    assert_eq!(Decimal::checked_from_ratio(1, 10), Some(Decimal::percent(10)));
    assert_eq!(Decimal::checked_from_ratio(1, 3), Some(Decimal::new(333_333_333_333_333_333)));
    assert_eq!(Decimal::checked_from_ratio(80, 190), Some(Decimal::new(421_052_631_578_947_368)));
    assert_eq!(Decimal::checked_from_ratio(5, 5), Some(Decimal::one()));
    assert_eq!(Decimal::checked_from_ratio(0, 5), Some(Decimal::zero()));
    assert_eq!(Decimal::checked_from_ratio(1, 0), None);
    assert_eq!(Decimal::checked_from_ratio(u128::MAX, 1), None);
    assert_eq!(
        Decimal::checked_from_ratio(u128::MAX, DECIMAL_FRACTIONAL),
        Some(Decimal::new(u128::MAX))
    );
    assert_eq!(Decimal::one().atomics(), 1_000_000_000_000_000_000);
    assert_eq!(Decimal::percent(1).atomics(), 10_000_000_000_000_000);
    assert_eq!(Decimal::percent(u64::MAX).atomics(), u64::MAX as u128 * 10_000_000_000_000_000);
}

#[test]
fn the_rule_that_settles_a_poll() {
    let tenth = Decimal::percent(10);
    let half = Decimal::percent(50);
    assert_eq!(verdict(0, 0, Some(100), tenth, half), Ok(Verdict::QuorumNotReached));
    assert_eq!(verdict(0, 0, Some(0), tenth, half), Err(StdError::DivideByZero));
    assert_eq!(verdict(9, 0, Some(100), tenth, half), Ok(Verdict::QuorumNotReached));
    assert_eq!(verdict(10, 0, Some(100), tenth, half), Ok(Verdict::Passed));
    assert_eq!(verdict(5, 5, Some(100), tenth, half), Ok(Verdict::ThresholdNotReached));
    assert_eq!(verdict(6, 5, Some(100), tenth, half), Ok(Verdict::Passed));
    assert_eq!(verdict(0, 50, Some(100), tenth, half), Ok(Verdict::ThresholdNotReached));
    // no share at all: the turnout counts as nothing
    assert_eq!(verdict(10, 0, None, tenth, half), Ok(Verdict::QuorumNotReached));
    assert_eq!(verdict(10, 0, None, Decimal::zero(), half), Ok(Verdict::Passed));
    assert_eq!(verdict(0, 0, None, Decimal::zero(), Decimal::zero()), Ok(Verdict::QuorumNotReached));
    // all in favour is not more than all
    assert_eq!(verdict(10, 0, Some(10), tenth, Decimal::one()), Ok(Verdict::ThresholdNotReached));
    assert_eq!(verdict(1, 0, Some(10), Decimal::one(), half), Ok(Verdict::QuorumNotReached));
    assert_eq!(verdict(u128::MAX, 1, Some(1), tenth, half), Err(StdError::Overflow));
    assert_eq!(verdict(u128::MAX, 0, Some(1), tenth, half), Err(StdError::Overflow));
    assert_eq!(verdict(u128::MAX, 0, Some(u128::MAX), tenth, half), Ok(Verdict::Passed));
}

#[test]
fn texts_have_bounds() {
    let of = |n: usize| "t".repeat(n);
    assert_eq!(
        validate_title(&of(3)).unwrap_err(),
        ContractError::ValidateMsg(ValidateError::TitleTooShort)
    );
    assert!(validate_title(&of(4)).is_ok());
    assert!(validate_title(&of(64)).is_ok());
    assert_eq!(
        validate_title(&of(65)).unwrap_err(),
        ContractError::ValidateMsg(ValidateError::TitleTooLong)
    );
    assert_eq!(
        validate_description(&of(3)).unwrap_err(),
        ContractError::ValidateMsg(ValidateError::DescriptionTooShort)
    );
    assert!(validate_description(&of(4)).is_ok());
    assert!(validate_description(&of(1024)).is_ok());
    assert_eq!(
        validate_description(&of(1025)).unwrap_err(),
        ContractError::ValidateMsg(ValidateError::DescriptionTooLong)
    );
    assert!(validate_link(&None).is_ok());
    assert_eq!(
        validate_link(&Some(of(11))).unwrap_err(),
        ContractError::ValidateMsg(ValidateError::LinkTooShort)
    );
    assert!(validate_link(&Some(of(12))).is_ok());
    assert!(validate_link(&Some(of(128))).is_ok());
    assert_eq!(
        validate_link(&Some(of(129))).unwrap_err(),
        ContractError::ValidateMsg(ValidateError::LinkTooLong)
    );
    assert_eq!(
        validate_texts(&of(4), &of(2000), &Some(of(1))).unwrap_err(),
        ContractError::ValidateMsg(ValidateError::DescriptionTooLong)
    );
}

#[test]
fn keys_are_ordered_by_their_bytes() {
    let lt = |a: &str, b: &str| key_less(&a.to_string(), &b.to_string());
    assert!(lt("", "a"));
    assert!(!lt("a", ""));
    assert!(!lt("", ""));
    assert!(lt("a", "b"));
    assert!(lt("a", "aa"));
    assert!(lt("ab", "b"));
    assert!(lt("B", "a"));
    assert!(lt("z", "é"));
    assert!(!lt("abc", "abc"));
    assert!(!lt("abd", "abc"));
}

#[test]
fn page_limits() {
    assert_eq!(page_limit(None), 10);
    assert_eq!(page_limit(Some(0)), 0);
    assert_eq!(page_limit(Some(29)), 29);
    assert_eq!(page_limit(Some(30)), 30);
    assert_eq!(page_limit(Some(31)), 30);
}

#[test]
fn tables_keep_one_value_per_key() {
    let mut table: Table<u8> = Table::new();
    let key = |x: &str| x.to_string();
    assert_eq!(table.len(), 0);
    assert_eq!(table.insert(key("a"), 1), 0);
    assert_eq!(table.insert(key("b"), 2), 1);
    assert_eq!(table.insert(key("c"), 3), 2);
    assert_eq!(table.find(&key("b")), Some(1));
    assert_eq!(table.find(&key("d")), None);
    assert_eq!(table.swap_remove(0), 1);
    assert_eq!(table.keys, vec![key("c"), key("b")]);
    assert_eq!(table.vals, vec![3, 2]);
    assert_eq!(find_key(&table.keys, &key("c")), Some(0));
    assert_eq!(table.find(&key("a")), None);
    assert_eq!(table.len(), 2);
}

#[test]
fn poll_keys_are_big_endian() {
    assert_eq!(poll_key(0), vec![0, 0, 0, 0, 0, 0, 0, 0]);
    assert_eq!(poll_key(1), vec![0, 0, 0, 0, 0, 0, 0, 1]);
    assert_eq!(poll_key(256), vec![0, 0, 0, 0, 0, 0, 1, 0]);
    assert_eq!(poll_key(0x0102_0304_0506_0708), vec![1, 2, 3, 4, 5, 6, 7, 8]);
    assert_eq!(poll_key(u64::MAX), vec![255; 8]);
    for id in [0, 1, 255, 256, 65_535, 1 << 40, u64::MAX - 1, u64::MAX] {
        assert_eq!(poll_key(id), id.to_be_bytes().to_vec());
    }
}

#[test]
fn poll_keys_are_ordered_as_ids() {
    let ids = [0, 1, 2, 255, 256, 257, 65_535, 65_536, 1 << 32, (1 << 56) - 1, 1 << 56, u64::MAX];
    for a in ids {
        for b in ids {
            assert_eq!(poll_key(a) < poll_key(b), a < b);
        }
    }
}
