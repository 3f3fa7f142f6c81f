use subscription_ledger::contract::SubscriptionContract;
use subscription_ledger::fees::{
    calc_fee, calc_ledgers_to_live, now, try_now, DAY, LEDGERS_PER_DAY,
};
use subscription_ledger::types::{
    Error, Identity, MAX_THRESHOLD, MAX_WEBHOOK_SIZE, MIN_HEARTBEAT,
};
use subscription_ledger::version::parse_major;

#[test]
fn constants_of_the_ledger() {
    assert_eq!(DAY, 86_400_000);
    assert_eq!(LEDGERS_PER_DAY, 17280);
    assert_eq!(MIN_HEARTBEAT, 5);
    assert_eq!(MAX_THRESHOLD, 10000);
    assert_eq!(MAX_WEBHOOK_SIZE, 2048);
}

#[test]
fn now_is_in_milliseconds() {
    assert_eq!(now(0), 0);
    assert_eq!(now(1_700_000_000), 1_700_000_000_000);
    assert_eq!(now(u64::MAX / 1000), 18_446_744_073_709_551_000);
}

#[test]
fn try_now_declines_what_does_not_fit() {
    assert_eq!(try_now(0), Some(0));
    assert_eq!(try_now(1_700_000_000), Some(1_700_000_000_000));
    assert_eq!(try_now(18_446_744_073_709_551), Some(18_446_744_073_709_551_000));
    assert_eq!(try_now(18_446_744_073_709_552), None);
    assert_eq!(try_now(u64::MAX), None);
}

#[test]
fn fee_is_flat() {
    assert_eq!(calc_fee(100, 5, 1), 100);
    assert_eq!(calc_fee(100, 1440, 10000), 100);
    assert_eq!(calc_fee(0, 0, 0), 0);
    assert_eq!(calc_fee(u64::MAX, u32::MAX, u32::MAX), u64::MAX);
}

#[test]
fn retention_counts_a_started_day_as_a_whole_one() {
    assert_eq!(calc_ledgers_to_live(100, 0, 1_000_000), Ok(0));
    assert_eq!(calc_ledgers_to_live(100, 1, 1_000_000), Ok(17280));
    assert_eq!(calc_ledgers_to_live(100, 100, 1_000_000), Ok(17280));
    assert_eq!(calc_ledgers_to_live(100, 101, 1_000_000), Ok(34560));
    assert_eq!(calc_ledgers_to_live(1, 57, 1_000_000), Ok(984_960));
    assert_eq!(calc_ledgers_to_live(u64::MAX, u64::MAX, 17280), Ok(17280));
}

#[test]
fn retention_beyond_the_store_is_refused() {
    assert_eq!(calc_ledgers_to_live(100, 1, 17279), Err(Error::InvalidAmount));
    assert_eq!(calc_ledgers_to_live(100, 1, 17280), Ok(17280));
    assert_eq!(calc_ledgers_to_live(100, 0, 0), Ok(0));
    assert_eq!(calc_ledgers_to_live(1, 58, 1_000_000), Err(Error::InvalidAmount));
    assert_eq!(calc_ledgers_to_live(1, u64::MAX, u32::MAX), Err(Error::InvalidAmount));
    // 248_552 days would come to 4_294_978_560 ledgers, past 32 bits.
    assert_eq!(calc_ledgers_to_live(1, 248_552, u32::MAX), Err(Error::InvalidAmount));
    assert_eq!(calc_ledgers_to_live(1, 248_551, u32::MAX), Ok(4_294_961_280));
}

#[test]
fn version_is_the_major_number() {
    assert_eq!(SubscriptionContract::version("1.0.0"), Some(1));
    assert_eq!(SubscriptionContract::version("12.3.4"), Some(12));
    assert_eq!(SubscriptionContract::version("0.9"), Some(0));
    assert_eq!(SubscriptionContract::version("7"), Some(7));
    assert_eq!(SubscriptionContract::version("007.1"), Some(7));
    assert_eq!(SubscriptionContract::version("+3.1"), Some(3));
    assert_eq!(SubscriptionContract::version("4294967295.0"), Some(u32::MAX));
}

#[test]
fn version_without_a_number_is_none() {
    assert_eq!(SubscriptionContract::version(""), None);
    assert_eq!(SubscriptionContract::version(".1"), None);
    assert_eq!(SubscriptionContract::version("+"), None);
    assert_eq!(SubscriptionContract::version("+.5"), None);
    assert_eq!(SubscriptionContract::version("++5"), None);
    assert_eq!(SubscriptionContract::version("-1.0"), None);
    assert_eq!(SubscriptionContract::version("1a.0"), None);
    assert_eq!(SubscriptionContract::version(" 1.0"), None);
    assert_eq!(SubscriptionContract::version("v1.0"), None);
    assert_eq!(SubscriptionContract::version("4294967296.0"), None);
    assert_eq!(SubscriptionContract::version("99999999999999999999999.0"), None);
    assert_eq!(SubscriptionContract::version("1\u{e9}.0"), None);
}

#[test]
fn version_agrees_with_the_parser_of_the_standard_library() {
    for text in ["1.0.0", "+3.1", "007.1", "", "+", "-1", "4294967296", "4294967295", "12x.1"] {
        let expected = text.split('.').next().unwrap().parse::<u32>().ok();
        assert_eq!(SubscriptionContract::version(text), expected);
        assert_eq!(parse_major(text.as_bytes()), expected);
    }
}

#[test]
fn identities_compare_by_their_bytes() {
    let alice = Identity::new(b"alice".to_vec());
    assert!(alice.same_as(&Identity::new(b"alice".to_vec())));
    assert!(!alice.same_as(&Identity::new(b"alicf".to_vec())));
    assert!(!alice.same_as(&Identity::new(b"alic".to_vec())));
    assert!(!alice.same_as(&Identity::new(Vec::new())));
    assert_eq!(alice.as_bytes(), &b"alice".to_vec());
    assert_eq!(alice.clone(), alice);
}
