use subscription_ledger::contract::SubscriptionContract;
use subscription_ledger::effects::Effect;
use subscription_ledger::fees::DAY;
use subscription_ledger::types::{
    ContractConfig, Error, Identity, Subscription, SubscriptionInitParams, SubscriptionStatus,
};

const HORIZON: u32 = 3_110_400;

fn name(text: &str) -> Identity {
    Identity::new(text.as_bytes().to_vec())
}

fn with_one(fee: u64, amount: u64) -> SubscriptionContract {
    let mut ledger = SubscriptionContract::new();
    let config = ContractConfig { admin: name("admin"), token: name("token"), fee };
    assert_eq!(ledger.config(&name("admin"), config), Ok(()));
    let request = SubscriptionInitParams {
        owner: name("erin"),
        base: b"BTC".to_vec(),
        quote: b"XLM".to_vec(),
        threshold: 5,
        heartbeat: 15,
        webhook: b"erin.example".to_vec(),
    };
    ledger.create_subscription(&name("erin"), request, amount, 0, HORIZON).unwrap();
    ledger
}

fn expected(balance: u64, status: SubscriptionStatus, updated: u64) -> Subscription {
    Subscription {
        owner: name("erin"),
        base: b"BTC".to_vec(),
        quote: b"XLM".to_vec(),
        threshold: 5,
        heartbeat: 15,
        webhook: b"erin.example".to_vec(),
        balance,
        status,
        updated,
    }
}

#[test]
fn deposit_to_an_active_subscription_is_credited_whole() {
    let mut ledger = with_one(100, 250);
    assert_eq!(
        ledger.deposit(&name("frank"), name("frank"), 1, 75, 9, HORIZON),
        Ok(vec![
            Effect::Collect { from: name("frank"), amount: 75 },
            Effect::Retain { id: 1, ledgers: 2 * 17280 },
            Effect::Deposited {
                id: 1,
                subscription: expected(125, SubscriptionStatus::Active, 9),
                amount: 75,
            },
        ])
    );
    assert_eq!(ledger.get_subscription(1), Ok(expected(125, SubscriptionStatus::Active, 9)));
}

#[test]
fn deposit_to_a_suspended_subscription_pays_the_fee_first() {
    let mut ledger = with_one(100, 250);
    ledger.charge(&name("admin"), vec![1], DAY).unwrap();
    assert_eq!(ledger.get_subscription(1), Ok(expected(0, SubscriptionStatus::Suspended, DAY)));
    assert_eq!(
        ledger.deposit(&name("erin"), name("erin"), 1, 100, DAY + 1, HORIZON),
        Ok(vec![
            Effect::Collect { from: name("erin"), amount: 100 },
            Effect::Burn { amount: 100 },
            Effect::Retain { id: 1, ledgers: 0 },
            Effect::Deposited {
                id: 1,
                subscription: expected(0, SubscriptionStatus::Active, DAY + 1),
                amount: 100,
            },
        ])
    );
    assert_eq!(ledger.get_subscription(1), Ok(expected(0, SubscriptionStatus::Active, DAY + 1)));
}

#[test]
fn deposit_below_the_fee_leaves_a_suspended_subscription_suspended() {
    let mut ledger = with_one(100, 280);
    ledger.charge(&name("admin"), vec![1], DAY).unwrap();
    assert_eq!(ledger.deposit(&name("erin"), name("erin"), 1, 99, DAY, HORIZON), Err(Error::InvalidAmount));
    assert_eq!(ledger.get_subscription(1), Ok(expected(0, SubscriptionStatus::Suspended, DAY)));
}

#[test]
fn deposit_from_another_than_the_caller_is_refused() {
    let mut ledger = with_one(100, 250);
    assert_eq!(
        ledger.deposit(&name("mallory"), name("erin"), 1, 75, 9, HORIZON),
        Err(Error::Unauthorized)
    );
    assert_eq!(
        ledger.deposit(&name("mallory"), name("erin"), 9, 0, 9, HORIZON),
        Err(Error::Unauthorized)
    );
    assert_eq!(
        ledger.try_deposit(&name("admin"), name("erin"), 1, 75, 9, HORIZON),
        Some(Err(Error::Unauthorized))
    );
    assert_eq!(ledger.get_subscription(1), Ok(expected(50, SubscriptionStatus::Active, 0)));
}

#[test]
fn deposit_of_nothing_is_refused() {
    let mut ledger = with_one(100, 250);
    assert_eq!(ledger.deposit(&name("erin"), name("erin"), 1, 0, 9, HORIZON), Err(Error::InvalidAmount));
    assert_eq!(ledger.deposit(&name("erin"), name("erin"), 2, 0, 9, HORIZON), Err(Error::InvalidAmount));
    assert_eq!(ledger.get_subscription(1), Ok(expected(50, SubscriptionStatus::Active, 0)));
}

#[test]
fn deposit_to_an_unknown_subscription_is_refused() {
    let mut ledger = with_one(100, 250);
    assert_eq!(ledger.deposit(&name("erin"), name("erin"), 2, 10, 9, HORIZON), Err(Error::SubscriptionNotFound));
    assert_eq!(ledger.deposit(&name("erin"), name("erin"), 0, 10, 9, HORIZON), Err(Error::SubscriptionNotFound));
}

#[test]
fn deposit_before_the_configuration_is_refused() {
    let mut ledger = SubscriptionContract::new();
    assert_eq!(ledger.deposit(&name("erin"), name("erin"), 1, 10, 9, HORIZON), Err(Error::NotInitialized));
    assert_eq!(ledger.deposit(&name("erin"), name("erin"), 1, 0, 9, HORIZON), Err(Error::NotInitialized));
    assert_eq!(ledger.try_deposit(&name("erin"), name("erin"), 1, 0, 9, HORIZON), Some(Err(Error::NotInitialized)));
}

#[test]
fn deposit_that_outlives_the_store_is_refused() {
    let mut ledger = with_one(100, 250);
    assert!(ledger.deposit(&name("erin"), name("erin"), 1, 17_950, 9, HORIZON).is_ok());
    assert_eq!(ledger.get_subscription(1), Ok(expected(18_000, SubscriptionStatus::Active, 9)));
    assert_eq!(ledger.deposit(&name("erin"), name("erin"), 1, 1, 10, HORIZON), Err(Error::InvalidAmount));
    assert_eq!(ledger.get_subscription(1), Ok(expected(18_000, SubscriptionStatus::Active, 9)));
}

#[test]
fn try_deposit_declines_what_does_not_fit() {
    let config = ContractConfig { admin: name("admin"), token: name("token"), fee: 1 };
    let mut ledger = SubscriptionContract::restore(config, 1);
    assert!(ledger.load_subscription(1, expected(u64::MAX - 2, SubscriptionStatus::Active, 0)));
    assert_eq!(ledger.try_deposit(&name("erin"), name("erin"), 1, 3, 9, u32::MAX), None);
    assert_eq!(ledger.try_deposit(&name("erin"), name("erin"), 1, 2, 9, u32::MAX), Some(Err(Error::InvalidAmount)));
    assert_eq!(ledger.get_subscription(1).unwrap().balance, u64::MAX - 2);
    assert_eq!(ledger.get_subscription(1).unwrap().updated, 0);
}

#[test]
fn try_deposit_declines_where_the_fee_is_zero() {
    let mut ledger = with_one(1, 10);
    ledger.set_fee(&name("admin"), 0).unwrap();
    assert_eq!(ledger.try_deposit(&name("erin"), name("erin"), 1, 5, 9, HORIZON), None);
    assert_eq!(ledger.try_deposit(&name("erin"), name("erin"), 1, 0, 9, HORIZON), Some(Err(Error::InvalidAmount)));
    assert_eq!(
        ledger.try_deposit(&name("erin"), name("erin"), 4, 5, 9, HORIZON),
        Some(Err(Error::SubscriptionNotFound))
    );
}

#[test]
fn try_deposit_deposits_where_it_can() {
    let mut ledger = with_one(100, 250);
    let effects = ledger.try_deposit(&name("erin"), name("erin"), 1, 51, 9, HORIZON).unwrap().unwrap();
    assert_eq!(effects[1], Effect::Retain { id: 1, ledgers: 2 * 17280 });
    assert_eq!(ledger.get_subscription(1), Ok(expected(101, SubscriptionStatus::Active, 9)));
}
