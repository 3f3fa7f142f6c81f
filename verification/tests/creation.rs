use subscription_ledger::contract::SubscriptionContract;
use subscription_ledger::effects::Effect;
use subscription_ledger::types::{
    ContractConfig, Error, Identity, Subscription, SubscriptionInitParams, SubscriptionStatus,
};

const TTL: u32 = 3_110_400;

fn party(name: &str) -> Identity {
    Identity::new(name.as_bytes().to_vec())
}

fn ledger_with_fee(fee: u64) -> SubscriptionContract {
    let mut ledger = SubscriptionContract::new();
    let config = ContractConfig { admin: party("admin"), token: party("token"), fee };
    assert_eq!(ledger.config(&party("admin"), config), Ok(()));
    ledger
}

fn request(threshold: u32, heartbeat: u32, webhook_len: usize) -> SubscriptionInitParams {
    SubscriptionInitParams {
        owner: party("carol"),
        base: b"ETH".to_vec(),
        quote: b"EUR".to_vec(),
        threshold,
        heartbeat,
        webhook: vec![b'w'; webhook_len],
    }
}

#[test]
fn creation_opens_with_the_amount_less_twice_the_fee() {
    let mut ledger = ledger_with_fee(7);
    let (id, subscription, _) = ledger.create_subscription(&party("carol"), request(1, 5, 0), 1000, 55, TTL).unwrap();
    assert_eq!(id, 1);
    assert_eq!(
        subscription,
        Subscription {
            owner: party("carol"),
            base: b"ETH".to_vec(),
            quote: b"EUR".to_vec(),
            threshold: 1,
            heartbeat: 5,
            webhook: Vec::new(),
            balance: 986,
            status: SubscriptionStatus::Active,
            updated: 55,
        }
    );
    assert_eq!(ledger.get_subscription(1), Ok(subscription));
    let (id, subscription, _) =
        ledger.create_subscription(&party("carol"), request(10000, 6, 2048), 14, 56, TTL).unwrap();
    assert_eq!(id, 2);
    assert_eq!(subscription.balance, 0);
    assert_eq!(subscription.status, SubscriptionStatus::Active);
    assert_eq!(ledger.last_id(), Ok(2));
}

#[test]
fn creation_effects_follow_the_order_of_the_ledger() {
    let mut ledger = ledger_with_fee(7);
    let (_, subscription, effects) =
        ledger.create_subscription(&party("carol"), request(1, 5, 3), 30, 55, TTL).unwrap();
    assert_eq!(
        effects,
        vec![
            Effect::Collect { from: party("carol"), amount: 30 },
            Effect::Burn { amount: 14 },
            Effect::Retain { id: 1, ledgers: 3 * 17280 },
            Effect::Created { id: 1, subscription },
        ]
    );
}

#[test]
fn creation_for_another_owner_is_refused() {
    let mut ledger = ledger_with_fee(7);
    assert_eq!(
        ledger.create_subscription(&party("mallory"), request(1, 5, 0), 1000, 55, TTL),
        Err(Error::Unauthorized)
    );
    assert_eq!(
        ledger.create_subscription(&party("admin"), request(0, 0, 5000), 0, 55, TTL),
        Err(Error::Unauthorized)
    );
    assert_eq!(ledger.last_id(), Ok(0));
}

#[test]
fn underfunded_creation_is_refused() {
    let mut ledger = ledger_with_fee(100);
    assert_eq!(ledger.create_subscription(&party("carol"), request(1, 5, 0), 199, 0, TTL), Err(Error::InvalidAmount));
    assert_eq!(ledger.create_subscription(&party("carol"), request(0, 0, 5000), 199, 0, TTL), Err(Error::InvalidAmount));
    assert_eq!(ledger.create_subscription(&party("carol"), request(1, 5, 0), 0, 0, TTL), Err(Error::InvalidAmount));
    assert_eq!(ledger.last_id(), Ok(0));
    assert_eq!(ledger.get_subscription(1), Err(Error::SubscriptionNotFound));
}

#[test]
fn creation_with_a_fee_beyond_half_the_range_is_underfunded() {
    let mut ledger = ledger_with_fee(u64::MAX);
    assert_eq!(
        ledger.create_subscription(&party("carol"), request(1, 5, 0), u64::MAX, 0, TTL),
        Err(Error::InvalidAmount)
    );
}

#[test]
fn short_heartbeat_is_refused() {
    let mut ledger = ledger_with_fee(100);
    assert_eq!(ledger.create_subscription(&party("carol"), request(1, 4, 0), 200, 0, TTL), Err(Error::InvalidHeartbeat));
    assert_eq!(
        ledger.create_subscription(&party("carol"), request(0, 0, 5000), 200, 0, TTL),
        Err(Error::InvalidHeartbeat)
    );
    assert!(ledger.create_subscription(&party("carol"), request(1, 5, 0), 200, 0, TTL).is_ok());
}

#[test]
fn threshold_out_of_range_is_refused() {
    let mut ledger = ledger_with_fee(100);
    assert_eq!(ledger.create_subscription(&party("carol"), request(0, 5, 0), 200, 0, TTL), Err(Error::InvalidThreshold));
    assert_eq!(
        ledger.create_subscription(&party("carol"), request(10001, 5, 5000), 200, 0, TTL),
        Err(Error::InvalidThreshold)
    );
    assert!(ledger.create_subscription(&party("carol"), request(10000, 5, 0), 200, 0, TTL).is_ok());
}

#[test]
fn long_webhook_is_refused() {
    let mut ledger = ledger_with_fee(100);
    assert_eq!(
        ledger.create_subscription(&party("carol"), request(1, 5, 2049), 200, 0, TTL),
        Err(Error::WebhookTooLong)
    );
    assert!(ledger.create_subscription(&party("carol"), request(1, 5, 2048), 200, 0, TTL).is_ok());
}

#[test]
fn creation_before_the_configuration_is_refused() {
    let mut ledger = SubscriptionContract::new();
    assert_eq!(ledger.create_subscription(&party("carol"), request(1, 5, 0), 200, 0, TTL), Err(Error::NotInitialized));
    assert_eq!(
        ledger.try_create_subscription(&party("carol"), request(0, 0, 5000), 0, 0, TTL),
        Some(Err(Error::NotInitialized))
    );
}

#[test]
fn creation_that_outlives_the_store_is_refused() {
    let mut ledger = ledger_with_fee(100);
    // 180 days are the most that 3_110_400 ledgers keep.
    assert!(ledger.create_subscription(&party("carol"), request(1, 5, 0), 200 + 18_000, 0, TTL).is_ok());
    assert_eq!(
        ledger.create_subscription(&party("carol"), request(1, 5, 0), 200 + 18_001, 0, TTL),
        Err(Error::InvalidAmount)
    );
    assert_eq!(ledger.last_id(), Ok(1));
    assert_eq!(ledger.create_subscription(&party("carol"), request(1, 5, 0), 201, 0, 17279), Err(Error::InvalidAmount));
    assert!(ledger.create_subscription(&party("carol"), request(1, 5, 0), 200, 0, 0).is_ok());
}

#[test]
fn try_creation_declines_where_the_fee_is_zero() {
    let mut ledger = ledger_with_fee(0);
    assert_eq!(ledger.try_create_subscription(&party("carol"), request(1, 5, 0), 10, 0, TTL), None);
    assert_eq!(
        ledger.try_create_subscription(&party("carol"), request(1, 4, 0), 10, 0, TTL),
        Some(Err(Error::InvalidHeartbeat))
    );
    assert_eq!(ledger.last_id(), Ok(0));
}

#[test]
fn try_creation_declines_where_the_counter_has_run_out() {
    let config = ContractConfig { admin: party("admin"), token: party("token"), fee: 1 };
    let mut ledger = SubscriptionContract::restore(config, u64::MAX);
    assert_eq!(ledger.try_create_subscription(&party("carol"), request(1, 5, 0), 10, 0, TTL), None);
    assert_eq!(
        ledger.try_create_subscription(&party("carol"), request(1, 5, 0), 1, 0, TTL),
        Some(Err(Error::InvalidAmount))
    );
    assert_eq!(ledger.last_id(), Ok(u64::MAX));
}

#[test]
fn try_creation_creates_where_it_can() {
    let mut ledger = ledger_with_fee(3);
    let attempt = ledger.try_create_subscription(&party("carol"), request(1, 5, 0), 10, 4, TTL);
    let (id, subscription, effects) = attempt.unwrap().unwrap();
    assert_eq!(id, 1);
    assert_eq!(subscription.balance, 4);
    assert_eq!(effects.len(), 4);
    assert_eq!(effects[2], Effect::Retain { id: 1, ledgers: 2 * 17280 });
}
