//! The ledger itself: its state, and the operations that administer it and run
//! the life of its subscriptions.

use std::collections::HashMap;
use vstd::prelude::*;
use crate::effects::{effect_views, emit, Effect, EffectView};
use crate::fees::{calc_fee, calc_ledgers_to_live, DAY};
use crate::model::{charge_batch, collection, elapsed_days, ContractView};
use crate::types::{
    copy_bytes, ContractConfig, Error, Identity, Subscription, SubscriptionInitParams,
    SubscriptionInitParamsView, SubscriptionStatus, SubscriptionView, MAX_THRESHOLD,
    MAX_WEBHOOK_SIZE, MIN_HEARTBEAT,
};

verus! {

broadcast use vstd::std_specs::hash::group_hash_axioms;

/// A subscription ledger: its configuration, its id counter and its stored
/// subscriptions.
#[derive(Debug)]
pub struct SubscriptionContract {
    initialized: bool,
    admin: Identity,
    token: Identity,
    fee: u64,
    last_id: u64,
    subscriptions: HashMap<u64, Subscription>,
}

impl View for SubscriptionContract {
    type V = ContractView;

    closed spec fn view(&self) -> ContractView {
        ContractView {
            initialized: self.initialized,
            admin: self.admin@,
            token: self.token@,
            fee: self.fee as nat,
            last_id: self.last_id,
            subscriptions: Map::new(
                |id: u64| self.subscriptions@.contains_key(id),
                |id: u64| self.subscriptions@[id]@,
            ),
        }
    }
}

/// Whether `result` and the state `after` are what the creation of a
/// subscription, asked for by `caller`, makes of the state `before`. A creation that is refused
/// changes nothing, and `result` is the first reason to refuse it. Else the
/// subscription is stored under the next id, and `result` holds the id, the
/// record and the effects.
pub open spec fn is_creation(
    before: ContractView,
    after: ContractView,
    caller: Seq<u8>,
    params: SubscriptionInitParamsView,
    amount: nat,
    now: nat,
    max_ttl: nat,
    result: Result<(u64, Subscription, Vec<Effect>), Error>,
) -> bool {
    match result {
        Ok((id, subscription, effects)) => {
            &&& before.creation_error(caller, params, amount, max_ttl) is None
            &&& id == before.last_id + 1
            &&& subscription@ == params.opened(before.opening_balance(params, amount), now)
            &&& after == before.after_create(params, amount, now)
            &&& effect_views(effects@) == before.creation_effects(params, amount, now)
        },
        Err(error) => before.creation_error(caller, params, amount, max_ttl) == Some(error) && after
            == before,
    }
}

/// Whether `result` and the state `after` are what a deposit paid by `from`,
/// asked for by `caller`, makes of the state `before`. A deposit that is refused changes nothing, and
/// `result` is the first reason to refuse it. Else the subscription is
/// credited, and `result` holds the effects.
pub open spec fn is_deposit(
    before: ContractView,
    after: ContractView,
    caller: Seq<u8>,
    from: Seq<u8>,
    id: u64,
    amount: nat,
    now: nat,
    max_ttl: nat,
    result: Result<Vec<Effect>, Error>,
) -> bool {
    match result {
        Ok(effects) => {
            &&& before.deposit_error(caller, from, id, amount, now, max_ttl) is None
            &&& after == before.after_deposit(id, amount, now)
            &&& effect_views(effects@) == before.deposit_effects(from, id, amount, now)
        },
        Err(error) => before.deposit_error(caller, from, id, amount, now, max_ttl) == Some(error) && after
            == before,
    }
}

/// Whole days from `updated` to `now`.
fn days_between(updated: u64, now: u64) -> (days: u64)
    ensures
        days == elapsed_days(updated as nat, now as nat),
{
    if now >= updated {
        (now - updated) / DAY
    } else {
        0
    }
}

/// Charges one subscription, stored under `id`, at `now`, and appends the
/// events of the charge to `effects`. Returns what was charged.
fn charge_subscription(
    subscription: &mut Subscription,
    id: u64,
    base_fee: u64,
    now: u64,
    effects: &mut Vec<Effect>,
) -> (charge: u64)
    ensures
        final(subscription)@ == old(subscription)@.charged(base_fee as nat, now as nat),
        effect_views(final(effects)@) == effect_views(old(effects)@) + old(
            subscription,
        )@.charge_events(id, base_fee as nat, now as nat),
        charge == old(subscription)@.charge_due(base_fee as nat, now as nat),
{
    let days = days_between(subscription.updated, now);
    if days == 0 {
        assert(effect_views(effects@) =~= effect_views(old(effects)@) + old(
            subscription,
        )@.charge_events(id, base_fee as nat, now as nat));
        return 0;
    }
    let fee = calc_fee(base_fee, subscription.heartbeat, subscription.threshold);
    assert(days * fee <= u128::MAX) by (nonlinear_arith)
        requires
            days <= u64::MAX,
            fee <= u64::MAX,
    ;
    let due: u128 = days as u128 * fee as u128;
    let charge: u64 = if due > subscription.balance as u128 {
        subscription.balance
    } else {
        due as u64
    };
    subscription.balance = subscription.balance - charge;
    subscription.updated = now;
    if subscription.balance < fee {
        subscription.status = SubscriptionStatus::Suspended;
        emit(effects, Effect::Suspended { owner: subscription.owner.clone(), timestamp: now, id });
    }
    emit(
        effects,
        Effect::Charged { owner: subscription.owner.clone(), timestamp: now, id, amount: charge },
    );
    assert(effect_views(effects@) =~= effect_views(old(effects)@) + old(
        subscription,
    )@.charge_events(id, base_fee as nat, now as nat));
    charge
}

/// Appends to `effects` what takes `amount` from `from` into the holdings of
/// the ledger and destroys `burn_amount` of it.
fn transfer_tokens_to_current_contract(
    effects: &mut Vec<Effect>,
    from: Identity,
    amount: u64,
    burn_amount: u64,
)
    ensures
        effect_views(final(effects)@) == effect_views(old(effects)@) + collection(
            from@,
            amount as nat,
            burn_amount as nat,
        ),
{
    let ghost payer = from@;
    emit(effects, Effect::Collect { from, amount });
    if burn_amount > 0 {
        emit(effects, Effect::Burn { amount: burn_amount as u128 });
    }
    assert(effect_views(effects@) =~= effect_views(old(effects)@) + collection(
        payer,
        amount as nat,
        burn_amount as nat,
    ));
}

impl Clone for SubscriptionContract {
    /// A copy of the ledger. An operation changes the ledger at once, before
    /// its effects are carried out; a caller whose value ledger may refuse an
    /// effect keeps a copy to go back to.
    fn clone(&self) -> (copy: SubscriptionContract)
        ensures
            copy@ == self@,
    {
        let copy = SubscriptionContract {
            initialized: self.initialized,
            admin: self.admin.clone(),
            token: self.token.clone(),
            fee: self.fee,
            last_id: self.last_id,
            subscriptions: self.subscriptions.clone(),
        };
        assert(copy@.subscriptions =~= self@.subscriptions);
        copy
    }
}

impl SubscriptionContract {
    /// A ledger that has not been configured and holds no subscription.
    pub fn new() -> (contract: SubscriptionContract)
        ensures
            contract@ == ContractView::unconfigured(),
            contract@.well_formed(),
    {
        let contract = SubscriptionContract {
            initialized: false,
            admin: Identity::new(Vec::new()),
            token: Identity::new(Vec::new()),
            fee: 0,
            last_id: 0,
            subscriptions: HashMap::new(),
        };
        assert(contract@.subscriptions =~= Map::empty());
        contract
    }

    /// Whether `caller` is the administrator of this ledger.
    fn is_admin(&self, caller: &Identity) -> (allowed: bool)
        ensures
            allowed == self@.is_admin(caller@),
    {
        self.initialized && caller.same_as(&self.admin)
    }

    /// Configures the ledger on behalf of `caller`, who must be the
    /// administrator that `config` names: sets the administrator, the base fee
    /// and the token, and resets the id counter. Works once; a ledger that has
    /// been configured refuses and keeps what it holds.
    pub fn config(&mut self, caller: &Identity, config: ContractConfig) -> (result: Result<
        (),
        Error,
    >)
        requires
            old(self)@.well_formed(),
        ensures
            final(self)@.well_formed(),
            match result {
                Ok(_) => old(self)@.config_error(caller@, config@) is None && final(self)@
                    == old(self)@.configured(config@),
                Err(error) => old(self)@.config_error(caller@, config@) == Some(error)
                    && final(self)@ == old(self)@,
            },
    {
        if !caller.same_as(&config.admin) {
            return Err(Error::Unauthorized);
        }
        if self.initialized {
            return Err(Error::AlreadyInitialized);
        }
        self.initialized = true;
        self.admin = config.admin;
        self.fee = config.fee;
        self.token = config.token;
        self.last_id = 0;
        assert(self@ =~= old(self)@.configured(config@));
        Ok(())
    }

    /// Replaces the base fee. Reserved for the administrator; any other caller
    /// is refused and the fee stays.
    pub fn set_fee(&mut self, caller: &Identity, fee: u64) -> (result: Result<(), Error>)
        requires
            old(self)@.well_formed(),
        ensures
            final(self)@.well_formed(),
            match result {
                Ok(_) => old(self)@.admin_error(caller@) is None && final(self)@ == old(
                    self,
                )@.with_fee(fee as nat),
                Err(error) => old(self)@.admin_error(caller@) == Some(error) && final(self)@
                    == old(self)@,
            },
    {
        if !self.is_admin(caller) {
            return Err(Error::Unauthorized);
        }
        self.fee = fee;
        assert(self@ =~= old(self)@.with_fee(fee as nat));
        Ok(())
    }

    /// Charges the subscriptions named by `subscription_ids` at `now`, one
    /// after the other, and destroys the total in one piece. An id without a
    /// record is passed over, and so is a record on which no whole day has
    /// elapsed, one updated after `now` included. Reserved for the
    /// administrator.
    pub fn charge(&mut self, caller: &Identity, subscription_ids: Vec<u64>, now: u64) -> (result:
        Result<Vec<Effect>, Error>)
        requires
            old(self)@.well_formed(),
        ensures
            final(self)@.well_formed(),
            match result {
                Ok(effects) => {
                    &&& old(self)@.admin_error(caller@) is None
                    &&& final(self)@ == old(self)@.after_charge(subscription_ids@, now as nat)
                    &&& effect_views(effects@) == old(self)@.charge_effects(
                        subscription_ids@,
                        now as nat,
                    )
                },
                Err(error) => old(self)@.admin_error(caller@) == Some(error) && final(self)@
                    == old(self)@,
            },
    {
        if !self.is_admin(caller) {
            return Err(Error::Unauthorized);
        }
        let ghost start = self@;
        let mut effects: Vec<Effect> = Vec::new();
        let mut total: u128 = 0;
        let mut i: usize = 0;
        assert(subscription_ids@.take(0) =~= Seq::<u64>::empty());
        assert(effect_views(effects@) =~= Seq::<EffectView>::empty());
        assert(self@ =~= start.with_subscriptions(start.subscriptions));
        while i < subscription_ids.len()
            invariant
                i <= subscription_ids.len(),
                start.well_formed(),
                self@.well_formed(),
                self@ == start.with_subscriptions(
                    charge_batch(
                        start.subscriptions,
                        subscription_ids@.take(i as int),
                        start.fee,
                        now as nat,
                    ).subscriptions,
                ),
                effect_views(effects@) == charge_batch(
                    start.subscriptions,
                    subscription_ids@.take(i as int),
                    start.fee,
                    now as nat,
                ).events,
                total == charge_batch(
                    start.subscriptions,
                    subscription_ids@.take(i as int),
                    start.fee,
                    now as nat,
                ).total,
                total <= i * u64::MAX,
            decreases subscription_ids.len() - i,
        {
            let id = subscription_ids[i];
            let ghost before = self@;
            assert(subscription_ids@.take(i + 1).drop_last() =~= subscription_ids@.take(i as int));
            assert(subscription_ids@.take(i + 1).last() == id);
            match self.subscriptions.remove(&id) {
                Some(subscription) => {
                    let mut subscription = subscription;
                    assert(before.subscriptions.contains_key(id));
                    assert(before.subscriptions[id] == subscription@);
                    let charge = charge_subscription(
                        &mut subscription,
                        id,
                        self.fee,
                        now,
                        &mut effects,
                    );
                    self.subscriptions.insert(id, subscription);
                    total = total + charge as u128;
                    assert(self@.subscriptions =~= before.subscriptions.insert(
                        id,
                        before.subscriptions[id].charged(start.fee, now as nat),
                    ));
                },
                None => {
                    assert(!before.subscriptions.contains_key(id));
                    assert(self@.subscriptions =~= before.subscriptions);
                },
            }
            i = i + 1;
        }
        assert(subscription_ids@.take(i as int) =~= subscription_ids@);
        if total != 0 {
            emit(&mut effects, Effect::Burn { amount: total });
        }
        Ok(effects)
    }

    /// The first reason, if any, to refuse `caller` a new subscription with
    /// the given parameters, funded with `amount`.
    fn admission(
        &self,
        caller: &Identity,
        new_subscription: &SubscriptionInitParams,
        amount: u64,
    ) -> (refusal: Option<Error>)
        ensures
            refusal == self@.admission_error(caller@, new_subscription@, amount as nat),
    {
        if !self.initialized {
            return Some(Error::NotInitialized);
        }
        if !caller.same_as(&new_subscription.owner) {
            return Some(Error::Unauthorized);
        }
        let fee = calc_fee(self.fee, new_subscription.heartbeat, new_subscription.threshold);
        if (amount as u128) < 2 * (fee as u128) {
            return Some(Error::InvalidAmount);
        }
        if new_subscription.heartbeat < MIN_HEARTBEAT {
            return Some(Error::InvalidHeartbeat);
        }
        if new_subscription.threshold == 0 || new_subscription.threshold > MAX_THRESHOLD {
            return Some(Error::InvalidThreshold);
        }
        if new_subscription.webhook.len() > MAX_WEBHOOK_SIZE as usize {
            return Some(Error::WebhookTooLong);
        }
        None
    }

    /// Opens a subscription on behalf of `caller`, who must be its owner,
    /// funded with `amount`. Twice the fee per day is destroyed as activation
    /// fee and the rest is the opening balance. Returns the id, the record and
    /// the effects. The ledger must be able to hold the result;
    /// `try_create_subscription` asks for nothing of the kind.
    pub fn create_subscription(
        &mut self,
        caller: &Identity,
        new_subscription: SubscriptionInitParams,
        amount: u64,
        now: u64,
        max_ttl: u32,
    ) -> (result: Result<(u64, Subscription, Vec<Effect>), Error>)
        requires
            old(self)@.well_formed(),
            old(self)@.can_create(caller@, new_subscription@, amount as nat),
        ensures
            final(self)@.well_formed(),
            is_creation(
                old(self)@,
                final(self)@,
                caller@,
                new_subscription@,
                amount as nat,
                now as nat,
                max_ttl as nat,
                result,
            ),
    {
        if let Some(error) = self.admission(caller, &new_subscription, amount) {
            return Err(error);
        }
        let fee = calc_fee(self.fee, new_subscription.heartbeat, new_subscription.threshold);
        let init_fee: u64 = 2 * fee;
        let balance: u64 = amount - init_fee;
        let ledgers = match calc_ledgers_to_live(fee, balance, max_ttl) {
            Ok(ledgers) => ledgers,
            Err(error) => {
                return Err(error);
            },
        };
        let id: u64 = self.last_id + 1;
        let ghost params = new_subscription@;
        let subscription = Subscription {
            owner: new_subscription.owner,
            base: new_subscription.base,
            quote: new_subscription.quote,
            threshold: new_subscription.threshold,
            heartbeat: new_subscription.heartbeat,
            webhook: new_subscription.webhook,
            balance,
            status: SubscriptionStatus::Active,
            updated: now,
        };
        let mut effects: Vec<Effect> = Vec::new();
        transfer_tokens_to_current_contract(&mut effects, subscription.owner.clone(), amount, init_fee);
        emit(&mut effects, Effect::Retain { id, ledgers });
        emit(&mut effects, Effect::Created { id, subscription: subscription.clone() });
        self.subscriptions.insert(id, subscription.clone());
        self.last_id = id;
        assert(effect_views(effects@) =~= old(self)@.creation_effects(
            params,
            amount as nat,
            now as nat,
        ));
        assert(self@.subscriptions =~= old(self)@.after_create(
            params,
            amount as nat,
            now as nat,
        ).subscriptions);
        Ok((id, subscription, effects))
    }

    /// `create_subscription`, for a caller that cannot tell beforehand whether
    /// the ledger can hold the result: where it cannot, nothing is done and
    /// `None` is returned.
    pub fn try_create_subscription(
        &mut self,
        caller: &Identity,
        new_subscription: SubscriptionInitParams,
        amount: u64,
        now: u64,
        max_ttl: u32,
    ) -> (attempt: Option<Result<(u64, Subscription, Vec<Effect>), Error>>)
        requires
            old(self)@.well_formed(),
        ensures
            final(self)@.well_formed(),
            match attempt {
                Some(result) => old(self)@.can_create(caller@, new_subscription@, amount as nat)
                    && is_creation(
                    old(self)@,
                    final(self)@,
                    caller@,
                    new_subscription@,
                    amount as nat,
                    now as nat,
                    max_ttl as nat,
                    result,
                ),
                None => !old(self)@.can_create(caller@, new_subscription@, amount as nat) && final(self)@
                    == old(self)@,
            },
    {
        if self.admission(caller, &new_subscription, amount).is_none() {
            let fee = calc_fee(self.fee, new_subscription.heartbeat, new_subscription.threshold);
            if fee == 0 || self.last_id == u64::MAX {
                return None;
            }
        }
        Some(self.create_subscription(caller, new_subscription, amount, now, max_ttl))
    }

    /// Whether the ledger can hold what a deposit of `amount` to subscription
    /// `id` comes to.
    fn deposit_fits(
        &self,
        caller: &Identity,
        from: &Identity,
        id: u64,
        amount: u64,
        now: u64,
    ) -> (fits: bool)
        ensures
            fits == self@.can_deposit(caller@, from@, id, amount as nat, now as nat),
    {
        if !self.initialized || !caller.same_as(from) || amount == 0 {
            return true;
        }
        match self.subscriptions.get(&id) {
            None => true,
            Some(subscription) => {
                let fee = calc_fee(self.fee, subscription.heartbeat, subscription.threshold);
                let burn_amount: u64 = match subscription.status {
                    SubscriptionStatus::Suspended => fee,
                    SubscriptionStatus::Active => 0,
                };
                amount < burn_amount || (fee > 0 && subscription.balance as u128 + (amount
                    - burn_amount) as u128 <= u64::MAX as u128)
            },
        }
    }

    /// `deposit`, for a caller that cannot tell beforehand whether the ledger
    /// can hold the result: where it cannot, nothing is done and `None` is
    /// returned.
    pub fn try_deposit(
        &mut self,
        caller: &Identity,
        from: Identity,
        subscription_id: u64,
        amount: u64,
        now: u64,
        max_ttl: u32,
    ) -> (attempt: Option<Result<Vec<Effect>, Error>>)
        requires
            old(self)@.well_formed(),
        ensures
            final(self)@.well_formed(),
            match attempt {
                Some(result) => old(self)@.can_deposit(
                caller@,
                from@,
                subscription_id,
                amount as nat,
                now as nat,
            )
                    && is_deposit(
                    old(self)@,
                    final(self)@,
                    caller@,
                    from@,
                    subscription_id,
                    amount as nat,
                    now as nat,
                    max_ttl as nat,
                    result,
                ),
                None => !old(self)@.can_deposit(
                caller@,
                from@,
                subscription_id,
                amount as nat,
                now as nat,
            )
                    && final(self)@ == old(self)@,
            },
    {
        if !self.deposit_fits(caller, &from, subscription_id, amount, now) {
            return None;
        }
        Some(self.deposit(caller, from, subscription_id, amount, now, max_ttl))
    }

    /// Credits `amount`, paid by `from`, to subscription `subscription_id`, on
    /// behalf of `caller`, who must be the one who pays. A suspended
    /// subscription becomes active again, for which the fee per day is
    /// destroyed out of the amount. The ledger must be able to hold the
    /// result; `try_deposit` asks for nothing of the kind.
    pub fn deposit(
        &mut self,
        caller: &Identity,
        from: Identity,
        subscription_id: u64,
        amount: u64,
        now: u64,
        max_ttl: u32,
    ) -> (result: Result<Vec<Effect>, Error>)
        requires
            old(self)@.well_formed(),
            old(self)@.can_deposit(
                caller@,
                from@,
                subscription_id,
                amount as nat,
                now as nat,
            ),
        ensures
            final(self)@.well_formed(),
            is_deposit(
                old(self)@,
                final(self)@,
                caller@,
                from@,
                subscription_id,
                amount as nat,
                now as nat,
                max_ttl as nat,
                result,
            ),
    {
        if !self.initialized {
            return Err(Error::NotInitialized);
        }
        if !caller.same_as(&from) {
            return Err(Error::Unauthorized);
        }
        if amount == 0 {
            return Err(Error::InvalidAmount);
        }
        let (record, burn_amount, ledgers) = match self.subscriptions.get(&subscription_id) {
            None => {
                return Err(Error::SubscriptionNotFound);
            },
            Some(subscription) => {
                let fee = calc_fee(self.fee, subscription.heartbeat, subscription.threshold);
                let burn_amount: u64 = match subscription.status {
                    SubscriptionStatus::Suspended => fee,
                    SubscriptionStatus::Active => 0,
                };
                if amount < burn_amount {
                    return Err(Error::InvalidAmount);
                }
                let balance: u64 = subscription.balance + (amount - burn_amount);
                let ledgers = match calc_ledgers_to_live(fee, balance, max_ttl) {
                    Ok(ledgers) => ledgers,
                    Err(error) => {
                        return Err(error);
                    },
                };
                let record = Subscription {
                    owner: subscription.owner.clone(),
                    base: copy_bytes(&subscription.base),
                    quote: copy_bytes(&subscription.quote),
                    threshold: subscription.threshold,
                    heartbeat: subscription.heartbeat,
                    webhook: copy_bytes(&subscription.webhook),
                    balance,
                    status: SubscriptionStatus::Active,
                    updated: now,
                };
                (record, burn_amount, ledgers)
            },
        };
        let ghost from_view = from@;
        let mut effects: Vec<Effect> = Vec::new();
        transfer_tokens_to_current_contract(&mut effects, from, amount, burn_amount);
        emit(&mut effects, Effect::Retain { id: subscription_id, ledgers });
        emit(
            &mut effects,
            Effect::Deposited { id: subscription_id, subscription: record.clone(), amount },
        );
        self.subscriptions.insert(subscription_id, record);
        assert(effect_views(effects@) =~= old(self)@.deposit_effects(
            from_view,
            subscription_id,
            amount as nat,
            now as nat,
        ));
        assert(self@.subscriptions =~= old(self)@.after_deposit(
            subscription_id,
            amount as nat,
            now as nat,
        ).subscriptions);
        Ok(effects)
    }

    /// Cancels subscription `subscription_id` on behalf of `caller`, who must
    /// be its owner: the whole balance goes back to the owner and the record
    /// leaves the store. A suspended subscription cannot be cancelled.
    pub fn cancel(&mut self, caller: &Identity, subscription_id: u64) -> (result: Result<
        Vec<Effect>,
        Error,
    >)
        requires
            old(self)@.well_formed(),
        ensures
            final(self)@.well_formed(),
            match result {
                Ok(effects) => {
                    &&& old(self)@.cancel_error(caller@, subscription_id) is None
                    &&& final(self)@ == old(self)@.after_cancel(subscription_id)
                    &&& effect_views(effects@) == old(self)@.cancel_effects(subscription_id)
                },
                Err(error) => old(self)@.cancel_error(caller@, subscription_id) == Some(error)
                    && final(self)@ == old(self)@,
            },
    {
        if !self.initialized {
            return Err(Error::NotInitialized);
        }
        let mut effects: Vec<Effect> = Vec::new();
        match self.subscriptions.get(&subscription_id) {
            None => {
                return Err(Error::SubscriptionNotFound);
            },
            Some(subscription) => {
                if !caller.same_as(&subscription.owner) {
                    return Err(Error::Unauthorized);
                }
                match subscription.status {
                    SubscriptionStatus::Active => {},
                    SubscriptionStatus::Suspended => {
                        return Err(Error::InvalidSubscriptionStatusError);
                    },
                }
                emit(
                    &mut effects,
                    Effect::Refund { to: subscription.owner.clone(), amount: subscription.balance },
                );
                emit(
                    &mut effects,
                    Effect::Cancelled { owner: subscription.owner.clone(), id: subscription_id },
                );
            },
        }
        self.subscriptions.remove(&subscription_id);
        assert(effect_views(effects@) =~= old(self)@.cancel_effects(subscription_id));
        assert(self@.subscriptions =~= old(self)@.after_cancel(subscription_id).subscriptions);
        Ok(effects)
    }

    /// Looks up subscription `subscription_id`.
    pub fn get_subscription(&self, subscription_id: u64) -> (result: Result<Subscription, Error>)
        ensures
            match result {
                Ok(subscription) => self@.lookup(subscription_id) == Ok::<_, Error>(subscription@),
                Err(error) => self@.lookup(subscription_id) == Err::<SubscriptionView, _>(error),
            },
    {
        if !self.initialized {
            return Err(Error::NotInitialized);
        }
        match self.subscriptions.get(&subscription_id) {
            None => Err(Error::SubscriptionNotFound),
            Some(subscription) => Ok(subscription.clone()),
        }
    }

    /// The id given to the subscription created last.
    pub fn last_id(&self) -> (result: Result<u64, Error>)
        ensures
            result == if self@.initialized {
                Ok::<u64, Error>(self@.last_id)
            } else {
                Err::<u64, Error>(Error::NotInitialized)
            },
    {
        if !self.initialized {
            return Err(Error::NotInitialized);
        }
        Ok(self.last_id)
    }

    /// The administrator; none before the configuration.
    pub fn admin(&self) -> (admin: Option<Identity>)
        ensures
            match admin {
                Some(identity) => self@.initialized && identity@ == self@.admin,
                None => !self@.initialized,
            },
    {
        if !self.initialized {
            return None;
        }
        Some(self.admin.clone())
    }

    /// The base fee per day.
    pub fn fee(&self) -> (result: Result<u64, Error>)
        ensures
            match result {
                Ok(fee) => self@.initialized && fee == self@.fee,
                Err(error) => !self@.initialized && error == Error::NotInitialized,
            },
    {
        if !self.initialized {
            return Err(Error::NotInitialized);
        }
        Ok(self.fee)
    }

    /// The token in which fees are paid.
    pub fn token(&self) -> (result: Result<Identity, Error>)
        ensures
            match result {
                Ok(token) => self@.initialized && token@ == self@.token,
                Err(error) => !self@.initialized && error == Error::NotInitialized,
            },
    {
        if !self.initialized {
            return Err(Error::NotInitialized);
        }
        Ok(self.token.clone())
    }

    /// Passes on the trigger `trigger_hash` of `timestamp` as an event.
    /// Reserved for the administrator.
    pub fn trigger(&self, caller: &Identity, timestamp: u64, trigger_hash: [u8; 32]) -> (result:
        Result<Effect, Error>)
        ensures
            match result {
                Ok(effect) => self@.admin_error(caller@) is None && effect@
                    == (EffectView::Triggered { timestamp: timestamp as nat, hash: trigger_hash@ }),
                Err(error) => self@.admin_error(caller@) == Some(error),
            },
    {
        if !self.is_admin(caller) {
            return Err(Error::Unauthorized);
        }
        Ok(Effect::Triggered { timestamp, hash: trigger_hash })
    }

    /// Asks for the code of the ledger to be replaced by the one with hash
    /// `wasm_hash`. Reserved for the administrator.
    pub fn update_contract(&self, caller: &Identity, wasm_hash: [u8; 32]) -> (result: Result<
        Effect,
        Error,
    >)
        ensures
            match result {
                Ok(effect) => self@.admin_error(caller@) is None && effect@
                    == (EffectView::Upgrade { wasm_hash: wasm_hash@ }),
                Err(error) => self@.admin_error(caller@) == Some(error),
            },
    {
        if !self.is_admin(caller) {
            return Err(Error::Unauthorized);
        }
        Ok(Effect::Upgrade { wasm_hash })
    }

    /// A configured ledger as it was left: with `config`, the id counter at
    /// `last_id`, and no subscription loaded yet.
    pub fn restore(config: ContractConfig, last_id: u64) -> (contract: SubscriptionContract)
        ensures
            contract@.well_formed(),
            contract@ == (ContractView {
                last_id,
                ..ContractView::unconfigured().configured(config@)
            }),
    {
        let contract = SubscriptionContract {
            initialized: true,
            admin: config.admin,
            token: config.token,
            fee: config.fee,
            last_id,
            subscriptions: HashMap::new(),
        };
        assert(contract@.subscriptions =~= Map::empty());
        contract
    }

    /// Puts back under `id` a subscription that the ledger had stored there.
    /// Refused, with nothing changed, unless the ledger is configured, has
    /// given out `id`, and the subscription keeps the limits it was created
    /// under.
    pub fn load_subscription(&mut self, id: u64, subscription: Subscription) -> (loaded: bool)
        requires
            old(self)@.well_formed(),
        ensures
            final(self)@.well_formed(),
            loaded == (old(self)@.initialized && 1 <= id <= old(self)@.last_id
                && subscription@.valid()),
            final(self)@ == if loaded {
                old(self)@.with_subscriptions(old(self)@.subscriptions.insert(id, subscription@))
            } else {
                old(self)@
            },
    {
        if !self.initialized || id < 1 || id > self.last_id {
            return false;
        }
        if subscription.heartbeat < MIN_HEARTBEAT || subscription.threshold == 0
            || subscription.threshold > MAX_THRESHOLD || subscription.webhook.len()
            > MAX_WEBHOOK_SIZE as usize {
            return false;
        }
        let ghost record = subscription@;
        self.subscriptions.insert(id, subscription);
        assert(self@.subscriptions =~= old(self)@.subscriptions.insert(id, record));
        true
    }
}

} // verus!
