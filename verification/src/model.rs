//! The ledger as a mathematical state machine: what each operation makes of a
//! state, stated over views.

use vstd::prelude::*;
use crate::effects::EffectView;
use crate::fees::{fee_for, ledgers_to_live, DAY};
use crate::types::{
    ContractConfigView, Error, SubscriptionInitParamsView, SubscriptionStatus, SubscriptionView,
    MAX_THRESHOLD, MAX_WEBHOOK_SIZE, MIN_HEARTBEAT,
};

verus! {

/// The smaller of two amounts.
pub open spec fn least(a: nat, b: nat) -> nat {
    if a <= b {
        a
    } else {
        b
    }
}

/// Whole days from `updated` to `now`; none if `now` lies before `updated`.
pub open spec fn elapsed_days(updated: nat, now: nat) -> nat {
    if now >= updated {
        (now - updated) as nat / (DAY as nat)
    } else {
        0
    }
}

impl SubscriptionView {
    /// The fee per day of this subscription where the base fee is `base_fee`.
    pub open spec fn fee(self, base_fee: nat) -> nat {
        fee_for(base_fee, self.heartbeat, self.threshold)
    }

    /// What a charge at `now` takes: the fee of every whole day since the last
    /// update, but no more than the balance.
    pub open spec fn charge_due(self, base_fee: nat, now: nat) -> nat {
        least(elapsed_days(self.updated, now) * self.fee(base_fee), self.balance)
    }

    /// The subscription after a charge at `now`. With no whole day elapsed it
    /// is left as it is. Else the charge leaves the balance, and a balance
    /// below the fee suspends the subscription.
    pub open spec fn charged(self, base_fee: nat, now: nat) -> SubscriptionView {
        if elapsed_days(self.updated, now) == 0 {
            self
        } else {
            let balance = (self.balance - self.charge_due(base_fee, now)) as nat;
            SubscriptionView {
                balance,
                updated: now,
                status: if balance < self.fee(base_fee) {
                    SubscriptionStatus::Suspended
                } else {
                    self.status
                },
                ..self
            }
        }
    }

    /// The events of a charge at `now` of this subscription, stored under
    /// `id`: none with no whole day elapsed; else the suspension, if the charge
    /// leaves less than the fee, and then the charge.
    pub open spec fn charge_events(self, id: u64, base_fee: nat, now: nat) -> Seq<EffectView> {
        if elapsed_days(self.updated, now) == 0 {
            Seq::empty()
        } else {
            let charge = EffectView::Charged {
                owner: self.owner,
                timestamp: now,
                id,
                amount: self.charge_due(base_fee, now),
            };
            if self.charged(base_fee, now).balance < self.fee(base_fee) {
                seq![EffectView::Suspended { owner: self.owner, timestamp: now, id }, charge]
            } else {
                seq![charge]
            }
        }
    }

    /// What a deposit destroys: the fee, where it reactivates a suspended
    /// subscription, and nothing else.
    pub open spec fn reactivation_fee(self, base_fee: nat) -> nat {
        if self.status == SubscriptionStatus::Suspended {
            self.fee(base_fee)
        } else {
            0
        }
    }

    /// The subscription after a deposit of `amount` at `now`: active, and
    /// credited with the amount less the reactivation fee.
    pub open spec fn deposited(self, base_fee: nat, amount: nat, now: nat) -> SubscriptionView {
        SubscriptionView {
            balance: (self.balance + amount - self.reactivation_fee(base_fee)) as nat,
            status: SubscriptionStatus::Active,
            updated: now,
            ..self
        }
    }
}

impl SubscriptionInitParamsView {
    /// The subscription that these parameters open at `now` with `balance`.
    pub open spec fn opened(self, balance: nat, now: nat) -> SubscriptionView {
        SubscriptionView {
            owner: self.owner,
            base: self.base,
            quote: self.quote,
            threshold: self.threshold,
            heartbeat: self.heartbeat,
            webhook: self.webhook,
            balance,
            status: SubscriptionStatus::Active,
            updated: now,
        }
    }
}

/// The effects that take `amount` from `from` and destroy `burn_amount` of it.
/// Nothing is asked of the value ledger for a destruction of nothing.
pub open spec fn collection(from: Seq<u8>, amount: nat, burn_amount: nat) -> Seq<EffectView> {
    if burn_amount > 0 {
        seq![EffectView::Collect { from, amount }, EffectView::Burn { amount: burn_amount }]
    } else {
        seq![EffectView::Collect { from, amount }]
    }
}

/// What a batch of charges comes to.
pub struct BatchView {
    /// The subscriptions after the batch.
    pub subscriptions: Map<u64, SubscriptionView>,
    /// The events of the batch, in order.
    pub events: Seq<EffectView>,
    /// The sum of what was charged.
    pub total: nat,
}

/// Charges the subscriptions named by `ids` at `now`, one after the other. An
/// id without a record is passed over, and so is a record on which no whole day
/// has elapsed.
pub open spec fn charge_batch(
    subscriptions: Map<u64, SubscriptionView>,
    ids: Seq<u64>,
    base_fee: nat,
    now: nat,
) -> BatchView
    decreases ids.len(),
{
    if ids.len() == 0 {
        BatchView { subscriptions, events: Seq::empty(), total: 0 }
    } else {
        let before = charge_batch(subscriptions, ids.drop_last(), base_fee, now);
        let id = ids.last();
        if before.subscriptions.contains_key(id) {
            let subscription = before.subscriptions[id];
            BatchView {
                subscriptions: before.subscriptions.insert(
                    id,
                    subscription.charged(base_fee, now),
                ),
                events: before.events + subscription.charge_events(id, base_fee, now),
                total: before.total + subscription.charge_due(base_fee, now),
            }
        } else {
            before
        }
    }
}

/// The subscriptions after a charge at `now` of each one that `ids` names:
/// what a batch leaves in the store, however often and in whatever order it
/// names an id.
pub open spec fn charged_where_named(
    subscriptions: Map<u64, SubscriptionView>,
    ids: Seq<u64>,
    base_fee: nat,
    now: nat,
) -> Map<u64, SubscriptionView> {
    Map::new(
        |id: u64| subscriptions.contains_key(id),
        |id: u64|
            if ids.contains(id) {
                subscriptions[id].charged(base_fee, now)
            } else {
                subscriptions[id]
            },
    )
}

/// The subscription after a charge at the end of each of the `days` days that
/// follow its last update.
pub open spec fn charged_each_day(
    subscription: SubscriptionView,
    base_fee: nat,
    days: nat,
) -> SubscriptionView
    decreases days,
{
    if days == 0 {
        subscription
    } else {
        charged_each_day(subscription, base_fee, (days - 1) as nat).charged(
            base_fee,
            subscription.updated + days * (DAY as nat),
        )
    }
}

/// The state of the ledger.
pub struct ContractView {
    /// Whether the ledger has been configured.
    pub initialized: bool,
    /// Who may change the fee and run the charges.
    pub admin: Seq<u8>,
    /// The token in which fees are paid.
    pub token: Seq<u8>,
    /// The base fee per day.
    pub fee: nat,
    /// The id given to the subscription created last; 0 before the first.
    pub last_id: u64,
    /// The stored subscriptions, by id.
    pub subscriptions: Map<u64, SubscriptionView>,
}

impl ContractView {
    /// The state of a ledger that has not been configured.
    pub open spec fn unconfigured() -> ContractView {
        ContractView {
            initialized: false,
            admin: Seq::empty(),
            token: Seq::empty(),
            fee: 0,
            last_id: 0,
            subscriptions: Map::empty(),
        }
    }

    /// What holds of every state of the ledger: each stored id was given out
    /// by the counter, and each stored subscription keeps the limits it was
    /// created under.
    pub open spec fn well_formed(self) -> bool {
        &&& !self.initialized ==> self.last_id == 0
        &&& forall|id: u64| #[trigger]
            self.subscriptions.contains_key(id) ==> 1 <= id <= self.last_id
                && self.subscriptions[id].valid()
    }

    /// Whether `caller` is the administrator of a configured ledger.
    pub open spec fn is_admin(self, caller: Seq<u8>) -> bool {
        self.initialized && caller == self.admin
    }

    /// The reason, if any, to refuse `caller` an operation that is reserved
    /// for the administrator.
    pub open spec fn admin_error(self, caller: Seq<u8>) -> Option<Error> {
        if self.is_admin(caller) {
            None
        } else {
            Some(Error::Unauthorized)
        }
    }

    /// The first reason, if any, to refuse `caller` the configuration with
    /// `config`: the caller is not the administrator that it names, or there
    /// has been a configuration before.
    pub open spec fn config_error(self, caller: Seq<u8>, config: ContractConfigView) -> Option<
        Error,
    > {
        if caller != config.admin {
            Some(Error::Unauthorized)
        } else if self.initialized {
            Some(Error::AlreadyInitialized)
        } else {
            None
        }
    }

    /// The state after configuration with `config`.
    pub open spec fn configured(self, config: ContractConfigView) -> ContractView {
        ContractView {
            initialized: true,
            admin: config.admin,
            token: config.token,
            fee: config.fee,
            last_id: 0,
            ..self
        }
    }

    /// The state with the base fee replaced by `fee`.
    pub open spec fn with_fee(self, fee: nat) -> ContractView {
        ContractView { fee, ..self }
    }

    /// The state with the subscriptions replaced by `subscriptions`.
    pub open spec fn with_subscriptions(
        self,
        subscriptions: Map<u64, SubscriptionView>,
    ) -> ContractView {
        ContractView { subscriptions, ..self }
    }

    /// The first reason, if any, to refuse `caller` a new subscription with
    /// the given parameters, funded with `amount`, before its retention is
    /// planned.
    pub open spec fn admission_error(
        self,
        caller: Seq<u8>,
        params: SubscriptionInitParamsView,
        amount: nat,
    ) -> Option<Error> {
        if !self.initialized {
            Some(Error::NotInitialized)
        } else if caller != params.owner {
            Some(Error::Unauthorized)
        } else if amount < 2 * fee_for(self.fee, params.heartbeat, params.threshold) {
            Some(Error::InvalidAmount)
        } else if params.heartbeat < MIN_HEARTBEAT {
            Some(Error::InvalidHeartbeat)
        } else if params.threshold == 0 || params.threshold > MAX_THRESHOLD {
            Some(Error::InvalidThreshold)
        } else if params.webhook.len() > MAX_WEBHOOK_SIZE {
            Some(Error::WebhookTooLong)
        } else {
            None
        }
    }

    /// Whether the ledger can hold what the creation of a subscription comes
    /// to: where the parameters are admitted, the fee per day is not zero, or
    /// no balance would pay for any stretch of time, and the id counter has
    /// not run out.
    pub open spec fn can_create(
        self,
        caller: Seq<u8>,
        params: SubscriptionInitParamsView,
        amount: nat,
    ) -> bool {
        self.admission_error(caller, params, amount) is None ==> fee_for(
            self.fee,
            params.heartbeat,
            params.threshold,
        ) > 0 && self.last_id < u64::MAX
    }

    /// The balance that a new subscription funded with `amount` starts with:
    /// the amount less the activation fee, which is twice the fee per day.
    pub open spec fn opening_balance(self, params: SubscriptionInitParamsView, amount: nat) -> nat {
        (amount - 2 * fee_for(self.fee, params.heartbeat, params.threshold)) as nat
    }

    /// The first reason, if any, to refuse `caller` the creation of a
    /// subscription.
    pub open spec fn creation_error(
        self,
        caller: Seq<u8>,
        params: SubscriptionInitParamsView,
        amount: nat,
        max_ttl: nat,
    ) -> Option<Error> {
        if self.admission_error(caller, params, amount) is Some {
            self.admission_error(caller, params, amount)
        } else if ledgers_to_live(
            fee_for(self.fee, params.heartbeat, params.threshold),
            self.opening_balance(params, amount),
        ) > max_ttl {
            Some(Error::InvalidAmount)
        } else {
            None
        }
    }

    /// The id that the next subscription gets.
    pub open spec fn next_id(self) -> u64 {
        (self.last_id + 1) as u64
    }

    /// The state after the creation of a subscription.
    pub open spec fn after_create(
        self,
        params: SubscriptionInitParamsView,
        amount: nat,
        now: nat,
    ) -> ContractView {
        ContractView {
            last_id: self.next_id(),
            subscriptions: self.subscriptions.insert(
                self.next_id(),
                params.opened(self.opening_balance(params, amount), now),
            ),
            ..self
        }
    }

    /// The effects of the creation of a subscription: the amount is collected
    /// from the owner, the activation fee destroyed, the record retained as
    /// long as its balance pays for, and the creation published.
    pub open spec fn creation_effects(
        self,
        params: SubscriptionInitParamsView,
        amount: nat,
        now: nat,
    ) -> Seq<EffectView> {
        let fee = fee_for(self.fee, params.heartbeat, params.threshold);
        let record = params.opened(self.opening_balance(params, amount), now);
        collection(params.owner, amount, 2 * fee) + seq![
            EffectView::Retain { id: self.next_id(), ledgers: ledgers_to_live(fee, record.balance) },
            EffectView::Created { id: self.next_id(), subscription: record },
        ]
    }

    /// The first reason, if any, to refuse `caller` a deposit of `amount`,
    /// paid by `from`, to subscription `id`, before the retention of the
    /// record is planned.
    pub open spec fn deposit_admission_error(
        self,
        caller: Seq<u8>,
        from: Seq<u8>,
        id: u64,
        amount: nat,
    ) -> Option<Error> {
        if !self.initialized {
            Some(Error::NotInitialized)
        } else if caller != from {
            Some(Error::Unauthorized)
        } else if amount == 0 {
            Some(Error::InvalidAmount)
        } else if !self.subscriptions.contains_key(id) {
            Some(Error::SubscriptionNotFound)
        } else if amount < self.subscriptions[id].reactivation_fee(self.fee) {
            Some(Error::InvalidAmount)
        } else {
            None
        }
    }

    /// Whether the ledger can hold what a deposit comes to: where the deposit
    /// is admitted, the fee per day is not zero, or no balance would pay for
    /// any stretch of time, and the new balance fits in 64 bits.
    pub open spec fn can_deposit(
        self,
        caller: Seq<u8>,
        from: Seq<u8>,
        id: u64,
        amount: nat,
        now: nat,
    ) -> bool {
        self.deposit_admission_error(caller, from, id, amount) is None ==> {
            &&& self.subscriptions[id].fee(self.fee) > 0
            &&& self.subscriptions[id].deposited(self.fee, amount, now).balance <= u64::MAX
        }
    }

    /// The first reason, if any, to refuse `caller` a deposit of `amount`,
    /// paid by `from`, to subscription `id`.
    pub open spec fn deposit_error(
        self,
        caller: Seq<u8>,
        from: Seq<u8>,
        id: u64,
        amount: nat,
        now: nat,
        max_ttl: nat,
    ) -> Option<Error> {
        if self.deposit_admission_error(caller, from, id, amount) is Some {
            self.deposit_admission_error(caller, from, id, amount)
        } else if ledgers_to_live(
            self.subscriptions[id].fee(self.fee),
            self.subscriptions[id].deposited(self.fee, amount, now).balance,
        ) > max_ttl {
            Some(Error::InvalidAmount)
        } else {
            None
        }
    }

    /// The state after a deposit of `amount` to subscription `id`.
    pub open spec fn after_deposit(self, id: u64, amount: nat, now: nat) -> ContractView {
        self.with_subscriptions(
            self.subscriptions.insert(id, self.subscriptions[id].deposited(self.fee, amount, now)),
        )
    }

    /// The effects of a deposit by `from`: the amount is collected, the
    /// reactivation fee, if any, destroyed, the record retained as long as its
    /// new balance pays for, and the deposit published.
    pub open spec fn deposit_effects(
        self,
        from: Seq<u8>,
        id: u64,
        amount: nat,
        now: nat,
    ) -> Seq<EffectView> {
        let subscription = self.subscriptions[id];
        let record = subscription.deposited(self.fee, amount, now);
        collection(from, amount, subscription.reactivation_fee(self.fee)) + seq![
            EffectView::Retain {
                id,
                ledgers: ledgers_to_live(subscription.fee(self.fee), record.balance),
            },
            EffectView::Deposited { id, subscription: record, amount },
        ]
    }

    /// The state after a batch of charges at `now`.
    pub open spec fn after_charge(self, ids: Seq<u64>, now: nat) -> ContractView {
        self.with_subscriptions(charge_batch(self.subscriptions, ids, self.fee, now).subscriptions)
    }

    /// The effects of a batch of charges at `now`: its events and then, unless
    /// nothing was charged, the destruction of the total in one piece.
    pub open spec fn charge_effects(self, ids: Seq<u64>, now: nat) -> Seq<EffectView> {
        let batch = charge_batch(self.subscriptions, ids, self.fee, now);
        if batch.total == 0 {
            batch.events
        } else {
            batch.events.push(EffectView::Burn { amount: batch.total })
        }
    }

    /// The first reason, if any, to refuse `caller` the cancellation of
    /// subscription `id`.
    pub open spec fn cancel_error(self, caller: Seq<u8>, id: u64) -> Option<Error> {
        if !self.initialized {
            Some(Error::NotInitialized)
        } else if !self.subscriptions.contains_key(id) {
            Some(Error::SubscriptionNotFound)
        } else if caller != self.subscriptions[id].owner {
            Some(Error::Unauthorized)
        } else if self.subscriptions[id].status != SubscriptionStatus::Active {
            Some(Error::InvalidSubscriptionStatusError)
        } else {
            None
        }
    }

    /// The state after the cancellation of subscription `id`.
    pub open spec fn after_cancel(self, id: u64) -> ContractView {
        self.with_subscriptions(self.subscriptions.remove(id))
    }

    /// The effects of the cancellation of subscription `id`: the whole balance
    /// goes back to the owner, and the cancellation is published.
    pub open spec fn cancel_effects(self, id: u64) -> Seq<EffectView> {
        let subscription = self.subscriptions[id];
        seq![
            EffectView::Refund { to: subscription.owner, amount: subscription.balance },
            EffectView::Cancelled { owner: subscription.owner, id },
        ]
    }

    /// What a lookup of subscription `id` gives.
    pub open spec fn lookup(self, id: u64) -> Result<SubscriptionView, Error> {
        if !self.initialized {
            Err(Error::NotInitialized)
        } else if !self.subscriptions.contains_key(id) {
            Err(Error::SubscriptionNotFound)
        } else {
            Ok(self.subscriptions[id])
        }
    }
}

} // verus!
