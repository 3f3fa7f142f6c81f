//! What holds of the ledger whatever the inputs: laws of its operations,
//! proved over the state machine that their contracts are stated in.

use vstd::prelude::*;
use vstd::arithmetic::div_mod::lemma_fundamental_div_mod;
use vstd::arithmetic::div_mod::lemma_fundamental_div_mod_converse;
use crate::effects::EffectView;
use crate::fees::{fee_for, ledgers_to_live, DAY};
use crate::model::{
    charge_batch, charged_each_day, charged_where_named, elapsed_days, least, BatchView,
    ContractView,
};
use crate::types::{
    ContractConfigView, Error, SubscriptionInitParamsView, SubscriptionStatus, SubscriptionView,
    MIN_HEARTBEAT,
};

verus! {

/// Whether two subscriptions agree in all that a subscription is created
/// with.
pub open spec fn same_terms(one: SubscriptionView, other: SubscriptionView) -> bool {
    &&& one.owner == other.owner
    &&& one.base == other.base
    &&& one.quote == other.quote
    &&& one.threshold == other.threshold
    &&& one.heartbeat == other.heartbeat
    &&& one.webhook == other.webhook
}

/// From `updated`, `days` whole days later, `days` days have elapsed.
pub proof fn lemma_elapsed_after_days(updated: nat, days: nat)
    ensures
        elapsed_days(updated, updated + days * (DAY as nat)) == days,
{
    lemma_fundamental_div_mod_converse(days * DAY, DAY as int, days as int, 0);
}

/// Between two times a whole number of days apart, `elapsed_days` counts
/// those days exactly.
pub proof fn lemma_elapsed_whole_days(updated: nat, now: nat)
    requires
        updated <= now,
        (now - updated) % (DAY as int) == 0,
    ensures
        now == updated + elapsed_days(updated, now) * DAY,
{
    lemma_fundamental_div_mod(now - updated, DAY as int);
}

/// Right after a charge no whole day has elapsed on the subscription: a second
/// charge at the same time takes nothing, changes nothing and publishes
/// nothing.
pub proof fn law_charge_settles(subscription: SubscriptionView, id: u64, base_fee: nat, now: nat)
    ensures
        elapsed_days(subscription.charged(base_fee, now).updated, now) == 0,
        subscription.charged(base_fee, now).charged(base_fee, now) == subscription.charged(
            base_fee,
            now,
        ),
        subscription.charged(base_fee, now).charge_events(id, base_fee, now) == Seq::<
            EffectView,
        >::empty(),
{
}

/// A charge never takes more than the balance, and what it takes is what
/// leaves the balance.
pub proof fn law_charge_is_capped(subscription: SubscriptionView, base_fee: nat, now: nat)
    ensures
        subscription.charge_due(base_fee, now) <= subscription.balance,
        elapsed_days(subscription.updated, now) > 0 ==> subscription.charged(base_fee, now).balance
            + subscription.charge_due(base_fee, now) == subscription.balance,
        elapsed_days(subscription.updated, now) == 0 ==> subscription.charged(base_fee, now)
            == subscription && subscription.charge_due(base_fee, now) == 0,
{
    assert(0 * subscription.fee(base_fee) == 0);
}

/// Neither a charge nor a deposit touches what a subscription was created
/// with: its owner, its assets, its threshold, its heartbeat and its webhook
/// stay, and with them the limits it keeps.
pub proof fn law_terms_are_kept(
    subscription: SubscriptionView,
    base_fee: nat,
    amount: nat,
    now: nat,
)
    ensures
        same_terms(subscription, subscription.charged(base_fee, now)),
        same_terms(subscription, subscription.deposited(base_fee, amount, now)),
        subscription.valid() ==> subscription.charged(base_fee, now).valid()
            && subscription.deposited(base_fee, amount, now).valid(),
{
}

/// A charge suspends an active subscription if and only if a whole day has
/// elapsed and what it leaves is less than the fee. It never reactivates one.
pub proof fn law_charge_suspends_when_depleted(
    subscription: SubscriptionView,
    base_fee: nat,
    now: nat,
)
    ensures
        subscription.status == SubscriptionStatus::Active ==> (subscription.charged(
            base_fee,
            now,
        ).status == SubscriptionStatus::Suspended <==> elapsed_days(subscription.updated, now) > 0
            && subscription.charged(base_fee, now).balance < subscription.fee(base_fee)),
        subscription.status == SubscriptionStatus::Suspended ==> subscription.charged(
            base_fee,
            now,
        ).status == SubscriptionStatus::Suspended,
{
}

/// Two charges a whole number of days apart, the first a whole number of days
/// after the last update, leave what one charge at the time of the second
/// leaves: what counts is the time elapsed, not the number of calls.
pub proof fn law_charges_compose(
    subscription: SubscriptionView,
    base_fee: nat,
    first: nat,
    second: nat,
)
    requires
        subscription.updated <= first <= second,
        (first - subscription.updated) % (DAY as int) == 0,
        (second - first) % (DAY as int) == 0,
    ensures
        subscription.charged(base_fee, first).charged(base_fee, second) == subscription.charged(
            base_fee,
            second,
        ),
{
    let fee = subscription.fee(base_fee);
    let a = elapsed_days(subscription.updated, first);
    let b = elapsed_days(first, second);
    lemma_elapsed_whole_days(subscription.updated, first);
    lemma_elapsed_whole_days(first, second);
    assert(second == subscription.updated + (a + b) * DAY) by (nonlinear_arith)
        requires
            first == subscription.updated + a * DAY,
            second == first + b * DAY,
    ;
    lemma_elapsed_after_days(subscription.updated, a + b);
    assert(elapsed_days(subscription.updated, second) == a + b);
    if a > 0 && b > 0 {
        assert((a + b) * fee == a * fee + b * fee) by (nonlinear_arith);
        assert(a * fee >= 0 && b * fee >= 0) by (nonlinear_arith)
            requires
                a >= 0,
                b >= 0,
                fee >= 0,
        ;
    }
}

/// Charged once at the end of each of `days` days, a subscription ends up as
/// if charged once at the end of the last: `days` times the fee has left the
/// balance, or all of it where it was less.
pub proof fn law_daily_charges_add_up(subscription: SubscriptionView, base_fee: nat, days: nat)
    ensures
        charged_each_day(subscription, base_fee, days) == subscription.charged(
            base_fee,
            subscription.updated + days * (DAY as nat),
        ),
        charged_each_day(subscription, base_fee, days).balance == subscription.balance - least(
            days * subscription.fee(base_fee),
            subscription.balance,
        ),
    decreases days,
{
    lemma_elapsed_after_days(subscription.updated, days);
    if days > 0 {
        let before = (days - 1) as nat;
        law_daily_charges_add_up(subscription, base_fee, before);
        let first = subscription.updated + before * (DAY as nat);
        let second = subscription.updated + days * (DAY as nat);
        assert(second == first + DAY) by (nonlinear_arith)
            requires
                first == subscription.updated + before * (DAY as nat),
                second == subscription.updated + days * (DAY as nat),
                before == days - 1,
        ;
        lemma_fundamental_div_mod_converse(before * DAY, DAY as int, before as int, 0);
        lemma_fundamental_div_mod_converse(DAY as int, DAY as int, 1, 0);
        law_charges_compose(subscription, base_fee, first, second);
    }
}

/// A batch of charges leaves in the store each named subscription charged
/// once, however often and in whatever order the batch names it, and every
/// other subscription as it was.
pub proof fn law_batch_charges_each_named_once(
    subscriptions: Map<u64, SubscriptionView>,
    ids: Seq<u64>,
    base_fee: nat,
    now: nat,
)
    ensures
        charge_batch(subscriptions, ids, base_fee, now).subscriptions == charged_where_named(
            subscriptions,
            ids,
            base_fee,
            now,
        ),
    decreases ids.len(),
{
    if ids.len() == 0 {
        assert(charged_where_named(subscriptions, ids, base_fee, now) =~= subscriptions);
    } else {
        let init = ids.drop_last();
        let id = ids.last();
        law_batch_charges_each_named_once(subscriptions, init, base_fee, now);
        assert forall|other: u64| ids.contains(other) <==> init.contains(other) || other
            == id by {
            if init.contains(other) {
                let i = choose|i: int| 0 <= i < init.len() && init[i] == other;
                assert(ids[i] == other);
            }
            if other == id {
                assert(ids[ids.len() - 1] == other);
            }
            if ids.contains(other) {
                let i = choose|i: int| 0 <= i < ids.len() && ids[i] == other;
                if i < ids.len() - 1 {
                    assert(init[i] == other);
                }
            }
        }
        if subscriptions.contains_key(id) {
            law_charge_settles(subscriptions[id], id, base_fee, now);
        }
        assert(charge_batch(subscriptions, ids, base_fee, now).subscriptions
            =~= charged_where_named(subscriptions, ids, base_fee, now));
    }
}

/// A batch that names only subscriptions on which no whole day has elapsed
/// changes nothing, publishes nothing and charges nothing.
pub proof fn law_batch_of_settled_is_idle(
    subscriptions: Map<u64, SubscriptionView>,
    ids: Seq<u64>,
    base_fee: nat,
    now: nat,
)
    requires
        forall|i: int|
            0 <= i < ids.len() && subscriptions.contains_key(#[trigger] ids[i]) ==> elapsed_days(
                subscriptions[ids[i]].updated,
                now,
            ) == 0,
    ensures
        charge_batch(subscriptions, ids, base_fee, now) == (BatchView {
            subscriptions,
            events: Seq::empty(),
            total: 0,
        }),
    decreases ids.len(),
{
    if ids.len() > 0 {
        let init = ids.drop_last();
        let id = ids.last();
        assert forall|i: int|
            0 <= i < init.len() && subscriptions.contains_key(#[trigger] init[i])
                implies elapsed_days(subscriptions[init[i]].updated, now) == 0 by {
            assert(init[i] == ids[i]);
        }
        law_batch_of_settled_is_idle(subscriptions, init, base_fee, now);
        assert(ids[ids.len() - 1] == id);
        let batch = charge_batch(subscriptions, ids, base_fee, now);
        assert(batch.subscriptions =~= subscriptions);
        assert(batch.events =~= Seq::<EffectView>::empty());
    }
}

/// Charging is idempotent while no time passes: after a batch at `now`, a
/// batch at `now` over ids that the first one named changes nothing and has no
/// effect, neither an event nor a destruction of value.
pub proof fn law_charge_is_idempotent(
    state: ContractView,
    ids: Seq<u64>,
    again: Seq<u64>,
    now: nat,
)
    requires
        forall|i: int| 0 <= i < again.len() ==> ids.contains(#[trigger] again[i]),
    ensures
        state.after_charge(ids, now).after_charge(again, now) == state.after_charge(ids, now),
        state.after_charge(ids, now).charge_effects(again, now) == Seq::<EffectView>::empty(),
{
    let once = state.after_charge(ids, now);
    law_batch_charges_each_named_once(state.subscriptions, ids, state.fee, now);
    assert forall|i: int|
        0 <= i < again.len() && once.subscriptions.contains_key(
            #[trigger] again[i],
        ) implies elapsed_days(once.subscriptions[again[i]].updated, now) == 0 by {
        law_charge_settles(state.subscriptions[again[i]], again[i], state.fee, now);
    }
    law_batch_of_settled_is_idle(once.subscriptions, again, state.fee, now);
}

/// Two batches over the same ids, a whole number of days apart, the first a
/// whole number of days after the last update of each subscription it names,
/// leave the state that one batch at the time of the second leaves.
pub proof fn law_batches_compose(state: ContractView, ids: Seq<u64>, first: nat, second: nat)
    requires
        first <= second,
        (second - first) % (DAY as int) == 0,
        forall|i: int|
            0 <= i < ids.len() && state.subscriptions.contains_key(#[trigger] ids[i]) ==> {
                &&& state.subscriptions[ids[i]].updated <= first
                &&& (first - state.subscriptions[ids[i]].updated) % (DAY as int) == 0
            },
    ensures
        state.after_charge(ids, first).after_charge(ids, second) == state.after_charge(
            ids,
            second,
        ),
{
    let once = state.after_charge(ids, first);
    law_batch_charges_each_named_once(state.subscriptions, ids, state.fee, first);
    law_batch_charges_each_named_once(once.subscriptions, ids, state.fee, second);
    law_batch_charges_each_named_once(state.subscriptions, ids, state.fee, second);
    assert forall|id: u64| #[trigger]
        state.subscriptions.contains_key(id) && ids.contains(
            id,
        ) implies state.subscriptions[id].charged(state.fee, first).charged(state.fee, second)
        == state.subscriptions[id].charged(state.fee, second) by {
        let i = choose|i: int| 0 <= i < ids.len() && ids[i] == id;
        assert(state.subscriptions.contains_key(ids[i]));
        law_charges_compose(state.subscriptions[id], state.fee, first, second);
    }
    assert(once.after_charge(ids, second).subscriptions =~= state.after_charge(
        ids,
        second,
    ).subscriptions);
}

/// A creation that is not refused opens an active subscription under the id
/// after the last one, with the amount less twice the fee as its balance.
pub proof fn law_creation_opens_active(
    state: ContractView,
    caller: Seq<u8>,
    params: SubscriptionInitParamsView,
    amount: nat,
    now: nat,
    max_ttl: nat,
)
    requires
        state.well_formed(),
        state.last_id < u64::MAX,
        state.creation_error(caller, params, amount, max_ttl) is None,
    ensures
        state.next_id() == state.last_id + 1,
        !state.subscriptions.contains_key(state.next_id()),
        state.after_create(params, amount, now).last_id == state.last_id + 1,
        state.after_create(params, amount, now).subscriptions.contains_key(state.next_id()),
        state.after_create(params, amount, now).subscriptions[state.next_id()].balance == amount
            - 2 * fee_for(state.fee, params.heartbeat, params.threshold),
        state.after_create(params, amount, now).subscriptions[state.next_id()].status
            == SubscriptionStatus::Active,
        state.after_create(params, amount, now).subscriptions[state.next_id()].updated == now,
        state.after_create(params, amount, now).well_formed(),
{
}

/// On a configured ledger, a creation that its owner funds with less than
/// twice the fee is refused as `InvalidAmount`, whatever else it asks for; one
/// that is funded but asks for a heartbeat below the minimum is refused as
/// `InvalidHeartbeat`, whatever else it asks for.
pub proof fn law_creation_refusals(
    state: ContractView,
    params: SubscriptionInitParamsView,
    amount: nat,
    max_ttl: nat,
)
    requires
        state.initialized,
    ensures
        amount < 2 * fee_for(state.fee, params.heartbeat, params.threshold)
            ==> state.creation_error(params.owner, params, amount, max_ttl) == Some(
            Error::InvalidAmount,
        ),
        amount >= 2 * fee_for(state.fee, params.heartbeat, params.threshold) && params.heartbeat
            < MIN_HEARTBEAT ==> state.creation_error(params.owner, params, amount, max_ttl)
            == Some(Error::InvalidHeartbeat),
{
}

/// A deposit to a suspended subscription that covers the fee reactivates it:
/// the fee is destroyed and the rest of the amount is credited. One that does
/// not cover the fee is refused. A deposit to an active subscription is
/// credited whole.
pub proof fn law_deposit_reactivates(
    state: ContractView,
    from: Seq<u8>,
    id: u64,
    amount: nat,
    now: nat,
    max_ttl: nat,
)
    requires
        state.initialized,
        state.subscriptions.contains_key(id),
        amount > 0,
    ensures
        ({
            let subscription = state.subscriptions[id];
            let fee = subscription.fee(state.fee);
            let after = state.after_deposit(id, amount, now).subscriptions[id];
            &&& subscription.status == SubscriptionStatus::Suspended && amount < fee
                ==> state.deposit_error(from, from, id, amount, now, max_ttl) == Some(
                Error::InvalidAmount,
            )
            &&& subscription.status == SubscriptionStatus::Suspended && amount >= fee ==> {
                &&& after.status == SubscriptionStatus::Active
                &&& after.balance == subscription.balance + amount - fee
                &&& fee > 0 ==> state.deposit_effects(from, id, amount, now)[1]
                    == (EffectView::Burn { amount: fee })
            }
            &&& subscription.status == SubscriptionStatus::Active ==> {
                &&& after.status == SubscriptionStatus::Active
                &&& after.balance == subscription.balance + amount
                &&& forall|i: int|
                    0 <= i < state.deposit_effects(from, id, amount, now).len()
                        ==> !(#[trigger] state.deposit_effects(from, id, amount, now)[i] is Burn)
            }
            &&& state.deposit_error(from, from, id, amount, now, max_ttl) is None <==> amount
                >= subscription.reactivation_fee(state.fee) && ledgers_to_live(
                fee,
                after.balance,
            ) <= max_ttl
        }),
{
}

/// The owner cannot cancel a suspended subscription. An active one the owner
/// can cancel: the whole balance goes back to the owner, and the subscription
/// is not found afterwards.
pub proof fn law_cancel(state: ContractView, id: u64)
    requires
        state.well_formed(),
        state.subscriptions.contains_key(id),
    ensures
        state.initialized,
        ({
            let subscription = state.subscriptions[id];
            &&& subscription.status == SubscriptionStatus::Suspended ==> state.cancel_error(
                subscription.owner,
                id,
            ) == Some(Error::InvalidSubscriptionStatusError)
            &&& subscription.status == SubscriptionStatus::Active ==> {
                &&& state.cancel_error(subscription.owner, id) is None
                &&& state.cancel_effects(id)[0] == (EffectView::Refund {
                    to: subscription.owner,
                    amount: subscription.balance,
                })
                &&& state.after_cancel(id).lookup(id) == Err::<SubscriptionView, Error>(
                    Error::SubscriptionNotFound,
                )
                &&& state.after_cancel(id).last_id == state.last_id
            }
        }),
{
}

/// No value is made or lost by the ledger: what a creation or a deposit
/// collects is what it destroys and what it credits, a charge destroys what
/// leaves the balance, and a cancellation pays back the whole balance.
pub proof fn law_value_is_accounted_for(
    state: ContractView,
    params: SubscriptionInitParamsView,
    id: u64,
    amount: nat,
    now: nat,
)
    ensures
        state.admission_error(params.owner, params, amount) is None ==> amount == 2 * fee_for(
            state.fee,
            params.heartbeat,
            params.threshold,
        ) + state.opening_balance(params, amount),
        state.subscriptions.contains_key(id) && amount >= state.subscriptions[id].reactivation_fee(
            state.fee,
        ) ==> state.subscriptions[id].balance + amount == state.subscriptions[id].reactivation_fee(
            state.fee,
        ) + state.subscriptions[id].deposited(state.fee, amount, now).balance,
        state.subscriptions.contains_key(id) ==> state.subscriptions[id].balance
            == state.subscriptions[id].charge_due(state.fee, now) + state.subscriptions[id].charged(
            state.fee,
            now,
        ).balance,
        state.subscriptions.contains_key(id) ==> state.cancel_effects(id)[0]
            == (EffectView::Refund {
            to: state.subscriptions[id].owner,
            amount: state.subscriptions[id].balance,
        }),
{
    if state.subscriptions.contains_key(id) {
        law_charge_is_capped(state.subscriptions[id], state.fee, now);
    }
}

/// Ids are given out in rising order, from 1, and none is used twice: the id
/// of a new subscription is one more than the counter and names no stored
/// subscription, and no other operation moves the counter, a cancellation
/// included.
pub proof fn law_ids_are_never_reused(
    state: ContractView,
    params: SubscriptionInitParamsView,
    ids: Seq<u64>,
    id: u64,
    amount: nat,
    fee: nat,
    now: nat,
)
    requires
        state.well_formed(),
        state.last_id < u64::MAX,
    ensures
        state.next_id() == state.last_id + 1,
        !state.subscriptions.contains_key(state.next_id()),
        state.after_create(params, amount, now).last_id == state.next_id(),
        state.after_cancel(id).last_id == state.last_id,
        state.after_deposit(id, amount, now).last_id == state.last_id,
        state.after_charge(ids, now).last_id == state.last_id,
        state.with_fee(fee).last_id == state.last_id,
        ContractView::unconfigured().last_id == 0,
{
}

/// A ledger is configured once: its first configuration by the administrator
/// that it names goes through, and after a configuration every further one is
/// refused, as `AlreadyInitialized` where the administrator that it names asks
/// for it.
pub proof fn law_config_is_single_shot(
    state: ContractView,
    first: ContractConfigView,
    second: ContractConfigView,
    caller: Seq<u8>,
)
    ensures
        !state.initialized ==> state.config_error(first.admin, first) is None,
        state.configured(first).config_error(caller, second) is Some,
        state.configured(first).config_error(second.admin, second) == Some(
            Error::AlreadyInitialized,
        ),
{
}

/// The reserved operations are open to the administrator of a configured
/// ledger and to nobody else.
pub proof fn law_reserved_for_admin(state: ContractView, caller: Seq<u8>)
    ensures
        state.admin_error(caller) is None <==> state.initialized && caller == state.admin,
        state.admin_error(caller) is Some ==> state.admin_error(caller) == Some(
            Error::Unauthorized,
        ),
{
}

} // verus!
