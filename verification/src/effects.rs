//! What an operation asks of the world around the ledger: value to move or
//! destroy, storage to keep, events to publish.

use vstd::prelude::*;
use crate::types::{Identity, Subscription, SubscriptionView};

verus! {

/// One request to the value ledger, the store or the event log. An operation
/// returns its effects in the order in which they are to be carried out.
#[derive(Debug, PartialEq, Eq)]
#[allow(inconsistent_fields)]
pub enum Effect {
    /// Move `amount` from `from` into the holdings of the ledger.
    Collect { from: Identity, amount: u64 },
    /// Pay `amount` out of the holdings of the ledger to `to`.
    Refund { to: Identity, amount: u64 },
    /// Destroy `amount` of the holdings of the ledger.
    Burn { amount: u128 },
    /// Keep the record of subscription `id` for at least `ledgers` ledgers.
    Retain { id: u64, ledgers: u32 },
    /// Event: `subscription` was created under `id`.
    Created { id: u64, subscription: Subscription },
    /// Event: `amount` was deposited to subscription `id`, which now reads
    /// `subscription`.
    Deposited { id: u64, subscription: Subscription, amount: u64 },
    /// Event: subscription `id` of `owner` was charged `amount` at `timestamp`.
    Charged { owner: Identity, timestamp: u64, id: u64, amount: u64 },
    /// Event: subscription `id` of `owner` ran out of funds at `timestamp`.
    Suspended { owner: Identity, timestamp: u64, id: u64 },
    /// Event: subscription `id` of `owner` was cancelled.
    Cancelled { owner: Identity, id: u64 },
    /// Event: the administrator signals the trigger `hash` at `timestamp`.
    Triggered { timestamp: u64, hash: [u8; 32] },
    /// Replace the code of the ledger by the one with hash `wasm_hash`.
    Upgrade { wasm_hash: [u8; 32] },
}

/// What an `Effect` holds, as mathematical values.
pub enum EffectView {
    Collect { from: Seq<u8>, amount: nat },
    Refund { to: Seq<u8>, amount: nat },
    Burn { amount: nat },
    Retain { id: u64, ledgers: nat },
    Created { id: u64, subscription: SubscriptionView },
    Deposited { id: u64, subscription: SubscriptionView, amount: nat },
    Charged { owner: Seq<u8>, timestamp: nat, id: u64, amount: nat },
    Suspended { owner: Seq<u8>, timestamp: nat, id: u64 },
    Cancelled { owner: Seq<u8>, id: u64 },
    Triggered { timestamp: nat, hash: Seq<u8> },
    Upgrade { wasm_hash: Seq<u8> },
}

impl View for Effect {
    type V = EffectView;

    open spec fn view(&self) -> EffectView {
        match *self {
            Effect::Collect { from, amount } => EffectView::Collect {
                from: from@,
                amount: amount as nat,
            },
            Effect::Refund { to, amount } => EffectView::Refund { to: to@, amount: amount as nat },
            Effect::Burn { amount } => EffectView::Burn { amount: amount as nat },
            Effect::Retain { id, ledgers } => EffectView::Retain { id, ledgers: ledgers as nat },
            Effect::Created { id, subscription } => EffectView::Created {
                id,
                subscription: subscription@,
            },
            Effect::Deposited { id, subscription, amount } => EffectView::Deposited {
                id,
                subscription: subscription@,
                amount: amount as nat,
            },
            Effect::Charged { owner, timestamp, id, amount } => EffectView::Charged {
                owner: owner@,
                timestamp: timestamp as nat,
                id,
                amount: amount as nat,
            },
            Effect::Suspended { owner, timestamp, id } => EffectView::Suspended {
                owner: owner@,
                timestamp: timestamp as nat,
                id,
            },
            Effect::Cancelled { owner, id } => EffectView::Cancelled { owner: owner@, id },
            Effect::Triggered { timestamp, hash } => EffectView::Triggered {
                timestamp: timestamp as nat,
                hash: hash@,
            },
            Effect::Upgrade { wasm_hash } => EffectView::Upgrade { wasm_hash: wasm_hash@ },
        }
    }
}

/// The views of a list of effects, in order.
pub open spec fn effect_views(effects: Seq<Effect>) -> Seq<EffectView> {
    effects.map_values(|effect: Effect| effect@)
}

/// Appends `effect` to `effects`.
pub fn emit(effects: &mut Vec<Effect>, effect: Effect)
    ensures
        effect_views(final(effects)@) == effect_views(old(effects)@).push(effect@),
{
    effects.push(effect);
    assert(effect_views(effects@) =~= effect_views(old(effects)@).push(effect@));
}

} // verus!
