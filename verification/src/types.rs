//! The records of the ledger and their mathematical views.

use vstd::prelude::*;

verus! {

/// Smallest heartbeat, in minutes, that a subscription may ask for.
pub const MIN_HEARTBEAT: u32 = 5;

/// Largest deviation threshold, in basis points.
pub const MAX_THRESHOLD: u32 = 10000;

/// Largest webhook payload, in bytes.
pub const MAX_WEBHOOK_SIZE: u32 = 2048;

/// Why an operation was refused. A refused operation changes nothing.
#[derive(Clone, Copy, Debug, PartialEq, Eq, Structural)]
pub enum Error {
    /// The ledger has been configured before.
    AlreadyInitialized,
    /// The ledger has not been configured yet.
    NotInitialized,
    /// The caller is not the identity that the operation is reserved for.
    Unauthorized,
    /// No subscription is stored under the given id.
    SubscriptionNotFound,
    /// The amount does not cover the fee due, or funds more storage time than
    /// the store can promise.
    InvalidAmount,
    /// The heartbeat is shorter than `MIN_HEARTBEAT`.
    InvalidHeartbeat,
    /// The threshold is zero or above `MAX_THRESHOLD`.
    InvalidThreshold,
    /// The webhook is longer than `MAX_WEBHOOK_SIZE`.
    WebhookTooLong,
    /// The subscription is not in the state that the operation needs.
    InvalidSubscriptionStatusError,
}

/// The two states of a subscription.
#[derive(Clone, Copy, Debug, PartialEq, Eq, Structural)]
pub enum SubscriptionStatus {
    Active,
    Suspended,
}

/// A party known to the value ledger, named by the bytes of its address.
#[derive(Debug, PartialEq, Eq)]
pub struct Identity {
    pub key: Vec<u8>,
}

impl View for Identity {
    type V = Seq<u8>;

    open spec fn view(&self) -> Seq<u8> {
        self.key@
    }
}

/// Copies a byte string.
pub fn copy_bytes(bytes: &Vec<u8>) -> (copy: Vec<u8>)
    ensures
        copy@ == bytes@,
{
    let copy = bytes.clone();
    assert(copy@ =~= bytes@);
    copy
}

impl Identity {
    /// The identity with the given address bytes.
    pub fn new(key: Vec<u8>) -> (identity: Identity)
        ensures
            identity@ == key@,
    {
        Identity { key }
    }

    /// The address bytes.
    pub fn as_bytes(&self) -> (bytes: &Vec<u8>)
        ensures
            bytes@ == self@,
    {
        &self.key
    }

    /// Whether two identities name the same party.
    pub fn same_as(&self, other: &Identity) -> (same: bool)
        ensures
            same == (self@ == other@),
    {
        let same = self.key == other.key;
        assert(same == (self.key@ =~= other.key@));
        same
    }
}

impl Clone for Identity {
    fn clone(&self) -> (copy: Identity)
        ensures
            copy@ == self@,
    {
        Identity { key: copy_bytes(&self.key) }
    }
}

/// A funded, periodically billed record.
#[derive(Debug, PartialEq, Eq)]
pub struct Subscription {
    /// Who created the subscription; the only one who may cancel it.
    pub owner: Identity,
    /// The first of the two assets that the subscription tracks.
    pub base: Vec<u8>,
    /// The second of the two assets that the subscription tracks.
    pub quote: Vec<u8>,
    /// Deviation trigger in basis points, in `1..=MAX_THRESHOLD`.
    pub threshold: u32,
    /// Longest interval between notifications, in minutes.
    pub heartbeat: u32,
    /// Where notifications are delivered.
    pub webhook: Vec<u8>,
    /// Funds left to pay future fees.
    pub balance: u64,
    pub status: SubscriptionStatus,
    /// Time, in milliseconds, of the last event that touched the balance.
    pub updated: u64,
}

/// What a `Subscription` holds, as mathematical values.
pub struct SubscriptionView {
    pub owner: Seq<u8>,
    pub base: Seq<u8>,
    pub quote: Seq<u8>,
    pub threshold: u32,
    pub heartbeat: u32,
    pub webhook: Seq<u8>,
    pub balance: nat,
    pub status: SubscriptionStatus,
    pub updated: nat,
}

impl SubscriptionView {
    /// The limits that every stored subscription keeps for its whole life.
    pub open spec fn valid(self) -> bool {
        &&& self.heartbeat >= MIN_HEARTBEAT
        &&& 0 < self.threshold <= MAX_THRESHOLD
        &&& self.webhook.len() <= MAX_WEBHOOK_SIZE
    }
}

impl View for Subscription {
    type V = SubscriptionView;

    open spec fn view(&self) -> SubscriptionView {
        SubscriptionView {
            owner: self.owner@,
            base: self.base@,
            quote: self.quote@,
            threshold: self.threshold,
            heartbeat: self.heartbeat,
            webhook: self.webhook@,
            balance: self.balance as nat,
            status: self.status,
            updated: self.updated as nat,
        }
    }
}

impl Clone for Subscription {
    fn clone(&self) -> (copy: Subscription)
        ensures
            copy@ == self@,
    {
        Subscription {
            owner: self.owner.clone(),
            base: copy_bytes(&self.base),
            quote: copy_bytes(&self.quote),
            threshold: self.threshold,
            heartbeat: self.heartbeat,
            webhook: copy_bytes(&self.webhook),
            balance: self.balance,
            status: self.status,
            updated: self.updated,
        }
    }
}

/// What a caller supplies to open a subscription.
#[derive(Debug, PartialEq, Eq)]
pub struct SubscriptionInitParams {
    pub owner: Identity,
    pub base: Vec<u8>,
    pub quote: Vec<u8>,
    pub threshold: u32,
    pub heartbeat: u32,
    pub webhook: Vec<u8>,
}

/// What a `SubscriptionInitParams` holds, as mathematical values.
pub struct SubscriptionInitParamsView {
    pub owner: Seq<u8>,
    pub base: Seq<u8>,
    pub quote: Seq<u8>,
    pub threshold: u32,
    pub heartbeat: u32,
    pub webhook: Seq<u8>,
}

impl View for SubscriptionInitParams {
    type V = SubscriptionInitParamsView;

    open spec fn view(&self) -> SubscriptionInitParamsView {
        SubscriptionInitParamsView {
            owner: self.owner@,
            base: self.base@,
            quote: self.quote@,
            threshold: self.threshold,
            heartbeat: self.heartbeat,
            webhook: self.webhook@,
        }
    }
}

/// The one-time configuration of the ledger.
#[derive(Debug, PartialEq, Eq)]
pub struct ContractConfig {
    /// Who may change the fee and run the charges.
    pub admin: Identity,
    /// The token in which fees are paid.
    pub token: Identity,
    /// The base fee per day.
    pub fee: u64,
}

/// What a `ContractConfig` holds, as mathematical values.
pub struct ContractConfigView {
    pub admin: Seq<u8>,
    pub token: Seq<u8>,
    pub fee: nat,
}

impl View for ContractConfig {
    type V = ContractConfigView;

    open spec fn view(&self) -> ContractConfigView {
        ContractConfigView { admin: self.admin@, token: self.token@, fee: self.fee as nat }
    }
}

} // verus!
