//! A recurring-billing subscription ledger.
//!
//! A party opens a subscription and funds it. A fee per day is charged against
//! the balance; a subscription whose balance no longer covers the fee is
//! suspended, and a deposit that covers the fee brings it back. The owner of an
//! active subscription can cancel it and is paid back what is left.
//!
//! The ledger decides and keeps the books; it moves no value itself. Each
//! operation takes the state of the ledger, the identity of the caller and the
//! time, changes the state, and returns the *effects* that the world around it
//! has to carry out: value to collect, pay back or destroy, storage to retain,
//! events to publish.
//!
//! - [`types`]: the records and their views.
//! - [`fees`]: the fee per day, the clock, and the retention of a record.
//! - [`effects`]: what an operation asks of the world.
//! - [`model`]: the ledger as a state machine over views, in which the
//!   contracts of the operations are stated.
//! - [`contract`]: the ledger and its operations.
//! - [`version`]: the protocol version.
//! - [`laws`]: what holds of the state machine whatever the inputs.

pub mod contract;
pub mod effects;
pub mod fees;
pub mod laws;
pub mod model;
pub mod types;
pub mod version;

pub use crate::contract::SubscriptionContract;
