//! The fee that a subscription pays per day, the clock, and how long the funds
//! of a subscription keep its record in the store.

use vstd::prelude::*;
use vstd::arithmetic::div_mod::lemma_fundamental_div_mod_converse;
use vstd::arithmetic::div_mod::lemma_fundamental_div_mod;
use crate::types::Error;

verus! {

/// One day, in milliseconds.
pub const DAY: u64 = 86_400_000;

/// How many ledgers the store closes per day, one about every five seconds.
pub const LEDGERS_PER_DAY: u32 = 17280;

/// Converts a ledger timestamp in seconds to milliseconds.
pub fn now(ledger_seconds: u64) -> (millis: u64)
    requires
        ledger_seconds * 1000 <= u64::MAX,
    ensures
        millis == ledger_seconds * 1000,
{
    ledger_seconds * 1000
}

/// `now`, for a caller that cannot tell beforehand whether the milliseconds
/// fit in 64 bits: `None` where they do not.
pub fn try_now(ledger_seconds: u64) -> (millis: Option<u64>)
    ensures
        millis == if ledger_seconds * 1000 <= u64::MAX {
            Some((ledger_seconds * 1000) as u64)
        } else {
            None
        },
{
    if ledger_seconds > u64::MAX / 1000 {
        None
    } else {
        Some(now(ledger_seconds))
    }
}

/// The fee per day of a subscription with the given heartbeat and threshold:
/// the base fee, whatever the two are.
pub open spec fn fee_for(base_fee: nat, heartbeat: u32, threshold: u32) -> nat {
    base_fee
}

/// Computes the fee per day of a subscription.
pub fn calc_fee(base_fee: u64, heartbeat: u32, threshold: u32) -> (fee: u64)
    ensures
        fee == fee_for(base_fee as nat, heartbeat, threshold),
{
    base_fee
}

/// The number of days that `balance` pays for at `fee` per day, a started day
/// counting as a whole one.
pub open spec fn days_funded(fee: nat, balance: nat) -> nat
    recommends
        fee > 0,
{
    ((balance + fee - 1) / (fee as int)) as nat
}

/// The number of ledgers for which the record of a subscription is kept.
pub open spec fn ledgers_to_live(fee: nat, balance: nat) -> nat
    recommends
        fee > 0,
{
    days_funded(fee, balance) * (LEDGERS_PER_DAY as nat)
}

/// `days_funded` is the ceiling of `balance / fee`: the least number of days
/// whose fees cover the balance.
pub proof fn lemma_days_funded_is_ceiling(fee: nat, balance: nat)
    requires
        fee > 0,
    ensures
        days_funded(fee, balance) * fee >= balance,
        days_funded(fee, balance) > 0 ==> (days_funded(fee, balance) - 1) * fee < balance,
        days_funded(fee, balance) == balance / fee + if balance % fee == 0 { 0nat } else { 1nat },
{
    let f = fee as int;
    let b = balance as int;
    let q = b / f;
    let r = b % f;
    lemma_fundamental_div_mod(b, f);
    assert(b == f * q + r);
    assert(0 <= r < f) by (nonlinear_arith)
        requires
            r == b % f,
            f > 0,
    ;
    assert(q >= 0) by (nonlinear_arith)
        requires
            b == f * q + r,
            0 <= r < f,
            b >= 0,
            f > 0,
    ;
    if r == 0 {
        assert(b + f - 1 == q * f + (f - 1)) by (nonlinear_arith)
            requires
                b == f * q + r,
                r == 0,
        ;
        lemma_fundamental_div_mod_converse(b + f - 1, f, q, f - 1);
        assert(q * f == b) by (nonlinear_arith)
            requires
                b == f * q + r,
                r == 0,
        ;
        assert((q - 1) * f < b) by (nonlinear_arith)
            requires
                q * f == b,
                f > 0,
        ;
    } else {
        assert(b + f - 1 == (q + 1) * f + (r - 1)) by (nonlinear_arith)
            requires
                b == f * q + r,
        ;
        lemma_fundamental_div_mod_converse(b + f - 1, f, q + 1, r - 1);
        assert((q + 1) * f >= b) by (nonlinear_arith)
            requires
                b == f * q + r,
                r < f,
        ;
        assert(q * f < b) by (nonlinear_arith)
            requires
                b == f * q + r,
                r > 0,
        ;
    }
}

/// Plans the retention of a record whose subscription holds `amount` and pays
/// `fee` per day. A plan beyond `max_ttl`, the longest that the store keeps an
/// entry, is refused.
pub fn calc_ledgers_to_live(fee: u64, amount: u64, max_ttl: u32) -> (plan: Result<u32, Error>)
    requires
        fee > 0,
    ensures
        match plan {
            Ok(ledgers) => ledgers == ledgers_to_live(fee as nat, amount as nat) && ledgers
                <= max_ttl,
            Err(error) => error == Error::InvalidAmount && ledgers_to_live(
                fee as nat,
                amount as nat,
            ) > max_ttl,
        },
{
    proof {
        lemma_days_funded_is_ceiling(fee as nat, amount as nat);
    }
    let whole: u64 = amount / fee;
    let days: u128 = if amount % fee == 0 {
        whole as u128
    } else {
        whole as u128 + 1
    };
    assert(days == days_funded(fee as nat, amount as nat));
    assert(days * LEDGERS_PER_DAY <= u128::MAX) by (nonlinear_arith)
        requires
            days <= 0x1_0000_0000_0000_0000,
            LEDGERS_PER_DAY <= 0xffff_ffff,
    ;
    let ledgers: u128 = days * (LEDGERS_PER_DAY as u128);
    if ledgers > max_ttl as u128 {
        Err(Error::InvalidAmount)
    } else {
        Ok(ledgers as u32)
    }
}

} // verus!
