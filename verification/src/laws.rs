//! Laws of the guarded state machine, stated once and proved for every
//! input: the payment gate, underflow protection, conservation of funds,
//! and the count reached by a run of successful operations.

use vstd::prelude::*;

use crate::ledger::decrement_step;
use crate::ledger::increment_step;
use crate::ledger::ErrorCode;
use crate::ledger::StepOutcome;
use crate::ledger::MINIMUM_PAYMENT;

verus! {

/// One requested operation: an increment or a decrement, with its attached
/// payment.
pub struct LedgerOp {
    pub is_increment: bool,
    pub payment: u64,
}

/// The outcome of one requested operation from the given state.
pub open spec fn step_of(count: u64, custodial: u64, payer: u64, op: LedgerOp) -> StepOutcome {
    if op.is_increment {
        increment_step(count, custodial, payer, op.payment)
    } else {
        decrement_step(count, custodial, payer, op.payment)
    }
}

/// The state after applying a run of operations in order, each one starting
/// from where the previous one left off.
pub open spec fn apply_ops(count: u64, custodial: u64, payer: u64, ops: Seq<LedgerOp>) -> StepOutcome
    decreases ops.len(),
{
    if ops.len() == 0 {
        StepOutcome { count, custodial, payer, result: Ok(count) }
    } else {
        let o = step_of(count, custodial, payer, ops[0]);
        apply_ops(o.count, o.custodial, o.payer, ops.drop_first())
    }
}

/// Whether every operation of the run succeeds when applied in order.
pub open spec fn all_succeed(count: u64, custodial: u64, payer: u64, ops: Seq<LedgerOp>) -> bool
    decreases ops.len(),
{
    ops.len() == 0 || {
        let o = step_of(count, custodial, payer, ops[0]);
        o.result is Ok && all_succeed(o.count, o.custodial, o.payer, ops.drop_first())
    }
}

/// How many of the operations are increments.
pub open spec fn num_increments(ops: Seq<LedgerOp>) -> int
    decreases ops.len(),
{
    if ops.len() == 0 {
        0
    } else {
        (if ops[0].is_increment { 1int } else { 0int }) + num_increments(ops.drop_first())
    }
}

/// How many of the operations are decrements.
pub open spec fn num_decrements(ops: Seq<LedgerOp>) -> int
    decreases ops.len(),
{
    if ops.len() == 0 {
        0
    } else {
        (if ops[0].is_increment { 0int } else { 1int }) + num_decrements(ops.drop_first())
    }
}

/// The sum of the payments attached to the operations.
pub open spec fn total_payment(ops: Seq<LedgerOp>) -> int
    decreases ops.len(),
{
    if ops.len() == 0 {
        0
    } else {
        ops[0].payment + total_payment(ops.drop_first())
    }
}

/// The count never leaves its representation: it is non-negative in every
/// reachable state, and a decrement never drives it below zero — it
/// succeeds only from a positive count, which it then lowers by exactly
/// one.
pub proof fn lemma_no_underflow(count: u64, custodial: u64, payer: u64, payment: u64)
    ensures
        decrement_step(count, custodial, payer, payment).count >= 0,
        decrement_step(count, custodial, payer, payment).result is Ok ==> count > 0
            && decrement_step(count, custodial, payer, payment).count == count - 1,
{
}

/// The payment gate: below the minimum payment, an increment or decrement
/// fails with `InsufficientPayment` and changes nothing — not the count,
/// not the custodial balance, not the payer's balance. At or above the
/// minimum, an operation succeeds whenever the payer can cover the
/// payment, the custodial balance can absorb it, and the count is in
/// range.
pub proof fn lemma_payment_gate(count: u64, custodial: u64, payer: u64, payment: u64)
    ensures
        payment < MINIMUM_PAYMENT ==> increment_step(count, custodial, payer, payment)
            == (StepOutcome { count, custodial, payer, result: Err::<u64, ErrorCode>(ErrorCode::InsufficientPayment) }),
        payment < MINIMUM_PAYMENT ==> decrement_step(count, custodial, payer, payment)
            == (StepOutcome { count, custodial, payer, result: Err::<u64, ErrorCode>(ErrorCode::InsufficientPayment) }),
        payment >= MINIMUM_PAYMENT && payer >= payment && custodial + payment <= u64::MAX
            && count < u64::MAX ==> increment_step(count, custodial, payer, payment).result is Ok,
        payment >= MINIMUM_PAYMENT && payer >= payment && custodial + payment <= u64::MAX
            && count > 0 ==> decrement_step(count, custodial, payer, payment).result is Ok,
{
}

/// No operation creates or destroys funds: whatever its outcome, the payer's
/// balance and the custodial balance change by equal and opposite amounts —
/// even a decrement that fails its underflow check after the transfer.
pub proof fn lemma_funds_conserved(count: u64, custodial: u64, payer: u64, op: LedgerOp)
    ensures
        step_of(count, custodial, payer, op).custodial + step_of(count, custodial, payer, op).payer
            == custodial + payer,
{
}

/// Conservation over a run: after N successful increments and M successful
/// decrements, applied in any order in which each succeeds, the count is
/// the starting count plus N minus M, the custodial balance has grown by
/// the sum of all accepted payments, and the payer's balance has shrunk by
/// that same sum.
pub proof fn lemma_conservation(count: u64, custodial: u64, payer: u64, ops: Seq<LedgerOp>)
    requires
        all_succeed(count, custodial, payer, ops),
    ensures
        apply_ops(count, custodial, payer, ops).count
            == count + num_increments(ops) - num_decrements(ops),
        apply_ops(count, custodial, payer, ops).custodial == custodial + total_payment(ops),
        apply_ops(count, custodial, payer, ops).payer == payer - total_payment(ops),
    decreases ops.len(),
{
    if ops.len() > 0 {
        let o = step_of(count, custodial, payer, ops[0]);
        lemma_conservation(o.count, o.custodial, o.payer, ops.drop_first());
    }
}

} // verus!
