//! The counter record and the guarded state machine that mutates it.
//!
//! A [`CounterLedger`] models the slot at the counter's derived address: the
//! record itself (absent until `initialize`) together with the custodial
//! balance attached to that address. Every operation is atomic: it either
//! commits in full or leaves the slot unchanged, with the one documented
//! exception of `decrement`'s ordering hazard (the payment is transferred
//! before the underflow check runs, so a failed decrement still moves funds).

use vstd::prelude::*;

verus! {

/// The minimum payment, in the ledger's base unit, that `increment` and
/// `decrement` demand before they touch any state.
pub const MINIMUM_PAYMENT: u64 = 10_000_000;

/// The persisted counter record: a single unsigned count.
#[derive(Clone, Copy, PartialEq, Eq, Structural, Debug)]
pub struct Counter {
    pub count: u64,
}

/// The typed failures an operation can return.
#[derive(Clone, Copy, PartialEq, Eq, Structural, Debug)]
pub enum ErrorCode {
    /// `initialize` was called on an address that already holds a record.
    AlreadyInitialized,
    /// The attached payment is below [`MINIMUM_PAYMENT`]; no state was touched.
    InsufficientPayment,
    /// The payer lacks the funds for the transfer (or the custodial balance
    /// cannot absorb it); no state was touched.
    TransferFailed,
    /// `decrement` was attempted while the count was zero. By the time this
    /// is detected the payment has already been transferred.
    CounterUnderflow,
    /// `increment` was attempted while the count was at its maximum.
    /// Failing fast here, before the transfer, keeps the operation free of
    /// side effects rather than wrapping or saturating the count.
    CounterOverflow,
}

/// Everything one operation observes and changes, gathered after the fact:
/// the count in the record, the custodial balance at the counter's address,
/// the payer's balance, and the operation's result.
pub struct StepOutcome {
    pub count: u64,
    pub custodial: u64,
    pub payer: u64,
    pub result: Result<u64, ErrorCode>,
}

/// What `increment` does, as a function of the state it starts from.
///
/// The payment gate runs first and touches nothing on failure; the overflow
/// guard fails fast before any funds move; the transfer moves the payment
/// from the payer to the custodial balance or fails leaving both untouched;
/// only after a successful transfer does the count rise by one.
pub open spec fn increment_step(count: u64, custodial: u64, payer: u64, payment: u64) -> StepOutcome {
    if payment < MINIMUM_PAYMENT {
        StepOutcome { count, custodial, payer, result: Err(ErrorCode::InsufficientPayment) }
    } else if count == u64::MAX {
        StepOutcome { count, custodial, payer, result: Err(ErrorCode::CounterOverflow) }
    } else if payer < payment || custodial + payment > u64::MAX {
        StepOutcome { count, custodial, payer, result: Err(ErrorCode::TransferFailed) }
    } else {
        StepOutcome {
            count: (count + 1) as u64,
            custodial: (custodial + payment) as u64,
            payer: (payer - payment) as u64,
            result: Ok((count + 1) as u64),
        }
    }
}

/// What `decrement` does, as a function of the state it starts from.
///
/// The underflow check runs only after the transfer, so a decrement of a
/// zero count fails with `CounterUnderflow` while the payment has already
/// moved into the custodial balance. This ordering is kept deliberately:
/// reordering the check before the transfer would change the observable
/// economic behaviour of a deployed counter.
pub open spec fn decrement_step(count: u64, custodial: u64, payer: u64, payment: u64) -> StepOutcome {
    if payment < MINIMUM_PAYMENT {
        StepOutcome { count, custodial, payer, result: Err(ErrorCode::InsufficientPayment) }
    } else if payer < payment || custodial + payment > u64::MAX {
        StepOutcome { count, custodial, payer, result: Err(ErrorCode::TransferFailed) }
    } else if count == 0 {
        StepOutcome {
            count,
            custodial: (custodial + payment) as u64,
            payer: (payer - payment) as u64,
            result: Err(ErrorCode::CounterUnderflow),
        }
    } else {
        StepOutcome {
            count: (count - 1) as u64,
            custodial: (custodial + payment) as u64,
            payer: (payer - payment) as u64,
            result: Ok((count - 1) as u64),
        }
    }
}

/// The payment gate: the decision `increment` and `decrement` take before
/// any funds move. Passes exactly the payments that reach the minimum.
pub fn check_payment(payment: u64) -> (r: Result<(), ErrorCode>)
    ensures
        r is Ok <==> payment >= MINIMUM_PAYMENT,
        r is Err ==> r == Err::<(), ErrorCode>(ErrorCode::InsufficientPayment),
{
    if payment >= MINIMUM_PAYMENT {
        Ok(())
    } else {
        Err(ErrorCode::InsufficientPayment)
    }
}

/// The count an increment writes once its transfer has succeeded: one more
/// than the current count, or `CounterOverflow` at the representation's
/// maximum. The guard is pure, so callers can run it before moving funds.
pub fn next_count_up(count: u64) -> (r: Result<u64, ErrorCode>)
    ensures
        count < u64::MAX ==> r == Ok::<u64, ErrorCode>((count + 1) as u64),
        count == u64::MAX ==> r == Err::<u64, ErrorCode>(ErrorCode::CounterOverflow),
{
    if count < u64::MAX {
        Ok(count + 1)
    } else {
        Err(ErrorCode::CounterOverflow)
    }
}

/// The count a decrement writes once its transfer has succeeded: one less
/// than the current count, or `CounterUnderflow` at zero.
pub fn next_count_down(count: u64) -> (r: Result<u64, ErrorCode>)
    ensures
        count > 0 ==> r == Ok::<u64, ErrorCode>((count - 1) as u64),
        count == 0 ==> r == Err::<u64, ErrorCode>(ErrorCode::CounterUnderflow),
{
    if count > 0 {
        Ok(count - 1)
    } else {
        Err(ErrorCode::CounterUnderflow)
    }
}

/// The value transfer primitive: moves `amount` from `from` to `to`
/// atomically, and fails, moving nothing, when `from` cannot cover the
/// amount or `to` cannot absorb it.
pub fn transfer(from: &mut u64, to: &mut u64, amount: u64) -> (r: Result<(), ErrorCode>)
    ensures
        r is Ok <==> *old(from) >= amount && *old(to) + amount <= u64::MAX,
        r is Ok ==> *final(from) == *old(from) - amount && *final(to) == *old(to) + amount,
        r is Err ==> *final(from) == *old(from) && *final(to) == *old(to)
            && r == Err::<(), ErrorCode>(ErrorCode::TransferFailed),
{
    if *from >= amount && amount <= u64::MAX - *to {
        *from = *from - amount;
        *to = *to + amount;
        Ok(())
    } else {
        Err(ErrorCode::TransferFailed)
    }
}

/// The slot at the counter's derived address: the record, if one has been
/// allocated there, and the custodial balance held at that address.
pub struct CounterLedger {
    record: Option<Counter>,
    custodial_balance: u64,
}

impl CounterLedger {
    /// Whether `initialize` has allocated the record.
    pub closed spec fn is_initialized(self) -> bool {
        self.record is Some
    }

    /// The count stored in the record; zero while no record exists.
    pub closed spec fn spec_count(self) -> u64 {
        match self.record {
            Option::Some(c) => c.count,
            Option::None => 0,
        }
    }

    /// The custodial balance held at the counter's address.
    pub closed spec fn spec_custodial_balance(self) -> u64 {
        self.custodial_balance
    }

    /// A fresh slot: no record allocated, no funds held.
    pub fn new() -> (s: Self)
        ensures
            !s.is_initialized(),
            s.spec_custodial_balance() == 0,
    {
        CounterLedger { record: None, custodial_balance: 0 }
    }

    /// The slot of an existing deployment, as loaded back from persistence:
    /// a record holding the given count, and the custodial balance currently
    /// held at the counter's address.
    pub fn from_record(count: u64, custodial_balance: u64) -> (s: Self)
        ensures
            s.is_initialized(),
            s.spec_count() == count,
            s.spec_custodial_balance() == custodial_balance,
    {
        CounterLedger { record: Some(Counter { count }), custodial_balance }
    }

    /// Allocates the record and zeroes the count. Fails with
    /// `AlreadyInitialized`, touching nothing, if the record already exists.
    pub fn initialize(&mut self) -> (r: Result<u64, ErrorCode>)
        ensures
            old(self).is_initialized() ==> r == Err::<u64, ErrorCode>(ErrorCode::AlreadyInitialized)
                && *final(self) == *old(self),
            !old(self).is_initialized() ==> r == Ok::<u64, ErrorCode>(0u64)
                && final(self).is_initialized()
                && final(self).spec_count() == 0
                && final(self).spec_custodial_balance() == old(self).spec_custodial_balance(),
    {
        if self.record.is_some() {
            Err(ErrorCode::AlreadyInitialized)
        } else {
            self.record = Some(Counter { count: 0 });
            Ok(0)
        }
    }

    /// Raises the count by one after taking the attached payment.
    ///
    /// The record must already exist; resolving an absent record is the
    /// caller's concern. The whole behaviour is [`increment_step`] of the
    /// starting state.
    pub fn increment(&mut self, payer_balance: &mut u64, payment: u64) -> (r: Result<u64, ErrorCode>)
        requires
            old(self).is_initialized(),
        ensures
            final(self).is_initialized(),
            ({
                let o = increment_step(
                    old(self).spec_count(),
                    old(self).spec_custodial_balance(),
                    *old(payer_balance),
                    payment,
                );
                final(self).spec_count() == o.count
                    && final(self).spec_custodial_balance() == o.custodial
                    && *final(payer_balance) == o.payer
                    && r == o.result
            }),
    {
        if let Err(e) = check_payment(payment) {
            return Err(e);
        }
        let c = self.record.unwrap();
        let next = match next_count_up(c.count) {
            Ok(n) => n,
            Err(e) => return Err(e),
        };
        match transfer(payer_balance, &mut self.custodial_balance, payment) {
            Err(e) => Err(e),
            Ok(()) => {
                self.record = Some(Counter { count: next });
                Ok(next)
            }
        }
    }

    /// Lowers the count by one after taking the attached payment.
    ///
    /// The record must already exist. The whole behaviour is
    /// [`decrement_step`] of the starting state; in particular, a decrement
    /// of a zero count fails only after its payment has moved.
    pub fn decrement(&mut self, payer_balance: &mut u64, payment: u64) -> (r: Result<u64, ErrorCode>)
        requires
            old(self).is_initialized(),
        ensures
            final(self).is_initialized(),
            ({
                let o = decrement_step(
                    old(self).spec_count(),
                    old(self).spec_custodial_balance(),
                    *old(payer_balance),
                    payment,
                );
                final(self).spec_count() == o.count
                    && final(self).spec_custodial_balance() == o.custodial
                    && *final(payer_balance) == o.payer
                    && r == o.result
            }),
    {
        if let Err(e) = check_payment(payment) {
            return Err(e);
        }
        match transfer(payer_balance, &mut self.custodial_balance, payment) {
            Err(e) => return Err(e),
            Ok(()) => {}
        }
        let c = self.record.unwrap();
        match next_count_down(c.count) {
            Ok(n) => {
                self.record = Some(Counter { count: n });
                Ok(n)
            }
            Err(e) => Err(e),
        }
    }

    /// Whether the record has been allocated.
    pub fn initialized(&self) -> (r: bool)
        ensures
            r == self.is_initialized(),
    {
        self.record.is_some()
    }

    /// The current count of the allocated record.
    pub fn count(&self) -> (r: u64)
        requires
            self.is_initialized(),
        ensures
            r == self.spec_count(),
    {
        self.record.unwrap().count
    }

    /// The custodial balance held at the counter's address.
    pub fn custodial_balance(&self) -> (r: u64)
        ensures
            r == self.spec_custodial_balance(),
    {
        self.custodial_balance
    }
}

} // verus!
