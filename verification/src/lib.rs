//! A ledger-resident counter guarded by a minimum payment.
//!
//! The counter record lives at a deterministically derived address and can
//! only be created once. Incrementing or decrementing it requires an atomic
//! payment of at least [`ledger::MINIMUM_PAYMENT`] base units into the
//! record's custodial balance.

pub mod address;
pub mod laws;
pub mod ledger;
pub mod wire;

pub use address::derive_counter_address;
pub use ledger::Counter;
pub use ledger::CounterLedger;
pub use ledger::ErrorCode;
pub use ledger::MINIMUM_PAYMENT;
