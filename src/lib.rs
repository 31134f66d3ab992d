//! Deadlock-avoiding coordination of two guarded resources: exclusive access
//! through non-blocking probes, a shared deadline per transfer attempt, and a
//! bounded retry policy around the attempts.

pub mod attempt;
pub mod resource;
pub mod retry;
pub mod transfer;

pub use attempt::{AttemptStep, TransferAttempt};
pub use resource::{BankAccount, Guard};
pub use retry::{FinalOutcome, RetryLoop, RetryStep};
pub use transfer::{
    AttemptOutcome, Movement, Settlement, TransferReport, deposit_held, settle, transfer_held,
    withdraw_held,
};
