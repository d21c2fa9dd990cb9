//! Retry-until-success executors: drive a fallible or optional operation until it yields a
//! value, announcing each distinct failure once.
//!
//! The executor's decisions are verified here: [`memo::FailureMemo`] and
//! [`memo::AbsenceMemo`] decide, outcome by outcome, whether the executor returns or retries
//! and whether a diagnostic line is due; [`notice`] builds those lines; and
//! [`operation::RetryableResultFn`] runs one attempt of a closure. The loop that repeats
//! attempts, pauses and prints belongs to the caller.

pub mod memo;
pub mod notice;
pub mod operation;
pub mod laws;
