//! The synchronous core of a retry combinator: a state machine that owns the
//! retry policy — classifying failures, consulting a condition, choosing the
//! delay reported to an observer, keeping the accumulated-delay register, and
//! deciding whether to wait again or give up. An asynchronous wrapper drives
//! it by handing in events (an attempt finished, a wait elapsed) and carrying
//! out the steps it returns (run the action, call notify, sleep).

pub mod driver;
pub mod error;
pub mod laws;
pub mod model;
