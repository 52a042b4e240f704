use vstd::prelude::*;

verus! {

/// Classification of a failed attempt, supplied by the caller's action.
///
/// A permanent failure ends the retry loop at once and is surfaced unchanged.
/// A transient failure is a candidate for another attempt; it may carry an
/// explicit delay (in nanoseconds) that overrides the schedule-chosen value
/// for that one retry. Exactly one of the two variants describes a resolved
/// attempt; there is no third state.
pub enum RetryError<E> {
    Permanent(E),
    Transient { err: E, retry_after: Option<u64> },
}

} // verus!
