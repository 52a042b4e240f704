use vstd::prelude::*;

verus! {

/// One resolved attempt as the driver sees it: the action's classified
/// outcome, together with the condition's verdict where one is consulted
/// (the condition is asked only about a transient failure).
pub enum AttemptOutcome<T, E> {
    Success(T),
    Permanent(E),
    Transient { err: E, retry_after: Option<u64>, accepted: bool },
}

/// Everything observable about one complete run of the driver: the final
/// resolution (`None` when the script of outcomes ran out before one was
/// reached), how many attempts were made, the delay values handed to the
/// notify observer in order, and the waits actually performed in order.
pub struct RunTrace<T, E> {
    pub resolution: Option<Result<T, E>>,
    pub attempts: int,
    pub notifies: Seq<int>,
    pub waits: Seq<u64>,
}

/// The delay reported to notify for one retry: the transient error's own
/// `retry_after` when it carries one, otherwise the accumulated-delay
/// register as it stands.
pub open spec fn report_delay(retry_after: Option<u64>, register: int) -> int {
    match retry_after {
        Some(d) => d as int,
        None => register,
    }
}

/// A run that ends at its first attempt: no notify call, no wait.
pub open spec fn resolved_at_once<T, E>(r: Result<T, E>) -> RunTrace<T, E> {
    RunTrace {
        resolution: Some(r),
        attempts: 1,
        notifies: Seq::empty(),
        waits: Seq::empty(),
    }
}

/// The driver's complete behaviour, one attempt per recursive step.
///
/// `outcomes` scripts what each successive attempt yields, `delays` is the
/// schedule the strategy produces, `cursor` is how many schedule entries have
/// been drawn so far and `register` the accumulated-delay register. Each step
/// follows the driver's rule: success and permanent failures resolve at once;
/// a transient failure the condition rejects resolves at once with no notify
/// call; an accepted transient failure first reports `report_delay` to
/// notify, then draws from the schedule — resolving with the error when the
/// schedule is exhausted (the notify call has already happened), or waiting
/// the drawn value with the register advanced to the reported delay plus the
/// drawn value.
pub open spec fn run_from<T, E>(
    outcomes: Seq<AttemptOutcome<T, E>>,
    delays: Seq<u64>,
    cursor: int,
    register: int,
) -> RunTrace<T, E>
    decreases outcomes.len(),
{
    if outcomes.len() == 0 {
        RunTrace {
            resolution: None,
            attempts: 0,
            notifies: Seq::empty(),
            waits: Seq::empty(),
        }
    } else {
        match outcomes[0] {
            AttemptOutcome::Success(item) => resolved_at_once(Ok(item)),
            AttemptOutcome::Permanent(e) => resolved_at_once(Err(e)),
            AttemptOutcome::Transient { err, retry_after, accepted } => {
                if !accepted {
                    resolved_at_once(Err(err))
                } else {
                    let report: int = report_delay(retry_after, register);
                    if 0 <= cursor < delays.len() {
                        let drawn: u64 = delays[cursor];
                        let rest = run_from(outcomes.skip(1), delays, cursor + 1, report + drawn);
                        RunTrace {
                            resolution: rest.resolution,
                            attempts: 1 + rest.attempts,
                            notifies: seq![report] + rest.notifies,
                            waits: seq![drawn] + rest.waits,
                        }
                    } else {
                        RunTrace {
                            resolution: Some(Err(err)),
                            attempts: 1,
                            notifies: seq![report],
                            waits: Seq::empty(),
                        }
                    }
                }
            },
        }
    }
}

/// A fresh driver's run: no schedule entry drawn yet, register at zero.
pub open spec fn run<T, E>(outcomes: Seq<AttemptOutcome<T, E>>, delays: Seq<u64>) -> RunTrace<
    T,
    E,
> {
    run_from(outcomes, delays, 0, 0)
}

} // verus!
