use vstd::prelude::*;

use crate::error::RetryError;
use crate::model::report_delay;

verus! {

/// Which sub-operation the driver currently has in flight: an attempt of the
/// action, or a wait between attempts. There is no terminal state — the run
/// ends when a step resolves, not by a third phase.
pub enum Phase {
    Running,
    Sleeping,
}

/// What the driver asks of its caller once an attempt has finished.
pub enum AttemptStep<T, E> {
    /// The run is over; resolve with this value.
    Resolved(Result<T, E>),
    /// The attempt failed with a transient error: put the error to the
    /// condition and report the verdict through `on_condition`.
    CheckCondition { err: E, retry_after: Option<u64> },
}

/// What the driver asks of its caller once the condition has been consulted.
pub enum ConditionStep<E> {
    /// The condition rejected the error; resolve with it. Notify is not
    /// called and nothing is drawn from the schedule.
    Stop(E),
    /// Call notify with `delay` (nanoseconds), then draw the next value from
    /// the strategy and report it through `on_drawn`.
    Notify { err: E, delay: u64 },
}

/// What the driver asks of its caller once the strategy has been consulted.
pub enum DrawStep<E> {
    /// The schedule is exhausted; resolve with the error. The notify call for
    /// this retry has already been made.
    Stop(E),
    /// Wait `wait` nanoseconds, then report through `on_wait_done` and invoke
    /// the action for a fresh attempt.
    Sleep { wait: u64 },
}

/// The retry driver's core: the one component with retry policy.
///
/// It owns the accumulated-delay register and the attempt/wait phase, and is
/// advanced by events — an attempt finished, the condition answered, the
/// strategy yielded (or ran out), a wait elapsed. Each event method returns
/// the step the surrounding loop must carry out; the driver itself performs
/// no call and no wait. All delays are in nanoseconds.
pub struct Driver {
    register: u64,
    phase: Phase,
}

impl Driver {
    /// The accumulated-delay register: the value reported to notify, and
    /// fallen back on when a transient error carries no `retry_after`.
    pub closed spec fn spec_register(self) -> u64 {
        self.register
    }

    /// Whether a wait, rather than an attempt, is in flight.
    pub closed spec fn is_sleeping(self) -> bool {
        self.phase is Sleeping
    }

    /// A fresh driver: register at zero, the first attempt considered in
    /// flight from the start (the loop invokes the action at once).
    pub fn new() -> (d: Driver)
        ensures
            d.spec_register() == 0,
            !d.is_sleeping(),
    {
        Driver { register: 0, phase: Phase::Running }
    }

    /// The register's current value (nanoseconds).
    pub fn register(&self) -> (r: u64)
        ensures
            r == self.spec_register(),
    {
        self.register
    }

    /// Whether the driver is in its waiting phase.
    pub fn sleeping(&self) -> (b: bool)
        ensures
            b == self.is_sleeping(),
    {
        match self.phase {
            Phase::Sleeping => true,
            Phase::Running => false,
        }
    }

    /// Classify a finished attempt: success and permanent failures resolve
    /// the run at once — no retry, no notify call, nothing drawn from the
    /// schedule — while a transient failure is handed back so the condition
    /// can be consulted.
    pub fn on_attempt_done<T, E>(&self, outcome: Result<T, RetryError<E>>) -> (step: AttemptStep<
        T,
        E,
    >)
        requires
            !self.is_sleeping(),
        ensures
            step == (match outcome {
                Ok(item) => AttemptStep::<T, E>::Resolved(Ok(item)),
                Err(RetryError::Permanent(e)) => AttemptStep::<T, E>::Resolved(Err(e)),
                Err(
                    RetryError::Transient { err, retry_after },
                ) => (AttemptStep::<T, E>::CheckCondition { err, retry_after }),
            }),
    {
        match outcome {
            Ok(item) => AttemptStep::Resolved(Ok(item)),
            Err(RetryError::Permanent(e)) => AttemptStep::Resolved(Err(e)),
            Err(RetryError::Transient { err, retry_after }) => AttemptStep::CheckCondition {
                err,
                retry_after,
            },
        }
    }

    /// Act on the condition's verdict about a transient error. A rejection
    /// resolves the run with the error, with no notify call and nothing
    /// drawn. An acceptance chooses the delay to report — the error's own
    /// `retry_after` when present, else the register — and asks the loop to
    /// notify with exactly that value and then consult the strategy.
    pub fn on_condition<E>(&self, err: E, retry_after: Option<u64>, accepted: bool) -> (step:
        ConditionStep<E>)
        requires
            !self.is_sleeping(),
        ensures
            step == (if accepted {
                ConditionStep::Notify {
                    err,
                    delay: report_delay(retry_after, self.spec_register() as int) as u64,
                }
            } else {
                ConditionStep::<E>::Stop(err)
            }),
    {
        if accepted {
            let delay: u64 = match retry_after {
                Some(d) => d,
                None => self.register,
            };
            ConditionStep::Notify { err, delay }
        } else {
            ConditionStep::Stop(err)
        }
    }

    /// Act on what the strategy yielded, for the retry whose reported delay
    /// was `delay`. The register is first set to `delay`; when the strategy
    /// is exhausted the run resolves with the error, and when it yielded a
    /// value the register is advanced by it — becoming `delay` plus the drawn
    /// value, which is not the length of the wait now begun — and the driver
    /// moves to its waiting phase for exactly the drawn value.
    pub fn on_drawn<E>(&mut self, err: E, delay: u64, drawn: Option<u64>) -> (step: DrawStep<E>)
        requires
            !old(self).is_sleeping(),
            drawn matches Some(d) ==> delay + d <= u64::MAX,
        ensures
            match drawn {
                None => {
                    &&& step == DrawStep::<E>::Stop(err)
                    &&& final(self).spec_register() == delay
                    &&& !final(self).is_sleeping()
                },
                Some(d) => {
                    &&& step == (DrawStep::<E>::Sleep { wait: d })
                    &&& final(self).spec_register() == delay + d
                    &&& final(self).is_sleeping()
                },
            },
    {
        match drawn {
            None => {
                self.register = delay;
                DrawStep::Stop(err)
            },
            Some(d) => {
                self.register = delay + d;
                self.phase = Phase::Sleeping;
                DrawStep::Sleep { wait: d }
            },
        }
    }

    /// The wait has elapsed: go back to the running phase. The loop must now
    /// invoke the action to start the next attempt. The register keeps its
    /// value.
    pub fn on_wait_done(&mut self)
        requires
            old(self).is_sleeping(),
        ensures
            final(self).spec_register() == old(self).spec_register(),
            !final(self).is_sleeping(),
    {
        self.phase = Phase::Running;
    }
}

} // verus!
