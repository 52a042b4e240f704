use vstd::prelude::*;

use crate::model::{report_delay, run, run_from, AttemptOutcome, RunTrace};

verus! {

/// An action that succeeds on its first attempt resolves the run to that
/// success at once, whatever the schedule: one attempt, no notify call, no
/// wait, no schedule entry drawn.
pub proof fn lemma_first_attempt_success<T, E>(
    outcomes: Seq<AttemptOutcome<T, E>>,
    delays: Seq<u64>,
    item: T,
)
    requires
        outcomes.len() > 0,
        outcomes[0] == AttemptOutcome::<T, E>::Success(item),
    ensures
        run(outcomes, delays) == (RunTrace::<T, E> {
            resolution: Some(Ok(item)),
            attempts: 1,
            notifies: Seq::empty(),
            waits: Seq::empty(),
        }),
{
}

/// A permanent error on the first attempt resolves the run to that failure
/// at once, whatever the schedule's length: one attempt, no notify call, no
/// wait.
pub proof fn lemma_first_attempt_permanent<T, E>(
    outcomes: Seq<AttemptOutcome<T, E>>,
    delays: Seq<u64>,
    e: E,
)
    requires
        outcomes.len() > 0,
        outcomes[0] == AttemptOutcome::<T, E>::Permanent(e),
    ensures
        run(outcomes, delays) == (RunTrace::<T, E> {
            resolution: Some(Err(e)),
            attempts: 1,
            notifies: Seq::empty(),
            waits: Seq::empty(),
        }),
{
}

/// A transient error that the condition rejects resolves the run to that
/// failure at once, whatever the schedule's length: one attempt, no notify
/// call, no wait.
pub proof fn lemma_condition_rejects<T, E>(
    outcomes: Seq<AttemptOutcome<T, E>>,
    delays: Seq<u64>,
    e: E,
    retry_after: Option<u64>,
)
    requires
        outcomes.len() > 0,
        outcomes[0] == (AttemptOutcome::<T, E>::Transient { err: e, retry_after, accepted: false }),
    ensures
        run(outcomes, delays) == (RunTrace::<T, E> {
            resolution: Some(Err(e)),
            attempts: 1,
            notifies: Seq::empty(),
            waits: Seq::empty(),
        }),
{
}

/// The exhaustion law, from any schedule position: when every scripted
/// attempt fails with the same transient error, carrying no `retry_after`
/// and accepted by the condition, a run that starts `cursor` entries into
/// the schedule makes one attempt per remaining entry plus one, waits each
/// remaining entry in order, calls notify once per attempt, and resolves to
/// that error.
proof fn lemma_always_transient_from<T, E>(
    outcomes: Seq<AttemptOutcome<T, E>>,
    delays: Seq<u64>,
    cursor: int,
    register: int,
    e: E,
)
    requires
        0 <= cursor <= delays.len(),
        outcomes.len() == delays.len() - cursor + 1,
        forall|i: int|
            0 <= i < outcomes.len() ==> outcomes[i] == (AttemptOutcome::<T, E>::Transient {
                err: e,
                retry_after: None,
                accepted: true,
            }),
    ensures
        run_from(outcomes, delays, cursor, register).resolution == Some(Err::<T, E>(e)),
        run_from(outcomes, delays, cursor, register).attempts == outcomes.len(),
        run_from(outcomes, delays, cursor, register).waits == delays.skip(cursor),
        run_from(outcomes, delays, cursor, register).notifies.len() == outcomes.len(),
    decreases outcomes.len(),
{
    if cursor == delays.len() {
        assert(delays.skip(cursor) =~= Seq::<u64>::empty());
    } else {
        let drawn: u64 = delays[cursor];
        let rest = outcomes.skip(1);
        assert(forall|i: int|
            0 <= i < rest.len() ==> rest[i] == (AttemptOutcome::<T, E>::Transient {
                err: e,
                retry_after: None,
                accepted: true,
            }));
        lemma_always_transient_from(rest, delays, cursor + 1, register + drawn, e);
        assert(run_from(outcomes, delays, cursor, register).waits =~= delays.skip(cursor)) by {
            assert(seq![drawn] + delays.skip(cursor + 1) =~= delays.skip(cursor));
        }
    }
}

/// The exhaustion law: with the condition always accepting and every attempt
/// failing with the same transient error that carries no `retry_after`, a
/// schedule of `n` delays yields exactly `n + 1` attempts; each of the `n`
/// delays is waited, in order; notify is called once per attempt — `n + 1`
/// times, the last one just before the driver finds the schedule exhausted —
/// and the run resolves to that error.
pub proof fn lemma_schedule_exhaustion<T, E>(
    outcomes: Seq<AttemptOutcome<T, E>>,
    delays: Seq<u64>,
    e: E,
)
    requires
        outcomes.len() == delays.len() + 1,
        forall|i: int|
            0 <= i < outcomes.len() ==> outcomes[i] == (AttemptOutcome::<T, E>::Transient {
                err: e,
                retry_after: None,
                accepted: true,
            }),
    ensures
        run(outcomes, delays).resolution == Some(Err::<T, E>(e)),
        run(outcomes, delays).attempts == delays.len() + 1,
        run(outcomes, delays).waits == delays,
        run(outcomes, delays).notifies.len() == delays.len() + 1,
{
    lemma_always_transient_from(outcomes, delays, 0, 0, e);
    assert(delays.skip(0) =~= delays);
}

/// The empty schedule: a single accepted transient failure without a
/// `retry_after` ends the run after exactly one attempt with that error and
/// no wait. Notify is still called, once, with the register's starting value
/// of zero, before the driver finds the schedule exhausted.
pub proof fn lemma_empty_schedule<T, E>(outcomes: Seq<AttemptOutcome<T, E>>, e: E)
    requires
        outcomes.len() > 0,
        outcomes[0] == (AttemptOutcome::<T, E>::Transient {
            err: e,
            retry_after: None,
            accepted: true,
        }),
    ensures
        run(outcomes, Seq::empty()).resolution == Some(Err::<T, E>(e)),
        run(outcomes, Seq::empty()).attempts == 1,
        run(outcomes, Seq::empty()).waits == Seq::<u64>::empty(),
        run(outcomes, Seq::empty()).notifies.len() == 1,
        run(outcomes, Seq::empty()).notifies[0] == 0,
{
}

/// The driver never makes up a value and never swallows one: a run that
/// resolves does so with what its last attempt yielded — the item on
/// success, the raw error of the last observed failure otherwise — and has
/// made one attempt per consumed outcome.
pub proof fn lemma_resolution_is_last_attempt<T, E>(
    outcomes: Seq<AttemptOutcome<T, E>>,
    delays: Seq<u64>,
    cursor: int,
    register: int,
)
    requires
        run_from(outcomes, delays, cursor, register).resolution is Some,
    ensures
        1 <= run_from(outcomes, delays, cursor, register).attempts <= outcomes.len(),
        match run_from(outcomes, delays, cursor, register).resolution {
            Some(Ok(item)) => outcomes[run_from(outcomes, delays, cursor, register).attempts - 1]
                == AttemptOutcome::<T, E>::Success(item),
            Some(Err(e)) => {
                ||| outcomes[run_from(outcomes, delays, cursor, register).attempts - 1]
                    == AttemptOutcome::<T, E>::Permanent(e)
                ||| (outcomes[run_from(outcomes, delays, cursor, register).attempts - 1]
                    matches AttemptOutcome::Transient { err, .. } && err == e)
            },
            None => false,
        },
    decreases outcomes.len(),
{
    if outcomes.len() > 0 {
        match outcomes[0] {
            AttemptOutcome::Transient { err, retry_after, accepted } => {
                if accepted && 0 <= cursor < delays.len() {
                    let report: int = report_delay(retry_after, register);
                    let rest = outcomes.skip(1);
                    lemma_resolution_is_last_attempt(
                        rest,
                        delays,
                        cursor + 1,
                        report + delays[cursor],
                    );
                    let a: int = run_from(rest, delays, cursor + 1, report + delays[cursor]).attempts;
                    assert(outcomes[a] == rest[a - 1]);
                }
            },
            _ => {},
        }
    }
}

/// When an accepted transient error carries an explicit `retry_after` delay,
/// that delay — not the register and not the schedule entry drawn next — is
/// the value handed to notify for that retry, wherever in the run it happens.
pub proof fn lemma_retry_after_overrides<T, E>(
    outcomes: Seq<AttemptOutcome<T, E>>,
    delays: Seq<u64>,
    cursor: int,
    register: int,
    e: E,
    d: u64,
)
    requires
        outcomes.len() > 0,
        outcomes[0] == (AttemptOutcome::<T, E>::Transient {
            err: e,
            retry_after: Some(d),
            accepted: true,
        }),
    ensures
        run_from(outcomes, delays, cursor, register).notifies.len() > 0,
        run_from(outcomes, delays, cursor, register).notifies[0] == d,
{
}

} // verus!
