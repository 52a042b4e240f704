use retry_driver::driver::{AttemptStep, ConditionStep, DrawStep, Driver};
use retry_driver::error::RetryError;

/// Everything a loop around the driver observes during one run.
struct Observed {
    resolution: Result<u32, &'static str>,
    attempts: usize,
    notifies: Vec<u64>,
    waits: Vec<u64>,
}

/// Drives one full run the way the asynchronous wrapper does: `script` says
/// what each successive attempt yields, `delays` is the schedule, `accept`
/// the condition's (constant) verdict. Records what notify would see and
/// which waits would be performed.
fn drive(
    script: Vec<Result<u32, RetryError<&'static str>>>,
    delays: Vec<u64>,
    accept: bool,
) -> Observed {
    let mut driver = Driver::new();
    let mut strategy = delays.into_iter();
    let mut attempts: usize = 0;
    let mut notifies: Vec<u64> = Vec::new();
    let mut waits: Vec<u64> = Vec::new();
    for outcome in script {
        assert!(!driver.sleeping());
        attempts += 1;
        let (err, retry_after) = match driver.on_attempt_done(outcome) {
            AttemptStep::Resolved(r) => {
                return Observed { resolution: r, attempts, notifies, waits };
            }
            AttemptStep::CheckCondition { err, retry_after } => (err, retry_after),
        };
        let (err, delay) = match driver.on_condition(err, retry_after, accept) {
            ConditionStep::Stop(e) => {
                return Observed { resolution: Err(e), attempts, notifies, waits };
            }
            ConditionStep::Notify { err, delay } => (err, delay),
        };
        notifies.push(delay);
        let drawn = strategy.next();
        if let Some(d) = drawn {
            delay.checked_add(d).expect("delay register overflow");
        }
        match driver.on_drawn(err, delay, drawn) {
            DrawStep::Stop(e) => {
                return Observed { resolution: Err(e), attempts, notifies, waits };
            }
            DrawStep::Sleep { wait } => {
                waits.push(wait);
                assert!(driver.sleeping());
                driver.on_wait_done();
            }
        }
    }
    panic!("script ran out before the driver resolved");
}

fn transient(err: &'static str) -> Result<u32, RetryError<&'static str>> {
    Err(RetryError::Transient { err, retry_after: None })
}

#[test]
fn first_attempt_success_resolves_immediately() {
    let got = drive(vec![Ok(7)], vec![10, 20], true);
    assert_eq!(got.resolution, Ok(7));
    assert_eq!(got.attempts, 1);
    assert_eq!(got.notifies, Vec::<u64>::new());
    assert_eq!(got.waits, Vec::<u64>::new());
}

#[test]
fn success_after_failures_keeps_item() {
    let got = drive(vec![transient("t"), Ok(99)], vec![5], true);
    assert_eq!(got.resolution, Ok(99));
    assert_eq!(got.attempts, 2);
    assert_eq!(got.notifies, vec![0]);
    assert_eq!(got.waits, vec![5]);
}

#[test]
fn permanent_error_stops_at_once() {
    let got = drive(
        vec![Err(RetryError::Permanent("fatal")), Ok(1)],
        vec![10, 20, 30],
        true,
    );
    assert_eq!(got.resolution, Err("fatal"));
    assert_eq!(got.attempts, 1);
    assert_eq!(got.notifies, Vec::<u64>::new());
    assert_eq!(got.waits, Vec::<u64>::new());
}

#[test]
fn condition_rejection_stops_without_notify() {
    let got = drive(vec![transient("no"), Ok(1)], vec![10, 20, 30], false);
    assert_eq!(got.resolution, Err("no"));
    assert_eq!(got.attempts, 1);
    assert_eq!(got.notifies, Vec::<u64>::new());
    assert_eq!(got.waits, Vec::<u64>::new());
}

#[test]
fn exhausted_schedule_surfaces_last_error() {
    // Two delays: three attempts, a notify before each of the two waits and a
    // final one just before the driver finds the schedule exhausted. The
    // register drifts: 0, then 0 + 10, then 10 + 20.
    let got = drive(
        vec![transient("again"), transient("again"), transient("again")],
        vec![10, 20],
        true,
    );
    assert_eq!(got.resolution, Err("again"));
    assert_eq!(got.attempts, 3);
    assert_eq!(got.notifies, vec![0, 10, 30]);
    assert_eq!(got.waits, vec![10, 20]);
}

#[test]
fn empty_schedule_fails_after_one_attempt() {
    let got = drive(vec![transient("once")], vec![], true);
    assert_eq!(got.resolution, Err("once"));
    assert_eq!(got.attempts, 1);
    assert_eq!(got.notifies, vec![0]);
    assert_eq!(got.waits, Vec::<u64>::new());
}

#[test]
fn retry_after_overrides_reported_delay() {
    let mut driver = Driver::new();
    let step = driver.on_attempt_done::<u32, &str>(Err(RetryError::Transient {
        err: "slow down",
        retry_after: Some(5),
    }));
    let (err, retry_after) = match step {
        AttemptStep::CheckCondition { err, retry_after } => (err, retry_after),
        AttemptStep::Resolved(_) => panic!("transient error must reach the condition"),
    };
    assert_eq!(retry_after, Some(5));
    // The reported delay is the error's own value, not the register (0) and
    // not the schedule entry drawn next (10).
    match driver.on_condition(err, retry_after, true) {
        ConditionStep::Notify { err, delay } => {
            assert_eq!(err, "slow down");
            assert_eq!(delay, 5);
            match driver.on_drawn(err, delay, Some(10)) {
                DrawStep::Sleep { wait } => assert_eq!(wait, 10),
                DrawStep::Stop(_) => panic!("a drawn value must lead to a wait"),
            }
            assert_eq!(driver.register(), 15);
        }
        ConditionStep::Stop(_) => panic!("an accepted error must lead to notify"),
    }
}

#[test]
fn register_drifts_after_explicit_retry_after() {
    // After one retry with an explicit retry_after, the register holds
    // retry_after + drawn: neither the wait just taken nor a running sum of
    // the waits.
    let mut driver = Driver::new();
    match driver.on_drawn::<&str>("e", 5, Some(10)) {
        DrawStep::Sleep { wait } => assert_eq!(wait, 10),
        DrawStep::Stop(_) => panic!("a drawn value must lead to a wait"),
    }
    driver.on_wait_done();
    assert_eq!(driver.register(), 15);
    // The next transient error without retry_after reports that drifted value.
    match driver.on_condition::<&str>("e", None, true) {
        ConditionStep::Notify { delay, .. } => assert_eq!(delay, 15),
        ConditionStep::Stop(_) => panic!("an accepted error must lead to notify"),
    }
}

#[test]
fn exhaustion_sets_register_to_reported_delay() {
    let mut driver = Driver::new();
    match driver.on_drawn::<&str>("e", 7, None) {
        DrawStep::Stop(e) => assert_eq!(e, "e"),
        DrawStep::Sleep { .. } => panic!("an exhausted schedule must stop the run"),
    }
    assert_eq!(driver.register(), 7);
    assert!(!driver.sleeping());
}

#[test]
fn two_transient_failures_then_success() {
    // Schedule [10ms, 20ms] in nanoseconds; the action fails twice without
    // retry_after and then succeeds: three attempts, two waits of 10ms and
    // 20ms, notify called twice — first with 0, then with the register's
    // value after the first retry's update (0 + 10ms).
    let ms: u64 = 1_000_000;
    let got = drive(
        vec![transient("t"), transient("t"), Ok(42)],
        vec![10 * ms, 20 * ms],
        true,
    );
    assert_eq!(got.resolution, Ok(42));
    assert_eq!(got.attempts, 3);
    assert_eq!(got.notifies, vec![0, 10 * ms]);
    assert_eq!(got.waits, vec![10 * ms, 20 * ms]);
}

#[test]
fn wait_phase_is_entered_and_left() {
    let mut driver = Driver::new();
    assert!(!driver.sleeping());
    match driver.on_drawn::<&str>("e", 0, Some(3)) {
        DrawStep::Sleep { wait } => assert_eq!(wait, 3),
        DrawStep::Stop(_) => panic!("a drawn value must lead to a wait"),
    }
    assert!(driver.sleeping());
    assert_eq!(driver.register(), 3);
    driver.on_wait_done();
    assert!(!driver.sleeping());
    assert_eq!(driver.register(), 3);
}
