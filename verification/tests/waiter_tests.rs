use execd::waiter::{
    begin_wait, wait_step, WaitAction, WaitOutcome, WaitState, FIRST_DELAY_MS, LONGEST_DELAY_MS,
    SCHEMA_TIMEOUT_MS,
};

#[test]
fn wait_begins_with_the_first_delay() {
    assert_eq!(
        begin_wait(SCHEMA_TIMEOUT_MS),
        WaitState { timeout_ms: 10_000, delay_ms: FIRST_DELAY_MS }
    );
    assert_eq!(FIRST_DELAY_MS, 100);
    assert_eq!(LONGEST_DELAY_MS, 2_000);
}

#[test]
fn established_schema_ends_the_wait() {
    let state = begin_wait(10_000);
    assert_eq!(wait_step(state, true, 0), (state, WaitAction::Finish(WaitOutcome::Ready)));
    assert_eq!(wait_step(state, true, 20_000), (state, WaitAction::Finish(WaitOutcome::Ready)));
}

#[test]
fn timeout_ends_the_wait() {
    let state = begin_wait(10_000);
    assert_eq!(wait_step(state, false, 10_000), (state, WaitAction::Finish(WaitOutcome::TimedOut)));
    assert_eq!(wait_step(state, false, 10_001), (state, WaitAction::Finish(WaitOutcome::TimedOut)));
    assert_eq!(
        wait_step(begin_wait(0), false, 0),
        (begin_wait(0), WaitAction::Finish(WaitOutcome::TimedOut))
    );
}

#[test]
fn sleeps_double_up_to_the_longest_and_stop_at_the_timeout() {
    let mut state = begin_wait(10_000);
    let mut elapsed: u64 = 0;
    let mut sleeps: Vec<u64> = Vec::new();
    loop {
        let (next, action) = wait_step(state, false, elapsed);
        match action {
            WaitAction::Sleep(ms) => {
                sleeps.push(ms);
                elapsed += ms;
                state = next;
            }
            WaitAction::Finish(outcome) => {
                assert_eq!(outcome, WaitOutcome::TimedOut);
                break;
            }
        }
    }
    assert_eq!(sleeps, vec![100, 200, 400, 800, 1600, 2000, 2000, 2000, 900]);
    assert_eq!(elapsed, 10_000);
}

#[test]
fn never_ready_wait_ends_one_look_after_the_timeout() {
    let look: u64 = 37;
    let mut state = begin_wait(1_000);
    let mut elapsed: u64 = look;
    let mut looks = 1;
    loop {
        let (next, action) = wait_step(state, false, elapsed);
        match action {
            WaitAction::Sleep(ms) => {
                assert!(ms >= 1);
                assert!(elapsed + ms <= 1_000);
                elapsed += ms + look;
                looks += 1;
                state = next;
            }
            WaitAction::Finish(outcome) => {
                assert_eq!(outcome, WaitOutcome::TimedOut);
                break;
            }
        }
    }
    assert!(elapsed >= 1_000);
    assert!(elapsed <= 1_000 + look);
    assert!(looks <= 1_000);
}

#[test]
fn a_delay_of_nothing_still_sleeps() {
    let state = WaitState { timeout_ms: 10, delay_ms: 0 };
    assert_eq!(
        wait_step(state, false, 3),
        (WaitState { timeout_ms: 10, delay_ms: 2 }, WaitAction::Sleep(1))
    );
    let long = WaitState { timeout_ms: 10_000, delay_ms: 1_500 };
    assert_eq!(
        wait_step(long, false, 0),
        (WaitState { timeout_ms: 10_000, delay_ms: 2_000 }, WaitAction::Sleep(1_500))
    );
}
