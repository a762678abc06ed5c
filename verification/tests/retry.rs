use pokedia::sync::retry::{
    backoff_ms, backoff_slices, RetryAction, RetryError, RetryEvent, RetryExecutor, RetryStage,
    BASE_DELAY_MS, MAX_ATTEMPTS, SLICE_MS,
};

/// What a scripted run of an executor did.
struct Run {
    result: Result<(), RetryError<String>>,
    invocations: usize,
    slices: Vec<usize>,
    backoffs: u32,
    attempts: u32,
}

/// Runs an executor over an operation whose attempts come out as `outcomes`
/// say; the token is set from the step numbered `cancel_from` on.
fn run(max_attempts: u32, outcomes: &[Result<(), &str>], cancel_from: Option<usize>) -> Run {
    let mut executor = RetryExecutor::new(max_attempts);
    assert_eq!(executor.stage(), RetryStage::Ready);
    let mut event = RetryEvent::Begin;
    let mut invocations = 0;
    let mut slices: Vec<usize> = Vec::new();
    let mut sleeping = false;
    for step in 0..100_000 {
        let cancelled = cancel_from.map_or(false, |from| step >= from);
        let action = executor.step(cancelled, event);
        let result = match action {
            RetryAction::Invoke => {
                sleeping = false;
                let outcome = outcomes[invocations];
                invocations += 1;
                event = match outcome {
                    Ok(()) => RetryEvent::Succeeded,
                    Err(e) => RetryEvent::Failed(e.to_string()),
                };
                continue;
            }
            RetryAction::Sleep => {
                if !sleeping {
                    slices.push(0);
                    sleeping = true;
                }
                *slices.last_mut().unwrap() += 1;
                event = RetryEvent::Slept;
                continue;
            }
            RetryAction::Succeed => Ok(()),
            RetryAction::Fail(error) => Err(error),
            RetryAction::Unexpected => panic!("the executor refused an event it asked for"),
        };
        assert_eq!(executor.stage(), RetryStage::Finished);
        return Run {
            result,
            invocations,
            slices,
            backoffs: executor.backoffs(),
            attempts: executor.attempts(),
        };
    }
    panic!("the executor did not end");
}

#[test]
fn two_failures_and_a_success_within_three_attempts_succeed_after_two_waits() {
    let run = run(3, &[Err("first"), Err("second"), Ok(())], None);
    assert_eq!(run.result, Ok(()));
    assert_eq!(run.invocations, 3);
    assert_eq!(run.attempts, 3);
    assert_eq!(run.backoffs, 2);
    assert_eq!(run.slices, vec![5, 10]);
}

#[test]
fn three_failures_within_three_attempts_give_the_last_error_after_two_waits() {
    let run = run(3, &[Err("first"), Err("second"), Err("third")], None);
    assert_eq!(run.result, Err(RetryError::GaveUp("third".to_string())));
    assert_eq!(run.invocations, 3);
    assert_eq!(run.backoffs, 2);
    assert_eq!(run.slices, vec![5, 10]);
}

#[test]
fn a_first_success_needs_no_wait() {
    let run = run(3, &[Ok(())], None);
    assert_eq!(run.result, Ok(()));
    assert_eq!(run.invocations, 1);
    assert_eq!(run.backoffs, 0);
    assert!(run.slices.is_empty());
}

#[test]
fn a_single_attempt_is_not_retried() {
    let run = run(1, &[Err("only")], None);
    assert_eq!(run.result, Err(RetryError::GaveUp("only".to_string())));
    assert_eq!(run.invocations, 1);
    assert_eq!(run.backoffs, 0);
}

#[test]
fn no_attempt_at_all_gives_an_unknown_error() {
    let run = run(0, &[], None);
    assert_eq!(run.result, Err(RetryError::GaveUp("Unknown error".to_string())));
    assert_eq!(run.invocations, 0);
    let cancelled = self::run(0, &[], Some(0));
    assert_eq!(cancelled.result, Err(RetryError::GaveUp("Unknown error".to_string())));
}

#[test]
fn a_set_token_stops_the_executor_before_the_first_attempt() {
    let run = run(3, &[Ok(())], Some(0));
    assert_eq!(run.result, Err(RetryError::Cancelled));
    assert_eq!(run.invocations, 0);
}

#[test]
fn a_token_set_during_a_wait_stops_the_executor_within_a_slice() {
    // step 0 begins, step 1 reports the failure and starts the wait, steps 2
    // and 3 report slices; the token is set from step 3 on.
    let run = run(3, &[Err("down"), Ok(())], Some(3));
    assert_eq!(run.result, Err(RetryError::Cancelled));
    assert_eq!(run.invocations, 1);
    assert_eq!(run.slices, vec![2]);
    assert_eq!(run.backoffs, 1);
}

#[test]
fn a_token_set_when_an_attempt_fails_stops_the_executor_without_a_wait() {
    let run = run(3, &[Err("down"), Ok(())], Some(1));
    assert_eq!(run.result, Err(RetryError::Cancelled));
    assert_eq!(run.invocations, 1);
    assert!(run.slices.is_empty());
}

#[test]
fn a_success_is_handed_out_whatever_the_token_says() {
    let run = run(3, &[Ok(())], Some(1));
    assert_eq!(run.result, Ok(()));
}

#[test]
fn the_failure_of_the_last_attempt_is_handed_out_whatever_the_token_says() {
    let run = run(1, &[Err("last")], Some(1));
    assert_eq!(run.result, Err(RetryError::GaveUp("last".to_string())));
}

#[test]
fn the_wait_doubles_with_every_failure() {
    assert_eq!(BASE_DELAY_MS, 500);
    assert_eq!(SLICE_MS, 100);
    assert_eq!(backoff_ms(1), 500);
    assert_eq!(backoff_ms(2), 1000);
    assert_eq!(backoff_ms(3), 2000);
    assert_eq!(backoff_ms(10), 256_000);
    assert_eq!(backoff_slices(1), 5);
    assert_eq!(backoff_slices(2), 10);
    assert_eq!(backoff_slices(4), 40);
    assert_eq!(backoff_ms(MAX_ATTEMPTS - 1), 500 * (1u64 << 55));
    assert_eq!(backoff_slices(MAX_ATTEMPTS - 1) * SLICE_MS, backoff_ms(MAX_ATTEMPTS - 1));
}

#[test]
fn five_attempts_wait_four_times() {
    let run = run(5, &[Err("a"), Err("b"), Err("c"), Err("d"), Err("e")], None);
    assert_eq!(run.result, Err(RetryError::GaveUp("e".to_string())));
    assert_eq!(run.slices, vec![5, 10, 20, 40]);
    assert_eq!(run.backoffs, 4);
}

#[test]
fn an_event_that_the_executor_did_not_ask_for_changes_nothing() {
    let mut executor = RetryExecutor::new(3);
    assert_eq!(executor.step(false, RetryEvent::Slept), RetryAction::Unexpected);
    assert_eq!(executor.step(false, RetryEvent::Succeeded), RetryAction::Unexpected);
    assert_eq!(executor.stage(), RetryStage::Ready);
    assert_eq!(executor.step(false, RetryEvent::Begin), RetryAction::Invoke);
    assert_eq!(executor.step(false, RetryEvent::Begin), RetryAction::Unexpected);
    assert_eq!(executor.stage(), RetryStage::Invoking);
    assert_eq!(executor.step(false, RetryEvent::Succeeded), RetryAction::Succeed);
    assert_eq!(executor.step(false, RetryEvent::Begin), RetryAction::Unexpected);
}

#[test]
fn the_message_of_an_error_is_its_text_or_that_of_the_cancellation() {
    assert_eq!(RetryError::Cancelled.message(), "Sync cancelled");
    assert_eq!(RetryError::GaveUp("timeout".to_string()).message(), "timeout");
}
