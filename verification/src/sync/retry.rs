//! The retry executor: up to a number of attempts with exponential backoff
//! between them, slept in short slices so that a cancellation is noticed
//! promptly.
//!
//! The executor decides; its driver acts. The driver hands every event to
//! [`RetryExecutor::step`] together with the current reading of the
//! cancellation token, and performs the action that comes back.

use vstd::prelude::*;

verus! {

/// The delay before the second attempt, in milliseconds.
pub const BASE_DELAY_MS: u64 = 500;

/// The length of one slice of a backoff wait, in milliseconds.
pub const SLICE_MS: u64 = 100;

/// The largest number of attempts an executor can be asked for: beyond it a
/// delay would not fit in 64 bits.
pub const MAX_ATTEMPTS: u32 = 57;

/// Two to the power of `n`.
pub open spec fn pow2(n: nat) -> nat
    decreases n,
{
    if n == 0 {
        1
    } else {
        2 * pow2((n - 1) as nat)
    }
}

/// The wait after `failed` attempts have failed, in milliseconds: the base
/// delay, doubled with every failure after the first.
pub open spec fn backoff_ms_spec(failed: nat) -> nat {
    500 * pow2((failed - 1) as nat)
}

/// The number of slices in the wait after `failed` attempts have failed.
pub open spec fn backoff_slices_spec(failed: nat) -> nat {
    5 * pow2((failed - 1) as nat)
}

/// Powers of two grow with the exponent.
pub proof fn lemma_pow2_grows(a: nat, b: nat)
    requires
        a <= b,
    ensures
        pow2(a) <= pow2(b),
    decreases b,
{
    if a < b {
        lemma_pow2_grows(a, (b - 1) as nat);
    }
}

proof fn lemma_pow2_55()
    ensures
        pow2(55) == 0x80_0000_0000_0000,
{
    assert(pow2(11) == 2048) by {
        reveal_with_fuel(pow2, 12);
    }
    assert(pow2(22) == 4194304) by {
        reveal_with_fuel(pow2, 12);
    }
    assert(pow2(33) == 8589934592) by {
        reveal_with_fuel(pow2, 12);
    }
    assert(pow2(44) == 17592186044416) by {
        reveal_with_fuel(pow2, 12);
    }
    assert(pow2(55) == 36028797018963968) by {
        reveal_with_fuel(pow2, 12);
    }
}

fn power_of_two(n: u32) -> (p: u64)
    requires
        n <= 55,
    ensures
        p == pow2(n as nat),
        1 <= p <= 0x80_0000_0000_0000,
{
    let mut p: u64 = 1;
    let mut i: u32 = 0;
    while i < n
        invariant
            i <= n <= 55,
            p == pow2(i as nat),
            p >= 1,
        decreases n - i,
    {
        proof {
            lemma_pow2_grows((i + 1) as nat, 55);
            lemma_pow2_55();
        }
        p = p * 2;
        i += 1;
    }
    proof {
        lemma_pow2_grows(n as nat, 55);
        lemma_pow2_55();
    }
    p
}

/// The wait after `failed` attempts have failed, in milliseconds.
pub fn backoff_ms(failed: u32) -> (ms: u64)
    requires
        1 <= failed < MAX_ATTEMPTS,
    ensures
        ms == backoff_ms_spec(failed as nat),
{
    BASE_DELAY_MS * power_of_two(failed - 1)
}

/// The number of slices in the wait after `failed` attempts have failed.
pub fn backoff_slices(failed: u32) -> (slices: u64)
    requires
        1 <= failed < MAX_ATTEMPTS,
    ensures
        slices == backoff_slices_spec(failed as nat),
        slices * SLICE_MS == backoff_ms_spec(failed as nat),
        slices >= 5,
{
    5 * power_of_two(failed - 1)
}

/// Why a retried operation did not succeed.
#[derive(Debug, Clone, PartialEq, Eq)]
pub enum RetryError<S> {
    /// The cancellation token was found set.
    Cancelled,
    /// Every attempt failed; the text is the error of the last one.
    GaveUp(S),
}

/// What the driver reports to the executor.
#[derive(Debug, Clone, PartialEq, Eq)]
pub enum RetryEvent<S> {
    /// The operation is to be run.
    Begin,
    /// One slice has been slept.
    Slept,
    /// The operation succeeded.
    Succeeded,
    /// The operation failed with this error.
    Failed(S),
}

/// What the executor asks of its driver.
#[derive(Debug, Clone, PartialEq, Eq)]
pub enum RetryAction<S> {
    /// Run the operation once and report `Succeeded` or `Failed`.
    Invoke,
    /// Sleep one slice and report `Slept`.
    Sleep,
    /// The operation has succeeded: the driver returns its value.
    Succeed,
    /// The operation has not succeeded: the driver returns this error.
    Fail(RetryError<S>),
    /// The event does not fit the state of the executor, which is unchanged.
    Unexpected,
}

/// Where an executor stands.
#[derive(Debug, Clone, Copy, PartialEq, Eq, Structural)]
pub enum RetryStage {
    /// Nothing has happened yet.
    Ready,
    /// An attempt is running.
    Invoking,
    /// A slice of a backoff wait is being slept.
    Sleeping,
    /// The outcome has been handed out.
    Finished,
}

/// The state of an executor.
pub struct RetryState {
    /// The number of attempts that may be made in all.
    pub max_attempts: nat,
    pub stage: RetryStage,
    /// The number of attempts begun so far.
    pub attempts: nat,
    /// The number of backoff waits begun so far.
    pub backoffs: nat,
    /// The number of slices of the current wait that are still to be begun.
    pub slices_left: nat,
}

/// The message of the error that an executor without any attempt gives up
/// with.
pub open spec fn no_attempt_message() -> Seq<char> {
    "Unknown error"@
}

/// The message that stands for a cancellation where errors are texts.
pub open spec fn cancelled_message() -> Seq<char> {
    "Sync cancelled"@
}

impl RetryState {
    /// The state before anything has happened.
    pub open spec fn initial(max_attempts: nat) -> RetryState {
        RetryState {
            max_attempts,
            stage: RetryStage::Ready,
            attempts: 0,
            backoffs: 0,
            slices_left: 0,
        }
    }

    /// This state, finished.
    pub open spec fn finished(self) -> RetryState {
        RetryState { stage: RetryStage::Finished, slices_left: 0, ..self }
    }

    /// The state after `event` and the action that the event leads to.
    ///
    /// The token is read before every attempt and before every slice of a
    /// wait, and nowhere else: a success, or the failure of the last attempt,
    /// is handed out whatever the token says.
    pub open spec fn next(self, cancelled: bool, event: RetryEvent<Seq<char>>) -> (
        RetryState,
        RetryAction<Seq<char>>,
    ) {
        match (self.stage, event) {
            (RetryStage::Ready, RetryEvent::Begin) => {
                if self.max_attempts == 0 {
                    (
                        self.finished(),
                        RetryAction::Fail(RetryError::GaveUp(no_attempt_message())),
                    )
                } else if cancelled {
                    (self.finished(), RetryAction::Fail(RetryError::Cancelled))
                } else {
                    (
                        RetryState { stage: RetryStage::Invoking, attempts: 1, ..self },
                        RetryAction::Invoke,
                    )
                }
            },
            (RetryStage::Invoking, RetryEvent::Succeeded) => (
                self.finished(),
                RetryAction::Succeed,
            ),
            (RetryStage::Invoking, RetryEvent::Failed(error)) => {
                if self.attempts >= self.max_attempts {
                    (self.finished(), RetryAction::Fail(RetryError::GaveUp(error)))
                } else if cancelled {
                    (self.finished(), RetryAction::Fail(RetryError::Cancelled))
                } else {
                    (
                        RetryState {
                            stage: RetryStage::Sleeping,
                            backoffs: self.backoffs + 1,
                            slices_left: (backoff_slices_spec(self.attempts) - 1) as nat,
                            ..self
                        },
                        RetryAction::Sleep,
                    )
                }
            },
            (RetryStage::Sleeping, RetryEvent::Slept) => {
                if self.slices_left == 0 {
                    (
                        RetryState {
                            stage: RetryStage::Invoking,
                            attempts: self.attempts + 1,
                            ..self
                        },
                        RetryAction::Invoke,
                    )
                } else if cancelled {
                    (self.finished(), RetryAction::Fail(RetryError::Cancelled))
                } else {
                    (
                        RetryState { slices_left: (self.slices_left - 1) as nat, ..self },
                        RetryAction::Sleep,
                    )
                }
            },
            _ => (self, RetryAction::Unexpected),
        }
    }

    /// What holds of every state that an executor reaches.
    pub open spec fn inv(self) -> bool {
        &&& self.max_attempts <= MAX_ATTEMPTS
        &&& self.attempts <= self.max_attempts
        &&& self.backoffs <= self.attempts
        &&& self.attempts >= 1 ==> self.backoffs + 1 >= self.attempts
        &&& match self.stage {
            RetryStage::Ready => self.attempts == 0 && self.slices_left == 0,
            RetryStage::Invoking => self.attempts >= 1 && self.backoffs + 1 == self.attempts
                && self.slices_left == 0,
            RetryStage::Sleeping => 1 <= self.attempts < self.max_attempts && self.backoffs
                == self.attempts && self.slices_left < backoff_slices_spec(self.attempts),
            RetryStage::Finished => self.slices_left == 0,
        }
    }
}

impl View for RetryError<String> {
    type V = RetryError<Seq<char>>;

    open spec fn view(&self) -> RetryError<Seq<char>> {
        match self {
            RetryError::Cancelled => RetryError::Cancelled,
            RetryError::GaveUp(error) => RetryError::GaveUp(error@),
        }
    }
}

impl View for RetryEvent<String> {
    type V = RetryEvent<Seq<char>>;

    open spec fn view(&self) -> RetryEvent<Seq<char>> {
        match self {
            RetryEvent::Begin => RetryEvent::Begin,
            RetryEvent::Slept => RetryEvent::Slept,
            RetryEvent::Succeeded => RetryEvent::Succeeded,
            RetryEvent::Failed(error) => RetryEvent::Failed(error@),
        }
    }
}

impl View for RetryAction<String> {
    type V = RetryAction<Seq<char>>;

    open spec fn view(&self) -> RetryAction<Seq<char>> {
        match self {
            RetryAction::Invoke => RetryAction::Invoke,
            RetryAction::Sleep => RetryAction::Sleep,
            RetryAction::Succeed => RetryAction::Succeed,
            RetryAction::Fail(error) => RetryAction::Fail(error@),
            RetryAction::Unexpected => RetryAction::Unexpected,
        }
    }
}

impl RetryError<String> {
    /// The error as a text: the message of a cancellation, or the error of
    /// the last attempt.
    pub fn message(self) -> (text: String)
        ensures
            text@ == match self@ {
                RetryError::Cancelled => cancelled_message(),
                RetryError::GaveUp(error) => error,
            },
    {
        match self {
            RetryError::Cancelled => "Sync cancelled".to_owned(),
            RetryError::GaveUp(error) => error,
        }
    }
}

/// The retry executor for one operation.
#[derive(Debug, Clone, Copy)]
pub struct RetryExecutor {
    max_attempts: u32,
    stage: RetryStage,
    attempts: u32,
    backoffs: u32,
    slices_left: u64,
}

impl View for RetryExecutor {
    type V = RetryState;

    closed spec fn view(&self) -> RetryState {
        RetryState {
            max_attempts: self.max_attempts as nat,
            stage: self.stage,
            attempts: self.attempts as nat,
            backoffs: self.backoffs as nat,
            slices_left: self.slices_left as nat,
        }
    }
}

impl RetryExecutor {
    #[verifier::type_invariant]
    spec fn well_formed(&self) -> bool {
        self@.inv()
    }

    /// An executor that makes up to `max_attempts` attempts.
    pub fn new(max_attempts: u32) -> (executor: Self)
        requires
            max_attempts <= MAX_ATTEMPTS,
        ensures
            executor@ == RetryState::initial(max_attempts as nat),
            executor@.inv(),
    {
        RetryExecutor {
            max_attempts,
            stage: RetryStage::Ready,
            attempts: 0,
            backoffs: 0,
            slices_left: 0,
        }
    }

    /// Where the executor stands.
    pub fn stage(&self) -> (stage: RetryStage)
        ensures
            stage == self@.stage,
    {
        self.stage
    }

    /// The number of attempts begun so far.
    pub fn attempts(&self) -> (attempts: u32)
        ensures
            attempts == self@.attempts,
    {
        self.attempts
    }

    /// The number of backoff waits begun so far.
    pub fn backoffs(&self) -> (backoffs: u32)
        ensures
            backoffs == self@.backoffs,
    {
        self.backoffs
    }

    fn finish(&mut self)
        ensures
            final(self)@ == old(self)@.finished(),
    {
        proof {
            use_type_invariant(&*self);
        }
        *self = RetryExecutor {
            max_attempts: self.max_attempts,
            stage: RetryStage::Finished,
            attempts: self.attempts,
            backoffs: self.backoffs,
            slices_left: 0,
        };
    }

    /// Takes in one event, with the current reading of the cancellation
    /// token, and says what the driver is to do next.
    pub fn step(&mut self, cancelled: bool, event: RetryEvent<String>) -> (action: RetryAction<
        String,
    >)
        ensures
            (final(self)@, action@) == old(self)@.next(cancelled, event@),
            old(self)@.inv(),
            final(self)@.inv(),
    {
        proof {
            use_type_invariant(&*self);
        }
        match (self.stage, event) {
            (RetryStage::Ready, RetryEvent::Begin) => {
                if self.max_attempts == 0 {
                    self.finish();
                    RetryAction::Fail(RetryError::GaveUp("Unknown error".to_owned()))
                } else if cancelled {
                    self.finish();
                    RetryAction::Fail(RetryError::Cancelled)
                } else {
                    *self = RetryExecutor {
                        max_attempts: self.max_attempts,
                        stage: RetryStage::Invoking,
                        attempts: 1,
                        backoffs: self.backoffs,
                        slices_left: self.slices_left,
                    };
                    RetryAction::Invoke
                }
            },
            (RetryStage::Invoking, RetryEvent::Succeeded) => {
                self.finish();
                RetryAction::Succeed
            },
            (RetryStage::Invoking, RetryEvent::Failed(error)) => {
                if self.attempts >= self.max_attempts {
                    self.finish();
                    RetryAction::Fail(RetryError::GaveUp(error))
                } else if cancelled {
                    self.finish();
                    RetryAction::Fail(RetryError::Cancelled)
                } else {
                    let slices = backoff_slices(self.attempts);
                    *self = RetryExecutor {
                        max_attempts: self.max_attempts,
                        stage: RetryStage::Sleeping,
                        attempts: self.attempts,
                        backoffs: self.backoffs + 1,
                        slices_left: slices - 1,
                    };
                    RetryAction::Sleep
                }
            },
            (RetryStage::Sleeping, RetryEvent::Slept) => {
                if self.slices_left == 0 {
                    *self = RetryExecutor {
                        max_attempts: self.max_attempts,
                        stage: RetryStage::Invoking,
                        attempts: self.attempts + 1,
                        backoffs: self.backoffs,
                        slices_left: 0,
                    };
                    RetryAction::Invoke
                } else if cancelled {
                    self.finish();
                    RetryAction::Fail(RetryError::Cancelled)
                } else {
                    *self = RetryExecutor {
                        max_attempts: self.max_attempts,
                        stage: RetryStage::Sleeping,
                        attempts: self.attempts,
                        backoffs: self.backoffs,
                        slices_left: self.slices_left - 1,
                    };
                    RetryAction::Sleep
                }
            },
            _ => RetryAction::Unexpected,
        }
    }
}

/// Every step keeps the invariant.
pub proof fn lemma_retry_step_keeps_inv(
    state: RetryState,
    cancelled: bool,
    event: RetryEvent<Seq<char>>,
)
    requires
        state.inv(),
    ensures
        state.next(cancelled, event).0.inv(),
{
    if state.attempts >= 1 {
        lemma_pow2_grows(0, (state.attempts - 1) as nat);
    }
}

/// Where an executor stands after the wait it is in has been slept through
/// without the token being set, and what it asks for then.
pub open spec fn sleep_through(state: RetryState) -> (RetryState, RetryAction<Seq<char>>)
    decreases state.slices_left,
{
    if state.stage == RetryStage::Sleeping && state.slices_left > 0 {
        sleep_through(state.next(false, RetryEvent::Slept).0)
    } else {
        state.next(false, RetryEvent::Slept)
    }
}

/// Where an executor stands, and what it asks for last, when the attempt
/// that is running and those that follow come out as `outcomes` say (an
/// error, or none for a success), every wait is slept through, and the token
/// is never set.
pub open spec fn run_attempts(state: RetryState, outcomes: Seq<Option<Seq<char>>>) -> (
    RetryState,
    RetryAction<Seq<char>>,
)
    decreases outcomes.len(),
{
    if outcomes.len() == 0 {
        (state, RetryAction::Invoke)
    } else {
        let event = match outcomes[0] {
            Some(error) => RetryEvent::Failed(error),
            None => RetryEvent::Succeeded,
        };
        let (reported, action) = state.next(false, event);
        if action is Sleep {
            let (woken, asked) = sleep_through(reported);
            if asked is Invoke {
                run_attempts(woken, outcomes.drop_first())
            } else {
                (woken, asked)
            }
        } else {
            (reported, action)
        }
    }
}

/// The run of a fresh executor over an operation whose attempts come out as
/// `outcomes` say, with the token never set.
pub open spec fn run(max_attempts: nat, outcomes: Seq<Option<Seq<char>>>) -> (
    RetryState,
    RetryAction<Seq<char>>,
) {
    let (begun, action) = RetryState::initial(max_attempts).next(false, RetryEvent::Begin);
    if action is Invoke {
        run_attempts(begun, outcomes)
    } else {
        (begun, action)
    }
}

/// A wait that is slept through ends with the next attempt.
pub proof fn lemma_sleep_through(state: RetryState)
    requires
        state.inv(),
        state.stage == RetryStage::Sleeping,
    ensures
        sleep_through(state) == (
            RetryState {
                stage: RetryStage::Invoking,
                attempts: state.attempts + 1,
                slices_left: 0,
                ..state
            },
            RetryAction::<Seq<char>>::Invoke,
        ),
    decreases state.slices_left,
{
    if state.slices_left > 0 {
        lemma_retry_step_keeps_inv(state, false, RetryEvent::Slept);
        lemma_sleep_through(state.next(false, RetryEvent::Slept).0);
    }
}

proof fn lemma_run_to_success(state: RetryState, outcomes: Seq<Option<Seq<char>>>)
    requires
        state.inv(),
        state.stage == RetryStage::Invoking,
        outcomes.len() >= 1,
        state.attempts + outcomes.len() - 1 <= state.max_attempts,
        forall|i: int| 0 <= i < outcomes.len() - 1 ==> outcomes[i] is Some,
        outcomes.last() is None,
    ensures
        run_attempts(state, outcomes) == (
            RetryState {
                stage: RetryStage::Finished,
                attempts: (state.attempts + outcomes.len() - 1) as nat,
                backoffs: (state.backoffs + outcomes.len() - 1) as nat,
                slices_left: 0,
                ..state
            },
            RetryAction::<Seq<char>>::Succeed,
        ),
    decreases outcomes.len(),
{
    if outcomes.len() > 1 {
        let event = RetryEvent::Failed(outcomes[0]->0);
        lemma_retry_step_keeps_inv(state, false, event);
        let reported = state.next(false, event).0;
        lemma_sleep_through(reported);
        let woken = sleep_through(reported).0;
        let rest = outcomes.drop_first();
        assert(rest.last() == outcomes.last());
        lemma_run_to_success(woken, rest);
    }
}

proof fn lemma_run_to_the_end(state: RetryState, outcomes: Seq<Option<Seq<char>>>)
    requires
        state.inv(),
        state.stage == RetryStage::Invoking,
        outcomes.len() >= 1,
        state.attempts + outcomes.len() - 1 == state.max_attempts,
        forall|i: int| 0 <= i < outcomes.len() ==> outcomes[i] is Some,
    ensures
        run_attempts(state, outcomes) == (
            RetryState {
                stage: RetryStage::Finished,
                attempts: state.max_attempts,
                backoffs: (state.max_attempts - 1) as nat,
                slices_left: 0,
                ..state
            },
            RetryAction::Fail(RetryError::GaveUp(outcomes.last()->0)),
        ),
    decreases outcomes.len(),
{
    if outcomes.len() > 1 {
        let event = RetryEvent::Failed(outcomes[0]->0);
        lemma_retry_step_keeps_inv(state, false, event);
        let reported = state.next(false, event).0;
        lemma_sleep_through(reported);
        let woken = sleep_through(reported).0;
        let rest = outcomes.drop_first();
        assert(rest.last() == outcomes.last());
        lemma_run_to_the_end(woken, rest);
    }
}

/// An operation that fails some times and then succeeds, within the number
/// of attempts, succeeds: every attempt is made once, and there is one backoff
/// wait for each failure, so never more than `max_attempts - 1`.
pub proof fn lemma_succeeds_after_failures(max_attempts: nat, outcomes: Seq<Option<Seq<char>>>)
    requires
        max_attempts <= MAX_ATTEMPTS,
        1 <= outcomes.len() <= max_attempts,
        forall|i: int| 0 <= i < outcomes.len() - 1 ==> outcomes[i] is Some,
        outcomes.last() is None,
    ensures
        run(max_attempts, outcomes).1 == RetryAction::<Seq<char>>::Succeed,
        run(max_attempts, outcomes).0.attempts == outcomes.len(),
        run(max_attempts, outcomes).0.backoffs == outcomes.len() - 1,
        run(max_attempts, outcomes).0.backoffs <= max_attempts - 1,
{
    let begun = RetryState::initial(max_attempts).next(false, RetryEvent::Begin).0;
    lemma_run_to_success(begun, outcomes);
}

/// An operation that fails at every attempt is given up with the error of
/// its last attempt, after exactly `max_attempts` attempts and exactly
/// `max_attempts - 1` backoff waits.
pub proof fn lemma_gives_up_with_the_last_error(
    max_attempts: nat,
    outcomes: Seq<Option<Seq<char>>>,
)
    requires
        1 <= max_attempts <= MAX_ATTEMPTS,
        outcomes.len() == max_attempts,
        forall|i: int| 0 <= i < outcomes.len() ==> outcomes[i] is Some,
    ensures
        run(max_attempts, outcomes).1 == RetryAction::Fail(
            RetryError::GaveUp(outcomes.last()->0),
        ),
        run(max_attempts, outcomes).0.attempts == max_attempts,
        run(max_attempts, outcomes).0.backoffs == max_attempts - 1,
{
    let begun = RetryState::initial(max_attempts).next(false, RetryEvent::Begin).0;
    lemma_run_to_the_end(begun, outcomes);
}

/// A set token is obeyed at once: whatever is reported to an executor that
/// is about to make another attempt or to sleep another slice, it asks for
/// nothing more and fails with the cancellation, not with the error of the
/// operation.
pub proof fn lemma_cancellation_takes_priority(state: RetryState, event: RetryEvent<Seq<char>>)
    requires
        state.inv(),
    ensures
        ({
            let (after, action) = state.next(true, event);
            &&& !(action is Invoke && state.stage == RetryStage::Ready)
            &&& !(action is Sleep)
            &&& action is Invoke ==> state.stage == RetryStage::Sleeping && state.slices_left == 0
            &&& action is Fail && action->Fail_0 is GaveUp ==> (state.stage == RetryStage::Ready
                && state.max_attempts == 0) || (state.stage == RetryStage::Invoking
                && state.attempts == state.max_attempts)
        }),
{
}

} // verus!
