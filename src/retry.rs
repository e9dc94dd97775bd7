use vstd::prelude::*;

verus! {

/// How many times a failed completion call is sent again: four attempts in all.
pub const MAX_RETRIES: u32 = 3;

/// The server statuses that are worth another attempt.
pub open spec fn is_transient_status(code: u16) -> bool {
    code == 500 || code == 502 || code == 503 || code == 504
}

pub open spec fn is_success_status(code: u16) -> bool {
    200 <= code < 300
}

/// Whether an HTTP status code names a transient server failure
/// (500, 502, 503 or 504).
pub fn is_retryable_error(status_code: u16) -> (r: bool)
    ensures
        r == is_transient_status(status_code),
{
    status_code == 500 || status_code == 502 || status_code == 503 || status_code == 504
}

pub open spec fn pow2(n: nat) -> nat
    decreases n,
{
    if n == 0 {
        1
    } else {
        2 * pow2((n - 1) as nat)
    }
}

/// Seconds to wait before retry number `attempt` (counted from 1).
pub open spec fn backoff_spec(attempt: nat) -> nat {
    pow2((attempt - 1) as nat)
}

/// The exponential backoff: `2^(attempt - 1)` seconds before retry
/// number `attempt`, so 1, 2 and 4 seconds before the three retries.
pub fn backoff_secs(attempt: u32) -> (secs: u64)
    requires
        1 <= attempt <= 64,
    ensures
        secs as nat == backoff_spec(attempt as nat),
{
    let mut secs: u64 = 1;
    let mut i: u32 = 1;
    assert(1u64 <= 0x8000_0000_0000_0000u64 >> 63u64) by (bit_vector);
    while i < attempt
        invariant
            1 <= i <= attempt <= 64,
            secs as nat == pow2((i - 1) as nat),
            secs <= 0x8000_0000_0000_0000u64 >> ((64 - i) as u64),
        decreases attempt - i,
    {
        assert(secs <= 0x4000_0000_0000_0000u64) by {
            assert(0x8000_0000_0000_0000u64 >> ((64 - i) as u64) <= 0x4000_0000_0000_0000u64)
                by (bit_vector)
                requires
                    1 <= i < 64,
            ;
        }
        assert(2 * secs <= 0x8000_0000_0000_0000u64 >> ((64 - (i + 1)) as u64)) by (bit_vector)
            requires
                1 <= i < 64,
                secs <= 0x8000_0000_0000_0000u64 >> ((64 - i) as u64),
        ;
        secs = 2 * secs;
        i = i + 1;
    }
    secs
}

/// What one attempt of a completion call came back with.
#[derive(Clone, Copy, Debug, PartialEq, Eq, Structural)]
pub enum Outcome {
    /// The request got no HTTP status back: the connection failed, timed out
    /// or the name did not resolve.
    Transport,
    /// The server answered with this status code.
    Status(u16),
}

/// What the caller does after an attempt.
#[derive(Clone, Copy, Debug, PartialEq, Eq, Structural)]
pub enum Step {
    /// A success status: decode the body; a body that does not decode is a
    /// fatal decode error, never retried.
    Decode,
    /// Wait this many seconds, then send the same request again.
    Retry { delay_secs: u64 },
    /// Transport failures outlasted every retry: fail with a network error.
    GiveUp,
    /// A status that is fatal, or a transient one after the last retry: read
    /// the body and fail with an API error built from it.
    Fail,
}

/// The decision after an attempt, from the number of retries made so far:
/// the retries made afterwards and the step to take.
pub open spec fn next_step(retries: nat, outcome: Outcome) -> (nat, Step) {
    match outcome {
        Outcome::Transport => if retries < MAX_RETRIES {
            (retries + 1, Step::Retry { delay_secs: backoff_spec(retries + 1) as u64 })
        } else {
            (retries, Step::GiveUp)
        },
        Outcome::Status(code) => if is_success_status(code) {
            (retries, Step::Decode)
        } else if is_transient_status(code) && retries < MAX_RETRIES {
            (retries + 1, Step::Retry { delay_secs: backoff_spec(retries + 1) as u64 })
        } else {
            (retries, Step::Fail)
        },
    }
}

/// The retry bookkeeping of one completion call. Each call has its own.
#[derive(Clone, Copy, Debug, PartialEq, Eq, Structural)]
pub struct RetryState {
    /// Retries made so far.
    pub retries: u32,
}

impl RetryState {
    pub open spec fn wf(self) -> bool {
        self.retries <= MAX_RETRIES
    }

    /// The state before the first attempt.
    pub fn new() -> (r: RetryState)
        ensures
            r.retries == 0,
            r.wf(),
    {
        RetryState { retries: 0 }
    }

    /// Takes the outcome of an attempt and decides what follows.
    pub fn on_outcome(&mut self, outcome: Outcome) -> (step: Step)
        requires
            old(self).wf(),
        ensures
            final(self).wf(),
            (final(self).retries as nat, step) == next_step(old(self).retries as nat, outcome),
    {
        let retry = match outcome {
            Outcome::Transport => self.retries < MAX_RETRIES,
            Outcome::Status(code) => {
                if 200 <= code && code < 300 {
                    return Step::Decode;
                }
                is_retryable_error(code) && self.retries < MAX_RETRIES
            },
        };
        if retry {
            self.retries = self.retries + 1;
            Step::Retry { delay_secs: backoff_secs(self.retries) }
        } else {
            match outcome {
                Outcome::Transport => Step::GiveUp,
                Outcome::Status(_) => Step::Fail,
            }
        }
    }
}

/// A call against a server that answers every attempt with `outcome`, from a
/// state with `retries` retries made: the attempts sent, the waits between
/// them in order, and the step that ends the call.
pub open spec fn against_constant(outcome: Outcome, retries: nat) -> (nat, Seq<u64>, Step)
    decreases MAX_RETRIES - retries,
{
    let step = next_step(retries, outcome).1;
    if step is Retry && retries < MAX_RETRIES {
        let (n, waits, last) = against_constant(outcome, retries + 1);
        (n + 1, seq![step->delay_secs] + waits, last)
    } else {
        (1, Seq::empty(), step)
    }
}

proof fn lemma_first_backoffs()
    ensures
        backoff_spec(1) == 1,
        backoff_spec(2) == 2,
        backoff_spec(3) == 4,
{
    reveal_with_fuel(pow2, 3);
}

/// A server that keeps failing with 500, 502, 503 or 504 gets exactly four
/// attempts, one first try and three retries, and the call then fails.
pub proof fn lemma_transient_status_gets_four_attempts(code: u16)
    requires
        is_transient_status(code),
    ensures
        against_constant(Outcome::Status(code), 0).0 == 4,
        against_constant(Outcome::Status(code), 0).2 == Step::Fail,
{
    lemma_first_backoffs();
    reveal_with_fuel(against_constant, 5);
}

/// Any other status outside 2xx (400, 401, 404, ...) fails the call at once,
/// whatever number of retries came before: one attempt, and no wait.
pub proof fn lemma_fatal_status_fails_at_once(code: u16, retries: nat)
    requires
        !is_success_status(code),
        !is_transient_status(code),
    ensures
        next_step(retries, Outcome::Status(code)) == (retries, Step::Fail),
        against_constant(Outcome::Status(code), 0) == (1nat, Seq::<u64>::empty(), Step::Fail),
{
    reveal_with_fuel(against_constant, 2);
}

/// The waits between successive retries are 1, 2 and 4 seconds, in that
/// order, whether the attempts failed in transport or with a transient status;
/// transport failures end the call with a network error after the last one.
pub proof fn lemma_backoff_is_one_two_four(outcome: Outcome)
    requires
        outcome is Transport || is_transient_status(outcome->Status_0),
    ensures
        against_constant(outcome, 0).1 == seq![1u64, 2u64, 4u64],
        against_constant(outcome, 0).0 == 4,
        outcome is Transport ==> against_constant(outcome, 0).2 == Step::GiveUp,
{
    lemma_first_backoffs();
    reveal_with_fuel(against_constant, 5);
    assert(against_constant(outcome, 3).1 == Seq::<u64>::empty());
    assert(against_constant(outcome, 2).1 =~= seq![4u64]);
    assert(against_constant(outcome, 1).1 =~= seq![2u64, 4u64]);
    assert(against_constant(outcome, 0).1 =~= seq![1u64, 2u64, 4u64]);
}

/// A success status on the first attempt leads straight to decoding the
/// body: no retry was made and nothing was waited for.
pub proof fn lemma_first_success_needs_no_retry(code: u16)
    requires
        is_success_status(code),
    ensures
        next_step(0, Outcome::Status(code)) == (0nat, Step::Decode),
        against_constant(Outcome::Status(code), 0) == (1nat, Seq::<u64>::empty(), Step::Decode),
{
    reveal_with_fuel(against_constant, 2);
}

/// A success status is never retried, however many retries came before: its
/// body is decoded once, and a body that does not decode ends the call.
pub proof fn lemma_success_status_is_never_retried(code: u16, retries: nat)
    requires
        is_success_status(code),
    ensures
        next_step(retries, Outcome::Status(code)) == (retries, Step::Decode),
{
}

} // verus!
