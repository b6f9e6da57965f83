use vstd::prelude::*;
use crate::translate::TranslateError;
use crate::text::{chars_of, string_of, push_decimal, decimal};

verus! {

/// What one attempt of the API request produced.
#[derive(Clone, Debug)]
pub enum AttemptOutcome {
    /// A response with a status code; `retry_after_secs` is the parsed
    /// `Retry-After` header, when there is one.
    Response { status: u16, retry_after_secs: Option<u64> },
    /// The request timed out.
    TimedOut,
    /// The request failed before a response arrived.
    Failed { message: String },
}

/// What the client does after an attempt.
#[derive(Clone, Copy, Debug, PartialEq, Eq, Structural)]
pub enum RetryStep {
    /// The response is good: read its body.
    Proceed,
    /// Sleep this long (unless cancelled), then try again.
    Wait { ms: u64 },
    /// Try again at once.
    RetryNow,
    /// 429 after the last allowed retry.
    RateLimited,
    /// 5xx after the last allowed retry.
    ServerError { status: u16 },
    /// A status that is neither success, 429 nor 5xx.
    UnexpectedStatus { status: u16 },
    /// A second timeout.
    TimedOut,
    /// The request could not be sent or read.
    TransportFailed,
}

/// Retries allowed for HTTP 429.
pub const MAX_429_RETRIES: u32 = 3;

/// Retries allowed for HTTP 5xx.
pub const MAX_5XX_RETRIES: u32 = 2;

/// Progress through the retry ladder of one request.
#[derive(Clone, Copy, Debug, PartialEq, Eq, Structural)]
pub struct RetryState {
    pub attempt: u32,
    pub timeout_retried: bool,
}

pub open spec fn pow2(n: nat) -> nat
    decreases n,
{
    if n == 0 {
        1
    } else {
        2 * pow2((n - 1) as nat)
    }
}

/// Whether a step ends the ladder.
pub open spec fn is_final(d: RetryStep) -> bool {
    !(d is Wait || d is RetryNow)
}

/// The wait before retrying a 429: `Retry-After` when given (saturating),
/// else 1 s, 2 s, 4 s.
pub open spec fn wait_429_ms(attempt: u32, retry_after_secs: Option<u64>) -> u64 {
    match retry_after_secs {
        Some(secs) => if secs as int * 1000 <= u64::MAX {
            (secs * 1000) as u64
        } else {
            u64::MAX
        },
        None => (1000 * pow2(attempt as nat)) as u64,
    }
}

/// One step of the ladder: 429 waits and retries at most three times; 5xx
/// waits 500 ms times 2^attempt and retries at most twice (the attempt
/// counter is shared); a timeout is retried once at once; anything else
/// fails.
pub open spec fn step_spec(s: RetryState, outcome: AttemptOutcome) -> (RetryState, RetryStep) {
    match outcome {
        AttemptOutcome::Response { status, retry_after_secs } => if 200 <= status <= 299 {
            (s, RetryStep::Proceed)
        } else if status == 429 {
            if s.attempt >= MAX_429_RETRIES {
                (s, RetryStep::RateLimited)
            } else {
                (
                    RetryState { attempt: (s.attempt + 1) as u32, timeout_retried: s.timeout_retried },
                    RetryStep::Wait { ms: wait_429_ms(s.attempt, retry_after_secs) },
                )
            }
        } else if 500 <= status <= 599 {
            if s.attempt >= MAX_5XX_RETRIES {
                (s, RetryStep::ServerError { status })
            } else {
                (
                    RetryState { attempt: (s.attempt + 1) as u32, timeout_retried: s.timeout_retried },
                    RetryStep::Wait { ms: (500 * pow2(s.attempt as nat)) as u64 },
                )
            }
        } else {
            (s, RetryStep::UnexpectedStatus { status })
        },
        AttemptOutcome::TimedOut => if s.timeout_retried {
            (s, RetryStep::TimedOut)
        } else {
            (RetryState { attempt: s.attempt, timeout_retried: true }, RetryStep::RetryNow)
        },
        AttemptOutcome::Failed { .. } => (s, RetryStep::TransportFailed),
    }
}

/// The step that ends the ladder when the attempts produce `outcomes` in
/// turn, or `None` when they run out first.
pub open spec fn run_ladder(s: RetryState, outcomes: Seq<AttemptOutcome>) -> Option<RetryStep>
    decreases outcomes.len(),
{
    if outcomes.len() == 0 {
        None
    } else {
        let (next, d) = step_spec(s, outcomes[0]);
        if is_final(d) {
            Some(d)
        } else {
            run_ladder(next, outcomes.subrange(1, outcomes.len() as int))
        }
    }
}

impl RetryState {
    pub fn new() -> (r: Self)
        ensures
            r.attempt == 0,
            !r.timeout_retried,
    {
        RetryState { attempt: 0, timeout_retried: false }
    }

    /// Decides what follows an attempt.
    pub fn next_step(&mut self, outcome: &AttemptOutcome) -> (r: RetryStep)
        ensures
            (*final(self), r) == step_spec(*old(self), *outcome),
    {
        match outcome {
            AttemptOutcome::Response { status, retry_after_secs } => {
                let status = *status;
                if 200 <= status && status <= 299 {
                    RetryStep::Proceed
                } else if status == 429 {
                    if self.attempt >= MAX_429_RETRIES {
                        RetryStep::RateLimited
                    } else {
                        let ms = match retry_after_secs {
                            Some(secs) => if *secs <= u64::MAX / 1000 {
                                *secs * 1000
                            } else {
                                u64::MAX
                            },
                            None => {
                                proof {
                                    assert(pow2(0) == 1);
                                    assert(pow2(1) == 2);
                                    assert(pow2(2) == 4);
                                }
                                if self.attempt == 0 {
                                    1000
                                } else if self.attempt == 1 {
                                    2000
                                } else {
                                    4000
                                }
                            },
                        };
                        self.attempt = self.attempt + 1;
                        RetryStep::Wait { ms }
                    }
                } else if 500 <= status && status <= 599 {
                    if self.attempt >= MAX_5XX_RETRIES {
                        RetryStep::ServerError { status }
                    } else {
                        proof {
                            assert(pow2(0) == 1);
                            assert(pow2(1) == 2);
                        }
                        let ms: u64 = if self.attempt == 0 {
                            500
                        } else {
                            1000
                        };
                        self.attempt = self.attempt + 1;
                        RetryStep::Wait { ms }
                    }
                } else {
                    RetryStep::UnexpectedStatus { status }
                }
            },
            AttemptOutcome::TimedOut => {
                if self.timeout_retried {
                    RetryStep::TimedOut
                } else {
                    self.timeout_retried = true;
                    RetryStep::RetryNow
                }
            },
            AttemptOutcome::Failed { .. } => RetryStep::TransportFailed,
        }
    }
}

/// The error a final step surfaces; `None` for `Proceed` and the
/// non-final steps.
pub open spec fn step_error(step: RetryStep, outcome: AttemptOutcome) -> Option<(nat, Seq<char>)> {
    match step {
        RetryStep::RateLimited => Some((1, Seq::empty())),
        RetryStep::ServerError { status } => Some((0, "server error: "@ + decimal(status as nat))),
        RetryStep::UnexpectedStatus { status } => Some((0, "unexpected status "@ + decimal(status as nat))),
        RetryStep::TimedOut => Some((2, Seq::empty())),
        RetryStep::TransportFailed => match outcome {
            AttemptOutcome::Failed { message } => Some((0, message@)),
            _ => Some((0, Seq::empty())),
        },
        _ => None,
    }
}

/// The error that ends a failed ladder: rate limiting, a timeout, or an
/// API error whose message names the status or the transport failure.
pub fn error_for(step: RetryStep, outcome: &AttemptOutcome) -> (r: Option<TranslateError>)
    ensures
        match step_error(step, *outcome) {
            None => r is None,
            Some((kind, msg)) => match r {
                Some(TranslateError::ApiError(m)) => kind == 0 && m@ == msg,
                Some(TranslateError::RateLimited { retry_after_ms }) => kind == 1 && retry_after_ms == 0,
                Some(TranslateError::Timeout) => kind == 2,
                _ => false,
            },
        },
{
    proof {
        reveal_strlit("server error: ");
        reveal_strlit("unexpected status ");
    }
    match step {
        RetryStep::RateLimited => Some(TranslateError::RateLimited { retry_after_ms: 0 }),
        RetryStep::ServerError { status } => {
            let mut m = chars_of("server error: ");
            push_decimal(&mut m, status as u64);
            Some(TranslateError::ApiError(string_of(m.as_slice())))
        },
        RetryStep::UnexpectedStatus { status } => {
            let mut m = chars_of("unexpected status ");
            push_decimal(&mut m, status as u64);
            Some(TranslateError::ApiError(string_of(m.as_slice())))
        },
        RetryStep::TimedOut => Some(TranslateError::Timeout),
        RetryStep::TransportFailed => match outcome {
            AttemptOutcome::Failed { message } => Some(TranslateError::ApiError(message.clone())),
            _ => Some(TranslateError::ApiError(String::new())),
        },
        _ => None,
    }
}

pub open spec fn too_many_requests() -> AttemptOutcome {
    AttemptOutcome::Response { status: 429, retry_after_secs: None }
}

pub open spec fn ok_response() -> AttemptOutcome {
    AttemptOutcome::Response { status: 200, retry_after_secs: None }
}

/// Retry ladder for rate limiting: up to three 429 responses followed by a
/// success end in success; a fourth 429 in a row surfaces `RateLimited`,
/// whatever comes after it.
pub proof fn lemma_rate_limit_ladder(n: nat, rest: Seq<AttemptOutcome>)
    ensures
        n <= 3 ==> run_ladder(
            RetryState { attempt: 0, timeout_retried: false },
            Seq::new(n, |i: int| too_many_requests()).push(ok_response()),
        ) == Some(RetryStep::Proceed),
        n > 3 ==> run_ladder(
            RetryState { attempt: 0, timeout_retried: false },
            Seq::new(n, |i: int| too_many_requests()) + rest,
        ) == Some(RetryStep::RateLimited),
{
    reveal_with_fuel(pow2, 3);
    lemma_ladder_from(0, n, rest);
}

proof fn lemma_ladder_from(k: u32, n: nat, rest: Seq<AttemptOutcome>)
    requires
        k <= 3,
    ensures
        k + n <= 3 ==> run_ladder(
            RetryState { attempt: k, timeout_retried: false },
            Seq::new(n, |i: int| too_many_requests()).push(ok_response()),
        ) == Some(RetryStep::Proceed),
        k + n > 3 ==> run_ladder(
            RetryState { attempt: k, timeout_retried: false },
            Seq::new(n, |i: int| too_many_requests()) + rest,
        ) == Some(RetryStep::RateLimited),
    decreases n,
{
    let s = RetryState { attempt: k, timeout_retried: false };
    if n == 0 {
        let outs = Seq::new(0, |i: int| too_many_requests()).push(ok_response());
        assert(outs[0] == ok_response());
    } else {
        let a = Seq::new(n, |i: int| too_many_requests()).push(ok_response());
        let b = Seq::new(n, |i: int| too_many_requests()) + rest;
        assert(a[0] == too_many_requests());
        assert(b[0] == too_many_requests());
        if k < 3 {
            lemma_ladder_from((k + 1) as u32, (n - 1) as nat, rest);
            assert(a.subrange(1, a.len() as int) =~= Seq::new(
                (n - 1) as nat,
                |i: int| too_many_requests(),
            ).push(ok_response()));
            assert(b.subrange(1, b.len() as int) =~= Seq::new(
                (n - 1) as nat,
                |i: int| too_many_requests(),
            ) + rest);
        }
    }
}

} // verus!
