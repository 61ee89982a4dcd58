use vstd::prelude::*;
use crate::error::OpenAIError;

verus! {

/// Limits of the retry controller.
#[derive(Clone, Copy, PartialEq, Eq, Structural, Debug)]
pub struct RetryPolicy {
    /// Most attempts made for one call, the first included.
    pub max_attempts: u32,
    /// Most milliseconds spent waiting between attempts.
    pub max_elapsed_ms: u64,
    /// Wait after the first failure, before jitter.
    pub initial_delay_ms: u64,
    /// Largest wait between two attempts.
    pub max_delay_ms: u64,
}

impl RetryPolicy {
    /// Five attempts within a minute, waits from half a second up to eight.
    pub fn default() -> (r: RetryPolicy)
        ensures
            r.max_attempts == 5,
            r.max_elapsed_ms == 60_000,
            r.initial_delay_ms == 500,
            r.max_delay_ms == 8_000,
    {
        RetryPolicy { max_attempts: 5, max_elapsed_ms: 60_000, initial_delay_ms: 500, max_delay_ms: 8_000 }
    }
}

/// Whether a failure is worth another attempt: a failed connection, status
/// 429, or a 5xx status. `status` is `None` when no response came.
pub open spec fn is_retryable_spec(error: OpenAIError, status: Option<u16>) -> bool {
    match status {
        Some(s) => s == 429 || (500 <= s && s <= 599),
        None => error is Transport,
    }
}

pub fn is_retryable(error: &OpenAIError, status: Option<u16>) -> (r: bool)
    ensures
        r == is_retryable_spec(*error, status),
{
    match status {
        Some(s) => s == 429 || (500 <= s && s <= 599),
        None => match error {
            OpenAIError::Transport(_) => true,
            _ => false,
        },
    }
}

/// The wait before jitter after the failure of attempt `a` (from zero):
/// the initial wait doubled `a` times, never above the cap.
pub open spec fn backoff(p: RetryPolicy, a: nat) -> nat
    decreases a,
{
    if a == 0 {
        if p.initial_delay_ms <= p.max_delay_ms {
            p.initial_delay_ms as nat
        } else {
            p.max_delay_ms as nat
        }
    } else {
        let d = 2 * backoff(p, (a - 1) as nat);
        if d <= p.max_delay_ms {
            d
        } else {
            p.max_delay_ms as nat
        }
    }
}

/// The wait after the failure of attempt `a`: half the backoff plus a
/// random share of the other half.
pub open spec fn delay(p: RetryPolicy, a: nat, jitter: u64) -> nat {
    let b = backoff(p, a);
    let half = b / 2;
    half + jitter as nat % ((b - half) + 1) as nat
}

proof fn lemma_backoff_capped(p: RetryPolicy, a: nat)
    ensures
        backoff(p, a) <= p.max_delay_ms,
    decreases a,
{
    if a > 0 {
        lemma_backoff_capped(p, (a - 1) as nat);
    }
}

proof fn lemma_delay_capped(p: RetryPolicy, a: nat, jitter: u64)
    ensures
        backoff(p, a) / 2 <= delay(p, a, jitter) <= backoff(p, a),
        delay(p, a, jitter) <= p.max_delay_ms,
{
    lemma_backoff_capped(p, a);
    let b = backoff(p, a);
    let half = b / 2;
    assert(jitter as nat % ((b - half) + 1) as nat <= b - half) by (nonlinear_arith)
        requires b >= half;
}

fn backoff_exec(p: &RetryPolicy, a: u32) -> (r: u64)
    ensures
        r == backoff(*p, a as nat),
{
    let mut d: u64 = if p.initial_delay_ms <= p.max_delay_ms { p.initial_delay_ms } else { p.max_delay_ms };
    let mut i: u32 = 0;
    while i < a
        invariant
            i <= a,
            d == backoff(*p, i as nat),
            d <= p.max_delay_ms,
        decreases a - i,
    {
        d = if d > p.max_delay_ms / 2 { p.max_delay_ms } else { d * 2 };
        i = i + 1;
    }
    d
}

/// What the controller asks for after a failed attempt.
#[derive(Clone, Copy, PartialEq, Eq, Structural, Debug)]
pub enum RetryStep {
    /// Wait this many milliseconds, then make the next attempt.
    Wait(u64),
    /// Make no further attempt; `exhausted` when the failure was retryable
    /// and the budget ran out, so that the error surfaces as `RetryExhausted`.
    Stop { exhausted: bool },
}

/// The decision after attempt number `n` (from one) failed, with `elapsed`
/// milliseconds waited so far.
pub open spec fn decide(p: RetryPolicy, n: nat, elapsed: nat, retryable: bool, jitter: u64) -> RetryStep {
    if !retryable {
        RetryStep::Stop { exhausted: false }
    } else if n >= p.max_attempts {
        RetryStep::Stop { exhausted: true }
    } else if elapsed + delay(p, (n - 1) as nat, jitter) > p.max_elapsed_ms {
        RetryStep::Stop { exhausted: true }
    } else {
        RetryStep::Wait(delay(p, (n - 1) as nat, jitter) as u64)
    }
}

/// The state of one logical call under the retry controller.
pub struct Retrier {
    pub policy: RetryPolicy,
    /// Attempts made so far.
    pub attempts: u32,
    /// Milliseconds waited so far.
    pub elapsed_ms: u64,
}

impl Retrier {
    /// Whether another attempt may still be made.
    pub open spec fn wf(&self) -> bool {
        &&& self.attempts < self.policy.max_attempts
        &&& self.elapsed_ms <= self.policy.max_elapsed_ms
    }

    pub fn new(policy: RetryPolicy) -> (r: Retrier)
        requires
            policy.max_attempts >= 1,
        ensures
            r.wf(),
            r.policy == policy,
            r.attempts == 0,
            r.elapsed_ms == 0,
    {
        Retrier { policy, attempts: 0, elapsed_ms: 0 }
    }

    /// Records that the next attempt failed and decides what follows.
    pub fn on_failure(&mut self, retryable: bool, jitter: u64) -> (r: RetryStep)
        requires
            old(self).wf(),
        ensures
            final(self).policy == old(self).policy,
            final(self).attempts == old(self).attempts + 1,
            r == decide(old(self).policy, (old(self).attempts + 1) as nat, old(self).elapsed_ms as nat, retryable, jitter),
            r matches RetryStep::Wait(d) ==> final(self).wf() && final(self).elapsed_ms == old(self).elapsed_ms + d,
            r is Stop ==> final(self).elapsed_ms == old(self).elapsed_ms,
    {
        self.attempts = self.attempts + 1;
        if !retryable {
            return RetryStep::Stop { exhausted: false };
        }
        if self.attempts >= self.policy.max_attempts {
            return RetryStep::Stop { exhausted: true };
        }
        let b = backoff_exec(&self.policy, self.attempts - 1);
        let half = b / 2;
        let d = half + jitter % (b - half + 1);
        proof {
            lemma_delay_capped(self.policy, (self.attempts - 1) as nat, jitter);
        }
        if d > self.policy.max_elapsed_ms - self.elapsed_ms {
            return RetryStep::Stop { exhausted: true };
        }
        self.elapsed_ms = self.elapsed_ms + d;
        RetryStep::Wait(d)
    }
}

/// The error a call surfaces after the controller stopped on `error`.
pub fn surface(exhausted: bool, error: OpenAIError) -> (r: OpenAIError)
    ensures
        exhausted ==> r == OpenAIError::RetryExhausted(Box::new(error)),
        !exhausted ==> r == error,
{
    if exhausted {
        OpenAIError::RetryExhausted(Box::new(error))
    } else {
        error
    }
}

/// How a call ends when its attempts fail or succeed as `os` says (`true`:
/// success; `false`: retryable failure) and waits are jittered by `js`,
/// starting with `n` attempts made and `elapsed` milliseconds waited:
/// whether it succeeded, how many attempts were made in all, and whether the
/// budget ran out.
pub open spec fn run(p: RetryPolicy, os: Seq<bool>, js: Seq<u64>, n: nat, elapsed: nat) -> (bool, nat, bool)
    decreases os.len() - n,
{
    if n >= os.len() {
        (false, n, false)
    } else if os[n as int] {
        (true, n + 1, false)
    } else {
        match decide(p, n + 1, elapsed, true, js[n as int]) {
            RetryStep::Wait(d) => run(p, os, js, n + 1, elapsed + d as nat),
            RetryStep::Stop { exhausted } => (false, n + 1, exhausted),
        }
    }
}

proof fn lemma_run_succeeds_from(p: RetryPolicy, os: Seq<bool>, js: Seq<u64>, n: nat, elapsed: nat)
    requires
        1 <= os.len() <= p.max_attempts,
        forall|i: int| 0 <= i < os.len() - 1 ==> !#[trigger] os[i],
        os[os.len() - 1],
        (os.len() - 1) * p.max_delay_ms <= p.max_elapsed_ms,
        n < os.len(),
        elapsed <= n * p.max_delay_ms,
    ensures
        run(p, os, js, n, elapsed) == (true, os.len(), false),
    decreases os.len() - n,
{
    if n < os.len() - 1 {
        lemma_delay_capped(p, n, js[n as int]);
        let d = delay(p, n, js[n as int]);
        assert(elapsed + d <= (n + 1) * p.max_delay_ms) by (nonlinear_arith)
            requires elapsed <= n * p.max_delay_ms, d <= p.max_delay_ms;
        assert((n + 1) * p.max_delay_ms <= (os.len() - 1) * p.max_delay_ms) by (nonlinear_arith)
            requires n + 1 <= os.len() - 1;
        assert(decide(p, n + 1, elapsed, true, js[n as int]) == RetryStep::Wait(d as u64));
        lemma_run_succeeds_from(p, os, js, n + 1, elapsed + d);
    }
}

/// An operation that fails retryably `k - 1` times and then succeeds, with
/// `k` within the attempt limit and `k - 1` longest waits within the time
/// budget, succeeds after exactly `k` attempts.
pub proof fn lemma_retry_until_success(p: RetryPolicy, os: Seq<bool>, js: Seq<u64>)
    requires
        1 <= os.len() <= p.max_attempts,
        forall|i: int| 0 <= i < os.len() - 1 ==> !#[trigger] os[i],
        os[os.len() - 1],
        (os.len() - 1) * p.max_delay_ms <= p.max_elapsed_ms,
    ensures
        run(p, os, js, 0, 0) == (true, os.len(), false),
{
    lemma_run_succeeds_from(p, os, js, 0, 0);
}

proof fn lemma_run_exhausts_from(p: RetryPolicy, os: Seq<bool>, js: Seq<u64>, n: nat, elapsed: nat)
    requires
        os.len() >= p.max_attempts,
        forall|i: int| 0 <= i < os.len() ==> !#[trigger] os[i],
        n < p.max_attempts,
    ensures
        !run(p, os, js, n, elapsed).0,
        run(p, os, js, n, elapsed).2,
        n < run(p, os, js, n, elapsed).1 <= p.max_attempts,
    decreases os.len() - n,
{
    match decide(p, n + 1, elapsed, true, js[n as int]) {
        RetryStep::Wait(d) => {
            lemma_run_exhausts_from(p, os, js, n + 1, elapsed + d as nat);
        },
        RetryStep::Stop { exhausted } => {},
    }
}

/// An operation that always fails retryably ends with the budget run out,
/// after at least one and at most the allowed number of attempts.
pub proof fn lemma_retry_exhausts(p: RetryPolicy, os: Seq<bool>, js: Seq<u64>)
    requires
        p.max_attempts >= 1,
        os.len() >= p.max_attempts,
        forall|i: int| 0 <= i < os.len() ==> !#[trigger] os[i],
    ensures
        !run(p, os, js, 0, 0).0,
        run(p, os, js, 0, 0).2,
        1 <= run(p, os, js, 0, 0).1 <= p.max_attempts,
{
    lemma_run_exhausts_from(p, os, js, 0, 0);
}

} // verus!
