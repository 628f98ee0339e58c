//! Retry policy and call-scoped retry state.
//!
//! Each RPC against the remote service is wrapped by [`RetryGateway`]: a
//! transient failure (see [`crate::status::spec_retryable`]) is absorbed by
//! waiting an exponentially growing, jittered delay and trying again, until
//! the attempt-count or elapsed-time budget runs out; a terminal failure
//! propagates at once. Retry state is scoped to one call, so concurrent
//! calls never share a budget.
//!
//! The wait itself suspends and so belongs to the host around the library;
//! here the decision — retry with which delay, or propagate — is a verified
//! transition of [`RetryState`].

use vstd::prelude::*;
use vstd::arithmetic::div_mod::lemma_div_is_ordered;
use vstd::arithmetic::mul::lemma_mul_inequality;
use vstd::arithmetic::mul::lemma_mul_upper_bound;

use crate::status::StatusCode;
use crate::status::spec_retryable;
use crate::status::is_retryable;

verus! {

/// Scale for the multiplier and the jitter factor: a value of 1000 stands
/// for the factor one.
pub const PERMILLE: u64 = 1000;

/// Largest accepted maximum backoff interval, in milliseconds (about 4000
/// years). Together with [`MAX_MULTIPLIER_PERMILLE`] it keeps every
/// intermediate product of the backoff arithmetic inside a `u64`.
pub const MAX_INTERVAL_CEILING_MS: u64 = 0x7FFF_FFFF_FFFF;

/// Largest accepted backoff multiplier, scaled by [`PERMILLE`]: a factor
/// of 64 per attempt.
pub const MAX_MULTIPLIER_PERMILLE: u64 = 64000;

/// Configuration of the retry policy. Intervals are in milliseconds;
/// the multiplier and the jitter factor are scaled by [`PERMILLE`].
#[derive(Clone, Copy, Debug)]
pub struct RetryConfig {
    /// Backoff delay before the first retry.
    pub initial_interval_ms: u64,
    /// Growth factor of the delay, scaled by 1000; must exceed 1000
    /// (a factor greater than one).
    pub multiplier_permille: u64,
    /// Ceiling on every computed delay.
    pub max_interval_ms: u64,
    /// Ceiling on the total time spent waiting between attempts of one
    /// call, if any.
    pub max_elapsed_ms: Option<u64>,
    /// Ceiling on the number of attempts of one call, counting the first.
    pub max_attempts: u32,
    /// Randomization factor, scaled by 1000: each delay is multiplied by a
    /// uniform factor in `[1000 - jitter, 1000 + jitter]` permille.
    pub jitter_permille: u64,
}

impl RetryConfig {
    /// The configuration invariant: the multiplier exceeds one, the first
    /// delay does not exceed the ceiling, the jitter factor lies in
    /// `[0, 1)`, and at least one attempt is allowed. The numeric bounds
    /// on the ceiling and the multiplier keep the backoff arithmetic
    /// inside a `u64`.
    pub open spec fn wf(self) -> bool {
        &&& 1000 < self.multiplier_permille <= MAX_MULTIPLIER_PERMILLE
        &&& self.initial_interval_ms <= self.max_interval_ms
        &&& self.max_interval_ms <= MAX_INTERVAL_CEILING_MS
        &&& self.jitter_permille < 1000
        &&& self.max_attempts >= 1
    }
}

/// The unjittered, uncapped backoff interval after `n` retries:
/// `initial * multiplier^n`, computed in permille steps with the floor
/// division the executable code uses.
pub open spec fn grown_interval_ms(cfg: RetryConfig, n: nat) -> nat
    decreases n,
{
    if n == 0 {
        cfg.initial_interval_ms as nat
    } else {
        ((grown_interval_ms(cfg, (n - 1) as nat) * cfg.multiplier_permille) / 1000) as nat
    }
}

/// The unjittered backoff delay for the retry after the `n`th failure
/// (counting from 0): the grown interval, capped at the configured
/// maximum.
pub open spec fn backoff_delay_ms(cfg: RetryConfig, n: nat) -> nat {
    if grown_interval_ms(cfg, n) <= cfg.max_interval_ms {
        grown_interval_ms(cfg, n)
    } else {
        cfg.max_interval_ms as nat
    }
}

/// Growing by a factor of at least one never shrinks a value.
proof fn lemma_grow_step_ge(x: nat, m: nat)
    requires
        m >= 1000,
    ensures
        x <= (x * m) / 1000,
{
    lemma_mul_inequality(1000, m as int, x as int);
    assert(x * 1000 == 1000 * x) by (nonlinear_arith);
    assert(x * m == m * x) by (nonlinear_arith);
    assert((x * 1000) / 1000 == x) by (nonlinear_arith);
    lemma_div_is_ordered((x * 1000) as int, (x * m) as int, 1000);
}

/// The grown interval is non-decreasing in the attempt number.
proof fn lemma_grown_monotone(cfg: RetryConfig, i: nat, j: nat)
    requires
        cfg.wf(),
        i <= j,
    ensures
        grown_interval_ms(cfg, i) <= grown_interval_ms(cfg, j),
    decreases j,
{
    if i < j {
        lemma_grown_monotone(cfg, i, (j - 1) as nat);
        lemma_grow_step_ge(grown_interval_ms(cfg, (j - 1) as nat), cfg.multiplier_permille as nat);
    }
}

/// Law: for every attempt, the unjittered backoff delay never exceeds the
/// configured maximum interval, and it is non-decreasing in the attempt
/// number.
pub proof fn lemma_backoff_bounded_and_monotone(cfg: RetryConfig, i: nat, j: nat)
    requires
        cfg.wf(),
        i <= j,
    ensures
        backoff_delay_ms(cfg, i) <= cfg.max_interval_ms,
        backoff_delay_ms(cfg, i) <= backoff_delay_ms(cfg, j),
{
    lemma_grown_monotone(cfg, i, j);
}

/// Clamping before or after one growth step reaches the same capped
/// delay: growing the already-capped interval and capping again agrees
/// with capping the uncapped growth.
proof fn lemma_clamped_step(cfg: RetryConfig, n: nat)
    requires
        cfg.wf(),
    ensures
        backoff_delay_ms(cfg, n + 1) == if (backoff_delay_ms(cfg, n) * cfg.multiplier_permille) / 1000
            <= cfg.max_interval_ms {
            (backoff_delay_ms(cfg, n) * cfg.multiplier_permille) / 1000
        } else {
            cfg.max_interval_ms as int
        },
{
    let g = grown_interval_ms(cfg, n);
    let m = cfg.multiplier_permille as nat;
    let mx = cfg.max_interval_ms as nat;
    if g <= mx {
        assert(backoff_delay_ms(cfg, n) == g);
    } else {
        assert(backoff_delay_ms(cfg, n) == mx);
        lemma_grow_step_ge(mx, m);
        lemma_grow_step_ge(g, m);
        lemma_mul_inequality(mx as int, g as int, m as int);
        lemma_div_is_ordered((mx * m) as int, (g * m) as int, 1000);
        assert(grown_interval_ms(cfg, n + 1) == (g * m) / 1000);
        assert(mx <= (mx * m) / 1000 && (mx * m) / 1000 <= (g * m) / 1000);
    }
}

/// Computes the unjittered backoff delay for the retry after failure
/// number `n` (counting from 0): `initial * multiplier^n`, capped at the
/// maximum interval.
pub fn backoff_ms(cfg: &RetryConfig, n: u32) -> (r: u64)
    requires
        cfg.wf(),
    ensures
        r == backoff_delay_ms(*cfg, n as nat),
        r <= cfg.max_interval_ms,
{
    let mut cur: u64 = cfg.initial_interval_ms;
    let mut i: u32 = 0;
    while i < n
        invariant
            cfg.wf(),
            i <= n,
            cur == backoff_delay_ms(*cfg, i as nat),
            cur <= cfg.max_interval_ms,
        decreases n - i,
    {
        proof {
            lemma_clamped_step(*cfg, i as nat);
            lemma_mul_upper_bound(
                cur as int,
                MAX_INTERVAL_CEILING_MS as int,
                cfg.multiplier_permille as int,
                MAX_MULTIPLIER_PERMILLE as int,
            );
        }
        let grown: u64 = (cur * cfg.multiplier_permille) / 1000;
        cur = if grown <= cfg.max_interval_ms {
            grown
        } else {
            cfg.max_interval_ms
        };
        i = i + 1;
    }
    cur
}

/// Relies on `rand::random_range` over an inclusive `u64` range: the
/// sample lies inside the range, and the range is non-empty so the call
/// does not panic. Nothing more is assumed of the sample.
#[verifier::external_body]
fn random_in_range(lo: u64, hi: u64) -> (r: u64)
    requires
        lo <= hi,
    ensures
        lo <= r <= hi,
{
    rand::random_range(lo..=hi)
}

/// Applies the configured jitter to an unjittered delay: the delay is
/// multiplied by a uniform random factor in
/// `[1000 - jitter, 1000 + jitter]` permille, then capped at the maximum
/// interval. With jitter zero the delay is returned unchanged.
pub fn jittered_delay_ms(cfg: &RetryConfig, base_ms: u64) -> (r: u64)
    requires
        cfg.wf(),
        base_ms <= cfg.max_interval_ms,
    ensures
        r <= cfg.max_interval_ms,
        base_ms * (1000 - cfg.jitter_permille) / 1000 <= r,
        r <= base_ms * (1000 + cfg.jitter_permille) / 1000,
        cfg.jitter_permille == 0 ==> r == base_ms,
{
    let j = cfg.jitter_permille;
    let factor = random_in_range(1000 - j, 1000 + j);
    proof {
        lemma_mul_upper_bound(base_ms as int, MAX_INTERVAL_CEILING_MS as int, factor as int, 1999);
        lemma_mul_inequality((1000 - j) as int, factor as int, base_ms as int);
        lemma_mul_inequality(factor as int, (1000 + j) as int, base_ms as int);
        assert(base_ms * (1000 - j) == (1000 - j) * base_ms) by (nonlinear_arith);
        assert(base_ms * factor == factor * base_ms) by (nonlinear_arith);
        assert(base_ms * (1000 + j) == (1000 + j) * base_ms) by (nonlinear_arith);
        lemma_div_is_ordered((base_ms * (1000 - j)) as int, (base_ms * factor) as int, 1000);
        lemma_div_is_ordered((base_ms * factor) as int, (base_ms * (1000 + j)) as int, 1000);
        // The lower bound survives the cap: it never exceeds the maximum.
        lemma_mul_inequality((1000 - j) as int, 1000, base_ms as int);
        lemma_div_is_ordered((base_ms * (1000 - j)) as int, (base_ms * 1000) as int, 1000);
        assert((base_ms * 1000) / 1000 == base_ms) by (nonlinear_arith);
    }
    let scaled: u64 = (base_ms * factor) / 1000;
    if scaled <= cfg.max_interval_ms {
        scaled
    } else {
        cfg.max_interval_ms
    }
}

/// A decision of the retry policy after one failed attempt.
#[derive(Clone, Copy, Debug, PartialEq, Eq, Structural)]
pub enum RetryDecision {
    /// Wait `delay_ms`, then try again.
    Retry { delay_ms: u64 },
    /// Surface the failure to the caller as terminal.
    Propagate,
}

/// Addition on `u64` that stops at the largest value instead of wrapping.
pub open spec fn spec_sat_add_u64(a: u64, b: u64) -> u64 {
    if a + b <= u64::MAX {
        (a + b) as u64
    } else {
        u64::MAX
    }
}

/// Whether the retry budget still allows another attempt, once
/// `failed_attempts` attempts (counting the one just observed) have
/// failed with `elapsed_ms` already spent waiting: the code is
/// retryable, the attempt ceiling is not yet reached, and the next
/// unjittered delay still fits under the elapsed-time ceiling, if one is
/// configured.
pub open spec fn spec_retry_allowed(
    cfg: RetryConfig,
    failed_attempts: nat,
    elapsed_ms: nat,
    code: StatusCode,
) -> bool {
    &&& spec_retryable(code)
    &&& 1 <= failed_attempts < cfg.max_attempts
    &&& match cfg.max_elapsed_ms {
        Option::Some(mx) => elapsed_ms + backoff_delay_ms(
            cfg,
            (failed_attempts - 1) as nat,
        ) <= mx,
        Option::None => true,
    }
}

/// Call-scoped retry state: how many attempts of the current call have
/// failed and how long the call has waited between them so far. A fresh
/// state is made for every call (see [`RetryGateway::begin_call`]), so
/// concurrent calls never interfere with each other's budgets.
pub struct RetryState {
    /// Failed attempts recorded so far in this call.
    pub attempts_made: u32,
    /// Total backoff delay waited so far in this call, in milliseconds
    /// (saturating at the largest `u64`).
    pub elapsed_ms: u64,
    /// The unjittered delay the next retry would use. Kept in step with
    /// the backoff formula by the state invariant; callers read it only
    /// through [`RetryState::inv`].
    pub next_interval_ms: u64,
}

impl RetryState {
    /// The state invariant: the stored next interval is exactly the
    /// backoff formula at the current attempt count.
    pub open spec fn inv(self, cfg: RetryConfig) -> bool {
        self.next_interval_ms == backoff_delay_ms(cfg, self.attempts_made as nat)
    }

    /// A fresh state: no attempt has failed, nothing has been waited.
    pub fn new(cfg: &RetryConfig) -> (st: RetryState)
        requires
            cfg.wf(),
        ensures
            st.inv(*cfg),
            st.attempts_made == 0,
            st.elapsed_ms == 0,
    {
        RetryState { attempts_made: 0, elapsed_ms: 0, next_interval_ms: cfg.initial_interval_ms }
    }

    /// Records one failed attempt and decides: retry after a jittered
    /// backoff delay, or propagate the failure as terminal.
    ///
    /// The decision is `Retry` exactly when the budget allows another
    /// attempt ([`spec_retry_allowed`]); the delay then lies within the
    /// jitter band around the unjittered backoff delay and never exceeds
    /// the configured maximum interval.
    pub fn on_failure(&mut self, cfg: &RetryConfig, code: StatusCode) -> (d: RetryDecision)
        requires
            cfg.wf(),
            old(self).inv(*cfg),
            old(self).attempts_made < u32::MAX,
        ensures
            final(self).inv(*cfg),
            final(self).attempts_made == old(self).attempts_made + 1,
            (d is Retry) <==> spec_retry_allowed(
                *cfg,
                (old(self).attempts_made + 1) as nat,
                old(self).elapsed_ms as nat,
                code,
            ),
            match d {
                RetryDecision::Retry { delay_ms } => {
                    &&& delay_ms <= cfg.max_interval_ms
                    &&& backoff_delay_ms(*cfg, old(self).attempts_made as nat) * (1000
                        - cfg.jitter_permille) / 1000 <= delay_ms
                    &&& delay_ms <= backoff_delay_ms(*cfg, old(self).attempts_made as nat) * (1000
                        + cfg.jitter_permille) / 1000
                    &&& cfg.jitter_permille == 0 ==> delay_ms == backoff_delay_ms(
                        *cfg,
                        old(self).attempts_made as nat,
                    )
                    &&& final(self).elapsed_ms == spec_sat_add_u64(old(self).elapsed_ms, delay_ms)
                },
                RetryDecision::Propagate => final(self).elapsed_ms == old(self).elapsed_ms,
            },
    {
        let base = self.next_interval_ms;
        proof {
            lemma_backoff_bounded_and_monotone(
                *cfg,
                self.attempts_made as nat,
                self.attempts_made as nat,
            );
        }
        self.attempts_made = self.attempts_made + 1;
        let allowed = if !is_retryable(code) {
            false
        } else if !(self.attempts_made < cfg.max_attempts) {
            false
        } else {
            match cfg.max_elapsed_ms {
                Option::Some(mx) => self.elapsed_ms <= mx && base <= mx - self.elapsed_ms,
                Option::None => true,
            }
        };
        proof {
            lemma_clamped_step(*cfg, (self.attempts_made - 1) as nat);
            lemma_mul_upper_bound(
                base as int,
                MAX_INTERVAL_CEILING_MS as int,
                cfg.multiplier_permille as int,
                MAX_MULTIPLIER_PERMILLE as int,
            );
        }
        let grown_base: u64 = (base * cfg.multiplier_permille) / 1000;
        self.next_interval_ms = if grown_base <= cfg.max_interval_ms {
            grown_base
        } else {
            cfg.max_interval_ms
        };
        if allowed {
            let delay = jittered_delay_ms(cfg, base);
            self.elapsed_ms = if self.elapsed_ms <= u64::MAX - delay {
                self.elapsed_ms + delay
            } else {
                u64::MAX
            };
            RetryDecision::Retry { delay_ms: delay }
        } else {
            RetryDecision::Propagate
        }
    }
}

/// Law: a retryable failure observed on the first attempt of a call whose
/// budget is sufficient — at least two attempts allowed, and any
/// elapsed-time ceiling admitting the first delay — is retried, so the
/// gateway issues at least a second attempt; a non-retryable failure is
/// never retried, whatever the state of the budget — the gateway issues
/// exactly one attempt.
pub proof fn lemma_retry_classification(cfg: RetryConfig, code: StatusCode)
    requires
        cfg.wf(),
        cfg.max_attempts >= 2,
        match cfg.max_elapsed_ms {
            Option::Some(mx) => backoff_delay_ms(cfg, 0) <= mx,
            Option::None => true,
        },
    ensures
        spec_retryable(code) ==> spec_retry_allowed(cfg, 1, 0, code),
        !spec_retryable(code) ==> forall|n: nat, e: nat| !spec_retry_allowed(cfg, n, e, code),
{
}

/// Decorator around the remote gateway: one immutable retry policy,
/// shared by every call; each call carries its own fresh [`RetryState`].
/// The host makes the RPC, hands each failure's status code to
/// [`RetryGateway::on_failure`], waits the returned delay, and tries
/// again until the decision is `Propagate` or the call succeeds.
pub struct RetryGateway {
    /// The retry policy applied uniformly to every RPC method.
    pub config: RetryConfig,
}

impl RetryGateway {
    pub fn new(config: RetryConfig) -> (r: RetryGateway)
        requires
            config.wf(),
        ensures
            r.config == config,
    {
        RetryGateway { config }
    }

    /// Opens the call-scoped retry state for one RPC invocation.
    pub fn begin_call(&self) -> (st: RetryState)
        requires
            self.config.wf(),
        ensures
            st.inv(self.config),
            st.attempts_made == 0,
            st.elapsed_ms == 0,
    {
        RetryState::new(&self.config)
    }

    /// Records one failed attempt of the call `st` belongs to and decides
    /// between retrying and propagating; see [`RetryState::on_failure`].
    pub fn on_failure(&self, st: &mut RetryState, code: StatusCode) -> (d: RetryDecision)
        requires
            self.config.wf(),
            old(st).inv(self.config),
            old(st).attempts_made < u32::MAX,
        ensures
            final(st).inv(self.config),
            final(st).attempts_made == old(st).attempts_made + 1,
            (d is Retry) <==> spec_retry_allowed(
                self.config,
                (old(st).attempts_made + 1) as nat,
                old(st).elapsed_ms as nat,
                code,
            ),
            match d {
                RetryDecision::Retry { delay_ms } => {
                    &&& delay_ms <= self.config.max_interval_ms
                    &&& self.config.jitter_permille == 0 ==> delay_ms == backoff_delay_ms(
                        self.config,
                        old(st).attempts_made as nat,
                    )
                    &&& final(st).elapsed_ms == spec_sat_add_u64(old(st).elapsed_ms, delay_ms)
                },
                RetryDecision::Propagate => final(st).elapsed_ms == old(st).elapsed_ms,
            },
    {
        st.on_failure(&self.config, code)
    }
}

} // verus!
