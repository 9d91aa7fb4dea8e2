//! Exponential backoff between attempts of an operation retried forever.
use vstd::arithmetic::power::{lemma_pow_positive, pow};
use vstd::prelude::*;

verus! {

/// How the delay between attempts grows.
pub struct BackoffConfig {
    /// Delay before the second attempt, in milliseconds.
    pub init_backoff_ms: u64,
    /// Ceiling of the delay, in milliseconds.
    pub max_backoff_ms: u64,
    /// Factor by which the delay grows after each failed attempt.
    pub base: u64,
}

impl BackoffConfig {
    /// The policy in force unless one is given: 100 ms, growing threefold,
    /// up to 500 s.
    pub open spec fn spec_default() -> BackoffConfig {
        BackoffConfig { init_backoff_ms: 100, max_backoff_ms: 500_000, base: 3 }
    }
}

impl Default for BackoffConfig {
    fn default() -> (r: Self)
        ensures
            r == BackoffConfig::spec_default(),
    {
        BackoffConfig { init_backoff_ms: 100, max_backoff_ms: 500_000, base: 3 }
    }
}

/// One step of growth: the delay times the base, capped at `max`.
pub open spec fn grown(delay: u64, base: u64, max: u64) -> u64 {
    if delay * base >= max {
        max
    } else {
        (delay * base) as u64
    }
}

/// The delay that follows `failures` failed attempts under `cfg`.
pub open spec fn delay_after(cfg: BackoffConfig, failures: nat) -> u64
    decreases failures,
{
    if failures == 0 {
        if cfg.init_backoff_ms <= cfg.max_backoff_ms {
            cfg.init_backoff_ms
        } else {
            cfg.max_backoff_ms
        }
    } else {
        grown(delay_after(cfg, (failures - 1) as nat), cfg.base, cfg.max_backoff_ms)
    }
}

/// State of one retried operation.
pub struct Backoff {
    config: BackoffConfig,
    next_ms: u64,
    failures: Ghost<nat>,
}

impl Backoff {
    /// The policy that this retry follows.
    pub closed spec fn spec_config(&self) -> BackoffConfig {
        self.config
    }

    /// Failed attempts so far.
    pub closed spec fn spec_failures(&self) -> nat {
        self.failures@
    }

    /// The delay that waits before the next attempt.
    pub closed spec fn spec_next_ms(&self) -> u64 {
        self.next_ms
    }

    /// The next delay is the one that the policy gives after the failures
    /// so far.
    pub closed spec fn inv(&self) -> bool {
        self.next_ms == delay_after(self.config, self.failures@)
    }

    /// A retry that has seen no failure yet.
    pub fn new(config: BackoffConfig) -> (r: Backoff)
        ensures
            r.inv(),
            r.spec_config() == config,
            r.spec_failures() == 0,
    {
        let next_ms = if config.init_backoff_ms <= config.max_backoff_ms {
            config.init_backoff_ms
        } else {
            config.max_backoff_ms
        };
        Backoff { config, next_ms, failures: Ghost(0) }
    }

    /// Records one more failure and returns how long to wait before the
    /// next attempt.
    pub fn next_delay_ms(&mut self) -> (r: u64)
        requires
            old(self).inv(),
        ensures
            final(self).inv(),
            r == delay_after(old(self).spec_config(), old(self).spec_failures()),
            final(self).spec_config() == old(self).spec_config(),
            final(self).spec_failures() == old(self).spec_failures() + 1,
    {
        let r = self.next_ms;
        let max = self.config.max_backoff_ms;
        self.next_ms = match r.checked_mul(self.config.base) {
            Some(p) => if p >= max {
                max
            } else {
                p
            },
            None => max,
        };
        self.failures = Ghost(self.failures@ + 1);
        r
    }
}

/// With a base of at least one the delay never shrinks and never passes
/// the ceiling: after each failure it grows by the base until it reaches
/// the ceiling, and stays there.
pub proof fn lemma_delay_grows_to_ceiling(cfg: BackoffConfig, failures: nat)
    requires
        cfg.base >= 1,
    ensures
        delay_after(cfg, failures) <= cfg.max_backoff_ms,
        delay_after(cfg, failures) <= delay_after(cfg, failures + 1),
        delay_after(cfg, failures + 1) == cfg.max_backoff_ms
            || delay_after(cfg, failures + 1) == delay_after(cfg, failures) * cfg.base,
    decreases failures,
{
    let d = delay_after(cfg, failures);
    if failures > 0 {
        lemma_delay_grows_to_ceiling(cfg, (failures - 1) as nat);
    }
    assert(d * cfg.base >= d) by (nonlinear_arith)
        requires
            cfg.base >= 1,
    ;
}

/// The delay after `failures` failed attempts is the initial delay times
/// the base to the power of `failures`, capped at the ceiling.
pub proof fn lemma_delay_is_exponential(cfg: BackoffConfig, failures: nat)
    requires
        cfg.base >= 1,
        cfg.init_backoff_ms <= cfg.max_backoff_ms,
    ensures
        delay_after(cfg, failures) == if cfg.init_backoff_ms * pow(cfg.base as int, failures)
            >= cfg.max_backoff_ms {
            cfg.max_backoff_ms as int
        } else {
            cfg.init_backoff_ms * pow(cfg.base as int, failures)
        },
    decreases failures,
{
    reveal(pow);
    if failures > 0 {
        let k = (failures - 1) as nat;
        lemma_delay_is_exponential(cfg, k);
        let b = cfg.base as int;
        let i = cfg.init_backoff_ms as int;
        let p = pow(b, k);
        lemma_pow_positive(b, k);
        assert(pow(b, failures) == b * p);
        assert(i * (b * p) == (i * p) * b) by (nonlinear_arith);
        assert(i * p * b >= i * p) by (nonlinear_arith)
            requires
                b >= 1,
                i >= 0,
                p > 0,
        ;
        let m = cfg.max_backoff_ms as int;
        assert(m * b >= m) by (nonlinear_arith)
            requires
                b >= 1,
                m >= 0,
        ;
        let d = delay_after(cfg, k) as int;
        if i * p >= m {
            assert(d == m);
            assert(d * b >= m);
        } else {
            assert(d == i * p);
            assert(d * b == i * pow(b, failures));
        }
    }
}

} // verus!
