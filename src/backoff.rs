use vstd::prelude::*;
use rand::Rng;

verus! {

/// `b` raised to the power `n`.
pub open spec fn pow(b: nat, n: nat) -> nat
    decreases n,
{
    if n == 0 {
        1
    } else {
        b * pow(b, (n - 1) as nat)
    }
}

/// A policy that says how long to wait before the next attempt of a
/// request; delays are in milliseconds.
pub trait Backoff {
    /// Whether the delay after `retries` failed attempts fits in a `u64`.
    spec fn delay_fits(&self, retries: u32) -> bool;

    /// Whether `delay` is one that the policy may choose after `retries`
    /// failed attempts.
    spec fn allows(&self, retries: u32, delay: u64) -> bool;

    fn fits(&self, retries: u32) -> (r: bool)
        ensures
            r == self.delay_fits(retries),
    ;

    fn next_delay(&self, retries: u32) -> (delay: u64)
        requires
            self.delay_fits(retries),
        ensures
            self.allows(retries, delay),
    ;
}

/// The delay `b` chooses after `retries` failed attempts, or `None` where
/// that delay does not fit in a `u64`.
pub fn checked_delay<B: Backoff + ?Sized>(b: &B, retries: u32) -> (r: Option<u64>)
    ensures
        match r {
            Some(d) => b.delay_fits(retries) && b.allows(retries, d),
            None => !b.delay_fits(retries),
        },
{
    if b.fits(retries) {
        Some(b.next_delay(retries))
    } else {
        None
    }
}

/// Waits `base` plus a delay drawn uniformly from `[0, jitter)`, in
/// milliseconds.
pub struct ConstantBackoff {
    pub base: u64,
    pub jitter: u64,
}

/// Relies on rand's `Rng::gen_range` over `thread_rng`: a value of
/// `0..bound`, which must not be empty.
#[verifier::external_body]
fn random_below(bound: u64) -> (r: u64)
    requires
        bound > 0,
    ensures
        r < bound,
{
    rand::thread_rng().gen_range(0..bound)
}

impl Backoff for ConstantBackoff {
    open spec fn delay_fits(&self, retries: u32) -> bool {
        self.base + self.jitter <= u64::MAX + 1
    }

    open spec fn allows(&self, retries: u32, delay: u64) -> bool {
        if self.jitter == 0 {
            delay == self.base
        } else {
            self.base <= delay < self.base + self.jitter
        }
    }

    fn fits(&self, retries: u32) -> (r: bool) {
        self.jitter == 0 || self.base <= u64::MAX - (self.jitter - 1)
    }

    fn next_delay(&self, retries: u32) -> (delay: u64) {
        if self.jitter == 0 {
            self.base
        } else {
            self.base + random_below(self.jitter)
        }
    }
}

/// Waits `base * multiplier^retries`, plus `jitter` as a fixed addition, in
/// milliseconds. The multiplier is a whole factor, and the delay is never
/// clamped: where it would not fit in a `u64`, `fits` says so.
pub struct ExponentialBackoff {
    pub base: u64,
    pub multiplier: u64,
    pub jitter: u64,
}

impl ExponentialBackoff {
    pub open spec fn spec_delay(&self, retries: u32) -> nat {
        (self.base as nat) * pow(self.multiplier as nat, retries as nat) + (self.jitter as nat)
    }
}

proof fn lemma_pow_step(b: nat, n: nat)
    ensures
        pow(b, n + 1) == b * pow(b, n),
{
}

proof fn lemma_pow_zero(k: nat)
    ensures
        k >= 1 ==> pow(0, k) == 0,
{
    if k >= 1 {
        assert(pow(0, k) == 0 * pow(0, (k - 1) as nat));
    }
}

proof fn lemma_grows(base: nat, m: nat, k: nat, n: nat)
    requires
        k <= n,
        m >= 1,
    ensures
        base * pow(m, k) <= base * pow(m, n),
    decreases n - k,
{
    if k < n {
        lemma_grows(base, m, k + 1, n);
        lemma_pow_step(m, k);
        let p = pow(m, k);
        assert(base * p <= base * (m * p)) by (nonlinear_arith)
            requires
                m >= 1,
        ;
        assert(base * (m * p) == base * pow(m, k + 1)) by (nonlinear_arith)
            requires
                pow(m, k + 1) == m * p,
        ;
    }
}

impl Backoff for ExponentialBackoff {
    open spec fn delay_fits(&self, retries: u32) -> bool {
        self.spec_delay(retries) <= u64::MAX
    }

    open spec fn allows(&self, retries: u32, delay: u64) -> bool {
        delay == self.spec_delay(retries)
    }

    fn fits(&self, retries: u32) -> (r: bool) {
        let mut d: u64 = self.base;
        let mut k: u32 = 0;
        assert(pow(self.multiplier as nat, 0) == 1);
        while k < retries
            invariant
                k <= retries,
                d == self.base * pow(self.multiplier as nat, k as nat),
            decreases retries - k,
        {
            proof {
                lemma_pow_step(self.multiplier as nat, k as nat);
            }
            let ghost p = pow(self.multiplier as nat, k as nat);
            assert(self.base * pow(self.multiplier as nat, (k + 1) as nat) == d * self.multiplier)
                by (nonlinear_arith)
                requires
                    d == self.base * p,
                    pow(self.multiplier as nat, (k + 1) as nat) == self.multiplier * p,
            ;
            match d.checked_mul(self.multiplier) {
                Some(v) => d = v,
                None => {
                    proof {
                        lemma_too_big(self.base, self.multiplier as nat, (k + 1) as nat,
                            retries as nat);
                    }
                    return false;
                },
            }
            k = k + 1;
        }
        d.checked_add(self.jitter).is_some()
    }

    fn next_delay(&self, retries: u32) -> (delay: u64) {
        let mut d: u64 = self.base;
        let mut k: u32 = 0;
        assert(pow(self.multiplier as nat, 0) == 1);
        while k < retries
            invariant
                self.delay_fits(retries),
                k <= retries,
                d == self.base * pow(self.multiplier as nat, k as nat),
            decreases retries - k,
        {
            proof {
                lemma_pow_step(self.multiplier as nat, k as nat);
                if self.multiplier >= 1 {
                    lemma_grows(self.base as nat, self.multiplier as nat, (k + 1) as nat,
                        retries as nat);
                } else {
                    lemma_pow_zero((k + 1) as nat);
                    let grown = pow(self.multiplier as nat, (k + 1) as nat);
                    assert(self.base * grown == 0) by (nonlinear_arith)
                        requires
                            grown == 0,
                    ;
                }
            }
            let ghost p = pow(self.multiplier as nat, k as nat);
            assert(self.base * pow(self.multiplier as nat, (k + 1) as nat) == d * self.multiplier)
                by (nonlinear_arith)
                requires
                    d == self.base * p,
                    pow(self.multiplier as nat, (k + 1) as nat) == self.multiplier * p,
            ;
            d = d * self.multiplier;
            k = k + 1;
        }
        d + self.jitter
    }
}

/// Where the product overflows at step `k`, the delay for `n >= k` does too.
proof fn lemma_too_big(base: u64, m: nat, k: nat, n: nat)
    requires
        k <= n,
        base * pow(m, k) > u64::MAX,
    ensures
        base * pow(m, n) > u64::MAX,
{
    if m >= 1 {
        lemma_grows(base as nat, m, k, n);
    } else {
        lemma_pow_zero(k);
        let p = pow(m, k);
        assert(pow(m, 0) == 1);
        assert(base * p <= u64::MAX) by (nonlinear_arith)
            requires
                k >= 1 ==> p == 0,
                k == 0 ==> p == 1,
                base <= u64::MAX,
        ;
    }
}

/// An exponential policy never waits less than `base * multiplier^retries`:
/// the jitter only adds.
pub proof fn lemma_exponential_at_least(b: ExponentialBackoff, retries: u32, delay: u64)
    requires
        b.allows(retries, delay),
    ensures
        delay >= b.base * pow(b.multiplier as nat, retries as nat),
{
}

} // verus!
