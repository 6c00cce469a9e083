use vstd::prelude::*;

verus! {

/// Delay before the first reconnect attempt after a success, in seconds.
pub const INITIAL_DELAY_SECS: u64 = 1;

/// Largest delay between reconnect attempts, in seconds.
pub const MAX_DELAY_SECS: u64 = 60;

/// The delay that follows `d`: doubled, capped at the maximum.
pub open spec fn next_delay(d: nat) -> nat {
    if 2 * d < MAX_DELAY_SECS {
        2 * d
    } else {
        MAX_DELAY_SECS as nat
    }
}

/// The delay that is slept after `n` consecutive failures since the last
/// success (or since the start).
pub open spec fn delay_after_failures(n: nat) -> nat
    decreases n,
{
    if n == 0 {
        INITIAL_DELAY_SECS as nat
    } else {
        next_delay(delay_after_failures((n - 1) as nat))
    }
}

pub open spec fn pow2(n: nat) -> nat
    decreases n,
{
    if n == 0 {
        1
    } else {
        2 * pow2((n - 1) as nat)
    }
}

pub open spec fn min_nat(a: nat, b: nat) -> nat {
    if a < b {
        a
    } else {
        b
    }
}

/// Exponential reconnect backoff: 1 s, 2 s, 4 s, ... capped at 60 s, and back
/// to 1 s after a success.
pub struct Backoff {
    delay_secs: u64,
    failures: Ghost<nat>,
}

impl Backoff {
    /// Consecutive failures since the last success (or since creation).
    pub closed spec fn spec_failures(self) -> nat {
        self.failures@
    }

    pub closed spec fn spec_delay(self) -> nat {
        self.delay_secs as nat
    }

    pub closed spec fn wf(self) -> bool {
        self.delay_secs as nat == delay_after_failures(self.failures@)
    }

    pub fn new() -> (r: Backoff)
        ensures
            r.wf(),
            r.spec_failures() == 0,
            r.spec_delay() == INITIAL_DELAY_SECS,
    {
        Backoff { delay_secs: INITIAL_DELAY_SECS, failures: Ghost(0) }
    }

    /// The delay that the next failure sleeps, in seconds.
    pub fn delay_secs(&self) -> (r: u64)
        ensures
            r == self.spec_delay(),
            self.wf() ==> r == delay_after_failures(self.spec_failures()),
    {
        self.delay_secs
    }

    /// Records a failed attempt: returns the delay to sleep now, and moves the
    /// delay for the following failure to double that, capped at 60 s. The
    /// delay slept after `n` earlier consecutive failures is `min(2^n, 60)`.
    pub fn on_failure(&mut self) -> (slept: u64)
        requires
            old(self).wf(),
        ensures
            final(self).wf(),
            final(self).spec_failures() == old(self).spec_failures() + 1,
            slept == old(self).spec_delay(),
            slept == delay_after_failures(old(self).spec_failures()),
            slept == min_nat(pow2(old(self).spec_failures()), MAX_DELAY_SECS as nat),
            final(self).spec_delay() == next_delay(old(self).spec_delay()),
    {
        proof {
            lemma_backoff_sequence(self.failures@);
        }
        let slept = self.delay_secs;
        if slept < MAX_DELAY_SECS / 2 {
            self.delay_secs = slept * 2;
        } else {
            self.delay_secs = MAX_DELAY_SECS;
        }
        self.failures = Ghost(self.failures@ + 1);
        slept
    }

    /// Records a successful connection: the next failure sleeps 1 s again.
    pub fn on_success(&mut self)
        ensures
            final(self).wf(),
            final(self).spec_failures() == 0,
            final(self).spec_delay() == INITIAL_DELAY_SECS,
    {
        self.delay_secs = INITIAL_DELAY_SECS;
        self.failures = Ghost(0);
    }
}

/// The backoff delays form the sequence 1, 2, 4, ... capped at 60: after `n`
/// consecutive failures the delay is `min(2^n, 60)` seconds.
pub proof fn lemma_backoff_sequence(n: nat)
    ensures
        delay_after_failures(n) == min_nat(pow2(n), MAX_DELAY_SECS as nat),
    decreases n,
{
    if n > 0 {
        lemma_backoff_sequence((n - 1) as nat);
        lemma_pow2_positive((n - 1) as nat);
    }
}

proof fn lemma_pow2_positive(n: nat)
    ensures
        pow2(n) >= 1,
    decreases n,
{
    if n > 0 {
        lemma_pow2_positive((n - 1) as nat);
    }
}

} // verus!
