//! An adaptive spin-wait primitive.
//!
//! A [`SpinWait`] helps a thread poll for a condition that is expected to
//! become true soon, without paying for a full blocking wait. It keeps an
//! iteration counter and a yield threshold, and on every step decides
//! between a CPU spin hint, an exponentially growing sleep, and yielding
//! the rest of the time slice to the scheduler. The decision is returned
//! as a [`SpinAction`]; the spin hint is executed on the spot, while the
//! yield and the timed sleep are scheduler calls that a caller carries out.

use vstd::prelude::*;

verus! {

/// What one spin step decided to do.
///
/// The step that produced the action has already executed the CPU spin
/// hint for [`SpinAction::Spin`]; the other two variants name a scheduler
/// call for the caller to make.
#[derive(Clone, Copy, Debug, PartialEq, Eq, Structural)]
pub enum SpinAction {
    /// A CPU spin hint was executed; continue polling immediately.
    Spin,
    /// Relinquish the rest of the current time slice to the scheduler.
    Yield,
    /// Sleep for the given number of nanoseconds.
    Sleep(u64),
}

/// The largest exponent used for the backoff sleep, capping the sleep at
/// roughly one second. Without a cap the doubling would ask for absurd
/// durations once the counter passes a few dozen iterations.
pub const MAX_BACKOFF_SHIFT: u32 = 30;

/// The exponent of the backoff sleep for a given post-increment counter
/// value: the counter itself, capped at [`MAX_BACKOFF_SHIFT`].
pub open spec fn backoff_shift(count: u32) -> u32 {
    if count < MAX_BACKOFF_SHIFT {
        count
    } else {
        MAX_BACKOFF_SHIFT
    }
}

/// The backoff sleep duration in nanoseconds: `2^count`, with the
/// exponent capped at [`MAX_BACKOFF_SHIFT`].
pub open spec fn backoff_nanos(count: u32) -> u64 {
    1u64 << (backoff_shift(count) as u64)
}

/// The wait policy: what a spin step does, as a function of the
/// post-increment counter value, the yield threshold, and the number of
/// logical processors of the host at the moment of the step.
///
/// A host with a single processor always yields: busy-waiting there can
/// never let the awaited condition make progress. On a larger host the
/// step spins for the first three iterations, sleeps with exponential
/// backoff up to the threshold, and yields from the threshold on.
pub open spec fn spin_policy(count: u32, yield_threshold: u32, cpus: usize) -> SpinAction {
    if count >= yield_threshold || cpus == 1 {
        SpinAction::Yield
    } else if count < 4 {
        SpinAction::Spin
    } else {
        SpinAction::Sleep(backoff_nanos(count))
    }
}

/// A lightweight wait primitive that spins for short waits before
/// backing off and yielding.
///
/// It holds the number of spin iterations performed so far and the
/// threshold from which every step yields. A single thread owns and
/// drives an instance through one wait episode; [`SpinWait::reset`]
/// starts a fresh episode on the same instance.
#[derive(Debug)]
pub struct SpinWait {
    /// The number of spin iterations performed.
    count: u32,
    /// The threshold after which spinning yields to the scheduler.
    yield_threshold: u32,
}

impl SpinWait {
    /// The number of spin iterations performed so far.
    pub closed spec fn count_spec(&self) -> u32 {
        self.count
    }

    /// The threshold from which every spin step yields.
    pub closed spec fn yield_threshold_spec(&self) -> u32 {
        self.yield_threshold
    }

    /// Whether the next spin step is bound to yield by the counter alone.
    pub open spec fn next_spin_will_yield_spec(&self) -> bool {
        self.count_spec() >= self.yield_threshold_spec()
    }

    /// The counter value after one more spin step: one more than the
    /// current value, saturating at the largest counter value so that a
    /// very long episode never wraps back into the spinning tiers.
    pub open spec fn stepped_count(&self) -> u32 {
        if self.count_spec() == u32::MAX {
            u32::MAX
        } else {
            (self.count_spec() + 1) as u32
        }
    }

    /// Creates a spinner with a zero counter and a yield threshold of 10.
    pub fn new() -> (s: Self)
        ensures
            s.count_spec() == 0,
            s.yield_threshold_spec() == 10,
    {
        SpinWait { count: 0, yield_threshold: 10 }
    }

    /// Creates a spinner with a zero counter and the given yield
    /// threshold. A threshold of 0 is legal: every step then yields.
    pub fn with_threshold(yield_threshold: u32) -> (s: Self)
        ensures
            s.count_spec() == 0,
            s.yield_threshold_spec() == yield_threshold,
    {
        SpinWait { count: 0, yield_threshold }
    }

    /// Returns the number of spin iterations performed.
    pub fn count(&self) -> (c: u32)
        ensures
            c == self.count_spec(),
    {
        self.count
    }

    /// Indicates whether the counter has reached the yield threshold, so
    /// that the next spin step yields whatever the host looks like.
    ///
    /// The processor count is deliberately left out: a single-processor
    /// host yields on every step, and this predicate does not report that.
    pub fn next_spin_will_yield(&self) -> (r: bool)
        ensures
            r == self.next_spin_will_yield_spec(),
    {
        self.count >= self.yield_threshold
    }

    /// Resets the spin iteration counter to zero, beginning a fresh wait
    /// episode. The threshold is kept.
    pub fn reset(&mut self)
        ensures
            final(self).count_spec() == 0,
            final(self).yield_threshold_spec() == old(self).yield_threshold_spec(),
    {
        self.count = 0;
    }

    /// Performs one spin step against a host with the given number of
    /// logical processors: advances the counter by one (saturating) and
    /// decides the action by [`spin_policy`] on the post-increment value.
    ///
    /// When the decision is [`SpinAction::Spin`] the CPU spin hint is
    /// executed here; the other actions are returned for the caller to
    /// carry out. [`SpinWait::spin_once`] supplies the processor count of
    /// the running host.
    pub fn spin_once_with_cpus(&mut self, cpus: usize) -> (action: SpinAction)
        ensures
            final(self).count_spec() == old(self).stepped_count(),
            final(self).yield_threshold_spec() == old(self).yield_threshold_spec(),
            action == spin_policy(
                final(self).count_spec(),
                final(self).yield_threshold_spec(),
                cpus,
            ),
    {
        self.count = if self.count == u32::MAX {
            u32::MAX
        } else {
            self.count + 1
        };

        if self.count >= self.yield_threshold || cpus == 1 {
            SpinAction::Yield
        } else if self.count < 4 {
            cpu_spin_hint();
            SpinAction::Spin
        } else {
            let shift: u32 = if self.count < MAX_BACKOFF_SHIFT {
                self.count
            } else {
                MAX_BACKOFF_SHIFT
            };
            SpinAction::Sleep(1u64 << (shift as u64))
        }
    }

    /// Performs a single spin step on the running host.
    ///
    /// The counter advances by one (saturating), the number of logical
    /// processors is read at this moment, and the action is decided by
    /// [`spin_policy`] on the post-increment counter value. The processor
    /// count is a property of the host, so the contract promises the
    /// policy's verdict for some processor count of at least one; for a
    /// fixed count see [`SpinWait::spin_once_with_cpus`].
    pub fn spin_once(&mut self) -> (action: SpinAction)
        ensures
            final(self).count_spec() == old(self).stepped_count(),
            final(self).yield_threshold_spec() == old(self).yield_threshold_spec(),
            exists|cpus: usize|
                cpus >= 1 && action == spin_policy(
                    final(self).count_spec(),
                    final(self).yield_threshold_spec(),
                    cpus,
                ),
    {
        let cpus = logical_processor_count();
        self.spin_once_with_cpus(cpus)
    }

    /// One round of a polling loop that waits for `condition`: evaluates
    /// the condition once and, if it returned `false`, performs one spin
    /// step on the running host.
    ///
    /// Returns `None` when the condition returned `true` — the wait is
    /// over and the spinner is untouched — and otherwise `Some` of the
    /// action the step decided on, for the caller to carry out before
    /// the next round. A loop that drives this until it returns `None`
    /// re-evaluates the condition after every single step and stops
    /// exactly when the condition first returns `true`; it is unbounded,
    /// so a caller that needs a bounded wait folds its own deadline into
    /// the condition.
    pub fn poll_once<F: Fn() -> bool>(&mut self, condition: &F) -> (step: Option<SpinAction>)
        requires
            call_requires(*condition, ()),
        ensures
            step is None ==> call_ensures(*condition, (), true)
                && *final(self) == *old(self),
            step is Some ==> call_ensures(*condition, (), false)
                && final(self).count_spec() == old(self).stepped_count()
                && final(self).yield_threshold_spec() == old(self).yield_threshold_spec()
                && exists|cpus: usize|
                    cpus >= 1 && step->Some_0 == spin_policy(
                        final(self).count_spec(),
                        final(self).yield_threshold_spec(),
                        cpus,
                    ),
    {
        let done = condition();
        if done {
            None
        } else {
            Some(self.spin_once())
        }
    }
}

impl Default for SpinWait {
    /// Same as [`SpinWait::new`]: a zero counter and a yield threshold
    /// of 10.
    fn default() -> (s: Self)
        ensures
            s.count_spec() == 0,
            s.yield_threshold_spec() == 10,
    {
        Self::new()
    }
}

/// A freshly constructed spinner reports zero iterations and, whenever
/// its threshold is positive, does not announce a yield.
pub proof fn lemma_fresh_spinner(s: SpinWait)
    requires
        s.count_spec() == 0,
        s.yield_threshold_spec() > 0,
    ensures
        !s.next_spin_will_yield_spec(),
{
}

/// Each spin step advances the counter by exactly one, as long as the
/// counter has not saturated.
pub proof fn lemma_step_increments_count(s: SpinWait)
    requires
        s.count_spec() < u32::MAX,
    ensures
        s.stepped_count() == s.count_spec() + 1,
{
}

/// On a host with a single logical processor, every spin step yields,
/// whatever the counter and the threshold.
pub proof fn lemma_single_processor_always_yields(count: u32, yield_threshold: u32)
    ensures
        spin_policy(count, yield_threshold, 1) == SpinAction::Yield,
{
}

/// On a host with more than one logical processor the policy is tiered:
/// a spin hint below four iterations, an exponential-backoff sleep from
/// four up to the threshold, and a yield from the threshold on.
pub proof fn lemma_multi_processor_tiers(count: u32, yield_threshold: u32, cpus: usize)
    requires
        cpus >= 2,
    ensures
        count < 4 && count < yield_threshold
            ==> spin_policy(count, yield_threshold, cpus) == SpinAction::Spin,
        4 <= count < yield_threshold
            ==> spin_policy(count, yield_threshold, cpus)
                == SpinAction::Sleep(backoff_nanos(count)),
        count >= yield_threshold
            ==> spin_policy(count, yield_threshold, cpus) == SpinAction::Yield,
{
}

/// Once the counter has reached the threshold, the announced yield is
/// kept: the next spin step yields on every host.
pub proof fn lemma_announced_yield_is_kept(s: SpinWait, cpus: usize)
    requires
        s.next_spin_will_yield_spec(),
    ensures
        spin_policy(s.stepped_count(), s.yield_threshold_spec(), cpus) == SpinAction::Yield,
{
}

/// The backoff sleep duration never decreases as the counter grows.
pub proof fn lemma_backoff_monotonic(c1: u32, c2: u32)
    requires
        c1 <= c2,
    ensures
        backoff_nanos(c1) <= backoff_nanos(c2),
{
    let s1 = backoff_shift(c1) as u64;
    let s2 = backoff_shift(c2) as u64;
    assert(s1 <= s2 && s2 <= 30);
    assert(forall|a: u64, b: u64|
        a <= b && b <= 30 ==> (1u64 << a) <= (1u64 << b)) by (bit_vector);
}

/// With a yield threshold of zero, every spin step yields on every host.
pub proof fn lemma_zero_threshold_always_yields(count: u32, cpus: usize)
    ensures
        spin_policy(count, 0, cpus) == SpinAction::Yield,
{
}

/// Relies on `num_cpus::get`: the number of logical processors available
/// to the process, documented to always be at least 1.
#[verifier::external_body]
fn logical_processor_count() -> (n: usize)
    ensures
        n >= 1,
{
    num_cpus::get()
}

/// Relies on `std::hint::spin_loop`: emits the architecture's spin-wait
/// hint, a non-suspending instruction with no observable effect.
#[verifier::external_body]
fn cpu_spin_hint() {
    std::hint::spin_loop()
}

} // verus!
