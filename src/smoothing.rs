use vstd::prelude::*;

verus! {

/// What one sample of a linear ramp does to the smoothed value.
#[derive(Debug, Clone, Copy, PartialEq, Eq, Structural)]
pub enum RampStep {
    /// No ramp is running: the value stays where it is.
    Hold,
    /// The ramp moves the value by one step.
    Step,
    /// The last sample of the ramp: the value is set to the target exactly.
    Land,
}

/// Length in samples of a ramp of `time_ms` milliseconds at `rate` samples per
/// second: the product rounded to the nearest sample, and at least one.
pub open spec fn ramp_len(time_ms: int, rate: int) -> int {
    let n = (time_ms * rate + 500) / 1000;
    if n < 1 { 1 } else { n }
}

/// What a ramp with `left` samples to go does on its next sample.
pub open spec fn step_of(left: nat) -> RampStep {
    if left == 0 {
        RampStep::Hold
    } else if left == 1 {
        RampStep::Land
    } else {
        RampStep::Step
    }
}

/// What a ramp with `left` samples to go does on each of its next `k` samples.
pub open spec fn steps_of(left: nat, k: nat) -> Seq<RampStep>
    decreases k,
{
    if k == 0 {
        Seq::empty()
    } else {
        seq![step_of(left)] + steps_of(if left == 0 { 0 } else { (left - 1) as nat }, (k - 1) as nat)
    }
}

/// Counts down the samples of a linear ramp.
#[derive(Debug, Clone, Copy)]
pub struct RampCounter {
    pub samples_left: u64,
}

/// Rounds a ramp of `time_ms` milliseconds at `sample_rate` samples per second
/// to whole samples, never fewer than one.
pub fn ramp_samples(time_ms: u32, sample_rate: u32) -> (r: u64)
    ensures
        r as int == ramp_len(time_ms as int, sample_rate as int),
{
    proof {
        assert((time_ms as int) * (sample_rate as int) <= 0xffff_ffff * 0xffff_ffff) by (nonlinear_arith)
            requires
                time_ms as int <= 0xffff_ffff,
                sample_rate as int <= 0xffff_ffff,
                0 <= time_ms as int,
                0 <= sample_rate as int,
        ;
    }
    let product = (time_ms as u64) * (sample_rate as u64);
    let n = (product + 500) / 1000;
    if n < 1 { 1 } else { n }
}

impl RampCounter {
    /// A counter with no ramp running.
    pub fn new() -> (r: Self)
        ensures
            r.samples_left == 0,
    {
        RampCounter { samples_left: 0 }
    }

    /// Starts a ramp of `samples` samples, replacing any ramp in flight.
    pub fn start(&mut self, samples: u64)
        ensures
            final(self).samples_left == samples,
    {
        self.samples_left = samples;
    }

    /// Cancels any ramp in flight.
    pub fn stop(&mut self)
        ensures
            final(self).samples_left == 0,
    {
        self.samples_left = 0;
    }

    /// Advances one sample and says what it does to the value.
    pub fn tick(&mut self) -> (r: RampStep)
        ensures
            r == step_of(old(self).samples_left as nat),
            final(self).samples_left == (if old(self).samples_left == 0 { 0 } else { (old(
                self,
            ).samples_left - 1) as u64 }),
    {
        if self.samples_left == 0 {
            RampStep::Hold
        } else {
            self.samples_left = self.samples_left - 1;
            if self.samples_left == 0 {
                RampStep::Land
            } else {
                RampStep::Step
            }
        }
    }
}

/// A ramp of `n` samples moves the value on each of its first `n - 1` samples,
/// sets it to the target exactly on sample `n`, and leaves it there on every
/// sample after that.
pub proof fn lemma_ramp_lands(n: nat, extra: nat)
    requires
        n >= 1,
    ensures
        steps_of(n, n + extra) == Seq::new((n - 1) as nat, |i: int| RampStep::Step) + seq![RampStep::Land]
            + Seq::new(extra, |i: int| RampStep::Hold),
    decreases n,
{
    if n == 1 {
        lemma_rest_holds(extra);
        assert(steps_of(1, 1 + extra) == seq![RampStep::Land] + steps_of(0, extra));
        assert(Seq::new(0, |i: int| RampStep::Step) + seq![RampStep::Land] + Seq::new(extra, |i: int| RampStep::Hold)
            =~= seq![RampStep::Land] + Seq::new(extra, |i: int| RampStep::Hold));
    } else {
        lemma_ramp_lands((n - 1) as nat, extra);
        assert(steps_of(n, n + extra) == seq![RampStep::Step] + steps_of((n - 1) as nat, (n - 1 + extra) as nat));
        assert(Seq::new((n - 1) as nat, |i: int| RampStep::Step) =~= seq![RampStep::Step] + Seq::new(
            (n - 2) as nat,
            |i: int| RampStep::Step,
        ));
        assert(Seq::new((n - 1) as nat, |i: int| RampStep::Step) + seq![RampStep::Land] + Seq::new(extra, |i: int| RampStep::Hold)
            =~= seq![RampStep::Step] + (Seq::new((n - 2) as nat, |i: int| RampStep::Step) + seq![RampStep::Land] + Seq::new(extra, |i: int| RampStep::Hold)));
    }
}

proof fn lemma_rest_holds(k: nat)
    ensures
        steps_of(0, k) == Seq::new(k, |i: int| RampStep::Hold),
    decreases k,
{
    if k == 0 {
        assert(steps_of(0, 0) =~= Seq::new(0, |i: int| RampStep::Hold));
    } else {
        lemma_rest_holds((k - 1) as nat);
        assert(steps_of(0, k) =~= Seq::new(k, |i: int| RampStep::Hold));
    }
}

} // verus!
