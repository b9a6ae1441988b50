use vstd::prelude::*;
use vstd::arithmetic::div_mod::{lemma_add_mod_noop, lemma_mod_twice, lemma_small_mod};
use vstd::arithmetic::mul::lemma_mul_is_distributive_add_other_way;

verus! {

/// Full-scale volume, in thousandths: a volume of 1000 is a gain of 1.0.
pub const FULL_VOLUME: u32 = 1000;

/// Where a voice stands in its cycle `n` samples after `start`.
///
/// A phase is counted in steps of `1 / sample_hz` of a cycle, so a voice of
/// `frequency` hertz moves on by exactly `frequency` steps per sample and the
/// accumulator never drifts; it is kept below `sample_hz`, one whole cycle.
pub open spec fn phase_after(start: int, frequency: int, sample_hz: int, n: int) -> int {
    (start + n * frequency) % sample_hz
}

/// One sine oscillator: its place in the cycle, its pitch and its gain.
///
/// The sample it sounds at phase `p` is `sin(2 * pi * p / sample_hz)` times
/// `volume / FULL_VOLUME`.
#[derive(PartialEq, Eq, Structural, Debug, Clone, Copy)]
pub struct Voice {
    /// Position in the cycle, in steps of `1 / sample_hz` of a cycle.
    pub phase: u32,
    /// Pitch in hertz.
    pub frequency: u32,
    /// Gain in thousandths of full scale.
    pub volume: u32,
}

/// One sample further on, the phase is the previous one moved on by one step
/// of the frequency, wrapped to a cycle.
pub proof fn lemma_phase_step(start: int, frequency: int, sample_hz: int, n: int)
    requires
        sample_hz > 0,
    ensures
        phase_after(start, frequency, sample_hz, n + 1) == (phase_after(
            start,
            frequency,
            sample_hz,
            n,
        ) + frequency) % sample_hz,
{
    lemma_mul_is_distributive_add_other_way(frequency, n, 1);
    lemma_add_mod_noop(start + n * frequency, frequency, sample_hz);
    lemma_add_mod_noop(phase_after(start, frequency, sample_hz, n), frequency, sample_hz);
    lemma_mod_twice(start + n * frequency, sample_hz);
}

/// Phase is continuous across buffers: `m` samples and then `n` more leave a
/// voice where `m + n` samples in one go would.
pub proof fn lemma_phase_continues(start: int, frequency: int, sample_hz: int, m: int, n: int)
    requires
        sample_hz > 0,
    ensures
        phase_after(phase_after(start, frequency, sample_hz, m), frequency, sample_hz, n)
            == phase_after(start, frequency, sample_hz, m + n),
{
    let x = start + m * frequency;
    lemma_mul_is_distributive_add_other_way(frequency, m, n);
    lemma_add_mod_noop(x, n * frequency, sample_hz);
    lemma_add_mod_noop(x % sample_hz, n * frequency, sample_hz);
    lemma_mod_twice(x, sample_hz);
}

/// A voice's phases repeat with a period of `period` samples whenever
/// `period` samples make up a whole number of cycles, that is whenever
/// `period * frequency` is a multiple of `sample_hz` (for a frequency that
/// divides the sample rate, `period == sample_hz / frequency`).
pub proof fn lemma_phase_periodic(start: int, frequency: int, sample_hz: int, n: int, period: int)
    requires
        sample_hz > 0,
        (period * frequency) % sample_hz == 0,
    ensures
        phase_after(start, frequency, sample_hz, n + period) == phase_after(
            start,
            frequency,
            sample_hz,
            n,
        ),
{
    let x = start + n * frequency;
    lemma_mul_is_distributive_add_other_way(frequency, n, period);
    lemma_add_mod_noop(x, period * frequency, sample_hz);
    lemma_mod_twice(x, sample_hz);
}

impl Voice {
    /// The phase stays within one cycle and the volume within full scale.
    pub open spec fn wf(&self, sample_hz: int) -> bool {
        self.phase < sample_hz && self.volume <= FULL_VOLUME
    }

    /// A silent voice at the start of its cycle, with no pitch.
    pub fn new() -> (r: Voice)
        ensures
            r.phase == 0,
            r.frequency == 0,
            r.volume == 0,
    {
        Voice { phase: 0, frequency: 0, volume: 0 }
    }

    /// Hands out the current phase and moves the voice one sample on.
    pub fn step(&mut self, sample_hz: u32) -> (p: u32)
        requires
            old(self).phase < sample_hz,
        ensures
            p == old(self).phase,
            final(self).phase == phase_after(
                old(self).phase as int,
                old(self).frequency as int,
                sample_hz as int,
                1,
            ),
            final(self).phase < sample_hz,
            final(self).frequency == old(self).frequency,
            final(self).volume == old(self).volume,
    {
        let p = self.phase;
        let next = (self.phase as u64 + self.frequency as u64) % (sample_hz as u64);
        self.phase = next as u32;
        p
    }

    /// Renders one buffer: `phases[i]` becomes the phase of the voice at the
    /// `i`th sample of the buffer, and the voice moves on by the buffer's
    /// length. Pitch and volume are kept.
    pub fn render(&mut self, phases: &mut Vec<u32>, sample_hz: u32)
        requires
            old(self).phase < sample_hz,
        ensures
            final(phases)@.len() == old(phases)@.len(),
            forall|i: int|
                0 <= i < final(phases)@.len() ==> #[trigger] final(phases)@[i] == phase_after(
                    old(self).phase as int,
                    old(self).frequency as int,
                    sample_hz as int,
                    i,
                ),
            final(self).phase == phase_after(
                old(self).phase as int,
                old(self).frequency as int,
                sample_hz as int,
                old(phases)@.len() as int,
            ),
            final(self).frequency == old(self).frequency,
            final(self).volume == old(self).volume,
    {
        let ghost start = self.phase as int;
        let ghost f = self.frequency as int;
        let ghost sr = sample_hz as int;
        proof {
            lemma_small_mod(start as nat, sr as nat);
        }
        let mut i: usize = 0;
        while i < phases.len()
            invariant
                0 <= i <= phases@.len(),
                phases@.len() == old(phases)@.len(),
                self.phase < sample_hz,
                self.phase == phase_after(start, f, sr, i as int),
                self.frequency == old(self).frequency,
                self.volume == old(self).volume,
                start == old(self).phase,
                f == old(self).frequency,
                sr == sample_hz,
                forall|j: int| 0 <= j < i ==> #[trigger] phases@[j] == phase_after(start, f, sr, j),
            decreases phases@.len() - i,
        {
            proof {
                lemma_phase_step(start, f, sr, i as int);
            }
            let p = self.step(sample_hz);
            phases.set(i, p);
            i = i + 1;
        }
    }
}

} // verus!
