//! Quadrature decoding of a rotary encoder.
//!
//! The two encoder lines are sampled together on a fixed, very short
//! period by the platform side, which hands each pair of levels to
//! [`QuadratureDecoder::sample`]. The decoder keeps a 2-bit gray-coded
//! phase and a sub-detent accumulator, and emits a signed tick once a
//! full detent (four valid single-step transitions in one direction) has
//! accumulated.

use vstd::prelude::*;

verus! {

/// The fixed, total gray-code mapping of the two line levels
/// (`true` = electrically high) to a phase in `0..=3`:
/// low/low is 0, low/high is 1, high/high is 2, high/low is 3.
pub open spec fn spec_phase_of(a: bool, b: bool) -> int {
    if !a && !b {
        0
    } else if !a && b {
        1
    } else if a && b {
        2
    } else {
        3
    }
}

/// Maps one atomically sampled pair of line levels to its gray-coded phase.
pub fn phase_of(a: bool, b: bool) -> (phase: u8)
    ensures
        phase as int == spec_phase_of(a, b),
{
    if !a && !b {
        0
    } else if !a && b {
        1
    } else if a && b {
        2
    } else {
        3
    }
}

/// The gray-code mapping is total and injective: every combination of
/// levels has exactly one phase in `0..=3`, and distinct combinations
/// have distinct phases.
pub proof fn lemma_phase_of_total_injective(a1: bool, b1: bool, a2: bool, b2: bool)
    ensures
        0 <= spec_phase_of(a1, b1) <= 3,
        spec_phase_of(a1, b1) == spec_phase_of(a2, b2) ==> a1 == a2 && b1 == b2,
{
}

/// Direction contributed by one phase transition from `prev` to `curr`:
/// `1` for a single clockwise step (`prev - curr` is `1` or `-3`),
/// `-1` for a single counter-clockwise step (`prev - curr` is `-1` or `3`),
/// and `0` for no movement or an illegal two-step jump, which the decoder
/// ignores as noise.
pub open spec fn step_direction(prev: int, curr: int) -> int {
    let diff = prev - curr;
    if diff == -1 || diff == 3 {
        -1
    } else if diff == 1 || diff == -3 {
        1
    } else {
        0
    }
}

/// Phase stored after one decode step: the new phase is adopted only on a
/// valid single-step transition, so that a skipped reading is re-evaluated
/// against the old phase at the next sample.
pub open spec fn next_phase(phase: int, acc: int, p: int) -> int {
    if step_direction(phase, p) == 0 {
        phase
    } else {
        p
    }
}

/// Accumulator after one decode step: it moves by the step direction and
/// is reset to 0 whenever a full detent is reached.
pub open spec fn next_acc(phase: int, acc: int, p: int) -> int {
    let moved = acc + step_direction(phase, p);
    if moved >= 4 || moved <= -4 {
        0
    } else {
        moved
    }
}

/// Tick emitted by one decode step: `Some(1)` when the accumulator
/// completes a clockwise detent, `Some(-1)` for a counter-clockwise one,
/// `None` otherwise. `Some(0)` is never produced.
pub open spec fn emitted_tick(phase: int, acc: int, p: int) -> Option<i8> {
    let moved = acc + step_direction(phase, p);
    if moved >= 4 {
        Some(1i8)
    } else if moved <= -4 {
        Some(-1i8)
    } else {
        None
    }
}

/// The decoder run over a whole sequence of sampled phases, starting from
/// the given phase and accumulator: the resulting phase, the resulting
/// accumulator, and the ticks emitted, in order.
pub open spec fn run(phase: int, acc: int, phases: Seq<int>) -> (int, int, Seq<i8>)
    decreases phases.len(),
{
    if phases.len() == 0 {
        (phase, acc, Seq::empty())
    } else {
        let p = phases[0];
        let rest = run(next_phase(phase, acc, p), next_acc(phase, acc, p), phases.drop_first());
        let ticks = match emitted_tick(phase, acc, p) {
            Some(t) => seq![t] + rest.2,
            None => rest.2,
        };
        (rest.0, rest.1, ticks)
    }
}

/// One detent: from a rested decoder (accumulator 0), four consecutive
/// single steps in one direction `d` emit exactly one tick, of value `d`,
/// on the last step, and leave the decoder rested on the last phase.
pub proof fn lemma_one_detent(phase0: int, d: int, phases: Seq<int>)
    requires
        0 <= phase0 <= 3,
        d == 1 || d == -1,
        phases.len() == 4,
        step_direction(phase0, phases[0]) == d,
        step_direction(phases[0], phases[1]) == d,
        step_direction(phases[1], phases[2]) == d,
        step_direction(phases[2], phases[3]) == d,
    ensures
        run(phase0, 0, phases).2 =~= seq![d as i8],
        run(phase0, 0, phases).1 == 0,
        run(phase0, 0, phases).0 == phases[3],
{
    reveal_with_fuel(run, 5);
    let s1 = phases.drop_first();
    let s2 = s1.drop_first();
    let s3 = s2.drop_first();
    let s4 = s3.drop_first();
    assert(s1[0] == phases[1] && s1[1] == phases[2] && s1[2] == phases[3]);
    assert(s2[0] == phases[2] && s2[1] == phases[3]);
    assert(s3[0] == phases[3]);
    assert(s4.len() == 0);
    assert(next_acc(phase0, 0, phases[0]) == d);
    assert(next_acc(phases[0], d, phases[1]) == 2 * d);
    assert(next_acc(phases[1], 2 * d, phases[2]) == 3 * d);
    assert(next_acc(phases[2], 3 * d, phases[3]) == 0);
    assert(emitted_tick(phases[2], 3 * d, phases[3]) == Some(d as i8));
    assert(run(phases[3], 0, s4) == (phases[3], 0int, Seq::<i8>::empty()));
    assert(run(phases[2], 3 * d, s3).2 =~= seq![d as i8]);
    assert(run(phases[1], 2 * d, s2).2 =~= seq![d as i8]);
    assert(run(phases[0], d, s1).2 =~= seq![d as i8]);
}

/// A repeated reading or a skipped (two-step) jump is ignored: the decoder
/// emits nothing and keeps both its phase and its accumulator, so a single
/// missed sample cannot corrupt the direction decoded afterwards.
pub proof fn lemma_skip_is_ignored(phase: int, acc: int, p: int)
    requires
        0 <= phase <= 3,
        0 <= p <= 3,
        -3 <= acc <= 3,
        p == phase || p - phase == 2 || phase - p == 2,
    ensures
        step_direction(phase, p) == 0,
        next_phase(phase, acc, p) == phase,
        next_acc(phase, acc, p) == acc,
        emitted_tick(phase, acc, p) is None,
{
}

/// Gray-code state machine of the encoder. Single-writer: only the
/// periodic sampler mutates it, so it needs no locking.
pub struct QuadratureDecoder {
    previous_phase: u8,
    accumulator: i8,
}

impl QuadratureDecoder {
    /// Last decoded phase.
    pub closed spec fn phase(self) -> int {
        self.previous_phase as int
    }

    /// Sub-detent progress, in `-3..=3` between samples.
    pub closed spec fn acc(self) -> int {
        self.accumulator as int
    }

    /// Invariant: the phase is one of the four gray-code values and the
    /// accumulator is strictly between the detent bounds (it is reset to 0
    /// the moment a tick is emitted).
    pub open spec fn wf(self) -> bool {
        &&& 0 <= self.phase() <= 3
        &&& -3 <= self.acc() <= 3
    }

    /// A decoder at rest: phase 0, nothing accumulated.
    pub fn new() -> (decoder: Self)
        ensures
            decoder.wf(),
            decoder.phase() == 0,
            decoder.acc() == 0,
    {
        QuadratureDecoder { previous_phase: 0, accumulator: 0 }
    }

    /// One decode step on a freshly sampled pair of line levels.
    ///
    /// A valid single-step transition moves the accumulator and adopts the
    /// new phase; a repeated or skipped reading changes nothing. When the
    /// accumulator completes a detent the tick is emitted and the
    /// accumulator rests again.
    pub fn sample(&mut self, a: bool, b: bool) -> (tick: Option<i8>)
        requires
            old(self).wf(),
        ensures
            final(self).wf(),
            final(self).phase() == next_phase(old(self).phase(), old(self).acc(), spec_phase_of(a, b)),
            final(self).acc() == next_acc(old(self).phase(), old(self).acc(), spec_phase_of(a, b)),
            tick == emitted_tick(old(self).phase(), old(self).acc(), spec_phase_of(a, b)),
    {
        let phase = phase_of(a, b);
        let diff: i8 = self.previous_phase as i8 - phase as i8;
        if diff == -1 || diff == 3 {
            self.accumulator = self.accumulator - 1;
            self.previous_phase = phase;
        } else if diff == 1 || diff == -3 {
            self.accumulator = self.accumulator + 1;
            self.previous_phase = phase;
        }
        if self.accumulator >= 4 {
            self.accumulator = 0;
            Some(1)
        } else if self.accumulator <= -4 {
            self.accumulator = 0;
            Some(-1)
        } else {
            None
        }
    }
}

} // verus!
