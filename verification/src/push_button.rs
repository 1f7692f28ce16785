//! Edge-pairing detection for a mechanical push button.
//!
//! The platform side calls [`EdgeDetector::on_edge`] once per electrical
//! edge on the button line. Edges are paired: the first edge of a pair is
//! classified as a press, the second as a release, after which the pairing
//! starts over. This crude pairing stands in for timing-based debouncing;
//! a burst of bounce edges desynchronizes the pairing, a known limitation
//! that is kept rather than corrected.

use vstd::prelude::*;

verus! {

/// Classified button transition handed to the user callback.
#[derive(Clone, Copy, Debug, PartialEq, Eq, Structural)]
pub enum ButtonState {
    Pressed,
    Released,
}

/// Event classified for an edge arriving at the given pulse parity:
/// the first edge of a pair (parity 0) is a press, any further edge a
/// release.
pub open spec fn edge_event(parity: int) -> ButtonState {
    if parity == 0 {
        ButtonState::Pressed
    } else {
        ButtonState::Released
    }
}

/// Parity after an edge: it toggles 0 to 1 on a press and returns to 0 on
/// any further edge, so the detector re-synchronizes after at most one
/// pair and can never get permanently stuck.
pub open spec fn next_parity(parity: int) -> int {
    if parity == 0 {
        1
    } else {
        0
    }
}

/// Pulse-parity state machine of the button. Single-writer: only the
/// edge-triggered context mutates it.
pub struct EdgeDetector {
    pulse_parity: u8,
}

impl EdgeDetector {
    /// Whether the next edge opens a pair (0) or closes one (1).
    pub closed spec fn parity(self) -> int {
        self.pulse_parity as int
    }

    /// Invariant: the parity is a single bit.
    pub open spec fn wf(self) -> bool {
        self.parity() == 0 || self.parity() == 1
    }

    /// A detector with no pending pair: the next edge is a press.
    pub fn new() -> (detector: Self)
        ensures
            detector.wf(),
            detector.parity() == 0,
    {
        EdgeDetector { pulse_parity: 0 }
    }

    /// Classifies one electrical edge and advances the pairing parity.
    pub fn on_edge(&mut self) -> (event: ButtonState)
        requires
            old(self).wf(),
        ensures
            final(self).wf(),
            event == edge_event(old(self).parity()),
            final(self).parity() == next_parity(old(self).parity()),
    {
        self.pulse_parity = self.pulse_parity + 1;
        let event = if self.pulse_parity == 1 {
            ButtonState::Pressed
        } else {
            ButtonState::Released
        };
        if self.pulse_parity > 1 {
            self.pulse_parity = 0;
        }
        event
    }
}

/// Parity always toggles within its single bit and returns to where it
/// started after exactly two edges.
pub proof fn lemma_parity_toggles(parity: int)
    requires
        parity == 0 || parity == 1,
    ensures
        next_parity(parity) == 1 - parity,
        next_parity(next_parity(parity)) == parity,
{
}

/// From the idle parity, two edges produce `Pressed` then `Released` and
/// restore the idle parity; a third edge opens a new pair with `Pressed`.
pub proof fn lemma_edge_pairing()
    ensures
        edge_event(0) == ButtonState::Pressed,
        edge_event(next_parity(0)) == ButtonState::Released,
        next_parity(next_parity(0)) == 0,
        edge_event(next_parity(next_parity(0))) == ButtonState::Pressed,
{
}

} // verus!
