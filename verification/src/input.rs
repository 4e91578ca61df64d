//! Edge detection for buttons and keys.
//!
//! The engine reports the level of each key every frame. Everything in the
//! game that reacts to a key press (toggling the debug overlay, jumping,
//! firing, quitting) acts on the rising edge: the single frame on which the
//! key goes from released to pressed. Holding a key produces no further edges.

use vstd::prelude::*;

verus! {

/// A key press counts only on the frame where the key goes down.
pub open spec fn spec_rising(was_pressed: bool, pressed: bool) -> bool {
    pressed && !was_pressed
}

/// Whether this frame is the rising edge of a key, given its level on the
/// previous frame and its level now.
pub fn rising_edge(was_pressed: bool, pressed: bool) -> (r: bool)
    ensures
        r == spec_rising(was_pressed, pressed),
{
    pressed && !was_pressed
}

} // verus!
