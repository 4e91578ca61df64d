//! The collider-outline debug toggle.
//!
//! A process-wide flag says whether collider outlines are drawn. It starts
//! off, and it flips exactly on each rising edge of the debug key.

use vstd::prelude::*;

use crate::input::spec_rising;

verus! {

/// Whether debug rendering of collider outlines is enabled.
pub struct DebugSettings {
    pub debug_colliders: bool,
}

impl Default for DebugSettings {
    /// The flag starts off: nothing is drawn until the key is first pressed.
    fn default() -> (r: Self)
        ensures
            !r.debug_colliders,
    {
        DebugSettings { debug_colliders: false }
    }
}

/// The flag after one frame: flipped exactly when that frame is a rising
/// edge of the debug key.
pub open spec fn spec_toggled(flag: bool, edge: bool) -> bool {
    if edge {
        !flag
    } else {
        flag
    }
}

/// Flip the collider-outline flag on a rising edge of the debug key.
///
/// `debug_key_edge` is whether this frame is the rising edge of the debug
/// key (see [`crate::input::rising_edge`]); the level of the key has no
/// effect of its own.
pub fn toggle_debug(settings: &mut DebugSettings, debug_key_edge: bool)
    ensures
        final(settings).debug_colliders == spec_toggled(
            old(settings).debug_colliders,
            debug_key_edge,
        ),
{
    if debug_key_edge {
        settings.debug_colliders = !settings.debug_colliders;
    }
}

/// Two presses of the debug key cancel out: toggling on two rising edges
/// returns the flag to where it started.
pub proof fn lemma_toggle_twice_restores(flag: bool)
    ensures
        spec_toggled(spec_toggled(flag, true), true) == flag,
{
}

/// Holding the debug key changes nothing: a frame on which the key is merely
/// held (it was already down, so there is no rising edge) leaves the flag
/// alone, however many such frames pass.
pub proof fn lemma_held_key_keeps_flag(flag: bool, pressed: bool)
    ensures
        spec_toggled(flag, spec_rising(true, pressed)) == flag,
{
}

} // verus!
