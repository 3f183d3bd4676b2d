//! The per-tick snapshot of held controls.
//!
//! The core never reads a keyboard: the host hands it one of these each
//! tick.  Which physical keys map to which flag is the host's
//! configuration.

use vstd::prelude::*;

verus! {

/// Held control flags for one simulated tick.
#[derive(Clone, Copy, PartialEq, Eq, Structural, Debug)]
pub struct InputState {
    pub rotate_left: bool,
    pub rotate_right: bool,
    pub thrust_forward: bool,
    pub thrust_back: bool,
    pub fire: bool,
    pub pause_toggle: bool,
}

/// Some rotation key is held; holding both still counts as input (the
/// two accelerations cancel, but the decay of the turn rate is skipped).
pub open spec fn rotating(input: InputState) -> bool {
    input.rotate_left || input.rotate_right
}

/// Some thrust key is held; holding both still counts as input.
pub open spec fn thrusting(input: InputState) -> bool {
    input.thrust_forward || input.thrust_back
}

impl InputState {
    /// No key held.
    pub fn released() -> (i: InputState)
        ensures
            i == (InputState {
                rotate_left: false,
                rotate_right: false,
                thrust_forward: false,
                thrust_back: false,
                fire: false,
                pause_toggle: false,
            }),
    {
        InputState {
            rotate_left: false,
            rotate_right: false,
            thrust_forward: false,
            thrust_back: false,
            fire: false,
            pause_toggle: false,
        }
    }
}

} // verus!
