//! The held-key flags of the ten logical actions.

use vstd::prelude::*;

verus! {

/// One held flag: true while the key bound to a logical action is down.
#[derive(Clone, Copy, Debug, PartialEq, Eq, Structural)]
pub struct Key {
    pub is_down: bool,
}

/// A fixed mapping from logical action to held flag. The flags hold no
/// history: they are set by key-down events, cleared by key-up events, and
/// only the camera reads them.
#[derive(Clone, Copy, Debug, PartialEq, Eq, Structural)]
pub struct InputState {
    pub up: Key,
    pub down: Key,
    pub left: Key,
    pub right: Key,
    pub forward: Key,
    pub back: Key,
    pub look_up: Key,
    pub look_down: Key,
    pub look_left: Key,
    pub look_right: Key,
}

/// No action held: the state a session starts in.
pub open spec fn all_released() -> InputState {
    InputState {
        up: Key { is_down: false },
        down: Key { is_down: false },
        left: Key { is_down: false },
        right: Key { is_down: false },
        forward: Key { is_down: false },
        back: Key { is_down: false },
        look_up: Key { is_down: false },
        look_down: Key { is_down: false },
        look_left: Key { is_down: false },
        look_right: Key { is_down: false },
    }
}

impl InputState {
    /// A fresh input state with every action released.
    pub fn new() -> (s: InputState)
        ensures
            s == all_released(),
    {
        InputState {
            up: Key { is_down: false },
            down: Key { is_down: false },
            left: Key { is_down: false },
            right: Key { is_down: false },
            forward: Key { is_down: false },
            back: Key { is_down: false },
            look_up: Key { is_down: false },
            look_down: Key { is_down: false },
            look_left: Key { is_down: false },
            look_right: Key { is_down: false },
        }
    }
}

} // verus!
