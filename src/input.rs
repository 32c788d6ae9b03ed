//! The per-frame record of which steering controls are held.
use vstd::prelude::*;

verus! {

/// Keys held during one frame, as the host's keyboard reports them.
#[derive(Clone, Copy, Debug, PartialEq, Eq, Structural)]
pub struct PressedKeys {
    /// The quit key (`Q`).
    pub quit: bool,
    /// Arrow left.
    pub left: bool,
    /// Arrow right.
    pub right: bool,
    /// Arrow up.
    pub up: bool,
    /// Arrow down.
    pub down: bool,
    /// Thrust forward (`Z`).
    pub forward: bool,
    /// Thrust backward (`X`).
    pub backward: bool,
    /// The map modifier (left `Alt`).
    pub alt: bool,
}

/// Which steering controls are held this frame.
#[derive(Clone, Copy, Debug, PartialEq, Eq, Structural)]
pub struct InputData {
    pub left: bool,
    pub right: bool,
    pub front: bool,
    pub back: bool,
    pub up: bool,
    pub down: bool,
    pub alt: bool,
}

impl InputData {
    /// No control held.
    pub open spec fn released() -> InputData {
        InputData {
            left: false,
            right: false,
            front: false,
            back: false,
            up: false,
            down: false,
            alt: false,
        }
    }

    /// The controls that a set of held keys stands for.
    pub open spec fn of_keys(keys: PressedKeys) -> InputData {
        InputData {
            left: keys.left,
            right: keys.right,
            front: keys.forward,
            back: keys.backward,
            up: keys.up,
            down: keys.down,
            alt: keys.alt,
        }
    }

    /// A record with no control held.
    pub fn new() -> (r: InputData)
        ensures
            r == InputData::released(),
    {
        InputData {
            left: false,
            right: false,
            front: false,
            back: false,
            up: false,
            down: false,
            alt: false,
        }
    }

    /// Releases every control.
    pub fn reset(&mut self)
        ensures
            *final(self) == InputData::released(),
    {
        *self = InputData::new();
    }

    /// Whether steering goes to the map view rather than the ship.
    pub fn use_map_input(&self) -> (r: bool)
        ensures
            r == self.alt,
    {
        self.alt
    }

    /// Replaces the record with this frame's keys; returns whether the
    /// quit key is held.
    pub fn capture(&mut self, keys: &PressedKeys) -> (quit: bool)
        ensures
            *final(self) == InputData::of_keys(*keys),
            quit == keys.quit,
    {
        self.reset();
        if keys.left {
            self.left = true;
        }
        if keys.right {
            self.right = true;
        }
        if keys.up {
            self.up = true;
        }
        if keys.down {
            self.down = true;
        }
        if keys.forward {
            self.front = true;
        }
        if keys.backward {
            self.back = true;
        }
        if keys.alt {
            self.alt = true;
        }
        keys.quit
    }
}

} // verus!
