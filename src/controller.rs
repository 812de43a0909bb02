//! The command an actor obeys for one tick, whoever produced it.

use vstd::prelude::*;

verus! {

/// Bound on the absolute value of an axis of a command, in thousandths.
pub const AXIS_LIMIT: i64 = 5_000_000_000;

/// A command, axes in thousandths (1000 stands for a full deflection).
#[derive(Clone, Copy, Debug, PartialEq, Eq, Structural)]
pub struct InputState {
    /// Turn: positive turns towards larger headings.
    pub xaxis: i64,
    /// Thrust: positive forward, negative backward, zero stops.
    pub yaxis: i64,
    /// Positive narrows the field of view, negative widens it.
    pub fov_axis: i64,
    /// Positive stops all motion.
    pub freeze: i64,
    pub fire: bool,
}

/// Full deflection of an axis.
pub const FULL_AXIS: i64 = 1000;

/// The keys that steer an actor by hand.
#[derive(Clone, Copy, Debug, PartialEq, Eq, Structural)]
pub enum Key {
    Up,
    Down,
    Left,
    Right,
    C,
    V,
    Space,
    B,
    Other,
}

impl InputState {
    pub open spec fn wf(self) -> bool {
        &&& -AXIS_LIMIT <= self.xaxis <= AXIS_LIMIT
        &&& -AXIS_LIMIT <= self.yaxis <= AXIS_LIMIT
        &&& -AXIS_LIMIT <= self.fov_axis <= AXIS_LIMIT
    }

    /// A key pressed: arrows thrust and turn, `C` and `V` close and open the
    /// sensors, space fires and `B` freezes.
    pub fn key_down_event(&mut self, key: Key)
        ensures
            *final(self) == match key {
                Key::Up => InputState { yaxis: FULL_AXIS, ..*old(self) },
                Key::Down => InputState { yaxis: (-FULL_AXIS) as i64, ..*old(self) },
                Key::Left => InputState { xaxis: FULL_AXIS, ..*old(self) },
                Key::Right => InputState { xaxis: (-FULL_AXIS) as i64, ..*old(self) },
                Key::C => InputState { fov_axis: FULL_AXIS, ..*old(self) },
                Key::V => InputState { fov_axis: (-FULL_AXIS) as i64, ..*old(self) },
                Key::Space => InputState { fire: true, ..*old(self) },
                Key::B => InputState { freeze: FULL_AXIS, ..*old(self) },
                Key::Other => *old(self),
            },
    {
        match key {
            Key::Up => self.yaxis = FULL_AXIS,
            Key::Down => self.yaxis = -FULL_AXIS,
            Key::Left => self.xaxis = FULL_AXIS,
            Key::Right => self.xaxis = -FULL_AXIS,
            Key::C => self.fov_axis = FULL_AXIS,
            Key::V => self.fov_axis = -FULL_AXIS,
            Key::Space => self.fire = true,
            Key::B => self.freeze = FULL_AXIS,
            Key::Other => {},
        }
    }

    /// A key released: its axis goes back to rest.
    pub fn key_up_event(&mut self, key: Key)
        ensures
            *final(self) == match key {
                Key::Up | Key::Down => InputState { yaxis: 0, ..*old(self) },
                Key::Left | Key::Right => InputState { xaxis: 0, ..*old(self) },
                Key::C | Key::V => InputState { fov_axis: 0, ..*old(self) },
                Key::Space => InputState { fire: false, ..*old(self) },
                Key::B => InputState { freeze: 0, ..*old(self) },
                Key::Other => *old(self),
            },
    {
        match key {
            Key::Up | Key::Down => self.yaxis = 0,
            Key::Left | Key::Right => self.xaxis = 0,
            Key::C | Key::V => self.fov_axis = 0,
            Key::Space => self.fire = false,
            Key::B => self.freeze = 0,
            Key::Other => {},
        }
    }
}

impl Default for InputState {
    fn default() -> (r: InputState)
        ensures
            r == (InputState { xaxis: 0, yaxis: 0, fov_axis: 0, freeze: 0, fire: false }),
    {
        InputState { xaxis: 0, yaxis: 0, fov_axis: 0, freeze: 0, fire: false }
    }
}

} // verus!
