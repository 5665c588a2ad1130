//! The targets of the emulated controller and the values written to them.

use vstd::prelude::*;

verus! {

/// A digital button of a game pad.
#[derive(Clone, Copy, Debug, PartialEq, Eq, Hash, Structural)]
pub enum GamePad {
    South,
    A,
    East,
    B,
    C,
    North,
    X,
    West,
    Y,
    Z,
    TL,
    TR,
    TL2,
    TR2,
    Select,
    Start,
    Mode,
    ThumbL,
    ThumbR,
}

/// An absolute axis of the wheel family; the triggers are written to two of
/// these.
#[derive(Clone, Copy, Debug, PartialEq, Eq, Hash, Structural)]
pub enum Wheel {
    Throttle,
    Rudder,
    Position,
    Gas,
    Brake,
}

/// An absolute position axis; each stick takes two.
#[derive(Clone, Copy, Debug, PartialEq, Eq, Hash, Structural)]
pub enum Position {
    X,
    Y,
    Z,
    RX,
    RY,
    RZ,
}

/// Anything on the device that a value can be written to.
#[derive(Clone, Copy, Debug, PartialEq, Eq, Hash, Structural)]
pub enum DeviceTarget {
    Button(GamePad),
    Trigger(Wheel),
    Stick(Position),
}

/// One write of a frame. A button takes 1 while held and 0 otherwise, a
/// trigger takes its preset, a stick axis takes a byte.
#[derive(Clone, Copy, Debug, PartialEq, Eq, Structural)]
pub struct Write {
    pub target: DeviceTarget,
    pub value: i32,
}

} // verus!
