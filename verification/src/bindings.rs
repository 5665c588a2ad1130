//! The binding tables: which key drives which logical input, and which device
//! target each logical output is written to.
//!
//! Both tables are made once and only read afterwards.

use vstd::prelude::*;
use crate::device::{DeviceTarget, GamePad, Position, Wheel};
use crate::keys::Key;

verus! {

/// Everything that a key can drive.
#[derive(Clone, Copy, Debug, PartialEq, Eq, Hash, Structural)]
pub enum LogicalInput {
    Start,
    A,
    B,
    X,
    Y,
    Z,
    L,
    R,
    ShieldMedium,
    ShieldLight,
    Up,
    Down,
    Left,
    Right,
    CUp,
    CDown,
    CLeft,
    CRight,
    ModX,
    ModY,
    Debug,
}

impl LogicalInput {
    /// The place of the input in the table; where one key is bound to several
    /// inputs, the input with the lowest rank has it.
    pub open spec fn rank(self) -> nat {
        match self {
            LogicalInput::Start => 0,
            LogicalInput::A => 1,
            LogicalInput::B => 2,
            LogicalInput::X => 3,
            LogicalInput::Y => 4,
            LogicalInput::Z => 5,
            LogicalInput::L => 6,
            LogicalInput::R => 7,
            LogicalInput::ShieldMedium => 8,
            LogicalInput::ShieldLight => 9,
            LogicalInput::Up => 10,
            LogicalInput::Down => 11,
            LogicalInput::Left => 12,
            LogicalInput::Right => 13,
            LogicalInput::CUp => 14,
            LogicalInput::CDown => 15,
            LogicalInput::CLeft => 16,
            LogicalInput::CRight => 17,
            LogicalInput::ModX => 18,
            LogicalInput::ModY => 19,
            LogicalInput::Debug => 20,
        }
    }
}

/// The key of each logical input.
#[derive(Clone, Copy, Debug, PartialEq, Eq, Structural)]
pub struct InputMap {
    // face
    pub start: Key,
    pub a: Key,
    pub b: Key,
    pub x: Key,
    pub y: Key,
    pub z: Key,
    // triggers
    pub l: Key,
    pub r: Key,
    pub lm: Key,
    pub ls: Key,
    // stick
    pub up: Key,
    pub down: Key,
    pub left: Key,
    pub right: Key,
    // c-stick
    pub c_up: Key,
    pub c_down: Key,
    pub c_left: Key,
    pub c_right: Key,
    // mods
    pub mod_x: Key,
    pub mod_y: Key,
    // debug
    pub debug: Key,
}

impl InputMap {
    /// The key that `input` is bound to.
    pub open spec fn bound_key(self, input: LogicalInput) -> Key {
        match input {
            LogicalInput::Start => self.start,
            LogicalInput::A => self.a,
            LogicalInput::B => self.b,
            LogicalInput::X => self.x,
            LogicalInput::Y => self.y,
            LogicalInput::Z => self.z,
            LogicalInput::L => self.l,
            LogicalInput::R => self.r,
            LogicalInput::ShieldMedium => self.lm,
            LogicalInput::ShieldLight => self.ls,
            LogicalInput::Up => self.up,
            LogicalInput::Down => self.down,
            LogicalInput::Left => self.left,
            LogicalInput::Right => self.right,
            LogicalInput::CUp => self.c_up,
            LogicalInput::CDown => self.c_down,
            LogicalInput::CLeft => self.c_left,
            LogicalInput::CRight => self.c_right,
            LogicalInput::ModX => self.mod_x,
            LogicalInput::ModY => self.mod_y,
            LogicalInput::Debug => self.debug,
        }
    }

    /// `input` is the one that `key` drives: it is bound to `key`, and no
    /// input of a lower rank is.
    pub open spec fn drives(self, key: Key, input: LogicalInput) -> bool {
        &&& self.bound_key(input) == key
        &&& forall|other: LogicalInput|
            other.rank() < input.rank() ==> #[trigger] self.bound_key(other) != key
    }

    /// No input is bound to `key`.
    pub open spec fn unbound(self, key: Key) -> bool {
        forall|input: LogicalInput| #[trigger] self.bound_key(input) != key
    }

    /// The input that `key` drives, if it drives one.
    pub open spec fn input_of(self, key: Key) -> Option<LogicalInput> {
        if self.unbound(key) {
            None
        } else {
            Some(choose|input: LogicalInput| self.drives(key, input))
        }
    }

    /// The layout that the engine starts with.
    pub open spec fn standard_layout() -> InputMap {
        InputMap {
            start: Key::KeyF,
            a: Key::Kp0,
            b: Key::Kp4,
            x: Key::Kp5,
            y: Key::Kp8,
            z: Key::Kp6,
            l: Key::KeyA,
            r: Key::Kp7,
            lm: Key::KpPlus,
            ls: Key::KpReturn,
            up: Key::Dot,
            down: Key::KeyE,
            left: Key::KeyO,
            right: Key::KeyU,
            c_up: Key::UpArrow,
            c_down: Key::DownArrow,
            c_left: Key::LeftArrow,
            c_right: Key::RightArrow,
            mod_x: Key::Space,
            mod_y: Key::Alt,
            debug: Key::SemiColon,
        }
    }

    /// The standard keys.
    pub fn standard() -> (map: InputMap)
        ensures
            map == InputMap::standard_layout(),
    {
        InputMap {
            start: Key::KeyF,
            a: Key::Kp0,
            b: Key::Kp4,
            x: Key::Kp5,
            y: Key::Kp8,
            z: Key::Kp6,
            l: Key::KeyA,
            r: Key::Kp7,
            lm: Key::KpPlus,
            ls: Key::KpReturn,
            up: Key::Dot,
            down: Key::KeyE,
            left: Key::KeyO,
            right: Key::KeyU,
            c_up: Key::UpArrow,
            c_down: Key::DownArrow,
            c_left: Key::LeftArrow,
            c_right: Key::RightArrow,
            mod_x: Key::Space,
            mod_y: Key::Alt,
            debug: Key::SemiColon,
        }
    }

    /// The key of `input`.
    pub fn key_of(&self, input: LogicalInput) -> (key: Key)
        ensures
            key == self.bound_key(input),
    {
        match input {
            LogicalInput::Start => self.start,
            LogicalInput::A => self.a,
            LogicalInput::B => self.b,
            LogicalInput::X => self.x,
            LogicalInput::Y => self.y,
            LogicalInput::Z => self.z,
            LogicalInput::L => self.l,
            LogicalInput::R => self.r,
            LogicalInput::ShieldMedium => self.lm,
            LogicalInput::ShieldLight => self.ls,
            LogicalInput::Up => self.up,
            LogicalInput::Down => self.down,
            LogicalInput::Left => self.left,
            LogicalInput::Right => self.right,
            LogicalInput::CUp => self.c_up,
            LogicalInput::CDown => self.c_down,
            LogicalInput::CLeft => self.c_left,
            LogicalInput::CRight => self.c_right,
            LogicalInput::ModX => self.mod_x,
            LogicalInput::ModY => self.mod_y,
            LogicalInput::Debug => self.debug,
        }
    }

    /// Finds the input that `key` drives. A key that is bound to nothing gives
    /// `None`.
    pub fn lookup(&self, key: Key) -> (found: Option<LogicalInput>)
        ensures
            found == self.input_of(key),
            found is None <==> self.unbound(key),
            found matches Some(input) ==> self.drives(key, input),
    {
        let found: Option<LogicalInput> = if key == self.start {
            Some(LogicalInput::Start)
        } else if key == self.a {
            Some(LogicalInput::A)
        } else if key == self.b {
            Some(LogicalInput::B)
        } else if key == self.x {
            Some(LogicalInput::X)
        } else if key == self.y {
            Some(LogicalInput::Y)
        } else if key == self.z {
            Some(LogicalInput::Z)
        } else if key == self.l {
            Some(LogicalInput::L)
        } else if key == self.r {
            Some(LogicalInput::R)
        } else if key == self.lm {
            Some(LogicalInput::ShieldMedium)
        } else if key == self.ls {
            Some(LogicalInput::ShieldLight)
        } else if key == self.up {
            Some(LogicalInput::Up)
        } else if key == self.down {
            Some(LogicalInput::Down)
        } else if key == self.left {
            Some(LogicalInput::Left)
        } else if key == self.right {
            Some(LogicalInput::Right)
        } else if key == self.c_up {
            Some(LogicalInput::CUp)
        } else if key == self.c_down {
            Some(LogicalInput::CDown)
        } else if key == self.c_left {
            Some(LogicalInput::CLeft)
        } else if key == self.c_right {
            Some(LogicalInput::CRight)
        } else if key == self.mod_x {
            Some(LogicalInput::ModX)
        } else if key == self.mod_y {
            Some(LogicalInput::ModY)
        } else if key == self.debug {
            Some(LogicalInput::Debug)
        } else {
            None
        };
        proof {
            match found {
                Some(input) => {
                    assert(self.drives(key, input));
                    self.lemma_driven_input_is_unique(key, input);
                },
                None => {
                    assert(self.unbound(key));
                },
            }
        }
        found
    }

    /// A key drives at most one input.
    pub proof fn lemma_driven_input_is_unique(self, key: Key, input: LogicalInput)
        requires
            self.drives(key, input),
        ensures
            self.input_of(key) == Some(input),
    {
        assert(!self.unbound(key));
        let chosen = choose|other: LogicalInput| self.drives(key, other);
        assert(self.drives(key, chosen));
        assert(chosen.rank() == input.rank());
    }
}

/// Everything that is written to the device.
#[derive(Clone, Copy, Debug, PartialEq, Eq, Hash, Structural)]
pub enum LogicalOutput {
    Start,
    A,
    B,
    X,
    Y,
    Z,
    L,
    R,
    LeftAnalog,
    RightAnalog,
    Horizontal,
    Vertical,
    CHorizontal,
    CVertical,
    DUp,
    DDown,
    DLeft,
    DRight,
}

/// The device target of each logical output.
#[derive(Clone, Copy, Debug, PartialEq, Eq, Structural)]
pub struct OutputMap {
    // face
    pub start: GamePad,
    pub a: GamePad,
    pub b: GamePad,
    pub x: GamePad,
    pub y: GamePad,
    pub z: GamePad,
    // triggers
    pub l: GamePad,
    pub r: GamePad,
    pub la: Wheel,
    pub ra: Wheel,
    // stick
    pub horizontal: Position,
    pub vertical: Position,
    // c-stick
    pub c_horizontal: Position,
    pub c_vertical: Position,
    // dpad
    pub d_up: GamePad,
    pub d_down: GamePad,
    pub d_left: GamePad,
    pub d_right: GamePad,
}

impl OutputMap {
    /// The target that `output` is written to.
    pub open spec fn bound_target(self, output: LogicalOutput) -> DeviceTarget {
        match output {
            LogicalOutput::Start => DeviceTarget::Button(self.start),
            LogicalOutput::A => DeviceTarget::Button(self.a),
            LogicalOutput::B => DeviceTarget::Button(self.b),
            LogicalOutput::X => DeviceTarget::Button(self.x),
            LogicalOutput::Y => DeviceTarget::Button(self.y),
            LogicalOutput::Z => DeviceTarget::Button(self.z),
            LogicalOutput::L => DeviceTarget::Button(self.l),
            LogicalOutput::R => DeviceTarget::Button(self.r),
            LogicalOutput::LeftAnalog => DeviceTarget::Trigger(self.la),
            LogicalOutput::RightAnalog => DeviceTarget::Trigger(self.ra),
            LogicalOutput::Horizontal => DeviceTarget::Stick(self.horizontal),
            LogicalOutput::Vertical => DeviceTarget::Stick(self.vertical),
            LogicalOutput::CHorizontal => DeviceTarget::Stick(self.c_horizontal),
            LogicalOutput::CVertical => DeviceTarget::Stick(self.c_vertical),
            LogicalOutput::DUp => DeviceTarget::Button(self.d_up),
            LogicalOutput::DDown => DeviceTarget::Button(self.d_down),
            LogicalOutput::DLeft => DeviceTarget::Button(self.d_left),
            LogicalOutput::DRight => DeviceTarget::Button(self.d_right),
        }
    }

    /// The layout that the engine starts with.
    pub open spec fn standard_layout() -> OutputMap {
        OutputMap {
            start: GamePad::Start,
            a: GamePad::A,
            b: GamePad::B,
            x: GamePad::X,
            y: GamePad::Y,
            z: GamePad::ThumbR,
            l: GamePad::TL,
            r: GamePad::TR,
            la: Wheel::Rudder,
            ra: Wheel::Throttle,
            horizontal: Position::X,
            vertical: Position::Y,
            c_horizontal: Position::RX,
            c_vertical: Position::RY,
            d_up: GamePad::North,
            d_down: GamePad::North,
            d_left: GamePad::North,
            d_right: GamePad::North,
        }
    }

    /// The standard targets.
    pub fn standard() -> (map: OutputMap)
        ensures
            map == OutputMap::standard_layout(),
    {
        OutputMap {
            start: GamePad::Start,
            a: GamePad::A,
            b: GamePad::B,
            x: GamePad::X,
            y: GamePad::Y,
            z: GamePad::ThumbR,
            l: GamePad::TL,
            r: GamePad::TR,
            la: Wheel::Rudder,
            ra: Wheel::Throttle,
            horizontal: Position::X,
            vertical: Position::Y,
            c_horizontal: Position::RX,
            c_vertical: Position::RY,
            d_up: GamePad::North,
            d_down: GamePad::North,
            d_left: GamePad::North,
            d_right: GamePad::North,
        }
    }

    /// The target of `output`.
    pub fn target(&self, output: LogicalOutput) -> (target: DeviceTarget)
        ensures
            target == self.bound_target(output),
    {
        match output {
            LogicalOutput::Start => DeviceTarget::Button(self.start),
            LogicalOutput::A => DeviceTarget::Button(self.a),
            LogicalOutput::B => DeviceTarget::Button(self.b),
            LogicalOutput::X => DeviceTarget::Button(self.x),
            LogicalOutput::Y => DeviceTarget::Button(self.y),
            LogicalOutput::Z => DeviceTarget::Button(self.z),
            LogicalOutput::L => DeviceTarget::Button(self.l),
            LogicalOutput::R => DeviceTarget::Button(self.r),
            LogicalOutput::LeftAnalog => DeviceTarget::Trigger(self.la),
            LogicalOutput::RightAnalog => DeviceTarget::Trigger(self.ra),
            LogicalOutput::Horizontal => DeviceTarget::Stick(self.horizontal),
            LogicalOutput::Vertical => DeviceTarget::Stick(self.vertical),
            LogicalOutput::CHorizontal => DeviceTarget::Stick(self.c_horizontal),
            LogicalOutput::CVertical => DeviceTarget::Stick(self.c_vertical),
            LogicalOutput::DUp => DeviceTarget::Button(self.d_up),
            LogicalOutput::DDown => DeviceTarget::Button(self.d_down),
            LogicalOutput::DLeft => DeviceTarget::Button(self.d_left),
            LogicalOutput::DRight => DeviceTarget::Button(self.d_right),
        }
    }
}

} // verus!
