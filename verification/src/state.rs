//! The store of everything that is currently held, and what follows from it.
//!
//! The store is split into the groups of the controller: the face buttons,
//! the triggers, the main stick, the c-stick, the directional pad and the
//! modifiers. An event is offered to every group, and each group takes the
//! inputs that are its own.

use vstd::prelude::*;
use crate::angles::{classify, position, Context};
use crate::bindings::{LogicalInput, LogicalOutput};
use crate::coords::{Coords, SCALE};
use crate::socd::{memoryless_output, resolve_memoryless, AxisPair, Side};

verus! {

/// The value of a trigger that nothing presses.
pub const TRIGGER_RELEASED: u8 = 0;

/// The value of a trigger under the light shield key.
pub const TRIGGER_LIGHT: u8 = 22;

/// The value of a trigger under the medium shield key.
pub const TRIGGER_MEDIUM: u8 = 50;

/// The value of a trigger that is pressed all the way.
pub const TRIGGER_FULL: u8 = 128;

/// 1 for a held button, 0 for a released one.
pub open spec fn level(held: bool) -> int {
    if held {
        1
    } else {
        0
    }
}

/// The face buttons.
#[derive(Clone, Copy, Debug, PartialEq, Eq, Structural)]
pub struct Face {
    pub start: bool,
    pub a: bool,
    pub b: bool,
    pub x: bool,
    pub y: bool,
    pub z: bool,
}

impl Face {
    /// Whether `input` is a face button that is held.
    pub open spec fn held(self, input: LogicalInput) -> bool {
        match input {
            LogicalInput::Start => self.start,
            LogicalInput::A => self.a,
            LogicalInput::B => self.b,
            LogicalInput::X => self.x,
            LogicalInput::Y => self.y,
            LogicalInput::Z => self.z,
            _ => false,
        }
    }

    /// The buttons with that of `input` set, if it is one of them.
    pub open spec fn with(self, input: LogicalInput, down: bool) -> Face {
        match input {
            LogicalInput::Start => Face { start: down, ..self },
            LogicalInput::A => Face { a: down, ..self },
            LogicalInput::B => Face { b: down, ..self },
            LogicalInput::X => Face { x: down, ..self },
            LogicalInput::Y => Face { y: down, ..self },
            LogicalInput::Z => Face { z: down, ..self },
            _ => self,
        }
    }

    /// Sets the button of `input`, if it is a face button.
    pub fn set(&mut self, input: LogicalInput, down: bool)
        ensures
            *final(self) == old(self).with(input, down),
    {
        match input {
            LogicalInput::Start => {
                self.start = down;
            },
            LogicalInput::A => {
                self.a = down;
            },
            LogicalInput::B => {
                self.b = down;
            },
            LogicalInput::X => {
                self.x = down;
            },
            LogicalInput::Y => {
                self.y = down;
            },
            LogicalInput::Z => {
                self.z = down;
            },
            _ => {},
        }
    }
}

/// The two full triggers, the two shield keys, and the analog value of each
/// trigger as the last event left it.
#[derive(Clone, Copy, Debug, PartialEq, Eq, Structural)]
pub struct Triggers {
    pub l: bool,
    pub r: bool,
    pub lm: bool,
    pub ls: bool,
    pub la: u8,
    pub ra: u8,
}

impl Triggers {
    /// Whether `input` is a trigger key that is held.
    pub open spec fn held(self, input: LogicalInput) -> bool {
        match input {
            LogicalInput::L => self.l,
            LogicalInput::R => self.r,
            LogicalInput::ShieldMedium => self.lm,
            LogicalInput::ShieldLight => self.ls,
            _ => false,
        }
    }

    /// Each trigger is at one of its presets, and a trigger that none of its
    /// keys holds is released.
    pub open spec fn wf(self) -> bool {
        &&& self.la == TRIGGER_RELEASED || self.la == TRIGGER_LIGHT || self.la == TRIGGER_MEDIUM
            || self.la == TRIGGER_FULL
        &&& self.ra == TRIGGER_RELEASED || self.ra == TRIGGER_FULL
        &&& !self.l && !self.lm && !self.ls ==> self.la == TRIGGER_RELEASED
        &&& !self.r ==> self.ra == TRIGGER_RELEASED
    }

    /// A press sets the key and puts its trigger at the key's preset.
    pub open spec fn after_press(self, input: LogicalInput) -> Triggers {
        match input {
            LogicalInput::L => Triggers { l: true, la: TRIGGER_FULL, ..self },
            LogicalInput::R => Triggers { r: true, ra: TRIGGER_FULL, ..self },
            LogicalInput::ShieldMedium => Triggers { lm: true, la: TRIGGER_MEDIUM, ..self },
            LogicalInput::ShieldLight => Triggers { ls: true, la: TRIGGER_LIGHT, ..self },
            _ => self,
        }
    }

    /// A release clears the key and lets its trigger go.
    pub open spec fn after_release(self, input: LogicalInput) -> Triggers {
        match input {
            LogicalInput::L => Triggers { l: false, la: TRIGGER_RELEASED, ..self },
            LogicalInput::R => Triggers { r: false, ra: TRIGGER_RELEASED, ..self },
            LogicalInput::ShieldMedium => Triggers { lm: false, la: TRIGGER_RELEASED, ..self },
            LogicalInput::ShieldLight => Triggers { ls: false, la: TRIGGER_RELEASED, ..self },
            _ => self,
        }
    }

    /// Records a press of `input`, if it is a trigger key.
    pub fn press(&mut self, input: LogicalInput)
        ensures
            *final(self) == old(self).after_press(input),
            old(self).wf() ==> final(self).wf(),
    {
        match input {
            LogicalInput::L => {
                self.l = true;
                self.la = TRIGGER_FULL;
            },
            LogicalInput::R => {
                self.r = true;
                self.ra = TRIGGER_FULL;
            },
            LogicalInput::ShieldMedium => {
                self.lm = true;
                self.la = TRIGGER_MEDIUM;
            },
            LogicalInput::ShieldLight => {
                self.ls = true;
                self.la = TRIGGER_LIGHT;
            },
            _ => {},
        }
    }

    /// Records a release of `input`, if it is a trigger key.
    pub fn release(&mut self, input: LogicalInput)
        ensures
            *final(self) == old(self).after_release(input),
            old(self).wf() ==> final(self).wf(),
    {
        match input {
            LogicalInput::L => {
                self.l = false;
                self.la = TRIGGER_RELEASED;
            },
            LogicalInput::R => {
                self.r = false;
                self.ra = TRIGGER_RELEASED;
            },
            LogicalInput::ShieldMedium => {
                self.lm = false;
                self.la = TRIGGER_RELEASED;
            },
            LogicalInput::ShieldLight => {
                self.ls = false;
                self.la = TRIGGER_RELEASED;
            },
            _ => {},
        }
    }
}

/// One of the two axes of the main stick.
#[derive(Clone, Copy, Debug, PartialEq, Eq, Structural)]
pub enum MainAxis {
    Horizontal,
    Vertical,
}

impl MainAxis {
    /// The input at one end of the axis: Left and Up are the negative ends,
    /// Right and Down the positive ones.
    pub open spec fn input_at(self, side: Side) -> LogicalInput {
        match (self, side) {
            (MainAxis::Horizontal, Side::Negative) => LogicalInput::Left,
            (MainAxis::Horizontal, Side::Positive) => LogicalInput::Right,
            (MainAxis::Vertical, Side::Negative) => LogicalInput::Up,
            (MainAxis::Vertical, Side::Positive) => LogicalInput::Down,
        }
    }
}

/// The main stick: the resolver of each axis and the position of the last
/// cycle. Left and Up are the negative sides, Right and Down the positive.
#[derive(Clone, Copy, Debug, PartialEq, Eq, Structural)]
pub struct MainStick {
    pub horizontal: AxisPair,
    pub vertical: AxisPair,
    pub coords: Coords,
}

impl MainStick {
    /// The memory of both axes agrees with their keys.
    pub open spec fn wf(self) -> bool {
        self.horizontal.wf() && self.vertical.wf()
    }

    /// The resolver of one axis.
    pub open spec fn axis(self, which: MainAxis) -> AxisPair {
        match which {
            MainAxis::Horizontal => self.horizontal,
            MainAxis::Vertical => self.vertical,
        }
    }

    /// Whether `input` is a direction of the main stick that is held.
    pub open spec fn held(self, input: LogicalInput) -> bool {
        match input {
            LogicalInput::Up => self.vertical.negative,
            LogicalInput::Down => self.vertical.positive,
            LogicalInput::Left => self.horizontal.negative,
            LogicalInput::Right => self.horizontal.positive,
            _ => false,
        }
    }

    /// The stick after a press of `input`, if it is one of its directions.
    pub open spec fn after_press(self, input: LogicalInput) -> MainStick {
        match input {
            LogicalInput::Up => MainStick {
                vertical: self.vertical.after_press(Side::Negative),
                ..self
            },
            LogicalInput::Down => MainStick {
                vertical: self.vertical.after_press(Side::Positive),
                ..self
            },
            LogicalInput::Left => MainStick {
                horizontal: self.horizontal.after_press(Side::Negative),
                ..self
            },
            LogicalInput::Right => MainStick {
                horizontal: self.horizontal.after_press(Side::Positive),
                ..self
            },
            _ => self,
        }
    }

    /// The stick after a release of `input`, if it is one of its directions.
    pub open spec fn after_release(self, input: LogicalInput) -> MainStick {
        match input {
            LogicalInput::Up => MainStick {
                vertical: self.vertical.after_release(Side::Negative),
                ..self
            },
            LogicalInput::Down => MainStick {
                vertical: self.vertical.after_release(Side::Positive),
                ..self
            },
            LogicalInput::Left => MainStick {
                horizontal: self.horizontal.after_release(Side::Negative),
                ..self
            },
            LogicalInput::Right => MainStick {
                horizontal: self.horizontal.after_release(Side::Positive),
                ..self
            },
            _ => self,
        }
    }

    /// Records a press of `input`, if it is a direction of the stick.
    pub fn press(&mut self, input: LogicalInput)
        ensures
            *final(self) == old(self).after_press(input),
            old(self).wf() ==> final(self).wf(),
    {
        match input {
            LogicalInput::Up => {
                self.vertical.press(Side::Negative);
            },
            LogicalInput::Down => {
                self.vertical.press(Side::Positive);
            },
            LogicalInput::Left => {
                self.horizontal.press(Side::Negative);
            },
            LogicalInput::Right => {
                self.horizontal.press(Side::Positive);
            },
            _ => {},
        }
    }

    /// Records a release of `input`, if it is a direction of the stick.
    pub fn release(&mut self, input: LogicalInput)
        ensures
            *final(self) == old(self).after_release(input),
            old(self).wf() ==> final(self).wf(),
    {
        match input {
            LogicalInput::Up => {
                self.vertical.release(Side::Negative);
            },
            LogicalInput::Down => {
                self.vertical.release(Side::Positive);
            },
            LogicalInput::Left => {
                self.horizontal.release(Side::Negative);
            },
            LogicalInput::Right => {
                self.horizontal.release(Side::Positive);
            },
            _ => {},
        }
    }
}

/// The c-stick: its four keys and the position of the last cycle. Its axes
/// keep no memory.
#[derive(Clone, Copy, Debug, PartialEq, Eq, Structural)]
pub struct CStick {
    pub up: bool,
    pub down: bool,
    pub left: bool,
    pub right: bool,
    pub coords: Coords,
}

impl CStick {
    /// Whether `input` is a key of the c-stick that is held.
    pub open spec fn held(self, input: LogicalInput) -> bool {
        match input {
            LogicalInput::CUp => self.up,
            LogicalInput::CDown => self.down,
            LogicalInput::CLeft => self.left,
            LogicalInput::CRight => self.right,
            _ => false,
        }
    }

    /// The stick with the key of `input` set, if it is one of its keys.
    pub open spec fn with(self, input: LogicalInput, down: bool) -> CStick {
        match input {
            LogicalInput::CUp => CStick { up: down, ..self },
            LogicalInput::CDown => CStick { down: down, ..self },
            LogicalInput::CLeft => CStick { left: down, ..self },
            LogicalInput::CRight => CStick { right: down, ..self },
            _ => self,
        }
    }

    /// The position that the held keys call for: each axis at full deflection
    /// towards the side that is held alone, a diagonal being the plain sum of
    /// the two.
    pub open spec fn target(self) -> Coords {
        Coords {
            x: (SCALE * memoryless_output(self.left, self.right)) as i32,
            y: (SCALE * memoryless_output(self.up, self.down)) as i32,
        }
    }

    /// Sets the key of `input`, if it is one of the c-stick.
    pub fn set(&mut self, input: LogicalInput, down: bool)
        ensures
            *final(self) == old(self).with(input, down),
    {
        match input {
            LogicalInput::CUp => {
                self.up = down;
            },
            LogicalInput::CDown => {
                self.down = down;
            },
            LogicalInput::CLeft => {
                self.left = down;
            },
            LogicalInput::CRight => {
                self.right = down;
            },
            _ => {},
        }
    }
}

/// The directional pad. No key drives it, so its buttons stay released.
#[derive(Clone, Copy, Debug, PartialEq, Eq, Structural)]
pub struct DPad {
    pub up: bool,
    pub down: bool,
    pub left: bool,
    pub right: bool,
}

/// The two modifiers and the debug key.
#[derive(Clone, Copy, Debug, PartialEq, Eq, Structural)]
pub struct Mods {
    pub x: bool,
    pub y: bool,
    pub debug: bool,
}

impl Mods {
    /// Whether `input` is a modifier or the debug key, and held.
    pub open spec fn held(self, input: LogicalInput) -> bool {
        match input {
            LogicalInput::ModX => self.x,
            LogicalInput::ModY => self.y,
            LogicalInput::Debug => self.debug,
            _ => false,
        }
    }

    /// The keys with that of `input` set, if it is one of them.
    pub open spec fn with(self, input: LogicalInput, down: bool) -> Mods {
        match input {
            LogicalInput::ModX => Mods { x: down, ..self },
            LogicalInput::ModY => Mods { y: down, ..self },
            LogicalInput::Debug => Mods { debug: down, ..self },
            _ => self,
        }
    }

    /// Sets the key of `input`, if it is a modifier or the debug key.
    pub fn set(&mut self, input: LogicalInput, down: bool)
        ensures
            *final(self) == old(self).with(input, down),
    {
        match input {
            LogicalInput::ModX => {
                self.x = down;
            },
            LogicalInput::ModY => {
                self.y = down;
            },
            LogicalInput::Debug => {
                self.debug = down;
            },
            _ => {},
        }
    }
}

/// The state of every logical input, the trigger values that the last events
/// left, and the stick positions of the last cycle.
#[derive(Clone, Copy, Debug, PartialEq, Eq, Structural)]
pub struct State {
    pub face: Face,
    pub triggers: Triggers,
    pub stick: MainStick,
    pub c_stick: CStick,
    pub dpad: DPad,
    pub mods: Mods,
}

impl State {
    /// Nothing held, both triggers released, both sticks centred.
    pub open spec fn initial() -> State {
        State {
            face: Face { start: false, a: false, b: false, x: false, y: false, z: false },
            triggers: Triggers { l: false, r: false, lm: false, ls: false, la: 0, ra: 0 },
            stick: MainStick {
                horizontal: AxisPair::neutral(),
                vertical: AxisPair::neutral(),
                coords: Coords { x: 0, y: 0 },
            },
            c_stick: CStick {
                up: false,
                down: false,
                left: false,
                right: false,
                coords: Coords { x: 0, y: 0 },
            },
            dpad: DPad { up: false, down: false, left: false, right: false },
            mods: Mods { x: false, y: false, debug: false },
        }
    }

    /// The memory of both axes of the main stick agrees with their keys, each
    /// trigger is at a preset, and a trigger that no key holds is released.
    pub open spec fn wf(self) -> bool {
        self.stick.wf() && self.triggers.wf()
    }

    /// Whether `input` is held: every input belongs to one group, and is held
    /// where its group holds it.
    pub open spec fn held(self, input: LogicalInput) -> bool {
        self.face.held(input) || self.triggers.held(input) || self.stick.held(input)
            || self.c_stick.held(input) || self.mods.held(input)
    }

    /// No logical input is held.
    pub open spec fn idle(self) -> bool {
        forall|input: LogicalInput| !#[trigger] self.held(input)
    }

    /// The state after a press of `input`. A press of an input that is held
    /// already changes nothing. Otherwise the input becomes held; a trigger
    /// key also sets its trigger to its preset, and a direction of the main
    /// stick passes through the resolver of its axis.
    pub open spec fn after_press(self, input: LogicalInput) -> State {
        if self.held(input) {
            self
        } else {
            State {
                face: self.face.with(input, true),
                triggers: self.triggers.after_press(input),
                stick: self.stick.after_press(input),
                c_stick: self.c_stick.with(input, true),
                mods: self.mods.with(input, true),
                ..self
            }
        }
    }

    /// The state after a release of `input`: the input is no longer held; a
    /// trigger key also releases its trigger, and a direction of the main
    /// stick passes through the resolver of its axis.
    pub open spec fn after_release(self, input: LogicalInput) -> State {
        State {
            face: self.face.with(input, false),
            triggers: self.triggers.after_release(input),
            stick: self.stick.after_release(input),
            c_stick: self.c_stick.with(input, false),
            mods: self.mods.with(input, false),
            ..self
        }
    }

    /// What the notch table is asked under: a shield button is either of the
    /// two full triggers, the attack button is B.
    pub open spec fn context(self) -> Context {
        Context {
            shield: self.triggers.l || self.triggers.r,
            attack: self.face.b,
            mod_x: self.mods.x,
            mod_y: self.mods.y,
        }
    }

    /// The position of the main stick that the held inputs call for.
    pub open spec fn target(self) -> Coords {
        position(self.stick.horizontal.output(), self.stick.vertical.output(), self.context())
    }

    /// The state with both stick positions brought up to date.
    pub open spec fn recomputed(self) -> State {
        State {
            stick: MainStick { coords: self.target(), ..self.stick },
            c_stick: CStick { coords: self.c_stick.target(), ..self.c_stick },
            ..self
        }
    }

    /// The value that is written for `output`: the level of a button, the
    /// value of a trigger, the byte of a stick axis.
    pub open spec fn value_of(self, output: LogicalOutput) -> int {
        match output {
            LogicalOutput::Start => level(self.face.start),
            LogicalOutput::A => level(self.face.a),
            LogicalOutput::B => level(self.face.b),
            LogicalOutput::X => level(self.face.x),
            LogicalOutput::Y => level(self.face.y),
            LogicalOutput::Z => level(self.face.z),
            LogicalOutput::L => level(self.triggers.l),
            LogicalOutput::R => level(self.triggers.r),
            LogicalOutput::LeftAnalog => self.triggers.la as int,
            LogicalOutput::RightAnalog => self.triggers.ra as int,
            LogicalOutput::Horizontal => self.stick.coords.bytes().0,
            LogicalOutput::Vertical => self.stick.coords.bytes().1,
            LogicalOutput::CHorizontal => self.c_stick.coords.bytes().0,
            LogicalOutput::CVertical => self.c_stick.coords.bytes().1,
            LogicalOutput::DUp => level(self.dpad.up),
            LogicalOutput::DDown => level(self.dpad.down),
            LogicalOutput::DLeft => level(self.dpad.left),
            LogicalOutput::DRight => level(self.dpad.right),
        }
    }

    /// A state at rest.
    pub fn new() -> (state: State)
        ensures
            state == State::initial(),
            state.wf(),
            state.idle(),
    {
        State {
            face: Face { start: false, a: false, b: false, x: false, y: false, z: false },
            triggers: Triggers {
                l: false,
                r: false,
                lm: false,
                ls: false,
                la: TRIGGER_RELEASED,
                ra: TRIGGER_RELEASED,
            },
            stick: MainStick {
                horizontal: AxisPair::new(),
                vertical: AxisPair::new(),
                coords: Coords { x: 0, y: 0 },
            },
            c_stick: CStick {
                up: false,
                down: false,
                left: false,
                right: false,
                coords: Coords { x: 0, y: 0 },
            },
            dpad: DPad { up: false, down: false, left: false, right: false },
            mods: Mods { x: false, y: false, debug: false },
        }
    }

    /// Whether `input` is held.
    pub fn is_held(&self, input: LogicalInput) -> (held: bool)
        ensures
            held == self.held(input),
    {
        match input {
            LogicalInput::Start => self.face.start,
            LogicalInput::A => self.face.a,
            LogicalInput::B => self.face.b,
            LogicalInput::X => self.face.x,
            LogicalInput::Y => self.face.y,
            LogicalInput::Z => self.face.z,
            LogicalInput::L => self.triggers.l,
            LogicalInput::R => self.triggers.r,
            LogicalInput::ShieldMedium => self.triggers.lm,
            LogicalInput::ShieldLight => self.triggers.ls,
            LogicalInput::Up => self.stick.vertical.negative,
            LogicalInput::Down => self.stick.vertical.positive,
            LogicalInput::Left => self.stick.horizontal.negative,
            LogicalInput::Right => self.stick.horizontal.positive,
            LogicalInput::CUp => self.c_stick.up,
            LogicalInput::CDown => self.c_stick.down,
            LogicalInput::CLeft => self.c_stick.left,
            LogicalInput::CRight => self.c_stick.right,
            LogicalInput::ModX => self.mods.x,
            LogicalInput::ModY => self.mods.y,
            LogicalInput::Debug => self.mods.debug,
        }
    }

    /// Records a press of `input`.
    pub fn press(&mut self, input: LogicalInput)
        ensures
            *final(self) == old(self).after_press(input),
            old(self).held(input) ==> *final(self) == *old(self),
            final(self).held(input),
            old(self).wf() ==> final(self).wf(),
    {
        if !self.is_held(input) {
            self.face.set(input, true);
            self.triggers.press(input);
            self.stick.press(input);
            self.c_stick.set(input, true);
            self.mods.set(input, true);
        }
    }

    /// Records a release of `input`.
    pub fn release(&mut self, input: LogicalInput)
        ensures
            *final(self) == old(self).after_release(input),
            !final(self).held(input),
            old(self).wf() ==> final(self).wf(),
    {
        self.face.set(input, false);
        self.triggers.release(input);
        self.stick.release(input);
        self.c_stick.set(input, false);
        self.mods.set(input, false);
    }

    /// Brings both stick positions up to date with what is held: resolves the
    /// axes, looks up the notch, and places the c-stick.
    pub fn recompute(&mut self)
        ensures
            *final(self) == old(self).recomputed(),
            final(self).stick.coords.in_range(),
            final(self).c_stick.coords.in_range(),
    {
        let context = Context {
            shield: self.triggers.l || self.triggers.r,
            attack: self.face.b,
            mod_x: self.mods.x,
            mod_y: self.mods.y,
        };
        let across: i8 = self.stick.horizontal.resolve();
        let down: i8 = self.stick.vertical.resolve();
        self.stick.coords = classify(across, down, context);
        let c_across: i8 = resolve_memoryless(self.c_stick.left, self.c_stick.right);
        let c_down: i8 = resolve_memoryless(self.c_stick.up, self.c_stick.down);
        self.c_stick.coords = Coords { x: SCALE * (c_across as i32), y: SCALE * (c_down as i32) };
    }

    /// The value to write for `output`.
    pub fn value(&self, output: LogicalOutput) -> (value: i32)
        ensures
            value == self.value_of(output),
    {
        match output {
            LogicalOutput::Start => button_level(self.face.start),
            LogicalOutput::A => button_level(self.face.a),
            LogicalOutput::B => button_level(self.face.b),
            LogicalOutput::X => button_level(self.face.x),
            LogicalOutput::Y => button_level(self.face.y),
            LogicalOutput::Z => button_level(self.face.z),
            LogicalOutput::L => button_level(self.triggers.l),
            LogicalOutput::R => button_level(self.triggers.r),
            LogicalOutput::LeftAnalog => self.triggers.la as i32,
            LogicalOutput::RightAnalog => self.triggers.ra as i32,
            LogicalOutput::Horizontal => self.stick.coords.to_bytes().0,
            LogicalOutput::Vertical => self.stick.coords.to_bytes().1,
            LogicalOutput::CHorizontal => self.c_stick.coords.to_bytes().0,
            LogicalOutput::CVertical => self.c_stick.coords.to_bytes().1,
            LogicalOutput::DUp => button_level(self.dpad.up),
            LogicalOutput::DDown => button_level(self.dpad.down),
            LogicalOutput::DLeft => button_level(self.dpad.left),
            LogicalOutput::DRight => button_level(self.dpad.right),
        }
    }
}

/// The level of a button.
fn button_level(held: bool) -> (value: i32)
    ensures
        value == level(held),
{
    if held {
        1
    } else {
        0
    }
}

/// A repeated press changes nothing: pressing an input that is held leaves
/// every flag, both triggers and the memory of both axes as they were.
pub proof fn lemma_repeated_press_changes_nothing(state: State, input: LogicalInput)
    requires
        state.held(input),
    ensures
        state.after_press(input) == state,
{
}

/// A press is seen at once, whatever was held before.
pub proof fn lemma_press_holds(state: State, input: LogicalInput)
    ensures
        state.after_press(input).held(input),
{
}

/// A press is idempotent, whatever was held before.
pub proof fn lemma_press_is_idempotent(state: State, input: LogicalInput)
    ensures
        state.after_press(input).after_press(input) == state.after_press(input),
{
    lemma_press_holds(state, input);
}

/// A release is seen at once, whatever was held before.
pub proof fn lemma_release_lets_go(state: State, input: LogicalInput)
    ensures
        !state.after_release(input).held(input),
{
}

/// A press of one input leaves every other input as it was.
pub proof fn lemma_press_touches_one_input(state: State, input: LogicalInput, other: LogicalInput)
    requires
        other != input,
    ensures
        state.after_press(input).held(other) == state.held(other),
{
}

/// A release of one input leaves every other input as it was.
pub proof fn lemma_release_touches_one_input(
    state: State,
    input: LogicalInput,
    other: LogicalInput,
)
    requires
        other != input,
    ensures
        state.after_release(input).held(other) == state.held(other),
{
}

/// Neither a press nor a release disturbs the memory of the axes, nor leaves
/// a trigger pressed that no key holds.
pub proof fn lemma_events_keep_wf(state: State, input: LogicalInput)
    requires
        state.wf(),
    ensures
        state.after_press(input).wf(),
        state.after_release(input).wf(),
{
}

} // verus!
