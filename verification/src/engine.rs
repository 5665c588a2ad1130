//! The engine: key events in, one frame of device writes out per cycle.
//!
//! A cycle applies every event that has arrived, in the order of arrival,
//! brings the sticks up to date once, and lists what is to be written. The
//! writing itself, and the commit that ends a frame, belong to the caller.

use vstd::prelude::*;
use crate::bindings::{InputMap, LogicalInput, LogicalOutput, OutputMap};
use crate::device::{DeviceTarget, Write};
use crate::index::KeyIndex;
use crate::keys::{Key, KeyEvent, Transition};
use crate::socd::{last_exclusive, run, sign_of, AxisEvent, Side};
use crate::state::{MainAxis, State};

verus! {

/// The number of writes in a frame.
pub const FRAME_LEN: usize = 14;

/// The outputs of a frame in the order in which they are written: the face
/// buttons, the triggers as buttons and as axes, the main stick, the c-stick.
pub open spec fn emitted(index: int) -> LogicalOutput {
    if index == 0 {
        LogicalOutput::Start
    } else if index == 1 {
        LogicalOutput::A
    } else if index == 2 {
        LogicalOutput::B
    } else if index == 3 {
        LogicalOutput::X
    } else if index == 4 {
        LogicalOutput::Y
    } else if index == 5 {
        LogicalOutput::Z
    } else if index == 6 {
        LogicalOutput::L
    } else if index == 7 {
        LogicalOutput::R
    } else if index == 8 {
        LogicalOutput::LeftAnalog
    } else if index == 9 {
        LogicalOutput::RightAnalog
    } else if index == 10 {
        LogicalOutput::Horizontal
    } else if index == 11 {
        LogicalOutput::Vertical
    } else if index == 12 {
        LogicalOutput::CHorizontal
    } else {
        LogicalOutput::CVertical
    }
}

/// The write of one output: its target under `output`, its value in `state`.
pub open spec fn write_of(output: OutputMap, state: State, which: LogicalOutput) -> Write {
    Write { target: output.bound_target(which), value: state.value_of(which) as i32 }
}

/// The frame of `state`: one write for each emitted output, in order.
pub open spec fn frame(output: OutputMap, state: State) -> Seq<Write> {
    Seq::new(FRAME_LEN as nat, |index: int| write_of(output, state, emitted(index)))
}

/// The state after a press of `key`: the press of the input that the key
/// drives, and nothing for a key that drives none.
pub open spec fn pressed(input: InputMap, state: State, key: Key) -> State {
    match input.input_of(key) {
        Some(driven) => state.after_press(driven),
        None => state,
    }
}

/// The state after a release of `key`.
pub open spec fn released(input: InputMap, state: State, key: Key) -> State {
    match input.input_of(key) {
        Some(driven) => state.after_release(driven),
        None => state,
    }
}

/// The state after one event.
pub open spec fn handled(input: InputMap, state: State, event: KeyEvent) -> State {
    match event.transition {
        Transition::Pressed => pressed(input, state, event.key),
        Transition::Released => released(input, state, event.key),
    }
}

/// The state after a run of events, the first of them applied first.
pub open spec fn handled_all(input: InputMap, state: State, events: Seq<KeyEvent>) -> State
    decreases events.len(),
{
    if events.len() == 0 {
        state
    } else {
        handled(input, handled_all(input, state, events.drop_last()), events.last())
    }
}

/// What a key event means to one axis of the main stick: a press or release
/// of one of its two ends, or nothing.
pub open spec fn axis_event(input: InputMap, event: KeyEvent, axis: MainAxis) -> Option<AxisEvent> {
    let pressed = event.transition == Transition::Pressed;
    if input.input_of(event.key) == Some(axis.input_at(Side::Negative)) {
        Some(AxisEvent { side: Side::Negative, pressed })
    } else if input.input_of(event.key) == Some(axis.input_at(Side::Positive)) {
        Some(AxisEvent { side: Side::Positive, pressed })
    } else {
        None
    }
}

/// The events of one axis among a run of key events, in their order.
pub open spec fn axis_events(input: InputMap, events: Seq<KeyEvent>, axis: MainAxis) -> Seq<
    AxisEvent,
>
    decreases events.len(),
{
    if events.len() == 0 {
        Seq::empty()
    } else {
        let earlier = axis_events(input, events.drop_last(), axis);
        match axis_event(input, events.last(), axis) {
            Some(event) => earlier.push(event),
            None => earlier,
        }
    }
}

/// The state after one cycle: every event applied in order, then the sticks
/// brought up to date.
pub open spec fn cycled(input: InputMap, state: State, events: Seq<KeyEvent>) -> State {
    handled_all(input, state, events).recomputed()
}

/// The state after `count` cycles in which no event arrives.
pub open spec fn rested(input: InputMap, state: State, count: nat) -> State
    decreases count,
{
    if count == 0 {
        state
    } else {
        cycled(input, rested(input, state, (count - 1) as nat), Seq::empty())
    }
}

/// The engine: the index of the key bindings, the table of the targets, and
/// the state that the events drive.
pub struct Rekt {
    pub keys: KeyIndex,
    pub output: OutputMap,
    pub state: State,
}

impl Rekt {
    /// The key bindings of the engine.
    pub open spec fn input(self) -> InputMap {
        self.keys.bindings()
    }

    /// An engine with the standard bindings and nothing held.
    pub fn new() -> (engine: Rekt)
        ensures
            engine.input() == InputMap::standard_layout(),
            engine.output == OutputMap::standard_layout(),
            engine.state == State::initial(),
            engine.state.wf(),
    {
        Rekt::with_bindings(InputMap::standard(), OutputMap::standard())
    }

    /// An engine with bindings of the caller's choice and nothing held.
    pub fn with_bindings(input: InputMap, output: OutputMap) -> (engine: Rekt)
        ensures
            engine.input() == input,
            engine.output == output,
            engine.state == State::initial(),
            engine.state.wf(),
    {
        Rekt { keys: KeyIndex::new(input), output, state: State::new() }
    }

    /// Applies one event.
    pub fn handle(&mut self, event: KeyEvent)
        ensures
            final(self).state == handled(old(self).input(), old(self).state, event),
            final(self).input() == old(self).input(),
            final(self).output == old(self).output,
            old(self).state.wf() ==> final(self).state.wf(),
    {
        match event.transition {
            Transition::Pressed => self.press(event.key),
            Transition::Released => self.release(event.key),
        }
    }

    /// Applies a press of `key`. A key that drives no input is ignored, and so
    /// is a key whose input is held already.
    pub fn press(&mut self, key: Key)
        ensures
            final(self).state == pressed(old(self).input(), old(self).state, key),
            old(self).input().unbound(key) ==> final(self).state == old(self).state,
            final(self).input() == old(self).input(),
            final(self).output == old(self).output,
            old(self).state.wf() ==> final(self).state.wf(),
    {
        match self.keys.lookup(key) {
            Some(driven) => {
                self.state.press(driven);
            },
            None => {},
        }
    }

    /// Applies a release of `key`. A key that drives no input is ignored.
    pub fn release(&mut self, key: Key)
        ensures
            final(self).state == released(old(self).input(), old(self).state, key),
            old(self).input().unbound(key) ==> final(self).state == old(self).state,
            final(self).input() == old(self).input(),
            final(self).output == old(self).output,
            old(self).state.wf() ==> final(self).state.wf(),
    {
        match self.keys.lookup(key) {
            Some(driven) => {
                self.state.release(driven);
            },
            None => {},
        }
    }

    /// Brings the sticks up to date and lists the writes of the frame. What
    /// is held does not change.
    pub fn process(&mut self) -> (writes: Vec<Write>)
        ensures
            final(self).state == old(self).state.recomputed(),
            writes@ == frame(old(self).output, final(self).state),
            writes@.len() == FRAME_LEN,
            final(self).input() == old(self).input(),
            final(self).output == old(self).output,
            old(self).state.wf() ==> final(self).state.wf(),
    {
        self.state.recompute();
        let mut writes: Vec<Write> = Vec::new();
        let mut index: usize = 0;
        while index < FRAME_LEN
            invariant
                index <= FRAME_LEN,
                writes@.len() == index,
                forall|at: int|
                    0 <= at < index ==> writes@[at] == write_of(
                        self.output,
                        self.state,
                        emitted(at),
                    ),
            decreases FRAME_LEN - index,
        {
            let which = emitted_at(index);
            writes.push(Write { target: self.output.target(which), value: self.state.value(which) });
            index = index + 1;
        }
        assert(writes@ =~= frame(self.output, self.state));
        writes
    }

    /// Runs one cycle: applies `events` in the order in which they arrived,
    /// then brings the sticks up to date once and lists the frame to write.
    pub fn cycle(&mut self, events: &Vec<KeyEvent>) -> (writes: Vec<Write>)
        ensures
            final(self).state == cycled(old(self).input(), old(self).state, events@),
            writes@ == frame(old(self).output, final(self).state),
            writes@.len() == FRAME_LEN,
            final(self).input() == old(self).input(),
            final(self).output == old(self).output,
            old(self).state.wf() ==> final(self).state.wf(),
    {
        let mut index: usize = 0;
        while index < events.len()
            invariant
                index <= events.len(),
                self.input() == old(self).input(),
                self.output == old(self).output,
                self.state == handled_all(old(self).input(), old(self).state, events@.take(index as int)),
                old(self).state.wf() ==> self.state.wf(),
            decreases events.len() - index,
        {
            assert(events@.take(index + 1).drop_last() =~= events@.take(index as int));
            self.handle(events[index]);
            index = index + 1;
        }
        assert(events@.take(index as int) =~= events@);
        self.process()
    }
}

/// The output at a place of the frame.
fn emitted_at(index: usize) -> (which: LogicalOutput)
    requires
        index < FRAME_LEN,
    ensures
        which == emitted(index as int),
{
    match index {
        0 => LogicalOutput::Start,
        1 => LogicalOutput::A,
        2 => LogicalOutput::B,
        3 => LogicalOutput::X,
        4 => LogicalOutput::Y,
        5 => LogicalOutput::Z,
        6 => LogicalOutput::L,
        7 => LogicalOutput::R,
        8 => LogicalOutput::LeftAnalog,
        9 => LogicalOutput::RightAnalog,
        10 => LogicalOutput::Horizontal,
        11 => LogicalOutput::Vertical,
        12 => LogicalOutput::CHorizontal,
        _ => LogicalOutput::CVertical,
    }
}

/// A press of a key whose input is held already changes nothing: neither a
/// flag, nor a trigger, nor the memory of an axis.
pub proof fn lemma_repeated_key_changes_nothing(
    input: InputMap,
    state: State,
    key: Key,
    driven: LogicalInput,
)
    requires
        input.drives(key, driven),
        state.held(driven),
    ensures
        pressed(input, state, key) == state,
{
    input.lemma_driven_input_is_unique(key, driven);
}

/// A key that drives no input changes nothing, pressed or released.
pub proof fn lemma_unbound_key_is_ignored(input: InputMap, state: State, event: KeyEvent)
    requires
        input.unbound(event.key),
    ensures
        handled(input, state, event) == state,
{
}

/// Events keep a well-formed state well formed.
pub proof fn lemma_run_keeps_wf(input: InputMap, state: State, events: Seq<KeyEvent>)
    requires
        state.wf(),
    ensures
        handled_all(input, state, events).wf(),
        cycled(input, state, events).wf(),
    decreases events.len(),
{
    if events.len() > 0 {
        lemma_run_keeps_wf(input, state, events.drop_last());
        let before = handled_all(input, state, events.drop_last());
        match input.input_of(events.last().key) {
            Some(driven) => {
                crate::state::lemma_events_keep_wf(before, driven);
            },
            None => {},
        }
    }
}

/// Each axis of the main stick sees its own keys and no others: after any
/// run of key events from rest, the axis is where its own events alone would
/// have brought it.
pub proof fn lemma_axis_follows_its_keys(input: InputMap, events: Seq<KeyEvent>, axis: MainAxis)
    ensures
        handled_all(input, State::initial(), events).stick.axis(axis) == run(
            axis_events(input, events, axis),
        ),
    decreases events.len(),
{
    if events.len() > 0 {
        lemma_axis_follows_its_keys(input, events.drop_last(), axis);
        let earlier = axis_events(input, events.drop_last(), axis);
        match axis_event(input, events.last(), axis) {
            Some(event) => {
                assert(earlier.push(event).drop_last() =~= earlier);
            },
            None => {},
        }
    }
}

/// Whatever keys were pressed and released since rest, the resolved sign of
/// each axis of the main stick is -1, 0 or 1, and while both of its keys are
/// held it is the sign of the side that was most recently held alone.
pub proof fn lemma_axis_resolution(input: InputMap, events: Seq<KeyEvent>, axis: MainAxis)
    ensures
        ({
            let pair = handled_all(input, State::initial(), events).stick.axis(axis);
            &&& pair.output() == -1 || pair.output() == 0 || pair.output() == 1
            &&& pair.both_held() ==> pair.output() == sign_of(
                last_exclusive(axis_events(input, events, axis)),
            )
        }),
{
    lemma_axis_follows_its_keys(input, events, axis);
    crate::socd::lemma_resolution_follows_last_exclusive(axis_events(input, events, axis));
}

/// Every write of a well-formed state fits its target: a button takes 0 or
/// 1, a trigger one of its presets, a stick axis a byte.
pub proof fn lemma_frame_fits_device(output: OutputMap, state: State, index: int)
    requires
        state.wf(),
        0 <= index < FRAME_LEN,
    ensures
        ({
            let write = frame(output, state)[index];
            match write.target {
                DeviceTarget::Button(_) => write.value == 0 || write.value == 1,
                DeviceTarget::Trigger(_) => write.value == 0 || write.value == 22 || write.value
                    == 50 || write.value == 128,
                DeviceTarget::Stick(_) => 0 <= write.value <= 255,
            }
        }),
{
}

/// The positions of the sticks depend on what is held and on nothing else:
/// bringing them up to date twice is bringing them up to date once.
pub proof fn lemma_recompute_is_idempotent(state: State)
    ensures
        state.recomputed().recomputed() == state.recomputed(),
{
}

/// No drift: however many cycles pass without an event, each writes the
/// frame that the first of them wrote.
pub proof fn lemma_rest_repeats_frame(input: InputMap, output: OutputMap, state: State, count: nat)
    requires
        count >= 1,
    ensures
        rested(input, state, count) == rested(input, state, 1),
        frame(output, rested(input, state, count)) == frame(output, rested(input, state, 1)),
    decreases count,
{
    reveal_with_fuel(rested, 2);
    if count > 1 {
        lemma_rest_repeats_frame(input, output, state, (count - 1) as nat);
        lemma_recompute_is_idempotent(state);
    }
}

/// The first frame, written before any event has arrived, is the neutral
/// one.
pub proof fn lemma_first_frame_is_neutral(input: InputMap, output: OutputMap, index: int)
    requires
        0 <= index < FRAME_LEN,
    ensures
        frame(output, cycled(input, State::initial(), Seq::empty()))[index].value == if index == 10
            || index == 12 {
            128i32
        } else if index == 11 || index == 13 {
            127i32
        } else {
            0i32
        },
{
    lemma_idle_frame_is_neutral(output, State::initial(), index);
}

/// With nothing held both sticks rest at the centre: byte 128 across and,
/// the vertical axis sitting one below, byte 127 down. Buttons and triggers
/// are released.
pub proof fn lemma_idle_frame_is_neutral(output: OutputMap, state: State, index: int)
    requires
        state.wf(),
        state.idle(),
        0 <= index < FRAME_LEN,
    ensures
        state.recomputed().stick.coords.bytes() == (128int, 127int),
        state.recomputed().c_stick.coords.bytes() == (128int, 127int),
        frame(output, state.recomputed())[index].value == if index == 10 || index == 12 {
            128i32
        } else if index == 11 || index == 13 {
            127i32
        } else {
            0i32
        },
{
    assert(!state.held(LogicalInput::Start));
    assert(!state.held(LogicalInput::A));
    assert(!state.held(LogicalInput::B));
    assert(!state.held(LogicalInput::X));
    assert(!state.held(LogicalInput::Y));
    assert(!state.held(LogicalInput::Z));
    assert(!state.held(LogicalInput::L));
    assert(!state.held(LogicalInput::R));
    assert(!state.held(LogicalInput::ShieldMedium));
    assert(!state.held(LogicalInput::ShieldLight));
    assert(!state.held(LogicalInput::Up));
    assert(!state.held(LogicalInput::Down));
    assert(!state.held(LogicalInput::Left));
    assert(!state.held(LogicalInput::Right));
    assert(!state.held(LogicalInput::CUp));
    assert(!state.held(LogicalInput::CDown));
    assert(!state.held(LogicalInput::CLeft));
    assert(!state.held(LogicalInput::CRight));
}

} // verus!
