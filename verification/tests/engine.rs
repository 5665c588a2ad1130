use rekt::bindings::{InputMap, LogicalInput, OutputMap};
use rekt::coords::Coords;
use rekt::device::{DeviceTarget, GamePad, Position, Wheel, Write};
use rekt::engine::{Rekt, FRAME_LEN};
use rekt::keys::{Key, KeyEvent, Transition};
use rekt::state::State;

const LEFT: Key = Key::KeyO;
const RIGHT: Key = Key::KeyU;
const UP: Key = Key::Dot;
const DOWN: Key = Key::KeyE;
const SHIELD: Key = Key::KeyA;
const MOD_X: Key = Key::Space;
const MOD_Y: Key = Key::Alt;

fn press(key: Key) -> KeyEvent {
    KeyEvent { key, transition: Transition::Pressed }
}

fn release(key: Key) -> KeyEvent {
    KeyEvent { key, transition: Transition::Released }
}

fn values(writes: &[Write]) -> Vec<i32> {
    writes.iter().map(|write| write.value).collect()
}

fn stick(writes: &[Write]) -> (i32, i32) {
    (writes[10].value, writes[11].value)
}

fn c_stick(writes: &[Write]) -> (i32, i32) {
    (writes[12].value, writes[13].value)
}

fn normalized(coords: Coords) -> (f64, f64) {
    (f64::from(coords.x) / 10000.0, f64::from(coords.y) / 10000.0)
}

#[test]
fn new_engine_has_the_standard_bindings() {
    let engine = Rekt::new();
    assert_eq!(engine.keys.source(), InputMap::standard());
    assert_eq!(engine.output, OutputMap::standard());
    assert_eq!(engine.state, State::new());
}

#[test]
fn with_bindings_keeps_them() {
    let mut input = InputMap::standard();
    input.left = Key::KeyA;
    input.l = Key::KeyO;
    let mut output = OutputMap::standard();
    output.horizontal = Position::Z;
    let mut engine = Rekt::with_bindings(input, output);
    assert_eq!(engine.keys.source(), input);
    assert_eq!(engine.output, output);
    let writes = engine.cycle(&vec![press(Key::KeyA)]);
    assert_eq!(writes[10], Write { target: DeviceTarget::Stick(Position::Z), value: 0 });
    assert!(engine.state.is_held(LogicalInput::Left));
    assert!(!engine.state.is_held(LogicalInput::L));
}

#[test]
fn first_frame_is_neutral() {
    let mut engine = Rekt::new();
    let writes = engine.process();
    assert_eq!(writes.len(), FRAME_LEN);
    assert_eq!(
        writes,
        vec![
            Write { target: DeviceTarget::Button(GamePad::Start), value: 0 },
            Write { target: DeviceTarget::Button(GamePad::A), value: 0 },
            Write { target: DeviceTarget::Button(GamePad::B), value: 0 },
            Write { target: DeviceTarget::Button(GamePad::X), value: 0 },
            Write { target: DeviceTarget::Button(GamePad::Y), value: 0 },
            Write { target: DeviceTarget::Button(GamePad::ThumbR), value: 0 },
            Write { target: DeviceTarget::Button(GamePad::TL), value: 0 },
            Write { target: DeviceTarget::Button(GamePad::TR), value: 0 },
            Write { target: DeviceTarget::Trigger(Wheel::Rudder), value: 0 },
            Write { target: DeviceTarget::Trigger(Wheel::Throttle), value: 0 },
            Write { target: DeviceTarget::Stick(Position::X), value: 128 },
            Write { target: DeviceTarget::Stick(Position::Y), value: 127 },
            Write { target: DeviceTarget::Stick(Position::RX), value: 128 },
            Write { target: DeviceTarget::Stick(Position::RY), value: 127 },
        ]
    );
}

#[test]
fn idle_cycles_do_not_drift() {
    let mut engine = Rekt::new();
    let first = engine.cycle(&vec![]);
    for _ in 0..100 {
        let next = engine.cycle(&vec![]);
        assert_eq!(next, first);
        assert_eq!(stick(&next), (128, 127));
        assert_eq!(c_stick(&next), (128, 127));
    }
    assert_eq!(engine.state, State::new());
}

#[test]
fn idle_again_after_everything_is_released() {
    let mut engine = Rekt::new();
    let neutral = engine.cycle(&vec![]);
    engine.cycle(&vec![press(LEFT), press(UP), press(SHIELD), press(MOD_X), press(Key::UpArrow)]);
    let after = engine.cycle(&vec![
        release(LEFT),
        release(UP),
        release(SHIELD),
        release(MOD_X),
        release(Key::UpArrow),
    ]);
    assert_eq!(after, neutral);
    assert_eq!(engine.state, State::new());
}

#[test]
fn held_keys_repeat_their_frame() {
    let mut engine = Rekt::new();
    let first = engine.cycle(&vec![press(LEFT), press(DOWN), press(MOD_Y), press(SHIELD)]);
    for _ in 0..10 {
        assert_eq!(engine.cycle(&vec![]), first);
    }
    assert_eq!(stick(&first), (64, 236));
}

#[test]
fn left_alone_is_full_left() {
    let mut engine = Rekt::new();
    let writes = engine.cycle(&vec![press(LEFT)]);
    assert_eq!(engine.state.stick.coords, Coords { x: -10000, y: 0 });
    assert_eq!(normalized(engine.state.stick.coords), (-1.0, 0.0));
    assert_eq!(stick(&writes), (0, 127));
}

#[test]
fn left_then_right_keeps_left() {
    let mut engine = Rekt::new();
    // Left was held alone last, so it keeps the axis while both are held.
    engine.cycle(&vec![press(LEFT)]);
    let both = engine.cycle(&vec![press(RIGHT)]);
    assert!(engine.state.is_held(LogicalInput::Left));
    assert!(engine.state.is_held(LogicalInput::Right));
    assert_eq!(engine.state.stick.horizontal.resolve(), -1);
    assert_eq!(stick(&both), (0, 127));
    // Right goes, Left remains: the very next cycle is Left.
    let left = engine.cycle(&vec![release(RIGHT)]);
    assert_eq!(engine.state.stick.horizontal.resolve(), -1);
    assert_eq!(stick(&left), (0, 127));
}

#[test]
fn release_of_the_dominant_key_flips() {
    let mut engine = Rekt::new();
    engine.cycle(&vec![press(LEFT), press(RIGHT)]);
    assert_eq!(engine.state.stick.horizontal.resolve(), -1);
    let flipped = engine.cycle(&vec![release(LEFT)]);
    assert_eq!(engine.state.stick.horizontal.resolve(), 1);
    assert_eq!(stick(&flipped), (255, 127));
    let back = engine.cycle(&vec![press(LEFT)]);
    assert_eq!(stick(&back), (255, 127));
    let left = engine.cycle(&vec![release(RIGHT)]);
    assert_eq!(stick(&left), (0, 127));
}

#[test]
fn shield_up_left_is_the_even_diagonal() {
    let mut engine = Rekt::new();
    let writes = engine.cycle(&vec![press(LEFT), press(UP), press(SHIELD)]);
    assert_eq!(engine.state.stick.coords, Coords { x: -7000, y: -7000 });
    assert_eq!(normalized(engine.state.stick.coords), (-0.7, -0.7));
    assert_eq!(stick(&writes), (38, 37));
    assert_eq!(writes[6].value, 1);
    assert_eq!(writes[8].value, 128);
}

#[test]
fn events_of_one_cycle_are_applied_in_order() {
    let mut engine = Rekt::new();
    let writes = engine.cycle(&vec![press(RIGHT), press(LEFT)]);
    assert_eq!(stick(&writes), (255, 127));
    let mut engine = Rekt::new();
    let writes = engine.cycle(&vec![press(LEFT), press(RIGHT)]);
    assert_eq!(stick(&writes), (0, 127));
    let mut engine = Rekt::new();
    let writes = engine.cycle(&vec![press(LEFT), release(LEFT), press(RIGHT), press(LEFT)]);
    assert_eq!(stick(&writes), (255, 127));
}

#[test]
fn a_batch_is_the_same_as_one_event_per_cycle() {
    let events = vec![
        press(LEFT),
        press(UP),
        press(RIGHT),
        press(MOD_X),
        release(LEFT),
        press(SHIELD),
        press(DOWN),
        release(UP),
        press(Key::Kp4),
        release(MOD_X),
    ];
    let mut batched = Rekt::new();
    let frame = batched.cycle(&events);
    let mut stepped = Rekt::new();
    let mut last = stepped.cycle(&vec![]);
    for event in &events {
        last = stepped.cycle(&vec![*event]);
    }
    assert_eq!(frame, last);
    assert_eq!(batched.state, stepped.state);
    let mut handled = Rekt::new();
    for event in &events {
        handled.handle(*event);
    }
    assert_eq!(handled.process(), frame);
}

#[test]
fn unknown_keys_are_ignored() {
    let mut engine = Rekt::new();
    let neutral = engine.cycle(&vec![]);
    let writes = engine.cycle(&vec![
        press(Key::KeyQ),
        press(Key::Unknown(99)),
        release(Key::Escape),
        press(Key::F12),
    ]);
    assert_eq!(writes, neutral);
    assert_eq!(engine.state, State::new());
}

#[test]
fn repeated_key_press_changes_nothing() {
    let mut engine = Rekt::new();
    engine.cycle(&vec![press(LEFT), press(RIGHT), press(SHIELD), press(Key::KpPlus)]);
    let before = engine.state;
    for key in [LEFT, RIGHT, SHIELD, Key::KpPlus] {
        engine.press(key);
        assert_eq!(engine.state, before);
        engine.handle(press(key));
        assert_eq!(engine.state, before);
    }
    assert_eq!(engine.state.triggers.la, 50);
}

#[test]
fn press_and_release_by_key() {
    let mut engine = Rekt::new();
    engine.press(Key::Kp0);
    assert!(engine.state.face.a);
    engine.release(Key::Kp0);
    assert!(!engine.state.face.a);
    engine.press(Key::Kp7);
    assert!(engine.state.triggers.r);
    assert_eq!(engine.state.triggers.ra, 128);
    engine.release(Key::Kp7);
    assert_eq!(engine.state.triggers.ra, 0);
    engine.press(Key::KpReturn);
    assert_eq!(engine.state.triggers.la, 22);
    engine.press(Key::SemiColon);
    assert!(engine.state.mods.debug);
}

#[test]
fn buttons_and_triggers_pass_through() {
    let mut engine = Rekt::new();
    let writes = engine.cycle(&vec![
        press(Key::KeyF),
        press(Key::Kp4),
        press(Key::Kp8),
        press(Key::Kp7),
        press(Key::KpPlus),
    ]);
    assert_eq!(values(&writes), vec![1, 0, 1, 0, 1, 0, 0, 1, 50, 128, 128, 127, 128, 127]);
    let writes = engine.cycle(&vec![release(Key::Kp7), release(Key::KpPlus), press(Key::Kp6)]);
    assert_eq!(values(&writes), vec![1, 0, 1, 0, 1, 1, 0, 0, 0, 0, 128, 127, 128, 127]);
}

#[test]
fn c_stick_frames() {
    let mut engine = Rekt::new();
    let writes = engine.cycle(&vec![press(Key::UpArrow), press(Key::LeftArrow)]);
    assert_eq!(engine.state.c_stick.coords, Coords { x: -10000, y: -10000 });
    assert_eq!(c_stick(&writes), (0, 0));
    let writes = engine.cycle(&vec![press(Key::RightArrow)]);
    assert_eq!(c_stick(&writes), (128, 0));
    let writes = engine.cycle(&vec![release(Key::LeftArrow), release(Key::UpArrow)]);
    assert_eq!(c_stick(&writes), (255, 127));
    let writes = engine.cycle(&vec![press(Key::DownArrow)]);
    assert_eq!(c_stick(&writes), (255, 255));
    assert_eq!(stick(&writes), (128, 127));
}

#[test]
fn modifiers_tilt_the_stick() {
    let mut engine = Rekt::new();
    let writes = engine.cycle(&vec![press(RIGHT), press(MOD_X)]);
    assert_eq!(stick(&writes), (166, 127));
    let writes = engine.cycle(&vec![press(MOD_Y)]);
    assert_eq!(stick(&writes), (255, 127));
    let writes = engine.cycle(&vec![release(MOD_X)]);
    assert_eq!(stick(&writes), (186, 127));
    let writes = engine.cycle(&vec![press(DOWN)]);
    assert_eq!(stick(&writes), (168, 221));
    let writes = engine.cycle(&vec![release(RIGHT)]);
    assert_eq!(stick(&writes), (128, 165));
}

#[test]
fn process_keeps_what_is_held() {
    let mut engine = Rekt::new();
    engine.handle(press(LEFT));
    engine.handle(press(SHIELD));
    let held = engine.state;
    let writes = engine.process();
    assert_eq!(engine.state.face, held.face);
    assert_eq!(engine.state.triggers, held.triggers);
    assert_eq!(engine.state.stick.horizontal, held.stick.horizontal);
    assert_eq!(engine.state.stick.vertical, held.stick.vertical);
    assert_eq!(engine.state.mods, held.mods);
    assert_eq!(engine.process(), writes);
}
