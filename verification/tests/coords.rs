use rekt::coords::{Coords, BYTE_MAX, CENTER, SCALE};

fn bytes(x: i32, y: i32) -> (i32, i32) {
    Coords { x, y }.to_bytes()
}

/// The quantizer on floats: round to the nearest step, add the centre, take
/// one off the vertical axis, clamp.
fn reference(x: f64, y: f64) -> (i32, i32) {
    let across = (x * 128.0).round() as i32 + 128;
    let down = (y * 128.0).round() as i32 + 128 - 1;
    (across.clamp(0, 255), down.clamp(0, 255))
}

#[test]
fn constants() {
    assert_eq!(SCALE, 10000);
    assert_eq!(CENTER, 128);
    assert_eq!(BYTE_MAX, 255);
}

#[test]
fn centre_is_128_and_127() {
    assert_eq!(bytes(0, 0), (128, 127));
}

#[test]
fn full_deflection_stays_in_a_byte() {
    assert_eq!(bytes(10000, 10000), (255, 255));
    assert_eq!(bytes(-10000, -10000), (0, 0));
    assert_eq!(bytes(10000, -10000), (255, 0));
    assert_eq!(bytes(-10000, 10000), (0, 255));
}

#[test]
fn beyond_full_deflection_is_clamped() {
    assert_eq!(bytes(20000, 20000), (255, 255));
    assert_eq!(bytes(-20000, -20000), (0, 0));
    assert_eq!(bytes(i32::MAX, i32::MAX), (255, 255));
    assert_eq!(bytes(i32::MIN, i32::MIN), (0, 0));
    assert_eq!(bytes(10001, 10001), (255, 255));
    assert_eq!(bytes(-10001, -10001), (0, 0));
}

#[test]
fn notches_round_to_the_nearest_step() {
    assert_eq!(bytes(7000, 7000), (218, 217));
    assert_eq!(bytes(-7000, -7000), (38, 37));
    assert_eq!(bytes(7250, 6750), (221, 213));
    assert_eq!(bytes(6375, 3750), (210, 175));
    assert_eq!(bytes(5000, 8500), (192, 236));
    assert_eq!(bytes(5900, 8100), (204, 231));
    assert_eq!(bytes(7375, 3125), (222, 167));
    assert_eq!(bytes(3125, 7375), (168, 221));
    assert_eq!(bytes(3000, 4500), (166, 185));
    assert_eq!(bytes(-3000, -4500), (90, 69));
    assert_eq!(bytes(4500, 3000), (186, 165));
}

#[test]
fn one_step_is_seventy_eight_and_an_eighth() {
    // One step is 78.125 ten-thousandths; the halves lie at 39.0625.
    assert_eq!(bytes(39, 39), (128, 127));
    assert_eq!(bytes(40, 40), (129, 128));
    assert_eq!(bytes(-39, -39), (128, 127));
    assert_eq!(bytes(-40, -40), (127, 126));
    assert_eq!(bytes(78, 78), (129, 128));
    assert_eq!(bytes(117, 118), (129, 129));
}

#[test]
fn agrees_with_rounding_on_floats() {
    let mut value = -10000;
    while value <= 10000 {
        let normalized = f64::from(value) / 10000.0;
        assert_eq!(bytes(value, value), reference(normalized, normalized), "at {}", value);
        value += 1;
    }
}

#[test]
fn bytes_grow_with_the_position() {
    let mut last = bytes(-10500, -10500);
    let mut value = -10499;
    while value <= 10500 {
        let next = bytes(value, value);
        assert!(next.0 >= last.0 && next.1 >= last.1);
        assert!(next.0 - last.0 <= 1 && next.1 - last.1 <= 1);
        last = next;
        value += 1;
    }
}

#[test]
fn set_replaces_both_components() {
    let mut coords = Coords { x: 1, y: 2 };
    coords.set(7000, -7000);
    assert_eq!(coords, Coords { x: 7000, y: -7000 });
}

#[test]
fn set_x_keeps_y() {
    let mut coords = Coords { x: 1, y: 2 };
    coords.set_x(3000);
    assert_eq!(coords, Coords { x: 3000, y: 2 });
}

#[test]
fn set_y_keeps_x() {
    let mut coords = Coords { x: 1, y: 2 };
    coords.set_y(-4500);
    assert_eq!(coords, Coords { x: 1, y: -4500 });
}
