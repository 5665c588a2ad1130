//! Stick positions and their device bytes.
//!
//! A position is a pair of signed fixed-point numbers. The unit is one
//! ten-thousandth of full deflection: `SCALE` is a stick pushed all the way,
//! 7000 is seven tenths of that. A device byte runs from 0 to 255 and splits
//! full deflection into 128 steps on either side of the centre.

use vstd::prelude::*;

verus! {

/// Full deflection, in the unit of a position.
pub const SCALE: i32 = 10000;

/// The byte of a centred stick before any correction.
pub const CENTER: i32 = 128;

/// The largest device byte.
pub const BYTE_MAX: i32 = 255;

/// The number of device steps nearest to `value`, 128 steps being full
/// deflection: `value * 128 / 10000` rounded to the nearest integer. Written
/// over twice the scale, half a step is added before the division, which
/// rounds down.
pub open spec fn steps(value: int) -> int {
    (256 * value + 10000) / 20000
}

/// `byte` kept within 0 and 255.
pub open spec fn clamp_byte(byte: int) -> int {
    if byte < 0 {
        0
    } else if byte > 255 {
        255
    } else {
        byte
    }
}

/// The device byte of a horizontal position: the nearest step above or below
/// the centre, kept within a byte.
pub open spec fn horizontal_byte(value: int) -> int {
    clamp_byte(steps(value) + 128)
}

/// The device byte of a vertical position. The vertical axis is the one that
/// sits one below the horizontal: 1 is taken off after the centre is added,
/// and the result is kept within a byte.
pub open spec fn vertical_byte(value: int) -> int {
    clamp_byte(steps(value) + 128 - 1)
}

/// `steps` rounds to the nearest step, and no position lies half way between
/// two steps: the chosen step is strictly less than half a step away, and
/// every other step is more than half a step away.
pub proof fn lemma_steps_is_nearest(value: int, other: int)
    ensures
        -10000 < 2 * (10000 * steps(value) - 128 * value) < 10000,
        other != steps(value) ==> 2 * (10000 * other - 128 * value) > 10000 || 2 * (10000 * other
            - 128 * value) < -10000,
{
    let n = 256 * value + 10000;
    let q = steps(value);
    assert(n == 20000 * q + n % 20000 && 0 <= n % 20000 < 20000) by {
        vstd::arithmetic::div_mod::lemma_fundamental_div_mod(n, 20000);
    }
    // A remainder of 0 would make 16 * value, which is even, equal to
    // 625 * (2 * q - 1), which is odd.
    assert(n % 20000 != 0) by {
        if n % 20000 == 0 {
            assert(16 * value == 625 * (2 * q - 1));
            assert((16 * value) % 2 == 0);
            assert((625 * (2 * q - 1)) % 2 == 1);
        }
    }
}

/// A position further out gives a byte further out: both bytes grow with the
/// position.
pub proof fn lemma_bytes_are_monotonic(low: int, high: int)
    requires
        low <= high,
    ensures
        steps(low) <= steps(high),
        horizontal_byte(low) <= horizontal_byte(high),
        vertical_byte(low) <= vertical_byte(high),
{
}

/// A position on one stick: `x` grows to the right and `y` grows downwards.
#[derive(Clone, Copy, Debug, PartialEq, Eq, Structural)]
pub struct Coords {
    pub x: i32,
    pub y: i32,
}

impl Coords {
    /// Neither component goes beyond full deflection.
    pub open spec fn in_range(self) -> bool {
        &&& -SCALE <= self.x <= SCALE
        &&& -SCALE <= self.y <= SCALE
    }

    /// The device bytes of the position, horizontal first.
    pub open spec fn bytes(self) -> (int, int) {
        (horizontal_byte(self.x as int), vertical_byte(self.y as int))
    }

    /// Replaces both components.
    pub fn set(&mut self, x: i32, y: i32)
        ensures
            *final(self) == (Coords { x, y }),
    {
        self.x = x;
        self.y = y;
    }

    /// Replaces the horizontal component.
    pub fn set_x(&mut self, x: i32)
        ensures
            *final(self) == (Coords { x, y: old(self).y }),
    {
        self.x = x;
    }

    /// Replaces the vertical component.
    pub fn set_y(&mut self, y: i32)
        ensures
            *final(self) == (Coords { x: old(self).x, y }),
    {
        self.y = y;
    }

    /// Quantizes the position to the bytes that the device takes.
    pub fn to_bytes(self) -> (bytes: (i32, i32))
        ensures
            bytes.0 == horizontal_byte(self.x as int),
            bytes.1 == vertical_byte(self.y as int),
            0 <= bytes.0 <= 255,
            0 <= bytes.1 <= 255,
    {
        let across: i32 = centered_steps(self.x);
        let down: i32 = centered_steps(self.y);
        (
            if across > BYTE_MAX {
                BYTE_MAX
            } else {
                across
            },
            if down < 1 {
                0
            } else {
                down - 1
            },
        )
    }
}

/// The nearest step of `value`, counted from the lowest byte, for positions
/// within full deflection; positions beyond it give the ends, 0 and 256.
fn centered_steps(value: i32) -> (count: i32)
    ensures
        0 <= count <= 256,
        -SCALE <= value <= SCALE ==> count == steps(value as int) + 128,
        value < -SCALE ==> count == 0 && steps(value as int) + 128 <= 0,
        value > SCALE ==> count == 256 && steps(value as int) + 128 >= 256,
{
    if value < -SCALE {
        0
    } else if value > SCALE {
        2 * CENTER
    } else {
        // 128 whole steps are added before dividing, which keeps the dividend positive.
        let shifted: i32 = 256 * value + 10000 + 20000 * CENTER;
        shifted / 20000
    }
}

} // verus!
