//! The notch table: from the resolved axes and the context buttons to a stick
//! position.
//!
//! Every entry is a canonical position in ten-thousandths of full deflection.
//! The table gives magnitudes; the signs come from the resolved axes alone.

use vstd::prelude::*;
use crate::coords::Coords;

verus! {

/// The buttons that choose between the notches of one direction.
#[derive(Clone, Copy, Debug, PartialEq, Eq, Structural)]
pub struct Context {
    /// A shield button is held.
    pub shield: bool,
    /// The attack button is held.
    pub attack: bool,
    pub mod_x: bool,
    pub mod_y: bool,
}

impl Context {
    /// Both modifiers are in the same state, held or released.
    pub open spec fn plain(self) -> bool {
        self.mod_x == self.mod_y
    }

    /// The first modifier is held and the second is not.
    pub open spec fn only_x(self) -> bool {
        self.mod_x && !self.mod_y
    }

    /// The second modifier is held and the first is not.
    pub open spec fn only_y(self) -> bool {
        self.mod_y && !self.mod_x
    }
}

/// The magnitudes while both axes are active. The rows are tried from the top
/// and the first that applies is taken. `down` says that the vertical axis
/// resolved downwards. With the attack button held and one modifier alone the
/// attack button has no notch of its own, and the modifier's row applies.
pub open spec fn diagonal_notch(down: bool, context: Context) -> Coords {
    if context.shield && !down && context.plain() {
        Coords { x: 7000, y: 7000 }
    } else if context.shield && down && context.plain() {
        Coords { x: 7250, y: 6750 }
    } else if context.shield && context.only_x() {
        Coords { x: 6375, y: 3750 }
    } else if context.shield && context.only_y() {
        Coords { x: 5000, y: 8500 }
    } else if context.attack && context.plain() {
        Coords { x: 5900, y: 8100 }
    } else if context.only_x() {
        Coords { x: 7375, y: 3125 }
    } else if context.only_y() {
        Coords { x: 3125, y: 7375 }
    } else {
        Coords { x: 7000, y: 7000 }
    }
}

/// The magnitude along the horizontal axis where it is active alone. A
/// modifier shortens the tilt, and each modifier shortens its own axis the
/// most.
pub open spec fn horizontal_notch(context: Context) -> Coords {
    if context.plain() {
        Coords { x: 10000, y: 0 }
    } else if context.only_x() {
        Coords { x: 3000, y: 0 }
    } else {
        Coords { x: 4500, y: 0 }
    }
}

/// The magnitude along the vertical axis where it is active alone.
pub open spec fn vertical_notch(context: Context) -> Coords {
    if context.plain() {
        Coords { x: 0, y: 10000 }
    } else if context.only_x() {
        Coords { x: 0, y: 4500 }
    } else {
        Coords { x: 0, y: 3000 }
    }
}

/// The magnitudes for the resolved signs `horizontal` and `vertical`: an axis
/// is active where its sign is not 0, and it resolved downwards where the
/// vertical sign is positive.
pub open spec fn notch(horizontal: int, vertical: int, context: Context) -> Coords {
    if horizontal != 0 && vertical != 0 {
        diagonal_notch(vertical > 0, context)
    } else if horizontal != 0 {
        horizontal_notch(context)
    } else if vertical != 0 {
        vertical_notch(context)
    } else {
        Coords { x: 0, y: 0 }
    }
}

/// The signed position: each component of the notch is negated unless the
/// sign of its axis is positive.
pub open spec fn position(horizontal: int, vertical: int, context: Context) -> Coords {
    let magnitude = notch(horizontal, vertical, context);
    Coords {
        x: if horizontal > 0 {
            magnitude.x
        } else {
            (-magnitude.x) as i32
        },
        y: if vertical > 0 {
            magnitude.y
        } else {
            (-magnitude.y) as i32
        },
    }
}

/// The magnitudes of a diagonal.
fn diagonal(down: bool, context: Context) -> (magnitude: Coords)
    ensures
        magnitude == diagonal_notch(down, context),
{
    if context.shield {
        if context.mod_x == context.mod_y {
            if down {
                Coords { x: 7250, y: 6750 }
            } else {
                Coords { x: 7000, y: 7000 }
            }
        } else if context.mod_x {
            Coords { x: 6375, y: 3750 }
        } else {
            Coords { x: 5000, y: 8500 }
        }
    } else if context.mod_x != context.mod_y {
        if context.mod_x {
            Coords { x: 7375, y: 3125 }
        } else {
            Coords { x: 3125, y: 7375 }
        }
    } else if context.attack {
        Coords { x: 5900, y: 8100 }
    } else {
        Coords { x: 7000, y: 7000 }
    }
}

/// The length of a tilt along one axis: full where the modifiers agree, else
/// `with_x` under the first modifier and `with_y` under the second.
fn tilt(context: Context, with_x: i32, with_y: i32) -> (length: i32)
    ensures
        length == if context.plain() {
            10000
        } else if context.only_x() {
            with_x
        } else {
            with_y
        },
{
    if context.mod_x == context.mod_y {
        10000
    } else if context.mod_x {
        with_x
    } else {
        with_y
    }
}

/// The magnitudes for two resolved signs.
pub fn canonical(horizontal: i8, vertical: i8, context: Context) -> (magnitude: Coords)
    ensures
        magnitude == notch(horizontal as int, vertical as int, context),
        0 <= magnitude.x <= 10000,
        0 <= magnitude.y <= 10000,
{
    if horizontal != 0 && vertical != 0 {
        diagonal(vertical > 0, context)
    } else if horizontal != 0 {
        Coords { x: tilt(context, 3000, 4500), y: 0 }
    } else if vertical != 0 {
        Coords { x: 0, y: tilt(context, 4500, 3000) }
    } else {
        Coords { x: 0, y: 0 }
    }
}

/// Classifies the resolved signs of the two axes under `context`: looks up
/// the notch and gives each component the sign of its axis.
pub fn classify(horizontal: i8, vertical: i8, context: Context) -> (coords: Coords)
    ensures
        coords == position(horizontal as int, vertical as int, context),
        coords.in_range(),
{
    let magnitude: Coords = canonical(horizontal, vertical, context);
    Coords {
        x: if horizontal > 0 {
            magnitude.x
        } else {
            -magnitude.x
        },
        y: if vertical > 0 {
            magnitude.y
        } else {
            -magnitude.y
        },
    }
}

/// Mirroring: with the vertical sign and the context unchanged, the position
/// for the negative horizontal sign is the one for the positive sign with `x`
/// negated and `y` as it is.
pub proof fn lemma_mirror_horizontal(vertical: int, context: Context)
    ensures
        position(-1, vertical, context).x == -position(1, vertical, context).x,
        position(-1, vertical, context).y == position(1, vertical, context).y,
{
}

/// The vertical axis mirrors in the same way, except on a diagonal under a
/// shield with the modifiers in agreement: there the notch downwards is not
/// the notch upwards.
pub proof fn lemma_mirror_vertical(horizontal: int, context: Context)
    requires
        !(context.shield && context.plain() && horizontal != 0),
    ensures
        position(horizontal, -1, context).y == -position(horizontal, 1, context).y,
        position(horizontal, -1, context).x == position(horizontal, 1, context).x,
{
}

/// An axis that is not active contributes nothing, and an axis that is active
/// moves the stick to its own side.
pub proof fn lemma_sign_follows_axis(horizontal: int, vertical: int, context: Context)
    ensures
        horizontal == 0 ==> position(horizontal, vertical, context).x == 0,
        horizontal > 0 ==> position(horizontal, vertical, context).x > 0,
        horizontal < 0 ==> position(horizontal, vertical, context).x < 0,
        vertical == 0 ==> position(horizontal, vertical, context).y == 0,
        vertical > 0 ==> position(horizontal, vertical, context).y > 0,
        vertical < 0 ==> position(horizontal, vertical, context).y < 0,
{
}

} // verus!
