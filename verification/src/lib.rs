//! Keyboard-to-controller analog resolution.
//!
//! The crate turns the live state of a keyboard into the digital and analog
//! signals of an emulated game controller. Stick positions are held as signed
//! fixed-point numbers whose unit is one ten-thousandth of full deflection, so
//! that every canonical notch is an exact integer.
//!
//! * [`socd`] resolves opposite directions held at once on one axis.
//! * [`angles`] maps the resolved axes and the context buttons to a notch.
//! * [`coords`] holds stick positions and turns them into device bytes.
//! * [`keys`] and [`device`] name the keys that are read and the targets that
//!   are written; [`bindings`] ties them to the logical inputs and outputs,
//!   and [`index`] finds the input of a key by hashing.
//! * [`state`] is the store of everything currently held.
//! * [`engine`] applies key events in order and produces one frame per cycle.

pub mod angles;
pub mod bindings;
pub mod coords;
pub mod device;
pub mod engine;
pub mod index;
pub mod keys;
pub mod socd;
pub mod state;
