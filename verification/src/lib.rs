//! A turtle-graphics interpreter over a bounded canvas.
//!
//! Input bytes decode to drawing operations; replaying the operations against
//! a turtle (position and heading, with a wraparound rule) yields an ordered
//! polyline that a renderer can turn into a vector image.

use vstd::prelude::*;

pub mod artist;
pub mod decode;
pub mod interpret;

verus! {

/// Canvas width in drawing units.
pub const WIDTH: isize = 400;

/// Canvas height in drawing units; the canvas is square.
pub const HEIGHT: isize = WIDTH;

/// The home x coordinate: the horizontal canvas centre, `WIDTH / 2`.
pub const HOME_X: isize = 200;

/// The home y coordinate: the vertical canvas centre, `HEIGHT / 2`.
pub const HOME_Y: isize = 200;

/// Largest forward distance the interpreter accepts: a machine cap, chosen
/// so that a turtle standing on the canvas can move this far along either
/// axis without the coordinate leaving `isize` on any architecture. Every
/// decoded operation stays far below it.
pub const MAX_DISTANCE: isize = 0x7fff_0000;

} // verus!
