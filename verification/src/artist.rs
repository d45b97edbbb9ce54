//! The turtle state machine: heading, position, and the wraparound rule.

use vstd::prelude::*;
use crate::{WIDTH, HEIGHT, HOME_X, HOME_Y};

verus! {

/// The turtle's facing, one of four fixed directions.
#[derive(Clone, Copy, PartialEq, Eq, Structural, Debug)]
pub enum Orientation {
    North,
    South,
    East,
    West,
}

/// The heading after a quarter turn counter-clockwise:
/// North, West, South, East, and back to North.
pub open spec fn turned_left(h: Orientation) -> Orientation {
    match h {
        Orientation::North => Orientation::West,
        Orientation::South => Orientation::East,
        Orientation::West => Orientation::South,
        Orientation::East => Orientation::North,
    }
}

/// The heading after a quarter turn clockwise: the reverse cycle.
pub open spec fn turned_right(h: Orientation) -> Orientation {
    match h {
        Orientation::North => Orientation::East,
        Orientation::South => Orientation::West,
        Orientation::West => Orientation::North,
        Orientation::East => Orientation::South,
    }
}

/// Four quarter turns in the same direction return any heading to itself.
pub proof fn lemma_turn_cycle(h: Orientation)
    ensures
        turned_left(turned_left(turned_left(turned_left(h)))) == h,
        turned_right(turned_right(turned_right(turned_right(h)))) == h,
{
}

/// The turtle: a heading and a position on the canvas.
pub struct Artist {
    pub heading: Orientation,
    pub x: isize,
    pub y: isize,
}

impl Artist {
    /// A fresh turtle: at the canvas centre, facing North.
    pub fn new() -> (a: Artist)
        ensures
            a.heading == Orientation::North,
            a.x == HOME_X,
            a.y == HOME_Y,
    {
        Artist { heading: Orientation::North, x: HOME_X, y: HOME_Y }
    }

    /// Move along the current heading's axis. The heading-to-axis mapping
    /// is a fixed convention of the drawing format: North increases y,
    /// South decreases y, West increases x, East decreases x.
    pub fn forward(&mut self, distance: isize)
        requires
            old(self).heading == Orientation::North ==>
                isize::MIN <= old(self).y + distance <= isize::MAX,
            old(self).heading == Orientation::South ==>
                isize::MIN <= old(self).y - distance <= isize::MAX,
            old(self).heading == Orientation::West ==>
                isize::MIN <= old(self).x + distance <= isize::MAX,
            old(self).heading == Orientation::East ==>
                isize::MIN <= old(self).x - distance <= isize::MAX,
        ensures
            final(self).heading == old(self).heading,
            old(self).heading == Orientation::North ==>
                final(self).x == old(self).x && final(self).y == old(self).y + distance,
            old(self).heading == Orientation::South ==>
                final(self).x == old(self).x && final(self).y == old(self).y - distance,
            old(self).heading == Orientation::West ==>
                final(self).x == old(self).x + distance && final(self).y == old(self).y,
            old(self).heading == Orientation::East ==>
                final(self).x == old(self).x - distance && final(self).y == old(self).y,
    {
        match self.heading {
            Orientation::North => self.y = self.y + distance,
            Orientation::South => self.y = self.y - distance,
            Orientation::West => self.x = self.x + distance,
            Orientation::East => self.x = self.x - distance,
        }
    }

    /// Rotate the heading a quarter turn counter-clockwise; the position
    /// is unchanged.
    pub fn turn_left(&mut self)
        ensures
            final(self).heading == turned_left(old(self).heading),
            final(self).x == old(self).x,
            final(self).y == old(self).y,
    {
        self.heading = match self.heading {
            Orientation::North => Orientation::West,
            Orientation::South => Orientation::East,
            Orientation::West => Orientation::South,
            Orientation::East => Orientation::North,
        };
    }

    /// Rotate the heading a quarter turn clockwise; the position is
    /// unchanged.
    pub fn turn_right(&mut self)
        ensures
            final(self).heading == turned_right(old(self).heading),
            final(self).x == old(self).x,
            final(self).y == old(self).y,
    {
        self.heading = match self.heading {
            Orientation::North => Orientation::East,
            Orientation::South => Orientation::West,
            Orientation::West => Orientation::North,
            Orientation::East => Orientation::South,
        };
    }

    /// Reset the position to the canvas centre. From any state this yields
    /// the centre position and leaves the heading unchanged.
    pub fn home(&mut self)
        ensures
            final(self).heading == old(self).heading,
            final(self).x == HOME_X,
            final(self).y == HOME_Y,
    {
        self.x = HOME_X;
        self.y = HOME_Y;
    }

    /// The wraparound rule, applied after every operation: an out-of-bounds
    /// coordinate snaps back to its home value and forces a heading. Both
    /// axes are checked every time, x first; when both fire, the y check
    /// decides the heading, because it runs last. That precedence is a
    /// documented quirk of the drawing format, not an accident.
    /// Afterwards both coordinates always lie within the canvas.
    pub fn wrap(&mut self)
        ensures
            final(self).x == (if old(self).x < 0 || old(self).x > WIDTH {
                HOME_X
            } else {
                old(self).x
            }),
            final(self).y == (if old(self).y < 0 || old(self).y > HEIGHT {
                HOME_Y
            } else {
                old(self).y
            }),
            final(self).heading == (if old(self).y < 0 {
                Orientation::North
            } else if old(self).y > HEIGHT {
                Orientation::South
            } else if old(self).x < 0 {
                Orientation::West
            } else if old(self).x > WIDTH {
                Orientation::East
            } else {
                old(self).heading
            }),
            0 <= final(self).x <= WIDTH,
            0 <= final(self).y <= HEIGHT,
    {
        if self.x < 0 {
            self.x = HOME_X;
            self.heading = Orientation::West;
        } else if self.x > WIDTH {
            self.x = HOME_X;
            self.heading = Orientation::East;
        }

        if self.y < 0 {
            self.y = HOME_Y;
            self.heading = Orientation::North;
        } else if self.y > HEIGHT {
            self.y = HOME_Y;
            self.heading = Orientation::South;
        }
    }
}

} // verus!
