//! The interpreter: a left fold of operations over a turtle, producing the
//! ordered polyline and the diagnostics for bytes that had no meaning.

use vstd::prelude::*;
use crate::{WIDTH, HEIGHT, HOME_X, HOME_Y};
use crate::artist::{Artist, Orientation, turned_left, turned_right};
use crate::decode::{Operation, op_bounded, ops_bounded, parse, spec_decode};

verus! {

/// The mathematical model of the turtle: heading and unbounded coordinates.
/// The interpreter's contracts are stated over this model.
pub struct TurtleState {
    pub heading: Orientation,
    pub x: int,
    pub y: int,
}

/// The initial state: canvas centre, facing North.
pub open spec fn start_state() -> TurtleState {
    TurtleState { heading: Orientation::North, x: HOME_X as int, y: HOME_Y as int }
}

/// The state after applying one operation, before wraparound.
pub open spec fn moved(s: TurtleState, op: Operation) -> TurtleState {
    match op {
        Operation::Home => TurtleState { heading: s.heading, x: HOME_X as int, y: HOME_Y as int },
        Operation::Forward(d) => match s.heading {
            Orientation::North => TurtleState { heading: s.heading, x: s.x, y: s.y + d },
            Orientation::South => TurtleState { heading: s.heading, x: s.x, y: s.y - d },
            Orientation::West => TurtleState { heading: s.heading, x: s.x + d, y: s.y },
            Orientation::East => TurtleState { heading: s.heading, x: s.x - d, y: s.y },
        },
        Operation::TurnLeft => TurtleState { heading: turned_left(s.heading), x: s.x, y: s.y },
        Operation::TurnRight => TurtleState { heading: turned_right(s.heading), x: s.x, y: s.y },
        Operation::Noop(_) => s,
    }
}

/// The wraparound rule on the model: each out-of-bounds coordinate snaps to
/// its home value; the y check runs after the x check, so it decides the
/// heading when both fire.
pub open spec fn wrapped(s: TurtleState) -> TurtleState {
    TurtleState {
        x: if s.x < 0 || s.x > WIDTH { HOME_X as int } else { s.x },
        y: if s.y < 0 || s.y > HEIGHT { HOME_Y as int } else { s.y },
        heading: if s.y < 0 {
            Orientation::North
        } else if s.y > HEIGHT {
            Orientation::South
        } else if s.x < 0 {
            Orientation::West
        } else if s.x > WIDTH {
            Orientation::East
        } else {
            s.heading
        },
    }
}

/// The turtle's state after replaying the first `n` operations, wraparound
/// included.
pub open spec fn state_after(ops: Seq<Operation>, n: int) -> TurtleState
    decreases n,
{
    if n <= 0 {
        start_state()
    } else {
        wrapped(moved(state_after(ops, n - 1), ops[n - 1]))
    }
}

/// The position recorded for operation `i`: the state right after applying
/// it, before that step's wraparound.
pub open spec fn recorded(ops: Seq<Operation>, i: int) -> TurtleState {
    moved(state_after(ops, i), ops[i])
}

/// The bytes that decoded to no-ops, in input order: the diagnostic stream.
pub open spec fn noops_of(ops: Seq<Operation>) -> Seq<u8>
    decreases ops.len(),
{
    if ops.len() == 0 {
        Seq::empty()
    } else {
        let rest = noops_of(ops.drop_last());
        match ops.last() {
            Operation::Noop(b) => rest.push(b),
            _ => rest,
        }
    }
}

/// Between steps the turtle never leaves the canvas: after any prefix of
/// any operation sequence, both coordinates lie within the bounds.
pub proof fn lemma_state_in_bounds(ops: Seq<Operation>, n: int)
    ensures
        0 <= state_after(ops, n).x <= WIDTH,
        0 <= state_after(ops, n).y <= HEIGHT,
{
}

/// One point of the polyline.
#[derive(Clone, Copy, PartialEq, Eq, Structural, Debug)]
pub struct Point {
    pub x: isize,
    pub y: isize,
}

/// What a run of the interpreter hands the renderer: the polyline, and the
/// bytes that deserve a diagnostic.
pub struct Sketch {
    /// The polyline, in drawing order: the home point, then the position
    /// recorded after each operation.
    pub points: Vec<Point>,
    /// The no-op bytes, one per diagnostic, in input order.
    pub illegal: Vec<u8>,
}

/// Replay the operations over a fresh turtle: a strict left fold. The first
/// point moves to home; each operation then contributes exactly one point,
/// the turtle's position before that step's wraparound, so the polyline has
/// one more point than there are operations. A no-op moves nothing and
/// adds its byte to the diagnostics.
pub fn convert(operations: Vec<Operation>) -> (r: Sketch)
    requires
        ops_bounded(operations@),
    ensures
        r.points@.len() == operations@.len() + 1,
        r.points@[0].x == HOME_X && r.points@[0].y == HOME_Y,
        forall|i: int| 0 <= i < operations@.len() ==>
            r.points@[i + 1].x == recorded(operations@, i).x
            && r.points@[i + 1].y == recorded(operations@, i).y,
        r.illegal@ == noops_of(operations@),
{
    let mut turtle = Artist::new();
    let mut points: Vec<Point> = Vec::new();
    let mut illegal: Vec<u8> = Vec::new();

    points.push(Point { x: HOME_X, y: HOME_Y });

    let n = operations.len();
    let mut i: usize = 0;
    while i < n
        invariant
            i <= n,
            n == operations@.len(),
            ops_bounded(operations@),
            turtle.heading == state_after(operations@, i as int).heading,
            turtle.x == state_after(operations@, i as int).x,
            turtle.y == state_after(operations@, i as int).y,
            0 <= turtle.x <= WIDTH,
            0 <= turtle.y <= HEIGHT,
            points@.len() == i + 1,
            points@[0].x == HOME_X && points@[0].y == HOME_Y,
            forall|j: int| 0 <= j < i ==>
                points@[j + 1].x == recorded(operations@, j).x
                && points@[j + 1].y == recorded(operations@, j).y,
            illegal@ == noops_of(operations@.subrange(0, i as int)),
        decreases n - i,
    {
        let ghost pre = state_after(operations@, i as int);
        let op = operations[i];
        assert(op_bounded(op));

        match op {
            Operation::Forward(distance) => turtle.forward(distance),
            Operation::TurnLeft => turtle.turn_left(),
            Operation::TurnRight => turtle.turn_right(),
            Operation::Home => turtle.home(),
            Operation::Noop(byte) => illegal.push(byte),
        }

        assert(turtle.heading == moved(pre, operations@[i as int]).heading);
        assert(turtle.x == moved(pre, operations@[i as int]).x);
        assert(turtle.y == moved(pre, operations@[i as int]).y);

        points.push(Point { x: turtle.x, y: turtle.y });

        turtle.wrap();

        proof {
            let full = operations@.subrange(0, i as int + 1);
            assert(full.drop_last() =~= operations@.subrange(0, i as int));
            assert(full.last() == operations@[i as int]);
            assert(state_after(operations@, i as int + 1)
                == wrapped(moved(pre, operations@[i as int])));
        }

        i = i + 1;
    }

    proof {
        assert(operations@.subrange(0, n as int) =~= operations@);
    }

    Sketch { points, illegal }
}

/// The whole input decoded, one operation per byte, in input order.
pub open spec fn decoded(input: Seq<u8>) -> Seq<Operation> {
    Seq::new(input.len(), |i: int| spec_decode(input[i]))
}

/// The full pipeline on one input: decode every byte, then replay the
/// operations. For every input, the polyline has exactly one point more
/// than the input has bytes, and both the points and the diagnostics are
/// those of the decoded operation sequence.
pub fn interpret(input: &[u8]) -> (r: Sketch)
    ensures
        r.points@.len() == input@.len() + 1,
        r.points@[0].x == HOME_X && r.points@[0].y == HOME_Y,
        forall|i: int| 0 <= i < input@.len() ==>
            r.points@[i + 1].x == recorded(decoded(input@), i).x
            && r.points@[i + 1].y == recorded(decoded(input@), i).y,
        r.illegal@ == noops_of(decoded(input@)),
{
    let ops = parse(input);
    proof {
        assert(ops@ =~= decoded(input@));
    }
    convert(ops)
}

} // verus!
