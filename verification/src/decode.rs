//! The decoder: each input byte maps to one drawing operation.

use vstd::prelude::*;
use crate::{HEIGHT, MAX_DISTANCE};

verus! {

/// One decoded instruction derived from a single input byte.
#[derive(Clone, Copy, PartialEq, Eq, Structural, Debug)]
pub enum Operation {
    /// Reset the position to the canvas centre.
    Home,
    /// Move the given distance along the current heading's axis.
    Forward(isize),
    /// Rotate the heading a quarter turn counter-clockwise.
    TurnLeft,
    /// Rotate the heading a quarter turn clockwise.
    TurnRight,
    /// A byte with no drawing meaning; carries the byte for diagnostics.
    Noop(u8),
}

/// The decode table. Total: every byte value maps to an operation.
/// Digits `'1'..='9'` move forward by the digit times a tenth of the
/// canvas height; `'0'` goes home; `'a'..='c'` turn left; `'d'..='f'`
/// turn right; everything else is a no-op.
pub open spec fn spec_decode(byte: u8) -> Operation {
    if byte == 48 {
        Operation::Home
    } else if 49 <= byte && byte <= 57 {
        Operation::Forward(((byte - 48) * (HEIGHT / 10)) as isize)
    } else if 97 <= byte && byte <= 99 {
        Operation::TurnLeft
    } else if 100 <= byte && byte <= 102 {
        Operation::TurnRight
    } else {
        Operation::Noop(byte)
    }
}

/// A `Forward` distance the interpreter can replay without its coordinate
/// arithmetic leaving `isize`; the other operations carry no distance.
pub open spec fn op_bounded(op: Operation) -> bool {
    match op {
        Operation::Forward(d) => 0 < d <= MAX_DISTANCE,
        _ => true,
    }
}

/// Every operation of the sequence is within the interpreter's bounds.
pub open spec fn ops_bounded(ops: Seq<Operation>) -> bool {
    forall|i: int| 0 <= i < ops.len() ==> op_bounded(ops[i])
}

/// Decode one byte. Total over all byte values; never fails.
pub fn parse_byte(byte: u8) -> (op: Operation)
    ensures
        op == spec_decode(byte),
{
    if byte == 48 {
        Operation::Home
    } else if 49 <= byte && byte <= 57 {
        let distance = (byte - 48) as isize;
        let unit = HEIGHT / 10;
        assert(unit == 40);
        Operation::Forward(distance * unit)
    } else if 97 <= byte && byte <= 99 {
        Operation::TurnLeft
    } else if 100 <= byte && byte <= 102 {
        Operation::TurnRight
    } else {
        Operation::Noop(byte)
    }
}

/// Decode a whole input, one operation per byte, in input order. Decoding
/// each byte is independent of all others, so the result is exactly the
/// decode table applied pointwise; every distance it produces is within
/// the interpreter's bounds.
pub fn parse(input: &[u8]) -> (ops: Vec<Operation>)
    ensures
        ops@.len() == input@.len(),
        forall|i: int| 0 <= i < input@.len() ==> ops@[i] == spec_decode(input@[i]),
        ops_bounded(ops@),
{
    let mut ops: Vec<Operation> = Vec::new();
    let n = input.len();
    let mut i: usize = 0;
    while i < n
        invariant
            i <= n,
            n == input@.len(),
            ops@.len() == i,
            forall|j: int| 0 <= j < i ==> ops@[j] == spec_decode(input@[j]),
        decreases n - i,
    {
        ops.push(parse_byte(input[i]));
        i = i + 1;
    }
    assert forall|i: int| 0 <= i < ops@.len() implies op_bounded(ops@[i]) by {
        let b = input@[i];
        assert(ops@[i] == spec_decode(b));
        if 49 <= b && b <= 57 {
            assert(1 <= b - 48 <= 9);
            assert(40 <= (b - 48) * (HEIGHT / 10) <= 360) by (nonlinear_arith)
                requires
                    1 <= b - 48 <= 9,
                    HEIGHT == 400,
            ;
        }
    }
    ops
}

/// Decoding work may be handed out to any number of workers, because the
/// operation at each index depends on the byte at that index alone: any
/// two sequences assembled by original input index from per-byte decode
/// results are the same sequence, whatever order the work finished in.
pub proof fn lemma_reassembly_unique(bytes: Seq<u8>, ops1: Seq<Operation>, ops2: Seq<Operation>)
    requires
        ops1.len() == bytes.len(),
        ops2.len() == bytes.len(),
        forall|i: int| 0 <= i < bytes.len() ==> ops1[i] == spec_decode(bytes[i]),
        forall|i: int| 0 <= i < bytes.len() ==> ops2[i] == spec_decode(bytes[i]),
    ensures
        ops1 == ops2,
{
    assert(ops1 =~= ops2);
}

} // verus!
