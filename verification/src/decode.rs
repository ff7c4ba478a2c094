use vstd::prelude::*;
use rayon::iter::IndexedParallelIterator;
use rayon::iter::IntoParallelRefIterator;
use rayon::iter::ParallelIterator;
use crate::canvas::Canvas;
use crate::canvas::MAX_DIM;
use crate::ops::Operation;
use crate::ops::op_in_range;

verus! {

/// The byte-to-instruction table. One operation per byte, depending on
/// nothing but that byte and the canvas height:
/// `'0'` recenters; a digit `'1'..='9'` advances by the digit times one
/// tenth of the canvas height; `'a'..='c'` turns left; `'d'..='f'` turns
/// right; anything else is unrecognized.
pub open spec fn decoded_op(c: Canvas, b: u8) -> Operation {
    if b == 0x30 {
        Operation::Recenter
    } else if 0x31 <= b <= 0x39 {
        Operation::Advance(((b - 0x30) * (c.height as int / 10)) as i64)
    } else if b == 0x61 || b == 0x62 || b == 0x63 {
        Operation::TurnLeft
    } else if b == 0x64 || b == 0x65 || b == 0x66 {
        Operation::TurnRight
    } else {
        Operation::Unrecognized(b)
    }
}

/// The decoding of a whole input: positional, one operation per byte.
pub open spec fn spec_decode(c: Canvas, input: Seq<u8>) -> Seq<Operation> {
    Seq::new(input.len(), |i: int| decoded_op(c, input[i]))
}

/// Decoding is pointwise: the operation at an index depends on nothing but
/// the input byte at that index.
pub proof fn lemma_decode_pointwise(c: Canvas, a: Seq<u8>, b: Seq<u8>, i: int)
    requires
        0 <= i < a.len(),
        0 <= i < b.len(),
        a[i] == b[i],
    ensures
        spec_decode(c, a)[i] == spec_decode(c, b)[i],
{
}

/// On a well-formed canvas, every decoded operation is in range: an advance
/// distance is at most nine tenths of the canvas height.
pub proof fn lemma_decoded_in_range(c: Canvas, b: u8)
    requires
        c.wf(),
    ensures
        op_in_range(decoded_op(c, b)),
{
    if 0x31 <= b <= 0x39 {
        let unit = c.height as int / 10;
        assert(0 <= unit <= MAX_DIM as int / 10);
        assert(0 <= (b - 0x30) * unit <= 9 * unit) by (nonlinear_arith)
            requires
                1 <= b - 0x30 <= 9,
                0 <= unit,
        ;
    }
}

/// Decode a single byte to its operation.
pub fn decode_byte(canvas: &Canvas, b: u8) -> (r: Operation)
    requires
        canvas.wf(),
    ensures
        r == decoded_op(*canvas, b),
{
    if b == 0x30 {
        Operation::Recenter
    } else if 0x31 <= b && b <= 0x39 {
        let digit: i64 = (b - 0x30) as i64;
        let unit: i64 = ((canvas.height as u64) / 10) as i64;
        proof {
            assert(unit == canvas.height as int / 10);
            assert(0 <= digit * unit <= 9 * unit) by (nonlinear_arith)
                requires
                    1 <= digit <= 9,
                    0 <= unit,
            ;
        }
        Operation::Advance(digit * unit)
    } else if b == 0x61 || b == 0x62 || b == 0x63 {
        Operation::TurnLeft
    } else if b == 0x64 || b == 0x65 || b == 0x66 {
        Operation::TurnRight
    } else {
        Operation::Unrecognized(b)
    }
}

/// Relies on `rayon`: `par_iter().map(f)` over a slice applies `f` to each
/// element, and `collect_into_vec` on the resulting indexed parallel
/// iterator reassembles the per-element results in the original index
/// order, whatever order the worker threads finish in.
#[verifier::external_body]
fn par_decode(canvas: &Canvas, input: &[u8]) -> (r: Vec<Operation>)
    requires
        canvas.wf(),
    ensures
        r@ == spec_decode(*canvas, input@),
{
    let mut out: Vec<Operation> = Vec::new();
    input.par_iter().map(|b| decode_byte(canvas, *b)).collect_into_vec(&mut out);
    out
}

/// Decode every input byte to its drawing operation, in input order. The
/// per-byte work is farmed out to parallel workers; the result is
/// reassembled positionally, so it is the same as a sequential decode.
pub fn decode(canvas: &Canvas, input: &[u8]) -> (r: Vec<Operation>)
    requires
        canvas.wf(),
    ensures
        r@ == spec_decode(*canvas, input@),
        r@.len() == input@.len(),
        forall|i: int| 0 <= i < input@.len() ==> r@[i] == decoded_op(*canvas, input@[i]),
        forall|i: int| 0 <= i < r@.len() ==> op_in_range(#[trigger] r@[i]),
{
    let r = par_decode(canvas, input);
    proof {
        assert forall|i: int| 0 <= i < r@.len() implies op_in_range(#[trigger] r@[i]) by {
            lemma_decoded_in_range(*canvas, input@[i]);
        }
    }
    r
}

/// The bytes of the `Unrecognized` operations of a sequence, in order.
pub open spec fn spec_unrecognized(ops: Seq<Operation>) -> Seq<u8>
    decreases ops.len(),
{
    if ops.len() == 0 {
        Seq::empty()
    } else {
        match ops.last() {
            Operation::Unrecognized(b) => spec_unrecognized(ops.drop_last()).push(b),
            _ => spec_unrecognized(ops.drop_last()),
        }
    }
}

/// Collect the bytes that decoded to `Unrecognized`, in input order, so a
/// caller can report each one as a diagnostic.
pub fn unrecognized_bytes(operations: &Vec<Operation>) -> (r: Vec<u8>)
    ensures
        r@ == spec_unrecognized(operations@),
{
    let mut out: Vec<u8> = Vec::new();
    let mut i: usize = 0;
    while i < operations.len()
        invariant
            i <= operations@.len(),
            out@ == spec_unrecognized(operations@.take(i as int)),
        decreases operations@.len() - i,
    {
        match operations[i] {
            Operation::Unrecognized(b) => out.push(b),
            _ => (),
        }
        proof {
            assert(operations@.take(i as int + 1).drop_last() =~= operations@.take(i as int));
            assert(operations@.take(i as int + 1).last() == operations@[i as int]);
        }
        i = i + 1;
    }
    proof {
        assert(operations@.take(operations@.len() as int) =~= operations@);
    }
    out
}

} // verus!
