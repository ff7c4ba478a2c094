use vstd::prelude::*;
use crate::canvas::Canvas;
use crate::decode::spec_decode;
use crate::ops::Operation;
use crate::ops::op_in_range;
use crate::pen::Pen;
use crate::pen::lemma_in_bounds_op_fits;
use crate::pen::lemma_wrap_identity;
use crate::pen::lemma_wrap_in_bounds;
use crate::pen::pen_in_bounds;
use crate::pen::pen_start;
use crate::pen::spec_apply;
use crate::pen::spec_step;

verus! {

/// The draw mode of a path point: start a subpath, or draw a segment.
#[derive(Clone, Copy, Debug, PartialEq, Eq, Structural)]
pub enum PathKind {
    MoveTo,
    LineTo,
}

/// One absolute canvas coordinate with its draw-mode tag: the unit the
/// rendering collaborator consumes.
#[derive(Clone, Copy, Debug, PartialEq, Eq, Structural)]
pub struct PathPoint {
    pub kind: PathKind,
    pub x: i64,
    pub y: i64,
}

/// The pen after folding the operations left to right from the start pen,
/// with the wrap policy applied after every operation.
pub open spec fn pen_after(c: Canvas, ops: Seq<Operation>) -> Pen
    decreases ops.len(),
{
    if ops.len() == 0 {
        pen_start(c)
    } else {
        spec_step(c, pen_after(c, ops.drop_last()), ops.last())
    }
}

/// The whole path: a move to home, then one line point per operation, at
/// the pen's post-operation, post-wrap coordinates.
pub open spec fn spec_simulate(c: Canvas, ops: Seq<Operation>) -> Seq<PathPoint> {
    Seq::new(
        ops.len() + 1,
        |i: int|
            if i == 0 {
                PathPoint { kind: PathKind::MoveTo, x: c.home_x(), y: c.home_y() }
            } else {
                PathPoint {
                    kind: PathKind::LineTo,
                    x: pen_after(c, ops.take(i)).x,
                    y: pen_after(c, ops.take(i)).y,
                }
            },
    )
}

/// Wrap invariant: after any sequence of operations the pen is inside the
/// drawable region, whatever the operations were.
pub proof fn lemma_pen_after_in_bounds(c: Canvas, ops: Seq<Operation>)
    requires
        c.wf(),
    ensures
        pen_in_bounds(c, pen_after(c, ops)),
    decreases ops.len(),
{
    if ops.len() == 0 {
        c.lemma_home_in_bounds();
    } else {
        lemma_pen_after_in_bounds(c, ops.drop_last());
        lemma_wrap_in_bounds(c, spec_apply(c, pen_after(c, ops.drop_last()), ops.last()));
    }
}

/// The simulation of any decoded input has one path point per input byte,
/// plus the initial move to home.
pub proof fn lemma_pipeline_length(c: Canvas, input: Seq<u8>)
    ensures
        spec_simulate(c, spec_decode(c, input)).len() == input.len() + 1,
{
}

/// A pen at home coordinates that recenters stays at home: the wrap policy
/// leaves it untouched.
proof fn lemma_recenter_stays_home(c: Canvas, ops: Seq<Operation>)
    requires
        c.wf(),
        forall|i: int| 0 <= i < ops.len() ==> ops[i] == Operation::Recenter,
    ensures
        pen_after(c, ops).x == c.home_x(),
        pen_after(c, ops).y == c.home_y(),
    decreases ops.len(),
{
    c.lemma_home_in_bounds();
    if ops.len() > 0 {
        lemma_recenter_stays_home(c, ops.drop_last());
        let p = spec_apply(c, pen_after(c, ops.drop_last()), ops.last());
        lemma_wrap_identity(c, p);
    }
}

/// An input of nothing but `'0'` bytes decodes to recenter operations
/// alone, so every point of its simulation is at the home coordinate.
pub proof fn lemma_all_zero_at_home(c: Canvas, input: Seq<u8>)
    requires
        c.wf(),
        forall|i: int| 0 <= i < input.len() ==> input[i] == 0x30u8,
    ensures
        forall|j: int|
            0 <= j < spec_simulate(c, spec_decode(c, input)).len()
                ==> (#[trigger] spec_simulate(c, spec_decode(c, input))[j]).x == c.home_x()
                && spec_simulate(c, spec_decode(c, input))[j].y == c.home_y(),
{
    let ops = spec_decode(c, input);
    assert forall|j: int|
        0 <= j < spec_simulate(c, ops).len() implies (#[trigger] spec_simulate(c, ops)[j]).x
        == c.home_x() && spec_simulate(c, ops)[j].y == c.home_y() by {
        if j > 0 {
            lemma_recenter_stays_home(c, ops.take(j));
        }
    }
}

/// Replay the operations in order from the start pen, emitting the move to
/// home and then one post-wrap line point per operation. A strict
/// sequential fold: each operation sees the state all prior ones left.
pub fn simulate(canvas: &Canvas, operations: &Vec<Operation>) -> (r: Vec<PathPoint>)
    requires
        canvas.wf(),
        forall|i: int| 0 <= i < operations@.len() ==> op_in_range(#[trigger] operations@[i]),
    ensures
        r@ == spec_simulate(*canvas, operations@),
{
    let mut pen = Pen::new(canvas);
    let mut points: Vec<PathPoint> = Vec::new();
    points.push(PathPoint { kind: PathKind::MoveTo, x: pen.x, y: pen.y });
    proof {
        assert(operations@.take(0) =~= Seq::<Operation>::empty());
        canvas.lemma_home_in_bounds();
    }
    let mut i: usize = 0;
    while i < operations.len()
        invariant
            canvas.wf(),
            forall|k: int| 0 <= k < operations@.len() ==> op_in_range(#[trigger] operations@[k]),
            i <= operations@.len(),
            pen == pen_after(*canvas, operations@.take(i as int)),
            pen_in_bounds(*canvas, pen),
            points@.len() == i + 1,
            forall|j: int|
                0 <= j < i + 1 ==> points@[j] == spec_simulate(*canvas, operations@)[j],
        decreases operations@.len() - i,
    {
        let op = operations[i];
        proof {
            lemma_in_bounds_op_fits(*canvas, pen, op);
        }
        pen.apply(canvas, op);
        pen.wrap(canvas);
        proof {
            assert(operations@.take(i as int + 1).drop_last() =~= operations@.take(i as int));
            assert(operations@.take(i as int + 1).last() == operations@[i as int]);
            lemma_wrap_in_bounds(*canvas, spec_apply(*canvas, pen_after(*canvas, operations@.take(i as int)), op));
        }
        points.push(PathPoint { kind: PathKind::LineTo, x: pen.x, y: pen.y });
        i = i + 1;
    }
    proof {
        assert(points@ =~= spec_simulate(*canvas, operations@));
    }
    points
}

} // verus!
